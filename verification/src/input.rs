//! The interactive-prompt capability.

use vstd::prelude::*;

verus! {

/// Hands the library one line of operator input, exactly as typed, the
/// trailing line break included. Acquiring the line is the embedding's
/// business; an embedding that cannot read its input treats that as
/// unrecoverable on its side, so no failure reaches the library.
pub trait InputReader {
    /// The next line of operator input.
    fn read_line(&mut self) -> String;
}

} // verus!
