//! A registry-entry view of an action: its name, its arity requirement,
//! and the argument tokens attached to it.

use vstd::prelude::*;

verus! {

/// One entry of an action registry.
#[derive(Debug)]
pub struct ValidAction {
    pub name: &'static str,
    pub requires_arguments: bool,
    pub arguments: Vec<String>,
}

} // verus!
