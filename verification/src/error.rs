//! The failure taxonomy shared by every component: input validation,
//! index parsing, range checks, storage access and record decoding.

use vstd::prelude::*;

verus! {

/// Every recoverable failure the library reports.
///
/// `message` renders the operator-facing text for each variant.
#[derive(Debug, Clone, Copy, PartialEq, Eq, Structural)]
pub enum TodoError {
    /// No action token was supplied on the command line.
    MissingAction,
    /// The action token names none of the six supported actions.
    UnknownAction,
    /// The action requires arguments but none were supplied.
    MissingArguments,
    /// The index argument is missing, non-numeric, or zero.
    InvalidIndex,
    /// The index lies outside the current item list.
    IndexOutOfRange,
    /// The backing file could not be opened, read or written.
    StorageUnavailable,
    /// A stored line did not decode into exactly three fields.
    CorruptRecord,
}

impl TodoError {
    /// The text reported to the operator for this failure.
    pub fn message(&self) -> (r: &'static str)
        ensures
            *self is MissingAction ==> r@ == (
            "An action needs to be provided\ncreate\nlist\nedit [index]\ndone [index]\nundone [index]\ndelete [index]"
            )@,
            *self is UnknownAction ==> r@ == "Action is not valid"@,
            *self is MissingArguments ==> r@ == "Action requires arguments"@,
            *self is InvalidIndex ==> r@ == "Given argument should be a positive number"@,
            *self is IndexOutOfRange ==> r@ == "Given item index is wrong"@,
            *self is StorageUnavailable ==> r@ == "Could not access the database"@,
            *self is CorruptRecord ==> r@ == "Database is corrupted, could not read data"@,
    {
        match self {
            TodoError::MissingAction => "An action needs to be provided\ncreate\nlist\nedit [index]\ndone [index]\nundone [index]\ndelete [index]",
            TodoError::UnknownAction => "Action is not valid",
            TodoError::MissingArguments => "Action requires arguments",
            TodoError::InvalidIndex => "Given argument should be a positive number",
            TodoError::IndexOutOfRange => "Given item index is wrong",
            TodoError::StorageUnavailable => "Could not access the database",
            TodoError::CorruptRecord => "Database is corrupted, could not read data",
        }
    }
}

} // verus!
