//! The errors that the bot answers for.

use vstd::prelude::*;

verus! {

/// An error whose cause has been dealt with; what is left is to tell the user.
#[derive(Clone, Copy, Debug, PartialEq, Eq)]
pub enum HandledError {
    /// Something failed that the user cannot do anything about.
    InternalError,
    /// Something failed, and the user is told what.
    UserfacingError(&'static str),
}

impl HandledError {
    /// What the user reads.
    pub open spec fn text(self) -> Seq<char> {
        match self {
            HandledError::InternalError => "An internal error occurred."@,
            HandledError::UserfacingError(message) => message@,
        }
    }

    /// What the user reads.
    pub fn message(self) -> (r: &'static str)
        ensures
            r@ == self.text(),
    {
        match self {
            HandledError::InternalError => "An internal error occurred.",
            HandledError::UserfacingError(message) => message,
        }
    }
}

/// Why the database did not answer with a row.
#[derive(Clone, Copy, Debug, PartialEq, Eq)]
pub enum DbError {
    /// There is no such row.
    RowNotFound,
    /// The statement failed.
    Other,
}

} // verus!
