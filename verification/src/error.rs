use vstd::prelude::*;
use vstd::string::*;

verus! {

/// Why a table operation or a reducer left the store untouched.
#[derive(Clone, Copy, Debug, PartialEq, Eq, Structural)]
pub enum Error {
    /// An insert met a row that already holds the primary key.
    DuplicateKey,
    /// An update, a delete or a lookup named a key that no row holds.
    NotFound,
    /// The caller's input was malformed.
    ValidationError,
    /// The store failed in a way the operation does not account for.
    InternalError,
}

/// The words in which an error is reported.
pub open spec fn error_text(e: Error) -> Seq<char> {
    match e {
        Error::DuplicateKey => "duplicate key"@,
        Error::NotFound => "not found"@,
        Error::ValidationError => "validation error"@,
        Error::InternalError => "internal error"@,
    }
}

impl Error {
    /// The error in words, for a log or for the caller.
    pub fn message(&self) -> (text: String)
        ensures
            text@ == error_text(*self),
    {
        match self {
            Error::DuplicateKey => String::from_str("duplicate key"),
            Error::NotFound => String::from_str("not found"),
            Error::ValidationError => String::from_str("validation error"),
            Error::InternalError => String::from_str("internal error"),
        }
    }
}

} // verus!
