//! Errors of the library.
use vstd::prelude::*;

verus! {

/// What went wrong, for the operator to read.
pub enum Error {
    /// No contact was given and none is configured.
    NoContact,
    /// Any other failure, described in words.
    Generic(String),
}

/// The words shown for an error.
pub open spec fn error_message(e: Error) -> Seq<char> {
    match e {
        Error::NoContact => "No contact specified"@,
        Error::Generic(s) => s@,
    }
}

impl Error {
    /// The text shown to the operator for this error.
    pub fn message(&self) -> (r: String)
        ensures
            r@ == error_message(*self),
    {
        match self {
            Error::NoContact => String::from_str("No contact specified"),
            Error::Generic(s) => s.clone(),
        }
    }
}

} // verus!
