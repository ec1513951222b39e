//! The application-level error: a single message surfaced to the user.

use crate::sf;
use vstd::prelude::*;

verus! {

/// A generic application error with a message.
#[derive(Debug)]
pub struct Error {
    pub message: String,
}

impl Error {
    /// Wrap a backend failure, carrying its message text over verbatim.
    pub fn from(err: sf::Error) -> (r: Error)
        ensures
            r.message@ == sf::spec_error_message(err@),
    {
        Error { message: err.to_message() }
    }
}

} // verus!
