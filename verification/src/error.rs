//! The error taxonomy of the service.
//!
//! Every failure a handler can report is one of these variants, each mapped
//! to its own HTTP status code, so that a missing record and a broken store
//! stay distinguishable to the caller.

use vstd::prelude::*;

verus! {

/// One externally visible failure class.
#[derive(Clone, Copy, Debug, PartialEq, Eq, Structural)]
pub enum Error {
    /// The requested application id matches no stored application.
    NotFound,
    /// The request conflicts with the current state of the store.
    Conflict,
    /// The underlying store failed (connection, statement, or commit).
    Backend,
    /// The service configuration is missing or invalid.
    Config,
}

impl Error {
    /// The HTTP status code that this error is reported with.
    pub fn status_code(&self) -> (code: u16)
        ensures
            code == match *self {
                Error::NotFound => 404u16,
                Error::Conflict => 409u16,
                Error::Backend => 500u16,
                Error::Config => 500u16,
            },
    {
        match self {
            Error::NotFound => 404,
            Error::Conflict => 409,
            Error::Backend => 500,
            Error::Config => 500,
        }
    }
}

} // verus!
