//! The error type shared by every fallible operation of the crate.

use vstd::prelude::*;

verus! {

/// The broad cause of a failure, so that callers can react to the cause
/// without parsing the human-readable details.
#[derive(Clone, Copy, PartialEq, Eq, Structural, Debug)]
pub enum ErrKind {
    /// A malformed username, password, color string or over-long message.
    Validation,
    /// A user, token, chat, message, file or invite code that does not exist.
    NotFound,
    /// A non-admin calling an admin-only operation, or an ownership mismatch.
    Authorization,
    /// Key generation, encryption or decryption failed.
    Crypto,
    /// A duplicate chat for the same ordered participant pair.
    Conflict,
    /// A failure of the underlying store or of an external routine.
    Store,
}

/// Body of an error response: the human-readable details alone.
pub struct ErrDetails {
    pub details: String,
}

/// The error value returned by every fallible operation.
#[derive(Debug)]
pub struct YokaiErr {
    pub details: String,
    pub kind: ErrKind,
}

impl YokaiErr {
    /// A generic error carrying only a message, attributed to the store.
    pub fn new(details: &str) -> (r: YokaiErr)
        ensures
            r.details@ == details@,
            r.kind == ErrKind::Store,
    {
        YokaiErr { details: details.to_owned(), kind: ErrKind::Store }
    }

    /// An error of the given kind with the given details.
    pub fn of_kind(kind: ErrKind, details: &str) -> (r: YokaiErr)
        ensures
            r.details@ == details@,
            r.kind == kind,
    {
        YokaiErr { details: details.to_owned(), kind }
    }

    /// The human-readable details of the error.
    pub fn to_string(self) -> (r: String)
        ensures
            r@ == self.details@,
    {
        self.details
    }
}

impl Clone for YokaiErr {
    fn clone(&self) -> (r: Self)
        ensures
            r.details@ == self.details@,
            r.kind == self.kind,
    {
        YokaiErr { details: self.details.clone(), kind: self.kind }
    }
}

} // verus!
