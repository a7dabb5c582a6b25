//! Stable error kinds returned by every core operation.
//!
//! The transport layer maps these to status codes; the core's contract is the
//! kind itself, so each kind is a plain enum variant that tests can match on.

use vstd::prelude::*;

verus! {

/// Why a core operation failed.
#[derive(Clone, Copy, Debug, PartialEq, Eq, Structural)]
pub enum ErrorKind {
    /// The referenced user, machine or session does not exist.
    NotFound,
    /// A duplicate machine name, a double reservation, or a user who already
    /// occupies a machine.
    Conflict,
    /// The machine is offline and cannot be reserved.
    Unavailable,
    /// The user is banned from starting sessions.
    Banned,
    /// The user's combined minute balance cannot cover the request.
    InsufficientBalance,
    /// The session was already ended; ending is not idempotent here.
    AlreadyEnded,
    /// A non-positive minute amount was supplied.
    InvalidInput,
}

impl ErrorKind {
    /// A human-readable detail for the kind; transport layers may attach it to
    /// responses.
    pub fn detail(&self) -> (r: String)
        ensures
            r@.len() > 0,
    {
        let s: &str = match self {
            ErrorKind::NotFound => "not found",
            ErrorKind::Conflict => "conflict",
            ErrorKind::Unavailable => "machine offline",
            ErrorKind::Banned => "user is banned",
            ErrorKind::InsufficientBalance => "insufficient balance",
            ErrorKind::AlreadyEnded => "session already ended",
            ErrorKind::InvalidInput => "minutes must be positive",
        };
        proof {
            reveal_strlit("not found");
            reveal_strlit("conflict");
            reveal_strlit("machine offline");
            reveal_strlit("user is banned");
            reveal_strlit("insufficient balance");
            reveal_strlit("session already ended");
            reveal_strlit("minutes must be positive");
        }
        s.to_owned()
    }
}

} // verus!
