//! The failures a clipboard operation can report.

use vstd::prelude::*;
use crate::atoms::Atom;

verus! {

/// Why a clipboard operation failed.
#[must_use]
#[derive(Clone, Copy, Debug, PartialEq, Eq, Structural)]
pub enum Error {
    /// The display could not be opened, or no window id could be had.
    ConnectionFailed,
    /// A later request failed at the transport level.
    ConnectionErrored,
    /// The server answered a request with an error.
    ReplyError,
    /// The reader's deadline passed before the transfer was complete.
    Timeout,
    /// The owner delivered a property of another type than the one asked for.
    UnexpectedType(Atom),
    /// The bytes received are not valid UTF-8.
    InvalidUtf8,
    /// The lock around the selection store is poisoned.
    SelectionLocked,
    /// After claiming a selection the server names another owner.
    InvalidOwner,
    /// The worker no longer listens for cancellations.
    SendError,
}

impl Error {
    /// The fixed text that describes this kind of failure.
    pub fn description(&self) -> (text: &'static str)
        ensures
            text@ == Self::description_of(*self)@,
    {
        match self {
            Error::ConnectionFailed => "connection failed",
            Error::ConnectionErrored => "connection errored",
            Error::ReplyError => "reply failed",
            Error::Timeout => "timeout",
            Error::UnexpectedType(_) => "unexpected type",
            Error::InvalidUtf8 => "invalid utf8 string",
            Error::SelectionLocked => "deadlock",
            Error::InvalidOwner => "invalid selection owner",
            Error::SendError => "worker communication error",
        }
    }

    /// The description of each kind of failure.
    pub open spec fn description_of(error: Error) -> &'static str {
        match error {
            Error::ConnectionFailed => "connection failed",
            Error::ConnectionErrored => "connection errored",
            Error::ReplyError => "reply failed",
            Error::Timeout => "timeout",
            Error::UnexpectedType(_) => "unexpected type",
            Error::InvalidUtf8 => "invalid utf8 string",
            Error::SelectionLocked => "deadlock",
            Error::InvalidOwner => "invalid selection owner",
            Error::SendError => "worker communication error",
        }
    }
}

} // verus!
