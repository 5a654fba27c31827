//! The ways an operation of the registry can fail.

use vstd::prelude::*;

verus! {

/// Why an operation was refused. A refused operation changes nothing.
#[derive(Clone, Copy, Debug, PartialEq, Eq, Structural)]
pub enum Error {
    /// `init` was called although an admin is already recorded.
    AlreadyInitialized,
    /// An operation that needs the admin was called before `init`.
    NotInitialized,
    /// The admin did not authorize the call.
    Unauthorized,
    /// The account does not hold the role that was asked for.
    MissingRole,
}

impl Error {
    /// The text of [`Error::message`].
    pub open spec fn text(self) -> Seq<char> {
        match self {
            Error::AlreadyInitialized => "Already initialized"@,
            Error::NotInitialized => "Not initialized"@,
            Error::Unauthorized => "Unauthorized"@,
            Error::MissingRole => "Missing required role"@,
        }
    }

    /// A short description of the failure, fit for a log line or an abort
    /// message.
    pub fn message(&self) -> (text: &'static str)
        ensures
            text@ == self.text(),
    {
        match self {
            Error::AlreadyInitialized => "Already initialized",
            Error::NotInitialized => "Not initialized",
            Error::Unauthorized => "Unauthorized",
            Error::MissingRole => "Missing required role",
        }
    }
}

} // verus!
