//! The failures the engine reports.

use vstd::prelude::*;

verus! {

/// What went wrong, by class.
#[derive(Clone, Copy, Debug, PartialEq, Eq, Structural)]
pub enum ErrorKind {
    /// A network call could not be made or did not complete.
    Transport,
    /// Credentials are missing, invalid or were denied, or no refresh token
    /// is available.
    Auth,
    /// A response or a body encoding is malformed.
    Parse,
    /// The wait for the authorization redirect ran out.
    Timeout,
    /// The secret store or the session is not in a usable state.
    State,
}

/// A failure: its class and a message that can be shown to the user.
#[derive(Debug, PartialEq, Eq)]
pub struct EngineError {
    pub kind: ErrorKind,
    pub message: String,
}

impl Clone for EngineError {
    fn clone(&self) -> (r: Self)
        ensures
            r == *self,
    {
        EngineError { kind: self.kind, message: self.message.clone() }
    }
}

impl EngineError {
    /// Whether this is a failure of class `kind` with the text `message`.
    pub open spec fn carries(self, kind: ErrorKind, message: Seq<char>) -> bool {
        self.kind == kind && self.message@ == message
    }

    /// A failure of class `kind` with the text `message`.
    pub fn new(kind: ErrorKind, message: &str) -> (e: Self)
        ensures
            e.carries(kind, message@),
    {
        EngineError { kind, message: message.to_owned() }
    }

    /// The text of the failure.
    pub fn to_string(&self) -> (s: String)
        ensures
            s@ == self.message@,
    {
        self.message.clone()
    }
}

} // verus!
