//! The failure taxonomy shared by one-shot invocations and sessions.

use vstd::prelude::*;

verus! {

/// The class of a failure.
#[derive(Clone, Copy, Debug, PartialEq, Eq, Structural)]
pub enum ErrorKind {
    /// The executable could not be located.
    ToolNotFound,
    /// The process could not be started for another reason.
    SpawnFailed,
    /// A one-shot invocation ran past its time limit.
    Timeout,
    /// The process ran and reported failure.
    CommandFailed,
    /// The process succeeded but its output is not well formed.
    MalformedOutput,
    /// No session or job is registered under the identifier.
    SessionNotFound,
    /// Waiting, reading, writing or a channel send failed.
    IoFailure,
}

/// A classified failure with the text shown to the user.
#[derive(Debug)]
pub struct ProcessError {
    pub kind: ErrorKind,
    pub message: String,
}

impl ProcessError {
    /// This failure has the class `kind` and the text `message`.
    pub open spec fn is(&self, kind: ErrorKind, message: Seq<char>) -> bool {
        self.kind == kind && self.message@ == message
    }

    /// A failure of class `kind` with the text `message`.
    pub fn new(kind: ErrorKind, message: String) -> (e: ProcessError)
        ensures
            e.is(kind, message@),
    {
        ProcessError { kind, message }
    }

    /// The class of this failure.
    pub fn kind(&self) -> (kind: ErrorKind)
        ensures
            kind == self.kind,
    {
        self.kind
    }

    /// The text of this failure.
    pub fn message(&self) -> (message: String)
        ensures
            message@ == self.message@,
    {
        self.message.clone()
    }
}

} // verus!
