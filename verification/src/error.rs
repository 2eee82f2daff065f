//! The typed error that every fallible operation of the library returns.

use vstd::prelude::*;
use vstd::string::StringExecFns;

verus! {

/// The four families of failure.
#[derive(Clone, Copy, Debug, PartialEq, Eq, Structural)]
pub enum ErrorKind {
    /// A parameter was rejected before any work started.
    Configuration,
    /// A file could not be opened, created, read or extended.
    Io,
    /// A frame was malformed and the policy in force makes that fatal.
    Corruption,
    /// An operation was attempted on a closed reader or writer.
    InvalidState,
}

/// A failure: its family and a message for the caller.
#[derive(Debug, PartialEq, Eq)]
pub struct PiskyError {
    pub kind: ErrorKind,
    pub message: String,
}

/// The mathematical content of a [`PiskyError`].
pub struct ErrorModel {
    pub kind: ErrorKind,
    pub message: Seq<char>,
}

impl View for PiskyError {
    type V = ErrorModel;

    open spec fn view(&self) -> ErrorModel {
        ErrorModel { kind: self.kind, message: self.message@ }
    }
}

/// The text that precedes the message in [`PiskyError::describe`].
pub open spec fn kind_label(kind: ErrorKind) -> Seq<char> {
    match kind {
        ErrorKind::Configuration => "configuration error: "@,
        ErrorKind::Io => "io error: "@,
        ErrorKind::Corruption => "corruption error: "@,
        ErrorKind::InvalidState => "invalid state: "@,
    }
}

/// The failure that a closed reader or writer answers `operation` with.
pub open spec fn refused(operation: Seq<char>) -> ErrorModel {
    ErrorModel { kind: ErrorKind::InvalidState, message: operation + " on a closed handle"@ }
}

/// The failure that stands for an error reported by the storage engine.
pub open spec fn engine_failure(text: Seq<char>) -> ErrorModel {
    ErrorModel { kind: ErrorKind::Io, message: text }
}

impl PiskyError {
    /// A failure of the given family with the given message.
    pub fn new(kind: ErrorKind, message: String) -> (e: PiskyError)
        ensures
            e@ == (ErrorModel { kind, message: message@ }),
    {
        PiskyError { kind, message }
    }

    /// The failure for an error that the storage engine reported while it
    /// opened, wrote, flushed or closed a file; `text` is the engine's own.
    pub fn io(text: String) -> (e: PiskyError)
        ensures
            e@ == engine_failure(text@),
    {
        PiskyError { kind: ErrorKind::Io, message: text }
    }

    /// The invalid-state failure for `operation` on a closed reader or writer.
    pub fn closed(operation: &str) -> (e: PiskyError)
        ensures
            e@ == refused(operation@),
    {
        let message = String::from_str(operation).concat(" on a closed handle");
        PiskyError { kind: ErrorKind::InvalidState, message }
    }

    /// A copy of this failure.
    pub fn duplicate(&self) -> (e: PiskyError)
        ensures
            e@ == self@,
    {
        PiskyError { kind: self.kind, message: self.message.clone() }
    }

    /// The failure as one line of text: the family, then the message.
    pub fn describe(&self) -> (text: String)
        ensures
            text@ == kind_label(self.kind) + self.message@,
    {
        let label = match self.kind {
            ErrorKind::Configuration => "configuration error: ",
            ErrorKind::Io => "io error: ",
            ErrorKind::Corruption => "corruption error: ",
            ErrorKind::InvalidState => "invalid state: ",
        };
        String::from_str(label).concat(self.message.as_str())
    }
}

} // verus!
