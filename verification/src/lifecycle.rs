//! The life of a reader or writer: open from construction until it is
//! closed, once, and of no use afterwards.

use vstd::prelude::*;
use crate::error::{ErrorModel, PiskyError, refused};

verus! {

/// What a reader or writer answers to `operation`: it lets the operation
/// through while it is open and refuses it with an invalid-state failure
/// once it is closed.
pub open spec fn permitted(open: bool, operation: Seq<char>) -> Result<(), ErrorModel> {
    if open {
        Ok(())
    } else {
        Err(refused(operation))
    }
}

/// Whether a reply is the given one.
pub open spec fn is_reply(r: Result<(), PiskyError>, expected: Result<(), ErrorModel>) -> bool {
    match expected {
        Ok(_) => r is Ok,
        Err(e) => r is Err && r->Err_0@ == e,
    }
}

/// What leaving a scope answers, given what closing the handle answered: a
/// close that went well gives `false`, which says that a failure raised
/// inside the scope is not swallowed; a close that failed gives its failure.
pub fn leave(closed: Result<(), PiskyError>) -> (r: Result<bool, PiskyError>)
    ensures
        closed is Ok ==> r == Ok::<bool, PiskyError>(false),
        closed is Err ==> r is Err && r->Err_0@ == closed->Err_0@,
{
    match closed {
        Ok(()) => Ok(false),
        Err(e) => Err(e),
    }
}

/// The state of one writer: whether it is still open.
#[derive(Debug)]
pub struct WriteSession {
    open: bool,
}

impl View for WriteSession {
    type V = bool;

    /// Whether the writer is open.
    closed spec fn view(&self) -> bool {
        self.open
    }
}

impl WriteSession {
    /// An open writer.
    pub fn new() -> (session: WriteSession)
        ensures
            session@,
    {
        WriteSession { open: true }
    }

    /// Whether the writer is open.
    pub fn is_open(&self) -> (open: bool)
        ensures
            open == self@,
    {
        self.open
    }

    /// Lets `operation` through on an open writer and refuses it with an
    /// invalid-state failure on a closed one.
    pub fn permit(&self, operation: &str) -> (r: Result<(), PiskyError>)
        ensures
            is_reply(r, permitted(self@, operation@)),
    {
        if self.open {
            Ok(())
        } else {
            Err(PiskyError::closed(operation))
        }
    }

    /// Closes the writer. A writer can be closed once; closing it again is
    /// an invalid-state failure.
    pub fn close(&mut self) -> (r: Result<(), PiskyError>)
        ensures
            !final(self)@,
            is_reply(r, permitted(old(self)@, "close"@)),
    {
        let r = self.permit("close");
        self.open = false;
        r
    }
}

} // verus!
