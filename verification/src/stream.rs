//! The read protocol: what the storage engine reports for each read, and what
//! a reader makes of it under the corruption policy in force.

use vstd::prelude::*;
use bytes::Bytes;
use crate::buffer::bytes_of;
use crate::corruption::PyCorruptionStrategy;
use crate::error::{ErrorKind, ErrorModel, PiskyError, refused};
use crate::lifecycle::{is_reply, permitted};

verus! {

/// One answer of the storage engine to a read request.
#[derive(Debug, PartialEq, Eq)]
pub enum ReadEvent {
    /// A frame was decoded; this is its payload.
    Record(Bytes),
    /// One shard is exhausted. A control signal, never shown to the caller.
    ShardFinished,
    /// Every shard is exhausted.
    EndOfStream,
    /// A frame was malformed; the text says how.
    Corrupt(String),
    /// The engine gave up on the stream; the failure says why, and to which
    /// family it belongs.
    Failed(PiskyError),
}

/// The mathematical content of a [`ReadEvent`].
pub enum EventModel {
    Record(Seq<u8>),
    ShardFinished,
    EndOfStream,
    Corrupt(Seq<char>),
    Failed(ErrorModel),
}

impl View for ReadEvent {
    type V = EventModel;

    open spec fn view(&self) -> EventModel {
        match *self {
            ReadEvent::Record(bytes) => EventModel::Record(bytes_of(bytes)),
            ReadEvent::ShardFinished => EventModel::ShardFinished,
            ReadEvent::EndOfStream => EventModel::EndOfStream,
            ReadEvent::Corrupt(text) => EventModel::Corrupt(text@),
            ReadEvent::Failed(e) => EventModel::Failed(e@),
        }
    }
}

/// The event that stands for an error of the given family that the engine
/// reported on a read. A corruption error says that a frame was malformed,
/// and the reader's policy decides what becomes of it; an error of any other
/// family is final and keeps its family.
pub open spec fn reported_event(family: ErrorKind, text: Seq<char>) -> EventModel {
    if family == ErrorKind::Corruption {
        EventModel::Corrupt(text)
    } else {
        EventModel::Failed(ErrorModel { kind: family, message: text })
    }
}

impl ReadEvent {
    /// Computes [`reported_event`].
    pub fn reported(family: ErrorKind, text: String) -> (event: ReadEvent)
        ensures
            event@ == reported_event(family, text@),
    {
        match family {
            ErrorKind::Corruption => ReadEvent::Corrupt(text),
            _ => ReadEvent::Failed(PiskyError::new(family, text)),
        }
    }
}

/// What a reader does with one event.
#[derive(Debug, PartialEq, Eq)]
pub enum Step<'a> {
    /// Hand this record to the caller.
    Deliver(&'a Bytes),
    /// Nothing for the caller yet: ask the engine again.
    Again,
    /// The stream has ended cleanly.
    End,
    /// The stream has ended with this failure.
    Fail(PiskyError),
}

/// The mathematical content of a [`Step`].
pub enum StepModel {
    Deliver(Seq<u8>),
    Again,
    End,
    Fail(ErrorModel),
}

impl<'a> View for Step<'a> {
    type V = StepModel;

    open spec fn view(&self) -> StepModel {
        match *self {
            Step::Deliver(bytes) => StepModel::Deliver(bytes_of(*bytes)),
            Step::Again => StepModel::Again,
            Step::End => StepModel::End,
            Step::Fail(e) => StepModel::Fail(e@),
        }
    }
}

/// What a reader that is still reading makes of one event. A record is
/// delivered; a shard marker is absorbed; a malformed frame is skipped under
/// `Recover` and fatal under `Error`; a failure of the engine is always
/// fatal and is handed on as it is.
pub open spec fn react(strategy: PyCorruptionStrategy, event: EventModel) -> StepModel {
    match event {
        EventModel::Record(bytes) => StepModel::Deliver(bytes),
        EventModel::ShardFinished => StepModel::Again,
        EventModel::EndOfStream => StepModel::End,
        EventModel::Corrupt(text) => if strategy == PyCorruptionStrategy::Recover {
            StepModel::Again
        } else {
            StepModel::Fail(ErrorModel { kind: ErrorKind::Corruption, message: text })
        },
        EventModel::Failed(e) => StepModel::Fail(e),
    }
}

/// Computes [`react`].
pub fn react_to<'a>(strategy: PyCorruptionStrategy, event: &'a ReadEvent) -> (step: Step<'a>)
    ensures
        step@ == react(strategy, event@),
{
    match event {
        ReadEvent::Record(bytes) => Step::Deliver(bytes),
        ReadEvent::ShardFinished => Step::Again,
        ReadEvent::EndOfStream => Step::End,
        ReadEvent::Corrupt(text) => {
            if strategy.recovers() {
                Step::Again
            } else {
                Step::Fail(PiskyError::new(ErrorKind::Corruption, text.clone()))
            }
        },
        ReadEvent::Failed(e) => Step::Fail(e.duplicate()),
    }
}

/// Where a reader stands between construction and `close`.
#[derive(Debug, PartialEq, Eq)]
pub enum Phase {
    /// Records may still come.
    Reading,
    /// The stream ended cleanly.
    Finished,
    /// The stream ended with this failure.
    Failed(PiskyError),
    /// The reader was closed.
    Closed,
}

/// The mathematical content of a [`Phase`].
pub enum PhaseModel {
    Reading,
    Finished,
    Failed(ErrorModel),
    Closed,
}

impl View for Phase {
    type V = PhaseModel;

    open spec fn view(&self) -> PhaseModel {
        match *self {
            Phase::Reading => PhaseModel::Reading,
            Phase::Finished => PhaseModel::Finished,
            Phase::Failed(e) => PhaseModel::Failed(e@),
            Phase::Closed => PhaseModel::Closed,
        }
    }
}

/// The answer that a reader gives to every read once it has stopped reading.
pub open spec fn settled_answer(phase: PhaseModel) -> Option<StepModel> {
    match phase {
        PhaseModel::Reading => None,
        PhaseModel::Finished => Some(StepModel::End),
        PhaseModel::Failed(e) => Some(StepModel::Fail(e)),
        PhaseModel::Closed => Some(StepModel::Fail(refused("read"@))),
    }
}

/// What a reader in the given phase answers to one event. Only a reader that
/// is still reading looks at the event: the end of a stream, clean or not, is
/// final, and so is `close`.
pub open spec fn answer(
    strategy: PyCorruptionStrategy,
    phase: PhaseModel,
    event: EventModel,
) -> StepModel {
    match settled_answer(phase) {
        Some(step) => step,
        None => react(strategy, event),
    }
}

/// The phase that a reader is in after it gave the answer of [`answer`].
pub open spec fn phase_after(
    strategy: PyCorruptionStrategy,
    phase: PhaseModel,
    event: EventModel,
) -> PhaseModel {
    match phase {
        PhaseModel::Reading => match react(strategy, event) {
            StepModel::Deliver(_) => PhaseModel::Reading,
            StepModel::Again => PhaseModel::Reading,
            StepModel::End => PhaseModel::Finished,
            StepModel::Fail(e) => PhaseModel::Failed(e),
        },
        other => other,
    }
}

impl Phase {
    /// Whether the engine should be asked for another event.
    pub fn is_reading(&self) -> (reading: bool)
        ensures
            reading == (self@ is Reading),
    {
        match self {
            Phase::Reading => true,
            _ => false,
        }
    }

    /// Whether the reader was closed.
    pub fn is_closed(&self) -> (closed: bool)
        ensures
            closed == (self@ is Closed),
    {
        match self {
            Phase::Closed => true,
            _ => false,
        }
    }

    /// The answer that a reader in this phase gives without asking the
    /// engine: none while it is reading, and afterwards the answer that
    /// every read gets.
    pub fn settled(&self) -> (step: Option<Step<'static>>)
        ensures
            match step {
                Some(s) => Some(s@) == settled_answer(self@),
                None => settled_answer(self@) is None,
            },
    {
        match self {
            Phase::Reading => None,
            Phase::Finished => Some(Step::End),
            Phase::Failed(e) => Some(Step::Fail(e.duplicate())),
            Phase::Closed => Some(Step::Fail(PiskyError::closed("read"))),
        }
    }

    /// Takes one event from the engine, moves to the phase that follows, and
    /// says what the caller gets.
    pub fn advance<'a>(&mut self, strategy: PyCorruptionStrategy, event: &'a ReadEvent) -> (step:
        Step<'a>)
        ensures
            step@ == answer(strategy, old(self)@, event@),
            final(self)@ == phase_after(strategy, old(self)@, event@),
    {
        match self.settled() {
            Some(step) => step,
            None => {
                let step = react_to(strategy, event);
                match &step {
                    Step::End => {
                        *self = Phase::Finished;
                    },
                    Step::Fail(e) => {
                        *self = Phase::Failed(e.duplicate());
                    },
                    _ => {},
                }
                step
            },
        }
    }

    /// Lets `operation` through in any phase but `Closed`, where it is
    /// refused with an invalid-state failure.
    pub fn permit(&self, operation: &str) -> (r: Result<(), PiskyError>)
        ensures
            is_reply(r, permitted(!(self@ is Closed), operation@)),
    {
        if self.is_closed() {
            Err(PiskyError::closed(operation))
        } else {
            Ok(())
        }
    }

    /// Moves to `Closed`. That can be done once, from any other phase; doing
    /// it again is an invalid-state failure.
    pub fn close(&mut self) -> (r: Result<(), PiskyError>)
        ensures
            final(self)@ is Closed,
            is_reply(r, permitted(!(old(self)@ is Closed), "close"@)),
    {
        let r = self.permit("close");
        *self = Phase::Closed;
        r
    }
}

} // verus!
