//! The writer and the reader of a single shard file.

use vstd::prelude::*;
use vstd::string::StringExecFns;
use crate::corruption::PyCorruptionStrategy;
use crate::error::{PiskyError, refused};
use crate::lifecycle::{WriteSession, is_reply, leave, permitted};
use crate::replay::{count_of, count_records, is_count, models, replay};
use crate::stream::{Phase, PhaseModel, ReadEvent, Step, answer, phase_after, settled_answer};

verus! {

/// The mathematical content of a [`PyRecordWriter`].
pub struct RecordWriterModel {
    pub path: Seq<char>,
    pub open: bool,
}

/// The writer of one shard file: the file's path, and whether the writer is
/// still open.
#[derive(Debug)]
pub struct PyRecordWriter {
    path: String,
    session: WriteSession,
}

impl View for PyRecordWriter {
    type V = RecordWriterModel;

    closed spec fn view(&self) -> RecordWriterModel {
        RecordWriterModel { path: self.path@, open: self.session@ }
    }
}

impl PyRecordWriter {
    /// An open writer for the file at `path`.
    pub fn new(path: &str) -> (writer: PyRecordWriter)
        ensures
            writer@ == (RecordWriterModel { path: path@, open: true }),
    {
        PyRecordWriter { path: String::from_str(path), session: WriteSession::new() }
    }

    /// The path of the file that is written.
    pub fn path(&self) -> (path: &str)
        ensures
            path@ == self@.path,
    {
        self.path.as_str()
    }

    /// Whether the writer is open.
    pub fn is_open(&self) -> (open: bool)
        ensures
            open == self@.open,
    {
        self.session.is_open()
    }

    /// Lets a write through on an open writer and refuses it on a closed one.
    pub fn write_record(&self, data: &[u8]) -> (r: Result<(), PiskyError>)
        ensures
            is_reply(r, permitted(self@.open, "write_record"@)),
    {
        self.session.permit("write_record")
    }

    /// Lets a flush through on an open writer and refuses it on a closed one.
    pub fn flush(&self) -> (r: Result<(), PiskyError>)
        ensures
            is_reply(r, permitted(self@.open, "flush"@)),
    {
        self.session.permit("flush")
    }

    /// Lets `operation` through on an open writer and refuses it on a closed
    /// one. It is asked before the engine is told to close the file, so that
    /// the writer is marked closed only once the file is.
    pub fn permit(&self, operation: &str) -> (r: Result<(), PiskyError>)
        ensures
            is_reply(r, permitted(self@.open, operation@)),
    {
        self.session.permit(operation)
    }

    /// Closes the writer. It can be closed once; closing it again is an
    /// invalid-state failure. The path stays as it was.
    pub fn close(&mut self) -> (r: Result<(), PiskyError>)
        ensures
            final(self)@ == (RecordWriterModel { path: old(self)@.path, open: false }),
            is_reply(r, permitted(old(self)@.open, "close"@)),
    {
        self.session.close()
    }

    /// Leaves a scope that held the writer: closes the writer and answers
    /// `false`, so that a failure raised inside the scope is not swallowed.
    /// On a writer that is closed already, the close fails as in [`Self::close`].
    pub fn exit(&mut self) -> (r: Result<bool, PiskyError>)
        ensures
            final(self)@ == (RecordWriterModel { path: old(self)@.path, open: false }),
            old(self)@.open ==> r == Ok::<bool, PiskyError>(false),
            !old(self)@.open ==> r is Err && r->Err_0@ == refused("close"@),
    {
        leave(self.close())
    }
}

/// The mathematical content of a [`PyRecordReader`].
pub struct RecordReaderModel {
    pub path: Seq<char>,
    pub strategy: PyCorruptionStrategy,
    pub phase: PhaseModel,
}

/// The reader of one shard file: the file's path, the policy in force, and
/// how far the stream has come.
#[derive(Debug)]
pub struct PyRecordReader {
    path: String,
    strategy: PyCorruptionStrategy,
    phase: Phase,
}

impl View for PyRecordReader {
    type V = RecordReaderModel;

    closed spec fn view(&self) -> RecordReaderModel {
        RecordReaderModel { path: self.path@, strategy: self.strategy, phase: self.phase@ }
    }
}

impl PyRecordReader {
    /// A reader for the file at `path` that has read nothing yet. Its policy
    /// is `Error` unless `Recover` is asked for.
    pub fn new(path: &str, corruption_strategy: Option<PyCorruptionStrategy>) -> (reader:
        PyRecordReader)
        ensures
            reader@ == (RecordReaderModel {
                path: path@,
                strategy: PyCorruptionStrategy::chosen(corruption_strategy),
                phase: PhaseModel::Reading,
            }),
    {
        let strategy = PyCorruptionStrategy::resolve(corruption_strategy);
        PyRecordReader { path: String::from_str(path), strategy, phase: Phase::Reading }
    }

    /// The path of the file that is read.
    pub fn path(&self) -> (path: &str)
        ensures
            path@ == self@.path,
    {
        self.path.as_str()
    }

    /// The policy this reader applies to every frame.
    pub fn strategy(&self) -> (strategy: PyCorruptionStrategy)
        ensures
            strategy == self@.strategy,
    {
        self.strategy
    }

    /// Counts the records of one file, where `events` is what the engine
    /// reports for it: the number of records that a reader under the chosen
    /// policy delivers, or the failure that ends its run.
    pub fn count_records(
        corruption_strategy: Option<PyCorruptionStrategy>,
        events: &Vec<ReadEvent>,
    ) -> (r: Result<usize, PiskyError>)
        ensures
            is_count(
                r,
                count_of(
                    replay(PyCorruptionStrategy::chosen(corruption_strategy), models(events@)),
                ),
            ),
    {
        count_records(PyCorruptionStrategy::resolve(corruption_strategy), events)
    }

    /// The answer that this reader gives without asking the engine: none
    /// while it is reading, and afterwards the answer that every read gets.
    pub fn settled(&self) -> (step: Option<Step<'static>>)
        ensures
            match step {
                Some(s) => Some(s@) == settled_answer(self@.phase),
                None => settled_answer(self@.phase) is None,
            },
    {
        self.phase.settled()
    }

    /// Takes one event from the engine and says what the caller gets.
    pub fn next_record<'a>(&mut self, event: &'a ReadEvent) -> (step: Step<'a>)
        ensures
            step@ == answer(old(self)@.strategy, old(self)@.phase, event@),
            final(self)@ == (RecordReaderModel {
                path: old(self)@.path,
                strategy: old(self)@.strategy,
                phase: phase_after(old(self)@.strategy, old(self)@.phase, event@),
            }),
    {
        self.phase.advance(self.strategy, event)
    }
}

} // verus!
