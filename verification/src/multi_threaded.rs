//! The parallel writer and reader: what they are configured with, and the
//! protocol each follows between construction and `close`.

use vstd::prelude::*;
use vstd::string::StringExecFns;
use bytes::Bytes;
use crate::buffer::bytes_of;
use crate::error::{ErrorKind, ErrorModel, PiskyError, refused};
use crate::corruption::PyCorruptionStrategy;
use crate::lifecycle::{WriteSession, is_reply, leave, permitted};
use crate::replay::{count_of, count_records, is_count, models, replay};
use crate::shard_helpers::{
    ReaderSettings, ShardSource, SourceModel, create_multi_threaded_reader, no_shard_paths,
    path_texts, reader_plan, source_accepted,
};
use crate::stream::{
    EventModel, Phase, PhaseModel, ReadEvent, Step, answer, phase_after, settled_answer,
};
use crate::text::same_text;

verus! {

/// How the payload of a frame is stored.
#[derive(Clone, Copy, Debug, PartialEq, Eq, Structural)]
pub enum Compression {
    /// The payload is stored as it is.
    Uncompressed,
    /// The payload is compressed with Zstandard.
    Zstd,
}

/// The compression that a selector names, if it names one. Selectors are
/// matched exactly: `"zstd"` and `"none"` are the only ones known.
pub open spec fn compression_named(name: Seq<char>) -> Option<Compression> {
    if name == "zstd"@ {
        Some(Compression::Zstd)
    } else if name == "none"@ {
        Some(Compression::Uncompressed)
    } else {
        None
    }
}

/// The message of the error that an unknown compression selector gives.
pub open spec fn unsupported_compression_message(name: Seq<char>) -> Seq<char> {
    "Unsupported compression type: '"@ + name + "'. Supported types: 'zstd', 'none'"@
}

/// Reads a compression selector. An unknown selector is a configuration
/// error that quotes it; there is no fallback.
pub fn parse_compression(name: &str) -> (r: Result<Compression, PiskyError>)
    ensures
        match compression_named(name@) {
            Some(c) => r == Ok::<Compression, PiskyError>(c),
            None => r is Err && r->Err_0@ == (ErrorModel {
                kind: ErrorKind::Configuration,
                message: unsupported_compression_message(name@),
            }),
        },
{
    if same_text(name, "zstd") {
        Ok(Compression::Zstd)
    } else if same_text(name, "none") {
        Ok(Compression::Uncompressed)
    } else {
        let message = String::from_str("Unsupported compression type: '").concat(name).concat(
            "'. Supported types: 'zstd', 'none'",
        );
        Err(PiskyError::new(ErrorKind::Configuration, message))
    }
}

/// What a parallel writer is built with.
#[derive(Debug, PartialEq, Eq)]
pub struct WriterSettings {
    /// The directory that holds the shard files.
    pub dir_path: String,
    /// The text that every shard file's name starts with.
    pub prefix: String,
    /// The number of logical shards.
    pub num_shards: usize,
    /// The number of worker threads; `None` leaves it to the engine.
    pub worker_threads: Option<usize>,
    /// The size at which a shard file is full; `None` sets no limit.
    pub max_bytes_per_writer: Option<usize>,
    /// How many writes may wait for one worker; `None` leaves it to the engine.
    pub task_queue_capacity: Option<usize>,
    /// Whether a full shard file is followed by a fresh one.
    pub auto_sharding: bool,
    /// Whether an existing shard file is continued rather than replaced.
    pub append: bool,
    /// How payloads are stored; `None` leaves it to the engine.
    pub compression: Option<Compression>,
}

/// The mathematical content of [`WriterSettings`].
pub struct WriterPlan {
    pub dir_path: Seq<char>,
    pub prefix: Seq<char>,
    pub num_shards: usize,
    pub worker_threads: Option<usize>,
    pub max_bytes_per_writer: Option<usize>,
    pub task_queue_capacity: Option<usize>,
    pub auto_sharding: bool,
    pub append: bool,
    pub compression: Option<Compression>,
}

impl View for WriterSettings {
    type V = WriterPlan;

    open spec fn view(&self) -> WriterPlan {
        WriterPlan {
            dir_path: self.dir_path@,
            prefix: self.prefix@,
            num_shards: self.num_shards,
            worker_threads: self.worker_threads,
            max_bytes_per_writer: self.max_bytes_per_writer,
            task_queue_capacity: self.task_queue_capacity,
            auto_sharding: self.auto_sharding,
            append: self.append,
            compression: self.compression,
        }
    }
}

/// Whether an optional switch is on: only an explicit `true` turns it on.
pub open spec fn switched_on(flag: Option<bool>) -> bool {
    flag == Some(true)
}

/// The compression that an optional selector asks for: none asked for where
/// there is no selector, a configuration error where the selector is unknown.
pub open spec fn compression_chosen(selector: Option<Seq<char>>) -> Result<
    Option<Compression>,
    ErrorModel,
> {
    match selector {
        None => Ok(None),
        Some(name) => match compression_named(name) {
            Some(c) => Ok(Some(c)),
            None => Err(
                ErrorModel {
                    kind: ErrorKind::Configuration,
                    message: unsupported_compression_message(name),
                },
            ),
        },
    }
}

/// The view of an optional selector.
pub open spec fn selector_text(selector: Option<&str>) -> Option<Seq<char>> {
    match selector {
        Some(name) => Some(name@),
        None => None,
    }
}

/// The mathematical content of a [`PyMultiThreadedWriter`].
pub struct WriterModel {
    pub settings: WriterPlan,
    pub open: bool,
}

/// A parallel writer: its settings, and whether it is still open.
#[derive(Debug)]
pub struct PyMultiThreadedWriter {
    settings: WriterSettings,
    session: WriteSession,
}

impl View for PyMultiThreadedWriter {
    type V = WriterModel;

    closed spec fn view(&self) -> WriterModel {
        WriterModel { settings: self.settings@, open: self.session@ }
    }
}

impl PyMultiThreadedWriter {
    /// A writer over `num_shards` shards that are named from `prefix` and
    /// live in `dir_path`. Every parameter is taken as given and none is
    /// replaced by a default; a switch is on only where it is `Some(true)`.
    /// The one parameter that can be refused is the compression selector: an
    /// unknown one fails the construction with a configuration error.
    pub fn new_with_shards(
        dir_path: &str,
        prefix: &str,
        num_shards: usize,
        worker_threads: Option<usize>,
        max_bytes_per_writer: Option<usize>,
        task_queue_capacity: Option<usize>,
        enable_auto_sharding: Option<bool>,
        append: Option<bool>,
        compression: Option<&str>,
    ) -> (r: Result<PyMultiThreadedWriter, PiskyError>)
        ensures
            match compression_chosen(selector_text(compression)) {
                Ok(chosen) => r is Ok && r->Ok_0@ == (WriterModel {
                    settings: WriterPlan {
                        dir_path: dir_path@,
                        prefix: prefix@,
                        num_shards,
                        worker_threads,
                        max_bytes_per_writer,
                        task_queue_capacity,
                        auto_sharding: switched_on(enable_auto_sharding),
                        append: switched_on(append),
                        compression: chosen,
                    },
                    open: true,
                }),
                Err(e) => r is Err && r->Err_0@ == e,
            },
    {
        let chosen = match compression {
            None => None,
            Some(name) => match parse_compression(name) {
                Ok(c) => Some(c),
                Err(e) => {
                    return Err(e);
                },
            },
        };
        let settings = WriterSettings {
            dir_path: String::from_str(dir_path),
            prefix: String::from_str(prefix),
            num_shards,
            worker_threads,
            max_bytes_per_writer,
            task_queue_capacity,
            auto_sharding: is_switched_on(enable_auto_sharding),
            append: is_switched_on(append),
            compression: chosen,
        };
        Ok(PyMultiThreadedWriter { settings, session: WriteSession::new() })
    }

    /// What the writer was built with.
    pub fn settings(&self) -> (settings: &WriterSettings)
        ensures
            settings@ == self@.settings,
    {
        &self.settings
    }

    /// Whether the writer is open.
    pub fn is_open(&self) -> (open: bool)
        ensures
            open == self@.open,
    {
        self.session.is_open()
    }

    /// Accepts a record for writing: on an open writer, the buffer to hand
    /// to the engine, which holds a copy of `data`; on a closed one, an
    /// invalid-state failure.
    pub fn py_write_record(&self, data: &[u8]) -> (r: Result<Bytes, PiskyError>)
        ensures
            self@.open ==> r is Ok && bytes_of(r->Ok_0) == data@,
            !self@.open ==> r is Err && r->Err_0@ == refused("write_record"@),
    {
        match self.session.permit("write_record") {
            Ok(()) => Ok(Bytes::copy_from_slice(data)),
            Err(e) => Err(e),
        }
    }

    /// Lets a flush through on an open writer and refuses it on a closed one.
    pub fn py_flush(&self) -> (r: Result<(), PiskyError>)
        ensures
            is_reply(r, permitted(self@.open, "flush"@)),
    {
        self.session.permit("flush")
    }

    /// Lets `operation` through on an open writer and refuses it on a closed
    /// one. It is asked before a question is put to the engine, such as how
    /// many writes are pending or how many workers are idle.
    pub fn permit(&self, operation: &str) -> (r: Result<(), PiskyError>)
        ensures
            is_reply(r, permitted(self@.open, operation@)),
    {
        self.session.permit(operation)
    }

    /// Closes the writer. It can be closed once; closing it again is an
    /// invalid-state failure. The settings stay as they were.
    pub fn py_close(&mut self) -> (r: Result<(), PiskyError>)
        ensures
            final(self)@ == (WriterModel { settings: old(self)@.settings, open: false }),
            is_reply(r, permitted(old(self)@.open, "close"@)),
    {
        self.session.close()
    }

    /// Leaves a scope that held the writer: closes the writer and answers
    /// `false`, so that a failure raised inside the scope is not swallowed.
    /// On a writer that is closed already, the close fails as in
    /// [`Self::py_close`].
    pub fn exit(&mut self) -> (r: Result<bool, PiskyError>)
        ensures
            final(self)@ == (WriterModel { settings: old(self)@.settings, open: false }),
            old(self)@.open ==> r == Ok::<bool, PiskyError>(false),
            !old(self)@.open ==> r is Err && r->Err_0@ == refused("close"@),
    {
        leave(self.py_close())
    }
}

/// Computes [`switched_on`].
pub fn is_switched_on(flag: Option<bool>) -> (on: bool)
    ensures
        on == switched_on(flag),
{
    match flag {
        Some(true) => true,
        _ => false,
    }
}

/// The mathematical content of a [`PyMultiThreadedReader`].
pub struct ReaderModel {
    pub source: SourceModel,
    pub settings: ReaderSettings,
    pub phase: PhaseModel,
}

/// A parallel reader: where its shards are, how it is sized, and how far the
/// stream has come.
#[derive(Debug)]
pub struct PyMultiThreadedReader {
    source: ShardSource,
    settings: ReaderSettings,
    phase: Phase,
}

impl View for PyMultiThreadedReader {
    type V = ReaderModel;

    closed spec fn view(&self) -> ReaderModel {
        ReaderModel { source: self.source@, settings: self.settings, phase: self.phase@ }
    }
}

/// The result of counting over a transcript with a reader that is built
/// over `source` with the given parameters: the configuration error, if
/// there is one, or else the count under the policy chosen.
pub open spec fn count_with(
    source: SourceModel,
    num_shards: usize,
    worker_threads: Option<usize>,
    queue_size_mb: Option<usize>,
    corruption_strategy: Option<PyCorruptionStrategy>,
    events: Seq<EventModel>,
) -> Result<nat, ErrorModel> {
    match reader_plan(source, num_shards, worker_threads, queue_size_mb, corruption_strategy) {
        Ok(reader) => count_of(replay(reader.settings.corruption_strategy, events)),
        Err(e) => Err(e),
    }
}

impl PyMultiThreadedReader {
    /// A reader over `source` with the given settings that has read nothing yet.
    pub(crate) fn from_parts(source: ShardSource, settings: ReaderSettings) -> (reader:
        PyMultiThreadedReader)
        requires
            source_accepted(source@) is Ok,
        ensures
            reader@ == (ReaderModel { source: source@, settings, phase: PhaseModel::Reading }),
    {
        PyMultiThreadedReader { source, settings, phase: Phase::Reading }
    }

    /// A reader over the shard files in `dir_path` whose names start with `prefix`.
    pub fn new_with_shards(
        dir_path: &str,
        prefix: &str,
        num_shards: usize,
        worker_threads: Option<usize>,
        queue_size_mb: Option<usize>,
        corruption_strategy: Option<PyCorruptionStrategy>,
    ) -> (r: Result<PyMultiThreadedReader, PiskyError>)
        ensures
            match reader_plan(
                SourceModel::Directory { dir_path: dir_path@, prefix: prefix@ },
                num_shards,
                worker_threads,
                queue_size_mb,
                corruption_strategy,
            ) {
                Ok(reader) => r is Ok && r->Ok_0@ == reader,
                Err(e) => r is Err && r->Err_0@ == e,
            },
    {
        let source = ShardSource::Directory {
            dir_path: String::from_str(dir_path),
            prefix: String::from_str(prefix),
        };
        create_multi_threaded_reader(
            source,
            num_shards,
            worker_threads,
            queue_size_mb,
            corruption_strategy,
        )
    }

    /// A reader over the given shard files, each read once. An empty list is
    /// a configuration error, whatever the other parameters are.
    pub fn new_with_shard_paths(
        shard_paths: Vec<String>,
        num_shards: usize,
        worker_threads: Option<usize>,
        queue_size_mb: Option<usize>,
        corruption_strategy: Option<PyCorruptionStrategy>,
    ) -> (r: Result<PyMultiThreadedReader, PiskyError>)
        ensures
            shard_paths@.len() == 0 ==> r is Err && r->Err_0@ == no_shard_paths(),
            match reader_plan(
                SourceModel::Paths(path_texts(shard_paths@)),
                num_shards,
                worker_threads,
                queue_size_mb,
                corruption_strategy,
            ) {
                Ok(reader) => r is Ok && r->Ok_0@ == reader,
                Err(e) => r is Err && r->Err_0@ == e,
            },
    {
        create_multi_threaded_reader(
            ShardSource::Paths(shard_paths),
            num_shards,
            worker_threads,
            queue_size_mb,
            corruption_strategy,
        )
    }

    /// A reader over the given shard files in a shuffled order, again and
    /// again: its stream has no end of its own. An empty list is a
    /// configuration error, whatever the other parameters are.
    pub fn new_with_random_shard_paths(
        shard_paths: Vec<String>,
        num_shards: usize,
        worker_threads: Option<usize>,
        queue_size_mb: Option<usize>,
        corruption_strategy: Option<PyCorruptionStrategy>,
    ) -> (r: Result<PyMultiThreadedReader, PiskyError>)
        ensures
            shard_paths@.len() == 0 ==> r is Err && r->Err_0@ == no_shard_paths(),
            match reader_plan(
                SourceModel::RandomPaths(path_texts(shard_paths@)),
                num_shards,
                worker_threads,
                queue_size_mb,
                corruption_strategy,
            ) {
                Ok(reader) => r is Ok && r->Ok_0@ == reader,
                Err(e) => r is Err && r->Err_0@ == e,
            },
    {
        create_multi_threaded_reader(
            ShardSource::RandomPaths(shard_paths),
            num_shards,
            worker_threads,
            queue_size_mb,
            corruption_strategy,
        )
    }

    /// Counts the records of the shard files in `dir_path` whose names start
    /// with `prefix`, where `events` is what the engine reports for them.
    pub fn count_records_with_shards(
        dir_path: &str,
        prefix: &str,
        num_shards: usize,
        worker_threads: Option<usize>,
        queue_size_mb: Option<usize>,
        corruption_strategy: Option<PyCorruptionStrategy>,
        events: &Vec<ReadEvent>,
    ) -> (r: Result<usize, PiskyError>)
        ensures
            is_count(
                r,
                count_with(
                    SourceModel::Directory { dir_path: dir_path@, prefix: prefix@ },
                    num_shards,
                    worker_threads,
                    queue_size_mb,
                    corruption_strategy,
                    models(events@),
                ),
            ),
    {
        match Self::new_with_shards(
            dir_path,
            prefix,
            num_shards,
            worker_threads,
            queue_size_mb,
            corruption_strategy,
        ) {
            Ok(reader) => count_records(reader.settings().corruption_strategy, events),
            Err(e) => Err(e),
        }
    }

    /// Counts the records of the given shard files, where `events` is what
    /// the engine reports for them. An empty list of files is a
    /// configuration error, and nothing is counted.
    pub fn count_records_with_shard_paths(
        shard_paths: Vec<String>,
        num_shards: usize,
        worker_threads: Option<usize>,
        queue_size_mb: Option<usize>,
        corruption_strategy: Option<PyCorruptionStrategy>,
        events: &Vec<ReadEvent>,
    ) -> (r: Result<usize, PiskyError>)
        ensures
            shard_paths@.len() == 0 ==> r is Err && r->Err_0@ == no_shard_paths(),
            is_count(
                r,
                count_with(
                    SourceModel::Paths(path_texts(shard_paths@)),
                    num_shards,
                    worker_threads,
                    queue_size_mb,
                    corruption_strategy,
                    models(events@),
                ),
            ),
    {
        match Self::new_with_shard_paths(
            shard_paths,
            num_shards,
            worker_threads,
            queue_size_mb,
            corruption_strategy,
        ) {
            Ok(reader) => count_records(reader.settings().corruption_strategy, events),
            Err(e) => Err(e),
        }
    }

    /// Where the shards of this reader are found.
    pub fn source(&self) -> (source: &ShardSource)
        ensures
            source@ == self@.source,
    {
        &self.source
    }

    /// How this reader is sized.
    pub fn settings(&self) -> (settings: &ReaderSettings)
        ensures
            *settings == self@.settings,
    {
        &self.settings
    }

    /// The answer that this reader gives without asking the engine: none
    /// while it is reading, and afterwards the answer that every read gets.
    pub fn settled(&self) -> (step: Option<Step<'static>>)
        ensures
            match step {
                Some(s) => Some(s@) == settled_answer(self@.phase),
                None => settled_answer(self@.phase) is None,
            },
    {
        self.phase.settled()
    }

    /// Takes one event from the engine and says what the caller gets. A
    /// shard marker is never handed on: the answer to it is to ask again.
    pub fn py_next_record<'a>(&mut self, event: &'a ReadEvent) -> (step: Step<'a>)
        ensures
            step@ == answer(old(self)@.settings.corruption_strategy, old(self)@.phase, event@),
            final(self)@ == (ReaderModel {
                source: old(self)@.source,
                settings: old(self)@.settings,
                phase: phase_after(
                    old(self)@.settings.corruption_strategy,
                    old(self)@.phase,
                    event@,
                ),
            }),
    {
        self.phase.advance(self.settings.corruption_strategy, event)
    }

    /// Closes the reader. It can be closed once, in any phase; closing it
    /// again is an invalid-state failure.
    pub fn py_close(&mut self) -> (r: Result<(), PiskyError>)
        ensures
            final(self)@ == (ReaderModel {
                source: old(self)@.source,
                settings: old(self)@.settings,
                phase: PhaseModel::Closed,
            }),
            is_reply(r, permitted(!(old(self)@.phase is Closed), "close"@)),
    {
        self.phase.close()
    }

    /// Leaves a scope that held the reader: closes the reader and answers
    /// `false`, so that a failure raised inside the scope is not swallowed.
    /// On a reader that is closed already, the close fails as in
    /// [`Self::py_close`].
    pub fn exit(&mut self) -> (r: Result<bool, PiskyError>)
        ensures
            final(self)@ == (ReaderModel {
                source: old(self)@.source,
                settings: old(self)@.settings,
                phase: PhaseModel::Closed,
            }),
            !(old(self)@.phase is Closed) ==> r == Ok::<bool, PiskyError>(false),
            old(self)@.phase is Closed ==> r is Err && r->Err_0@ == refused("close"@),
    {
        leave(self.py_close())
    }

    /// Lets `operation` through on a reader that is not closed and refuses
    /// it on a closed one. It is asked before a question is put to the engine,
    /// such as how many records or bytes are queued.
    pub fn permit(&self, operation: &str) -> (r: Result<(), PiskyError>)
        ensures
            is_reply(r, permitted(!(self@.phase is Closed), operation@)),
    {
        self.phase.permit(operation)
    }
}

} // verus!
