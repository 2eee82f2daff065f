//! What a parallel reader is built from: where its shards are found and how
//! its workers and its queue are sized.

use vstd::prelude::*;
use std::path::PathBuf;
use crate::corruption::PyCorruptionStrategy;
use crate::error::{ErrorKind, ErrorModel, PiskyError};
use crate::multi_threaded::{PyMultiThreadedReader, ReaderModel};
use crate::stream::PhaseModel;
use vstd::string::StringExecFns;

verus! {

/// The number of bytes in one megabyte of queue budget.
pub const BYTES_PER_MEGABYTE: usize = 1024 * 1024;

/// The queue budget, in bytes, of a reader that is given a number of worker
/// threads and no budget of its own.
pub const DEFAULT_QUEUE_SIZE_BYTES: usize = 8 * 1024 * 1024;

/// Where the shards of a reader are found.
#[derive(Debug, PartialEq, Eq)]
pub enum ShardSource {
    /// The files in `dir_path` whose names start with `prefix`.
    Directory { dir_path: String, prefix: String },
    /// The given files, each read once.
    Paths(Vec<String>),
    /// The given files in a shuffled order, again and again without end.
    RandomPaths(Vec<String>),
}

/// The mathematical content of a [`ShardSource`].
pub enum SourceModel {
    Directory { dir_path: Seq<char>, prefix: Seq<char> },
    Paths(Seq<Seq<char>>),
    RandomPaths(Seq<Seq<char>>),
}

/// The contents of a list of paths.
pub open spec fn path_texts(paths: Seq<String>) -> Seq<Seq<char>> {
    paths.map_values(|p: String| p@)
}

impl View for ShardSource {
    type V = SourceModel;

    open spec fn view(&self) -> SourceModel {
        match *self {
            ShardSource::Directory { dir_path, prefix } => SourceModel::Directory {
                dir_path: dir_path@,
                prefix: prefix@,
            },
            ShardSource::Paths(paths) => SourceModel::Paths(path_texts(paths@)),
            ShardSource::RandomPaths(paths) => SourceModel::RandomPaths(path_texts(paths@)),
        }
    }
}

/// The failure for a list of shard paths that names no file.
pub open spec fn no_shard_paths() -> ErrorModel {
    ErrorModel { kind: ErrorKind::Configuration, message: "No shard paths provided"@ }
}

/// Whether a source can be read from. A list of paths must name at least
/// one file: an empty list is malformed and a configuration error.
pub open spec fn source_accepted(source: SourceModel) -> Result<(), ErrorModel> {
    match source {
        SourceModel::Directory { .. } => Ok(()),
        SourceModel::Paths(paths) => if paths.len() == 0 {
            Err(no_shard_paths())
        } else {
            Ok(())
        },
        SourceModel::RandomPaths(paths) => if paths.len() == 0 {
            Err(no_shard_paths())
        } else {
            Ok(())
        },
    }
}

impl ShardSource {
    /// Computes [`source_accepted`].
    pub fn validate(&self) -> (r: Result<(), PiskyError>)
        ensures
            match source_accepted(self@) {
                Ok(_) => r is Ok,
                Err(e) => r is Err && r->Err_0@ == e,
            },
    {
        let named: bool = match self {
            ShardSource::Directory { .. } => true,
            ShardSource::Paths(paths) => paths.len() > 0,
            ShardSource::RandomPaths(paths) => paths.len() > 0,
        };
        if named {
            Ok(())
        } else {
            Err(
                PiskyError::new(
                    ErrorKind::Configuration,
                    String::from_str("No shard paths provided"),
                ),
            )
        }
    }

    /// Whether the stream over this source has no end of its own.
    pub fn is_endless(&self) -> (endless: bool)
        ensures
            endless == (self@ is RandomPaths),
    {
        match self {
            ShardSource::RandomPaths(_) => true,
            _ => false,
        }
    }
}

/// The order in which records of different shards reach the caller.
#[derive(Clone, Copy, Debug, PartialEq, Eq, Structural)]
pub enum ReadingOrder {
    /// One record of each shard that still has some, in rotation.
    RoundRobin,
}

/// How the workers and the queue of a parallel reader are sized.
#[derive(Clone, Copy, Debug, PartialEq, Eq)]
pub struct ReaderSettings {
    /// The number of logical shards.
    pub num_shards: usize,
    /// The number of worker threads; `None` leaves it to the engine.
    pub worker_threads: Option<usize>,
    /// The most bytes of undelivered records held at once; `None` leaves it
    /// to the engine.
    pub queue_size_bytes: Option<usize>,
    /// The merge order; `None` leaves it to the engine.
    pub reading_order: Option<ReadingOrder>,
    /// What the workers do with a malformed frame.
    pub corruption_strategy: PyCorruptionStrategy,
}

/// The failure for a queue budget that is too large to count in bytes.
pub open spec fn queue_too_large() -> ErrorModel {
    ErrorModel {
        kind: ErrorKind::Configuration,
        message: "Queue size in megabytes is too large to express in bytes"@,
    }
}

/// The queue budget in bytes. A budget given in megabytes is that many times
/// 1024 * 1024 bytes, and a configuration error where that number does not
/// fit in `usize`. Without one, the budget is 8 megabytes where a number of
/// worker threads is given, and left to the engine where neither is.
pub open spec fn queue_budget(worker_threads: Option<usize>, queue_size_mb: Option<usize>) -> Result<
    Option<usize>,
    ErrorModel,
> {
    match queue_size_mb {
        Some(mb) => if mb * BYTES_PER_MEGABYTE <= usize::MAX {
            Ok(Some((mb * BYTES_PER_MEGABYTE) as usize))
        } else {
            Err(queue_too_large())
        },
        None => if worker_threads is Some {
            Ok(Some(DEFAULT_QUEUE_SIZE_BYTES))
        } else {
            Ok(None)
        },
    }
}

/// The merge order: round-robin where a number of worker threads or a queue
/// budget is given, and left to the engine where neither is.
pub open spec fn merge_order(worker_threads: Option<usize>, queue_size_mb: Option<usize>) -> Option<
    ReadingOrder,
> {
    if worker_threads is None && queue_size_mb is None {
        None
    } else {
        Some(ReadingOrder::RoundRobin)
    }
}

/// The settings of a reader that is built with the given parameters.
pub open spec fn reader_settings(
    num_shards: usize,
    worker_threads: Option<usize>,
    queue_size_mb: Option<usize>,
    corruption_strategy: Option<PyCorruptionStrategy>,
) -> Result<ReaderSettings, ErrorModel> {
    match queue_budget(worker_threads, queue_size_mb) {
        Ok(queue_size_bytes) => Ok(
            ReaderSettings {
                num_shards,
                worker_threads,
                queue_size_bytes,
                reading_order: merge_order(worker_threads, queue_size_mb),
                corruption_strategy: PyCorruptionStrategy::chosen(corruption_strategy),
            },
        ),
        Err(e) => Err(e),
    }
}

/// Computes [`reader_settings`].
pub fn plan_reader(
    num_shards: usize,
    worker_threads: Option<usize>,
    queue_size_mb: Option<usize>,
    corruption_strategy: Option<PyCorruptionStrategy>,
) -> (r: Result<ReaderSettings, PiskyError>)
    ensures
        match reader_settings(num_shards, worker_threads, queue_size_mb, corruption_strategy) {
            Ok(settings) => r == Ok::<ReaderSettings, PiskyError>(settings),
            Err(e) => r is Err && r->Err_0@ == e,
        },
{
    let queue_size_bytes = match queue_size_mb {
        Some(mb) => {
            if mb > usize::MAX / BYTES_PER_MEGABYTE {
                assert(mb * BYTES_PER_MEGABYTE > usize::MAX) by (nonlinear_arith)
                    requires
                        mb > usize::MAX / BYTES_PER_MEGABYTE,
                        BYTES_PER_MEGABYTE == 1048576,
                ;
                return Err(
                    PiskyError::new(
                        ErrorKind::Configuration,
                        String::from_str("Queue size in megabytes is too large to express in bytes"),
                    ),
                );
            }
            assert(mb * BYTES_PER_MEGABYTE <= usize::MAX) by (nonlinear_arith)
                requires
                    mb <= usize::MAX / BYTES_PER_MEGABYTE,
                    BYTES_PER_MEGABYTE == 1048576,
            ;
            Some(mb * BYTES_PER_MEGABYTE)
        },
        None => match worker_threads {
            Some(_) => Some(DEFAULT_QUEUE_SIZE_BYTES),
            None => None,
        },
    };
    let reading_order = match (worker_threads, queue_size_mb) {
        (None, None) => None,
        _ => Some(ReadingOrder::RoundRobin),
    };
    Ok(
        ReaderSettings {
            num_shards,
            worker_threads,
            queue_size_bytes,
            reading_order,
            corruption_strategy: PyCorruptionStrategy::resolve(corruption_strategy),
        },
    )
}

/// The reader that is built over `source` with the given parameters. The
/// source is looked at first and the sizes after it: a source that cannot
/// be read from fails the construction whatever the sizes are. A reader that
/// is built has read nothing yet.
pub open spec fn reader_plan(
    source: SourceModel,
    num_shards: usize,
    worker_threads: Option<usize>,
    queue_size_mb: Option<usize>,
    corruption_strategy: Option<PyCorruptionStrategy>,
) -> Result<ReaderModel, ErrorModel> {
    match source_accepted(source) {
        Err(e) => Err(e),
        Ok(_) => match reader_settings(
            num_shards,
            worker_threads,
            queue_size_mb,
            corruption_strategy,
        ) {
            Ok(settings) => Ok(ReaderModel { source, settings, phase: PhaseModel::Reading }),
            Err(e) => Err(e),
        },
    }
}

/// Builds a parallel reader over the shards of `shard_locator`, as
/// [`reader_plan`] says: the construction fails, before anything is opened
/// or started, where the source or the sizes are refused.
pub fn create_multi_threaded_reader(
    shard_locator: ShardSource,
    num_shards: usize,
    worker_threads: Option<usize>,
    queue_size_mb: Option<usize>,
    corruption_strategy: Option<PyCorruptionStrategy>,
) -> (r: Result<PyMultiThreadedReader, PiskyError>)
    ensures
        match reader_plan(
            shard_locator@,
            num_shards,
            worker_threads,
            queue_size_mb,
            corruption_strategy,
        ) {
            Ok(reader) => r is Ok && r->Ok_0@ == reader,
            Err(e) => r is Err && r->Err_0@ == e,
        },
{
    match shard_locator.validate() {
        Err(e) => Err(e),
        Ok(()) => match plan_reader(
            num_shards,
            worker_threads,
            queue_size_mb,
            corruption_strategy,
        ) {
            Ok(settings) => Ok(PyMultiThreadedReader::from_parts(shard_locator, settings)),
            Err(e) => Err(e),
        },
    }
}

/// `std::path::PathBuf`, declared so that it can stand in signatures.
/// Nothing is said of its representation.
#[verifier::external_type_specification]
#[verifier::external_body]
pub struct ExPathBuf(std::path::PathBuf);

/// The text of a path: what `Path::to_str` gives for a path that is valid
/// Unicode.
pub uninterp spec fn path_text(path: PathBuf) -> Seq<char>;

/// `PathBuf::from` makes a path from a piece of text by copying it: the text
/// of the path is that text.
#[verifier::external_body]
fn path_from_text(text: &str) -> (path: PathBuf)
    ensures
        path_text(path) == text@,
{
    PathBuf::from(text)
}

/// Converts a list of paths that are given as text to paths: as many paths,
/// in the same order, each made from its text.
pub fn string_paths_to_pathbufs(shard_paths: Vec<String>) -> (paths: Vec<PathBuf>)
    ensures
        paths@.len() == shard_paths@.len(),
        forall|i: int| 0 <= i < paths@.len() ==> path_text(#[trigger] paths@[i]) == shard_paths@[i]@,
{
    let mut paths: Vec<PathBuf> = Vec::with_capacity(shard_paths.len());
    let mut i: usize = 0;
    while i < shard_paths.len()
        invariant
            i <= shard_paths.len(),
            paths@.len() == i,
            forall|j: int| 0 <= j < i ==> path_text(#[trigger] paths@[j]) == shard_paths@[j]@,
        decreases shard_paths.len() - i,
    {
        paths.push(path_from_text(shard_paths[i].as_str()));
        i += 1;
    }
    paths
}

} // verus!
