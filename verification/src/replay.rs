//! A whole run of a reader over a transcript: the events that the storage
//! engine reported, in the order in which it reported them.

use vstd::prelude::*;
use bytes::Bytes;
use crate::buffer::bytes_of;
use crate::corruption::PyCorruptionStrategy;
use crate::error::{ErrorModel, PiskyError};
use crate::stream::{
    EventModel, Phase, PhaseModel, ReadEvent, Step, StepModel, answer, phase_after, react,
};

verus! {

/// What a run gives the caller: the records delivered, in order, and the
/// failure that ended the run, if one did.
#[derive(Debug, PartialEq, Eq)]
pub struct Outcome {
    pub records: Vec<Bytes>,
    pub failure: Option<PiskyError>,
}

/// The mathematical content of an [`Outcome`].
pub struct OutcomeModel {
    pub records: Seq<Seq<u8>>,
    pub failure: Option<ErrorModel>,
}

/// The contents of a list of records.
pub open spec fn payloads(records: Seq<Bytes>) -> Seq<Seq<u8>> {
    records.map_values(|r: Bytes| bytes_of(r))
}

/// The contents of a transcript.
pub open spec fn models(events: Seq<ReadEvent>) -> Seq<EventModel> {
    events.map_values(|e: ReadEvent| e@)
}

impl View for Outcome {
    type V = OutcomeModel;

    open spec fn view(&self) -> OutcomeModel {
        OutcomeModel {
            records: payloads(self.records@),
            failure: match self.failure {
                Some(e) => Some(e@),
                None => None,
            },
        }
    }
}

/// The run over a transcript. Events are taken in order. A record is
/// delivered; what the policy lets pass is skipped; the first end of stream
/// or fatal event ends the run, and nothing behind it is looked at. A
/// transcript that is used up ends the run cleanly.
pub open spec fn replay(strategy: PyCorruptionStrategy, events: Seq<EventModel>) -> OutcomeModel
    decreases events.len(),
{
    if events.len() == 0 {
        OutcomeModel { records: Seq::empty(), failure: None }
    } else {
        match react(strategy, events[0]) {
            StepModel::Deliver(bytes) => {
                let rest = replay(strategy, events.skip(1));
                OutcomeModel { records: seq![bytes] + rest.records, failure: rest.failure }
            },
            StepModel::Again => replay(strategy, events.skip(1)),
            StepModel::End => OutcomeModel { records: Seq::empty(), failure: None },
            StepModel::Fail(e) => OutcomeModel { records: Seq::empty(), failure: Some(e) },
        }
    }
}

/// Runs a reader over a transcript and collects what it delivers.
pub fn read_all(strategy: PyCorruptionStrategy, events: &Vec<ReadEvent>) -> (outcome: Outcome)
    ensures
        outcome@ == replay(strategy, models(events@)),
{
    let ghost all = models(events@);
    let mut phase = Phase::Reading;
    let mut records: Vec<Bytes> = Vec::new();
    let mut i: usize = 0;
    assert(all.skip(0) =~= all);
    while i < events.len()
        invariant
            i <= events.len(),
            all == models(events@),
            phase@ is Reading,
            replay(strategy, all).records == payloads(records@) + replay(
                strategy,
                all.skip(i as int),
            ).records,
            replay(strategy, all).failure == replay(strategy, all.skip(i as int)).failure,
        decreases events.len() - i,
    {
        let ghost rest = all.skip(i as int);
        assert(rest.skip(1) =~= all.skip(i + 1));
        match phase.advance(strategy, &events[i]) {
            Step::Deliver(bytes) => {
                let ghost before = payloads(records@);
                records.push(bytes.clone());
                assert(before + (seq![bytes_of(*bytes)] + replay(strategy, rest.skip(1)).records)
                    =~= before.push(bytes_of(*bytes)) + replay(strategy, rest.skip(1)).records);
            },
            Step::Again => {},
            Step::End => {
                return Outcome { records, failure: None };
            },
            Step::Fail(e) => {
                return Outcome { records, failure: Some(e) };
            },
        }
        i += 1;
    }
    Outcome { records, failure: None }
}

/// What a count makes of one event.
#[derive(Debug, PartialEq, Eq)]
pub enum TallyStep {
    /// The count is not final: ask the engine again.
    Again,
    /// The stream ended cleanly with this many records.
    Done(usize),
    /// The stream ended with this failure; there is no count.
    Fail(PiskyError),
}

/// The mathematical content of a [`TallyStep`].
pub enum TallyStepModel {
    Again,
    Done(nat),
    Fail(ErrorModel),
}

impl View for TallyStep {
    type V = TallyStepModel;

    open spec fn view(&self) -> TallyStepModel {
        match *self {
            TallyStep::Again => TallyStepModel::Again,
            TallyStep::Done(n) => TallyStepModel::Done(n as nat),
            TallyStep::Fail(e) => TallyStepModel::Fail(e@),
        }
    }
}

/// The mathematical content of a [`RecordTally`].
pub struct TallyModel {
    pub strategy: PyCorruptionStrategy,
    pub phase: PhaseModel,
    pub count: nat,
}

/// What a count in the given state answers to one event.
pub open spec fn tally_answer(tally: TallyModel, event: EventModel) -> TallyStepModel {
    match answer(tally.strategy, tally.phase, event) {
        StepModel::Deliver(_) => TallyStepModel::Again,
        StepModel::Again => TallyStepModel::Again,
        StepModel::End => TallyStepModel::Done(tally.count),
        StepModel::Fail(e) => TallyStepModel::Fail(e),
    }
}

/// The state of a count after it gave the answer of [`tally_answer`]: one
/// more for a record delivered, unchanged otherwise.
pub open spec fn tally_after(tally: TallyModel, event: EventModel) -> TallyModel {
    TallyModel {
        strategy: tally.strategy,
        phase: phase_after(tally.strategy, tally.phase, event),
        count: if answer(tally.strategy, tally.phase, event) is Deliver {
            tally.count + 1
        } else {
            tally.count
        },
    }
}

/// A reader that counts the records it would deliver and keeps none of them.
#[derive(Debug)]
pub struct RecordTally {
    strategy: PyCorruptionStrategy,
    phase: Phase,
    count: usize,
}

impl View for RecordTally {
    type V = TallyModel;

    closed spec fn view(&self) -> TallyModel {
        TallyModel { strategy: self.strategy, phase: self.phase@, count: self.count as nat }
    }
}

impl RecordTally {
    /// A count that applies `strategy` and has seen nothing yet.
    pub fn new(strategy: PyCorruptionStrategy) -> (tally: RecordTally)
        ensures
            tally@ == (TallyModel { strategy, phase: PhaseModel::Reading, count: 0 }),
    {
        RecordTally { strategy, phase: Phase::Reading, count: 0 }
    }

    /// The number of records counted so far.
    pub fn count(&self) -> (count: usize)
        ensures
            count == self@.count,
    {
        self.count
    }

    /// Takes one event from the engine. The count must have room for one more.
    pub fn observe(&mut self, event: &ReadEvent) -> (step: TallyStep)
        requires
            old(self)@.count < usize::MAX,
        ensures
            step@ == tally_answer(old(self)@, event@),
            final(self)@ == tally_after(old(self)@, event@),
    {
        match self.phase.advance(self.strategy, event) {
            Step::Deliver(_) => {
                self.count = self.count + 1;
                TallyStep::Again
            },
            Step::Again => TallyStep::Again,
            Step::End => TallyStep::Done(self.count),
            Step::Fail(e) => TallyStep::Fail(e),
        }
    }
}

/// The result of counting over a transcript: the failure that ended the run,
/// or else the number of records that the run delivers.
pub open spec fn count_of(outcome: OutcomeModel) -> Result<nat, ErrorModel> {
    match outcome.failure {
        Some(e) => Err(e),
        None => Ok(outcome.records.len()),
    }
}

/// Whether a count is the given result.
pub open spec fn is_count(r: Result<usize, PiskyError>, expected: Result<nat, ErrorModel>) -> bool {
    match expected {
        Ok(n) => r == Ok::<usize, PiskyError>(n as usize) && n <= usize::MAX,
        Err(e) => r is Err && r->Err_0@ == e,
    }
}

/// Counts the records that a run over a transcript delivers, without keeping them.
pub fn count_records(strategy: PyCorruptionStrategy, events: &Vec<ReadEvent>) -> (r: Result<
    usize,
    PiskyError,
>)
    ensures
        is_count(r, count_of(replay(strategy, models(events@)))),
{
    let ghost all = models(events@);
    let mut tally = RecordTally::new(strategy);
    let mut i: usize = 0;
    assert(all.skip(0) =~= all);
    while i < events.len()
        invariant
            i <= events.len(),
            all == models(events@),
            tally@.strategy == strategy,
            tally@.phase is Reading,
            tally@.count <= i,
            replay(strategy, all).records.len() == tally@.count + replay(
                strategy,
                all.skip(i as int),
            ).records.len(),
            replay(strategy, all).failure == replay(strategy, all.skip(i as int)).failure,
        decreases events.len() - i,
    {
        let ghost rest = all.skip(i as int);
        assert(rest.skip(1) =~= all.skip(i + 1));
        match tally.observe(&events[i]) {
            TallyStep::Again => {},
            TallyStep::Done(n) => {
                return Ok(n);
            },
            TallyStep::Fail(e) => {
                return Err(e);
            },
        }
        i += 1;
    }
    Ok(tally.count())
}

} // verus!
