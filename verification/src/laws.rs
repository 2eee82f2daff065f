//! What holds of every run of a reader, whatever the engine reports.

use vstd::prelude::*;
use crate::corruption::PyCorruptionStrategy;
use crate::error::{ErrorKind, ErrorModel, refused};
use crate::lifecycle::permitted;
use crate::replay::{OutcomeModel, replay};
use crate::stream::{EventModel, PhaseModel, StepModel, answer, phase_after, react};

verus! {

/// Whether a reader under `strategy` goes on reading behind `event`.
pub open spec fn passes(strategy: PyCorruptionStrategy, event: EventModel) -> bool {
    react(strategy, event) is Deliver || react(strategy, event) is Again
}

/// The failure with which `event` ends a run under `strategy`, if it does.
pub open spec fn ending(strategy: PyCorruptionStrategy, event: EventModel) -> Option<ErrorModel> {
    match react(strategy, event) {
        StepModel::Fail(e) => Some(e),
        _ => None,
    }
}

/// The payload of a record event.
pub open spec fn record_of(event: EventModel) -> Option<Seq<u8>> {
    match event {
        EventModel::Record(bytes) => Some(bytes),
        _ => None,
    }
}

/// The payloads of the record events of a transcript, in order.
pub open spec fn delivered(events: Seq<EventModel>) -> Seq<Seq<u8>> {
    events.filter_map(|e: EventModel| record_of(e))
}

/// The transcript in which the engine reports the given records, in order.
pub open spec fn intact(records: Seq<Seq<u8>>) -> Seq<EventModel> {
    records.map_values(|r: Seq<u8>| EventModel::Record(r))
}

/// The records of a transcript are those of its first event, then those of the rest.
pub proof fn lemma_delivered_prepend(first: EventModel, rest: Seq<EventModel>)
    ensures
        delivered(seq![first] + rest) == (match record_of(first) {
            Some(bytes) => seq![bytes] + delivered(rest),
            None => delivered(rest),
        }),
    decreases rest.len(),
{
    let whole = seq![first] + rest;
    if rest.len() == 0 {
        assert(whole =~= seq![first]);
        Seq::lemma_filter_map_singleton(first, |e: EventModel| record_of(e));
    } else {
        assert(whole.drop_last() =~= seq![first] + rest.drop_last());
        lemma_delivered_prepend(first, rest.drop_last());
    }
    assert(delivered(whole) =~= match record_of(first) {
        Some(bytes) => seq![bytes] + delivered(rest),
        None => delivered(rest),
    });
}

/// A run over a transcript in which no event ends it delivers every record
/// of the transcript, in order, and ends cleanly.
pub proof fn lemma_run_to_the_end(strategy: PyCorruptionStrategy, events: Seq<EventModel>)
    requires
        forall|i: int| 0 <= i < events.len() ==> passes(strategy, #[trigger] events[i]),
    ensures
        replay(strategy, events) == (OutcomeModel { records: delivered(events), failure: None }),
    decreases events.len(),
{
    if events.len() > 0 {
        let rest = events.skip(1);
        assert(events =~= seq![events[0]] + rest);
        assert forall|i: int| 0 <= i < rest.len() implies passes(strategy, #[trigger] rest[i]) by {
            assert(rest[i] == events[i + 1]);
        }
        lemma_run_to_the_end(strategy, rest);
        lemma_delivered_prepend(events[0], rest);
    }
}

/// A run ends at the first event that the policy does not let pass: it
/// delivers the records before that event and nothing that stands behind it.
pub proof fn lemma_run_ends_at_first_stop(
    strategy: PyCorruptionStrategy,
    head: Seq<EventModel>,
    stop: EventModel,
    tail: Seq<EventModel>,
)
    requires
        forall|i: int| 0 <= i < head.len() ==> passes(strategy, #[trigger] head[i]),
        !passes(strategy, stop),
    ensures
        replay(strategy, head + seq![stop] + tail) == (OutcomeModel {
            records: delivered(head),
            failure: ending(strategy, stop),
        }),
    decreases head.len(),
{
    let events = head + seq![stop] + tail;
    if head.len() > 0 {
        let rest = head.skip(1);
        assert(events.skip(1) =~= rest + seq![stop] + tail);
        assert forall|i: int| 0 <= i < rest.len() implies passes(strategy, #[trigger] rest[i]) by {
            assert(rest[i] == head[i + 1]);
        }
        lemma_run_ends_at_first_stop(strategy, rest, stop, tail);
        assert(head =~= seq![head[0]] + rest);
        lemma_delivered_prepend(head[0], rest);
    }
}

/// Under the `Error` policy a malformed frame is fatal. Where the first frame
/// is intact and the second is malformed, the run delivers exactly the first
/// record and fails with a corruption error that carries the engine's text;
/// whatever stands behind the malformed frame is never delivered.
pub proof fn law_error_policy_stops_at_malformed_frame(
    first: Seq<u8>,
    text: Seq<char>,
    behind: Seq<EventModel>,
)
    ensures
        replay(
            PyCorruptionStrategy::Error,
            seq![EventModel::Record(first), EventModel::Corrupt(text)] + behind,
        ) == (OutcomeModel {
            records: seq![first],
            failure: Some(ErrorModel { kind: ErrorKind::Corruption, message: text }),
        }),
{
    let head = seq![EventModel::Record(first)];
    let stop = EventModel::Corrupt(text);
    lemma_run_ends_at_first_stop(PyCorruptionStrategy::Error, head, stop, behind);
    assert(head + seq![stop] + behind =~= seq![EventModel::Record(first), stop] + behind);
    lemma_delivered_prepend(EventModel::Record(first), Seq::empty());
}

/// Under the `Recover` policy a malformed frame is skipped. Where the first
/// frame is intact and the second is malformed, the run delivers the first
/// record and then exactly what a run over the rest delivers, and ends as
/// that run ends: the malformed frame adds nothing to the records or to
/// their count.
pub proof fn law_recover_policy_skips_malformed_frame(
    first: Seq<u8>,
    text: Seq<char>,
    behind: Seq<EventModel>,
)
    ensures
        replay(
            PyCorruptionStrategy::Recover,
            seq![EventModel::Record(first), EventModel::Corrupt(text)] + behind,
        ) == (OutcomeModel {
            records: seq![first] + replay(PyCorruptionStrategy::Recover, behind).records,
            failure: replay(PyCorruptionStrategy::Recover, behind).failure,
        }),
{
    let strategy = PyCorruptionStrategy::Recover;
    let events = seq![EventModel::Record(first), EventModel::Corrupt(text)] + behind;
    let rest = events.skip(1);
    assert(rest.skip(1) =~= behind);
    assert(replay(strategy, rest) == replay(strategy, behind));
}

/// Under the `Recover` policy, a run over a transcript that holds no failure
/// of the engine and no end of stream delivers every record of the
/// transcript, in order, and ends cleanly: malformed frames are left out,
/// and nothing else.
pub proof fn law_recover_policy_delivers_every_record(events: Seq<EventModel>)
    requires
        forall|i: int|
            0 <= i < events.len() ==> !(#[trigger] events[i] is Failed) && !(events[i]
                is EndOfStream),
    ensures
        replay(PyCorruptionStrategy::Recover, events) == (OutcomeModel {
            records: delivered(events),
            failure: None,
        }),
{
    assert forall|i: int| 0 <= i < events.len() implies passes(
        PyCorruptionStrategy::Recover,
        #[trigger] events[i],
    ) by {
        assert(!(events[i] is Failed) && !(events[i] is EndOfStream));
    }
    lemma_run_to_the_end(PyCorruptionStrategy::Recover, events);
}

/// Where the engine reports the given records, in order, and then the end of
/// the stream, a run under either policy delivers exactly those records, in
/// that order, and ends cleanly.
pub proof fn law_intact_stream_is_delivered_in_order(
    strategy: PyCorruptionStrategy,
    records: Seq<Seq<u8>>,
    behind: Seq<EventModel>,
)
    ensures
        replay(strategy, intact(records) + seq![EventModel::EndOfStream] + behind) == (OutcomeModel {
            records,
            failure: None,
        }),
{
    lemma_run_ends_at_first_stop(strategy, intact(records), EventModel::EndOfStream, behind);
    lemma_delivered_of_intact(records);
}

/// The records of an intact transcript are the records it was made from.
pub proof fn lemma_delivered_of_intact(records: Seq<Seq<u8>>)
    ensures
        delivered(intact(records)) == records,
    decreases records.len(),
{
    if records.len() > 0 {
        let rest = records.skip(1);
        assert(intact(records) =~= seq![EventModel::Record(records[0])] + intact(rest));
        lemma_delivered_prepend(EventModel::Record(records[0]), intact(rest));
        lemma_delivered_of_intact(rest);
    }
}

/// Shard markers are never seen by the caller: a run over a transcript gives
/// what the run over the same transcript without its markers gives.
pub proof fn law_shard_markers_are_absorbed(strategy: PyCorruptionStrategy, events: Seq<EventModel>)
    ensures
        replay(strategy, events) == replay(
            strategy,
            events.filter(|e: EventModel| !(e is ShardFinished)),
        ),
    decreases events.len(),
{
    let keep = |e: EventModel| !(e is ShardFinished);
    if events.len() > 0 {
        let rest = events.skip(1);
        assert(events =~= seq![events[0]] + rest);
        rest.lemma_filter_prepend(events[0], keep);
        law_shard_markers_are_absorbed(strategy, rest);
        if keep(events[0]) {
            let kept = seq![events[0]] + rest.filter(keep);
            assert(kept.skip(1) =~= rest.filter(keep));
        }
    }
}

/// A closed reader stays closed and refuses every read with an invalid-state
/// failure, whatever the engine would have reported.
pub proof fn law_closed_reader_refuses_every_read(
    strategy: PyCorruptionStrategy,
    event: EventModel,
)
    ensures
        answer(strategy, PhaseModel::Closed, event) == StepModel::Fail(refused("read"@)),
        refused("read"@).kind == ErrorKind::InvalidState,
        phase_after(strategy, PhaseModel::Closed, event) == PhaseModel::Closed,
{
}

/// A closed reader or writer refuses every operation, `close` among them,
/// with an invalid-state failure that names the operation.
pub proof fn law_closed_handle_refuses_every_operation(operation: Seq<char>)
    ensures
        permitted(false, operation) == Err::<(), ErrorModel>(refused(operation)),
        refused(operation).kind == ErrorKind::InvalidState,
{
}

/// A run that has failed stays failed: every later read gives the same
/// failure and no record, whatever the engine would have reported.
pub proof fn law_failure_is_final(
    strategy: PyCorruptionStrategy,
    failure: ErrorModel,
    event: EventModel,
)
    ensures
        answer(strategy, PhaseModel::Failed(failure), event) == StepModel::Fail(failure),
        phase_after(strategy, PhaseModel::Failed(failure), event) == PhaseModel::Failed(failure),
{
}

/// The end of a stream is reported once and for all: every later read ends
/// cleanly again and gives no record.
pub proof fn law_end_of_stream_is_final(strategy: PyCorruptionStrategy, event: EventModel)
    ensures
        answer(strategy, PhaseModel::Finished, event) == StepModel::End,
        phase_after(strategy, PhaseModel::Finished, event) == PhaseModel::Finished,
{
}

} // verus!
