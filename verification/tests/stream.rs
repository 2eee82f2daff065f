use bytes::Bytes;
use pisky::corruption::PyCorruptionStrategy;
use pisky::error::{ErrorKind, PiskyError};
use pisky::replay::{count_records, read_all, RecordTally, TallyStep};
use pisky::single_threaded::PyRecordReader;
use pisky::stream::{Phase, ReadEvent, Step};

fn record(payload: &'static [u8]) -> ReadEvent {
    ReadEvent::Record(Bytes::from_static(payload))
}

#[test]
fn three_records_are_read_back_and_counted() {
    let events = vec![
        record(b"a"),
        record(b""),
        record(b"longer payload"),
        ReadEvent::EndOfStream,
    ];
    let outcome = read_all(PyCorruptionStrategy::Error, &events);
    assert_eq!(
        outcome.records,
        vec![
            Bytes::from_static(b"a"),
            Bytes::from_static(b""),
            Bytes::from_static(b"longer payload")
        ]
    );
    assert_eq!(outcome.failure, None);
    assert_eq!(count_records(PyCorruptionStrategy::Error, &events), Ok(3));
}

#[test]
fn error_policy_stops_at_the_malformed_frame() {
    let events = vec![
        record(b"one"),
        ReadEvent::Corrupt("truncated frame".to_string()),
        record(b"three"),
        ReadEvent::EndOfStream,
    ];
    let outcome = read_all(PyCorruptionStrategy::Error, &events);
    assert_eq!(outcome.records, vec![Bytes::from_static(b"one")]);
    let failure = outcome.failure.expect("the run fails");
    assert_eq!(failure.kind, ErrorKind::Corruption);
    assert_eq!(failure.message, "truncated frame");

    let counted = count_records(PyCorruptionStrategy::Error, &events);
    let failure = counted.expect_err("there is no count");
    assert_eq!(failure.kind, ErrorKind::Corruption);
    assert_eq!(failure.message, "truncated frame");
}

#[test]
fn recover_policy_skips_the_malformed_frame() {
    let events = vec![
        record(b"one"),
        ReadEvent::Corrupt("truncated frame".to_string()),
        record(b"three"),
        ReadEvent::EndOfStream,
    ];
    let outcome = read_all(PyCorruptionStrategy::Recover, &events);
    assert_eq!(
        outcome.records,
        vec![Bytes::from_static(b"one"), Bytes::from_static(b"three")]
    );
    assert_eq!(outcome.failure, None);
    assert_eq!(count_records(PyCorruptionStrategy::Recover, &events), Ok(2));
}

#[test]
fn a_read_failure_is_fatal_under_either_policy() {
    let events = vec![
        record(b"one"),
        ReadEvent::Failed(PiskyError::io("disk gone".to_string())),
        record(b"two"),
    ];
    for strategy in [PyCorruptionStrategy::Error, PyCorruptionStrategy::Recover] {
        let outcome = read_all(strategy, &events);
        assert_eq!(outcome.records, vec![Bytes::from_static(b"one")]);
        let failure = outcome.failure.expect("the run fails");
        assert_eq!(failure.kind, ErrorKind::Io);
        assert_eq!(failure.message, "disk gone");
        assert!(count_records(strategy, &events).is_err());
    }
}

#[test]
fn shard_markers_never_reach_the_caller() {
    let events = vec![
        ReadEvent::ShardFinished,
        record(b"x"),
        ReadEvent::ShardFinished,
        ReadEvent::ShardFinished,
        record(b"y"),
        ReadEvent::ShardFinished,
        ReadEvent::EndOfStream,
    ];
    let without = vec![record(b"x"), record(b"y"), ReadEvent::EndOfStream];
    let outcome = read_all(PyCorruptionStrategy::Error, &events);
    assert_eq!(
        outcome.records,
        vec![Bytes::from_static(b"x"), Bytes::from_static(b"y")]
    );
    assert_eq!(outcome, read_all(PyCorruptionStrategy::Error, &without));
    assert_eq!(count_records(PyCorruptionStrategy::Error, &events), Ok(2));
}

#[test]
fn nothing_behind_the_end_of_the_stream_is_read() {
    let events = vec![
        record(b"kept"),
        ReadEvent::EndOfStream,
        record(b"never seen"),
        ReadEvent::Failed(PiskyError::io("never seen".to_string())),
    ];
    let outcome = read_all(PyCorruptionStrategy::Recover, &events);
    assert_eq!(outcome.records, vec![Bytes::from_static(b"kept")]);
    assert_eq!(outcome.failure, None);
    assert_eq!(count_records(PyCorruptionStrategy::Recover, &events), Ok(1));
}

#[test]
fn a_transcript_that_is_used_up_ends_cleanly() {
    let events = vec![record(b"1"), record(b"2")];
    let outcome = read_all(PyCorruptionStrategy::Error, &events);
    assert_eq!(outcome.records.len(), 2);
    assert_eq!(outcome.failure, None);
    assert_eq!(count_records(PyCorruptionStrategy::Error, &events), Ok(2));
}

#[test]
fn an_empty_transcript_holds_no_record() {
    let events: Vec<ReadEvent> = Vec::new();
    let outcome = read_all(PyCorruptionStrategy::Error, &events);
    assert!(outcome.records.is_empty());
    assert_eq!(outcome.failure, None);
    assert_eq!(count_records(PyCorruptionStrategy::Error, &events), Ok(0));
    assert_eq!(
        count_records(PyCorruptionStrategy::Recover, &vec![ReadEvent::EndOfStream]),
        Ok(0)
    );
}

#[test]
fn only_malformed_frames_count_for_nothing_under_recover() {
    let events = vec![
        ReadEvent::Corrupt("a".to_string()),
        ReadEvent::Corrupt("b".to_string()),
        ReadEvent::EndOfStream,
    ];
    assert_eq!(count_records(PyCorruptionStrategy::Recover, &events), Ok(0));
    let failure = count_records(PyCorruptionStrategy::Error, &events).expect_err("fatal");
    assert_eq!(failure.message, "a");
}

#[test]
fn a_session_answers_event_by_event() {
    let mut session = PyRecordReader::new("shard", Some(PyCorruptionStrategy::Recover));
    assert_eq!(session.strategy(), PyCorruptionStrategy::Recover);
    assert!(session.settled().is_none());

    let first = record(b"payload");
    assert_eq!(
        session.next_record(&first),
        Step::Deliver(&Bytes::from_static(b"payload"))
    );
    assert_eq!(session.next_record(&ReadEvent::ShardFinished), Step::Again);
    assert_eq!(
        session.next_record(&ReadEvent::Corrupt("bad".to_string())),
        Step::Again
    );
    assert!(session.settled().is_none());
    assert_eq!(session.next_record(&ReadEvent::EndOfStream), Step::End);
    assert_eq!(session.settled(), Some(Step::End));
}

#[test]
fn the_end_of_a_stream_is_final() {
    let mut session = PyRecordReader::new("shard", None);
    assert_eq!(session.next_record(&ReadEvent::EndOfStream), Step::End);
    let late = record(b"late");
    assert_eq!(session.next_record(&late), Step::End);
    assert_eq!(
        session.next_record(&ReadEvent::Failed(PiskyError::io("late".to_string()))),
        Step::End
    );
}

#[test]
fn a_failure_is_final_and_repeated() {
    let mut session = PyRecordReader::new("shard", None);
    let corrupt = ReadEvent::Corrupt("bad length".to_string());
    let Step::Fail(first) = session.next_record(&corrupt) else {
        panic!("a malformed frame is fatal under the error policy");
    };
    assert_eq!(first.kind, ErrorKind::Corruption);
    assert_eq!(first.message, "bad length");

    let late = record(b"valid frame behind the malformed one");
    let Step::Fail(again) = session.next_record(&late) else {
        panic!("no record is delivered after a failure");
    };
    assert_eq!(again, first);
    assert_eq!(session.settled(), Some(Step::Fail(first)));
}

#[test]
fn a_closed_reader_refuses_every_read() {
    let strategy = PyCorruptionStrategy::Error;
    let mut session = Phase::Reading;
    assert!(session.is_reading());
    assert!(!session.is_closed());
    assert_eq!(session.permit("queued_records"), Ok(()));
    assert_eq!(session.close(), Ok(()));
    assert!(session.is_closed());
    assert!(!session.is_reading());

    let event = record(b"data");
    let Step::Fail(failure) = session.advance(strategy, &event) else {
        panic!("a closed reader delivers nothing");
    };
    assert_eq!(failure.kind, ErrorKind::InvalidState);
    assert_eq!(failure.message, "read on a closed handle");

    let second = session.close().expect_err("a reader is closed once");
    assert_eq!(second.kind, ErrorKind::InvalidState);
    assert_eq!(second.message, "close on a closed handle");
    assert!(session.is_closed());
}

#[test]
fn a_reader_can_be_closed_after_its_stream_ended_or_failed() {
    let strategy = PyCorruptionStrategy::Error;
    let mut ended = Phase::Reading;
    assert_eq!(ended.advance(strategy, &ReadEvent::EndOfStream), Step::End);
    assert_eq!(ended, Phase::Finished);
    assert_eq!(ended.close(), Ok(()));
    assert!(matches!(ended.settled(), Some(Step::Fail(_))));

    let mut failed = Phase::Reading;
    assert!(matches!(
        failed.advance(strategy, &ReadEvent::Failed(PiskyError::io("io".to_string()))),
        Step::Fail(_)
    ));
    assert!(matches!(failed, Phase::Failed(_)));
    assert_eq!(failed.close(), Ok(()));
    let Some(Step::Fail(failure)) = failed.settled() else {
        panic!("a closed reader refuses reads");
    };
    assert_eq!(failure.kind, ErrorKind::InvalidState);
}

#[test]
fn a_tally_counts_event_by_event() {
    let mut tally = RecordTally::new(PyCorruptionStrategy::Recover);
    assert_eq!(tally.count(), 0);
    assert_eq!(tally.observe(&record(b"a")), TallyStep::Again);
    assert_eq!(tally.count(), 1);
    assert_eq!(tally.observe(&ReadEvent::ShardFinished), TallyStep::Again);
    assert_eq!(
        tally.observe(&ReadEvent::Corrupt("x".to_string())),
        TallyStep::Again
    );
    assert_eq!(tally.count(), 1);
    assert_eq!(tally.observe(&record(b"b")), TallyStep::Again);
    assert_eq!(tally.observe(&ReadEvent::EndOfStream), TallyStep::Done(2));
    assert_eq!(tally.observe(&record(b"c")), TallyStep::Done(2));
    assert_eq!(tally.count(), 2);
}

#[test]
fn a_tally_that_fails_has_no_count() {
    let mut tally = RecordTally::new(PyCorruptionStrategy::Error);
    assert_eq!(tally.observe(&record(b"a")), TallyStep::Again);
    let TallyStep::Fail(failure) = tally.observe(&ReadEvent::Corrupt("x".to_string())) else {
        panic!("a malformed frame is fatal under the error policy");
    };
    assert_eq!(failure.kind, ErrorKind::Corruption);
    assert!(matches!(
        tally.observe(&ReadEvent::EndOfStream),
        TallyStep::Fail(_)
    ));
}

#[test]
fn records_keep_their_order_and_their_bytes() {
    let payloads: Vec<Vec<u8>> = (0u8..50).map(|i| vec![i; i as usize]).collect();
    let mut events: Vec<ReadEvent> = payloads
        .iter()
        .map(|p| ReadEvent::Record(Bytes::from(p.clone())))
        .collect();
    events.push(ReadEvent::EndOfStream);
    for strategy in [PyCorruptionStrategy::Error, PyCorruptionStrategy::Recover] {
        let outcome = read_all(strategy, &events);
        assert_eq!(outcome.failure, None);
        assert_eq!(outcome.records.len(), 50);
        for (got, want) in outcome.records.iter().zip(payloads.iter()) {
            assert_eq!(&got[..], &want[..]);
        }
        assert_eq!(count_records(strategy, &events), Ok(50));
    }
}

#[test]
fn an_engine_error_becomes_an_event_by_its_family() {
    let text = || "checksum mismatch".to_string();
    assert_eq!(
        ReadEvent::reported(ErrorKind::Corruption, text()),
        ReadEvent::Corrupt(text())
    );
    for family in [ErrorKind::Io, ErrorKind::InvalidState, ErrorKind::Configuration] {
        assert_eq!(
            ReadEvent::reported(family, text()),
            ReadEvent::Failed(PiskyError::new(family, text()))
        );
    }
}

#[test]
fn a_failure_of_the_engine_keeps_its_family() {
    for strategy in [PyCorruptionStrategy::Error, PyCorruptionStrategy::Recover] {
        for family in [
            ErrorKind::Io,
            ErrorKind::InvalidState,
            ErrorKind::Configuration,
            ErrorKind::Corruption,
        ] {
            let events = vec![
                record(b"one"),
                ReadEvent::Failed(PiskyError::new(family, "gave up".to_string())),
                record(b"two"),
            ];
            let outcome = read_all(strategy, &events);
            assert_eq!(outcome.records, vec![Bytes::from_static(b"one")]);
            assert_eq!(
                outcome.failure,
                Some(PiskyError::new(family, "gave up".to_string()))
            );
            assert_eq!(
                count_records(strategy, &events),
                Err(PiskyError::new(family, "gave up".to_string()))
            );
        }
    }
}

#[test]
fn a_reported_corruption_error_is_left_to_the_policy() {
    let events = vec![
        record(b"one"),
        ReadEvent::reported(ErrorKind::Corruption, "bad frame".to_string()),
        record(b"two"),
        ReadEvent::EndOfStream,
    ];
    assert_eq!(count_records(PyCorruptionStrategy::Recover, &events), Ok(2));
    assert_eq!(
        count_records(PyCorruptionStrategy::Error, &events),
        Err(PiskyError::new(ErrorKind::Corruption, "bad frame".to_string()))
    );
}
