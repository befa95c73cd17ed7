//! Tests for the per-session state machine.

use speedtest::{FinishOutcome, Session};

#[test]
fn begin_test_takes_effect_once() {
    // The first begin starts the test; the second reports nothing
    // happened and keeps the first start time.
    let mut session = Session::new(8);
    assert!(session.begin_test(5));
    assert!(!session.begin_test(99));
    let stats = session
        .report_chunk(0, 1_000_000, 1_250_000, 1_000_005)
        .unwrap();
    assert_eq!(stats.start_micros, 5);
}

#[test]
fn chunk_before_begin_is_a_no_op() {
    let mut session = Session::new(8);
    assert!(session.report_chunk(0, 1_000_000, 1_250_000, 0).is_none());
}

#[test]
fn chunk_updates_the_bandwidth_average() {
    let mut session = Session::new(8);
    assert!(session.begin_test(0));
    // 1.25 MB in one second, reported one second in: 10 Mbps.
    let stats = session
        .report_chunk(0, 1_000_000, 1_250_000, 1_000_000)
        .unwrap();
    assert_eq!(stats.bandwidth_average, 10_000_000);
}

#[test]
fn stale_sequence_leaves_accumulators_unchanged() {
    let mut session = Session::new(8);
    assert!(session.begin_test(0));
    let first = session
        .report_chunk(5, 1_000_000, 1_250_000, 1_000_000)
        .unwrap();
    assert_eq!(first.bandwidth_average, 10_000_000);
    // An older completion arriving late must not disturb the average,
    // though the session still reports the current one.
    let stale = session
        .report_chunk(3, 1_000_000, 5_000_000, 2_000_000)
        .unwrap();
    assert_eq!(stale.bandwidth_average, 10_000_000);
    session.report_round_trip(3, 0, 2_000_000);
    let after = session
        .report_chunk(5, 1_000_000, 1_250_000, 2_000_000)
        .unwrap();
    assert_eq!(after.latency_average, 0);
}

#[test]
fn round_trip_updates_the_latency_average() {
    let mut session = Session::new(8);
    assert!(session.begin_test(0));
    // Client stamped zero, received one second in: 500 ms one way.
    session.report_round_trip(0, 0, 1_000_000);
    let stats = session
        .report_chunk(0, 1_000_000, 1_250_000, 1_000_000)
        .unwrap();
    assert_eq!(stats.latency_average, 500_000);
}

#[test]
fn round_trip_with_future_timestamp_is_discarded() {
    let mut session = Session::new(8);
    assert!(session.begin_test(0));
    // A claimed send time later than the session's own clock would make
    // the round trip negative; it must be ignored.
    session.report_round_trip(0, 2_000_000, 1_000_000);
    let stats = session
        .report_chunk(0, 1_000_000, 1_250_000, 1_000_000)
        .unwrap();
    assert_eq!(stats.latency_average, 0);
}

#[test]
fn finalize_freezes_and_is_idempotent() {
    let mut session = Session::new(8);
    assert!(session.begin_test(0));
    session
        .report_chunk(0, 1_000_000, 1_250_000, 1_000_000)
        .unwrap();
    let frozen = session.finalize().unwrap();
    assert_eq!(frozen.bandwidth_average, 10_000_000);
    // A second stop is a no-op returning nothing.
    assert!(session.finalize().is_none());
    // Late samples after the end change nothing and report nothing.
    assert!(session.report_chunk(9, 1_000_000, 5_000_000, 2_000_000).is_none());
}

#[test]
fn finish_only_from_ended() {
    let mut session = Session::new(8);
    assert_eq!(session.finish(), FinishOutcome::NotEnded);
    assert!(session.begin_test(0));
    assert_eq!(session.finish(), FinishOutcome::NotEnded);
    session.finalize().unwrap();
    assert_eq!(session.finish(), FinishOutcome::Queued);
    // The sentinel is the empty payload, queued last.
    assert_eq!(session.channel.recv(), Some(vec![]));
}

#[test]
fn finish_reports_a_full_channel() {
    let mut session = Session::new(1);
    assert!(session.channel.try_send(vec![1]));
    assert!(session.begin_test(0));
    session.finalize().unwrap();
    assert_eq!(session.finish(), FinishOutcome::ChannelFull);
    assert_eq!(session.channel.recv(), Some(vec![1]));
    assert_eq!(session.finish(), FinishOutcome::Queued);
}
