//! Tests for the session registry and the end-to-end flows over it.

use speedtest::{PollFrame, Registry};

#[test]
fn end_to_end_download_test() {
    // Create a session, begin the test, report three 10 Mbps chunks,
    // then stop: the average converges on (here, stays exactly at)
    // 10 Mbps and the frozen snapshot displays it.
    let mut registry = Registry::new(128);
    let id = registry.new_connection();
    assert_eq!(registry.begin_test(id, 0), Some(0));
    for seq in 0..3u64 {
        let now = (seq + 1) * 1_000_000;
        let snapshot = registry
            .report_chunk(id, seq, 1_000_000, 1_250_000, now)
            .unwrap();
        assert_eq!(snapshot.bandwidth, "10.0Mbps");
        assert_eq!(snapshot.start_micros, 0);
    }
    let frozen = registry.finalize(id).unwrap();
    assert_eq!(frozen.bandwidth, "10.0Mbps");
    assert_eq!(frozen.latency, "0.00ms");
    // The session takes no further mutation.
    assert!(registry.finalize(id).is_none());
    assert!(registry
        .report_chunk(id, 9, 1_000_000, 5_000_000, 9_000_000)
        .is_none());
}

#[test]
fn begin_test_twice_starts_once() {
    let mut registry = Registry::new(128);
    let id = registry.new_connection();
    // Only the first trigger starts the test (and so schedules the one
    // test timer); the duplicate is a benign non-event.
    assert_eq!(registry.begin_test(id, 42), Some(42));
    assert_eq!(registry.begin_test(id, 43), None);
    let snapshot = registry
        .report_chunk(id, 0, 1_000_000, 1_250_000, 1_000_042)
        .unwrap();
    assert_eq!(snapshot.start_micros, 42);
}

#[test]
fn unknown_ids_are_benign() {
    let mut registry = Registry::new(128);
    assert_eq!(registry.begin_test(7, 0), None);
    assert!(registry.report_chunk(7, 0, 1_000_000, 1, 0).is_none());
    registry.report_round_trip(7, 0, 0, 0);
    assert!(registry.finalize(7).is_none());
    assert!(!registry.remove(7));
}

#[test]
fn disconnect_removes_exactly_once() {
    // The teardown path removes the session even though the test never
    // finished; in-flight reports for that id then land on nothing.
    let mut registry = Registry::new(128);
    let id = registry.new_connection();
    assert_eq!(registry.begin_test(id, 0), Some(0));
    assert!(registry.remove(id));
    assert!(registry
        .report_chunk(id, 0, 1_000_000, 1_250_000, 1_000_000)
        .is_none());
    assert!(!registry.remove(id));
    assert!(matches!(registry.next_frame(id), PollFrame::End));
}

#[test]
fn latency_surfaces_in_the_next_snapshot() {
    let mut registry = Registry::new(128);
    let id = registry.new_connection();
    assert_eq!(registry.begin_test(id, 0), Some(0));
    registry.report_round_trip(id, 0, 0, 1_000_000);
    let snapshot = registry
        .report_chunk(id, 0, 1_000_000, 1_250_000, 1_000_000)
        .unwrap();
    assert_eq!(snapshot.latency, "500ms");
}

#[test]
fn stale_round_trip_changes_nothing() {
    let mut registry = Registry::new(128);
    let id = registry.new_connection();
    assert_eq!(registry.begin_test(id, 0), Some(0));
    let _ = registry.report_chunk(id, 5, 1_000_000, 1_250_000, 1_000_000);
    registry.report_round_trip(id, 3, 0, 2_000_000);
    let snapshot = registry
        .report_chunk(id, 5, 1_000_000, 1_250_000, 2_000_000)
        .unwrap();
    assert_eq!(snapshot.latency, "0.00ms");
}

#[test]
fn drain_loop_sees_fragments_then_sentinel() {
    let mut registry = Registry::new(128);
    let id = registry.new_connection();
    assert!(matches!(registry.next_frame(id), PollFrame::Wait));
    assert_eq!(registry.try_send(id, vec![10, 20]), Some(true));
    match registry.next_frame(id) {
        PollFrame::Data(payload) => assert_eq!(payload, vec![10, 20]),
        _ => panic!("expected a payload"),
    }
    assert_eq!(registry.begin_test(id, 0), Some(0));
    registry.finalize(id).unwrap();
    assert!(matches!(
        registry.finish(id),
        speedtest::FinishOutcome::Queued
    ));
    assert!(matches!(registry.next_frame(id), PollFrame::End));
}

#[test]
fn finish_needs_an_ended_session() {
    let mut registry = Registry::new(128);
    let id = registry.new_connection();
    assert!(matches!(
        registry.finish(id),
        speedtest::FinishOutcome::NotEnded
    ));
    assert!(matches!(
        registry.finish(999),
        speedtest::FinishOutcome::NotEnded
    ));
}

#[test]
fn reserve_then_commit_through_the_registry() {
    // The deferred-render path: claim the slot first, compute the
    // fragment, then commit with no chance of failure in between.
    let mut registry = Registry::new(1);
    let id = registry.new_connection();
    assert_eq!(registry.try_reserve(id), Some(true));
    assert_eq!(registry.try_send(id, vec![1]), Some(false));
    assert!(registry.commit(id, vec![2]));
    match registry.next_frame(id) {
        PollFrame::Data(payload) => assert_eq!(payload, vec![2]),
        _ => panic!("expected the committed payload"),
    }
    // Without a live reservation a commit is refused.
    assert!(!registry.commit(id, vec![3]));
    assert!(!registry.commit(404, vec![3]));
}

#[test]
fn cancelled_reservation_is_released() {
    let mut registry = Registry::new(1);
    let id = registry.new_connection();
    assert_eq!(registry.try_reserve(id), Some(true));
    registry.cancel_reservation(id);
    assert_eq!(registry.try_send(id, vec![8]), Some(true));
}

#[test]
fn ids_are_distinct_across_connections() {
    let mut registry = Registry::new(128);
    let first = registry.new_connection();
    let second = registry.new_connection();
    assert_ne!(first, second);
    assert!(registry.remove(first));
    assert!(registry.remove(second));
}
