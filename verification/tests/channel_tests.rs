//! Tests for the bounded push channel and its framing rule.

use speedtest::PushChannel;

#[test]
fn capacity_one_backpressure() {
    // With capacity 1 the first send succeeds at once; a second would
    // suspend, which the bounded model reports as not accepted; after
    // the consumer drains, the slot is free again.
    let mut channel = PushChannel::new(1);
    assert!(channel.try_send(vec![1]));
    assert!(!channel.try_send(vec![2]));
    assert_eq!(channel.recv(), Some(vec![1]));
    assert!(channel.try_send(vec![2]));
    assert_eq!(channel.recv(), Some(vec![2]));
}

#[test]
fn sentinel_terminates_after_drain() {
    // Once both payloads are through, the empty sentinel goes out and is
    // the next (and last) thing the consumer reads.
    let mut channel = PushChannel::new(1);
    assert!(channel.try_send(vec![1]));
    assert_eq!(channel.recv(), Some(vec![1]));
    assert!(channel.try_send(vec![2]));
    assert_eq!(channel.recv(), Some(vec![2]));
    assert!(channel.try_finish());
    assert_eq!(channel.recv(), Some(vec![]));
    assert_eq!(channel.recv(), None);
}

#[test]
fn delivery_keeps_order() {
    let mut channel = PushChannel::new(8);
    assert!(channel.try_send(vec![1]));
    assert!(channel.try_send(vec![2]));
    assert!(channel.try_send(vec![3]));
    assert_eq!(channel.recv(), Some(vec![1]));
    assert_eq!(channel.recv(), Some(vec![2]));
    assert_eq!(channel.recv(), Some(vec![3]));
    assert_eq!(channel.recv(), None);
}

#[test]
fn sentinel_is_last_behind_queued_payloads() {
    let mut channel = PushChannel::new(4);
    assert!(channel.try_send(vec![7]));
    assert!(channel.try_finish());
    assert_eq!(channel.recv(), Some(vec![7]));
    assert_eq!(channel.recv(), Some(vec![]));
}

#[test]
fn reservation_holds_the_slot() {
    // A reservation counts against capacity, so a racing best-effort
    // send cannot steal it, and the commit itself cannot fail.
    let mut channel = PushChannel::new(1);
    assert!(channel.try_reserve());
    assert!(!channel.try_send(vec![9]));
    channel.commit(vec![5]);
    assert_eq!(channel.recv(), Some(vec![5]));
}

#[test]
fn cancelled_reservation_frees_the_slot() {
    let mut channel = PushChannel::new(1);
    assert!(channel.try_reserve());
    assert!(!channel.try_reserve());
    channel.cancel_reservation();
    assert!(channel.try_send(vec![3]));
}

#[test]
fn full_channel_rejects_the_sentinel_until_drained() {
    let mut channel = PushChannel::new(1);
    assert!(channel.try_send(vec![1]));
    assert!(!channel.try_finish());
    assert_eq!(channel.recv(), Some(vec![1]));
    assert!(channel.try_finish());
}
