//! Tests for the payload pool and the download pacing schedule.

use speedtest::{next_chunk_size, PayloadPool};

#[test]
fn pool_builds_when_dimensions_match() {
    // 2 x 2 pixels at 4 bytes each is a 16-byte payload; the container
    // adds its 122-byte header.
    let pool = PayloadPool::initialize(16, 2, 2).unwrap();
    assert_eq!(pool.total_len(), 138);
}

#[test]
fn pool_rejects_mismatched_dimensions() {
    // The declared size does not reproduce width x height x depth: the
    // fatal configuration error, caught once at startup.
    assert!(PayloadPool::initialize(15, 2, 2).is_none());
    assert!(PayloadPool::initialize(16, 2, 3).is_none());
}

#[test]
fn pool_slices_are_prefixes() {
    let pool = PayloadPool::initialize(16, 2, 2).unwrap();
    let whole = pool.fetch_payload(138).to_vec();
    let prefix = pool.fetch_payload(10);
    assert_eq!(prefix.len(), 10);
    assert_eq!(&whole[..10], prefix);
    assert_eq!(pool.fetch_payload(0).len(), 0);
}

#[test]
fn pool_container_looks_like_a_bitmap() {
    let pool = PayloadPool::initialize(16, 2, 2).unwrap();
    let header = pool.fetch_payload(2);
    assert_eq!(header.to_vec(), vec![0x42, 0x4d]);
}

#[test]
fn chunk_schedule_steps_up_to_the_plateau() {
    assert_eq!(next_chunk_size(0), 20_000_000);
    assert_eq!(next_chunk_size(1), 30_000_000);
    assert_eq!(next_chunk_size(7), 90_000_000);
    assert_eq!(next_chunk_size(8), 100_000_000);
    assert_eq!(next_chunk_size(1_000), 100_000_000);
}
