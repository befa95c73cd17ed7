//! Tests for the pure estimation arithmetic.

use speedtest::{calculate_bandwidth_weight, calculate_bps, latency_sample, running_average_update};

#[test]
fn throughput_ten_megabits() {
    // 1.25 MB in one second is exactly 10 Mbps.
    assert_eq!(calculate_bps(1_000_000, 1_250_000), Some(10_000_000));
}

#[test]
fn throughput_scales_with_duration() {
    // The same transfer over two seconds halves the rate.
    assert_eq!(calculate_bps(2_000_000, 1_250_000), Some(5_000_000));
}

#[test]
fn throughput_truncates() {
    // One byte over three microseconds: 8_000_000 / 3, truncated.
    assert_eq!(calculate_bps(3, 1), Some(2_666_666));
}

#[test]
fn zero_duration_has_no_throughput() {
    assert_eq!(calculate_bps(0, 1_000_000), None);
}

#[test]
fn bandwidth_weight_per_megabyte_and_elapsed() {
    // 5 MB reported two seconds into the test: 5 * 2_000_000.
    assert_eq!(calculate_bandwidth_weight(2_000_000, 5_000_000), 10_000_000);
}

#[test]
fn bandwidth_weight_of_small_chunk_is_zero() {
    // Below one weighting unit the sample carries no weight.
    assert_eq!(calculate_bandwidth_weight(2_000_000, 999_999), 0);
}

#[test]
fn latency_sample_is_half_the_round_trip() {
    assert_eq!(latency_sample(1_000_000), 500_000);
    assert_eq!(latency_sample(3), 1);
}

#[test]
fn zero_weight_update_is_identity() {
    // A zero-weight sample leaves the accumulator pair untouched.
    assert_eq!(running_average_update(7, 3, 100, 0), (7, 3));
    assert_eq!(running_average_update(0, 0, 55, 0), (0, 0));
}

#[test]
fn first_sample_sets_the_average() {
    assert_eq!(running_average_update(0, 0, 10_000_000, 5), (10_000_000, 5));
}

#[test]
fn equal_weights_average_evenly() {
    assert_eq!(
        running_average_update(10_000_000, 5, 20_000_000, 5),
        (15_000_000, 10)
    );
}

#[test]
fn heavier_sample_pulls_harder() {
    // Weight 1 at 0 plus weight 3 at 100 gives 75.
    assert_eq!(running_average_update(0, 1, 100, 3), (75, 4));
}

#[test]
fn average_stays_within_sample_range() {
    // Weighted-mean boundedness on concrete values: every intermediate
    // average lies between the smallest and the largest sample.
    let samples: [(u128, u128); 4] = [(80, 2), (120, 1), (95, 7), (101, 3)];
    let mut average: u128 = 0;
    let mut total_weight: u128 = 0;
    for (value, weight) in samples {
        let (next_average, next_weight) =
            running_average_update(average, total_weight, value, weight);
        assert!(next_average >= 80 && next_average <= 120);
        average = next_average;
        total_weight = next_weight;
    }
    assert_eq!(total_weight, 13);
}
