//! Tests for the human-readable unit formatting.

use speedtest::{bps_to_string, bytes_to_string, micros_to_string, upload_summary};

#[test]
fn rate_suffixes_across_magnitudes() {
    assert_eq!(bps_to_string(0), "0.00bps");
    assert_eq!(bps_to_string(999), "999bps");
    assert_eq!(bps_to_string(1_000), "1.00Kbps");
    assert_eq!(bps_to_string(999_999), "999Kbps");
    assert_eq!(bps_to_string(1_000_000_000), "1.00Gbps");
}

#[test]
fn rate_precision_rule() {
    // Two decimals under 10, one under 100, truncated integer above.
    assert_eq!(bps_to_string(1_234), "1.23Kbps");
    assert_eq!(bps_to_string(55_500), "55.5Kbps");
    assert_eq!(bps_to_string(123_456), "123Kbps");
}

#[test]
fn rate_rounds_half_up() {
    // 9.995 Kbps rounds to the printed 10.00, while the branch is chosen
    // on the unrounded value.
    assert_eq!(bps_to_string(9_995), "10.00Kbps");
}

#[test]
fn rate_top_suffix_is_never_exceeded() {
    // Beyond the last suffix the value stays on it as a plain integer.
    assert_eq!(bps_to_string(1_000_000_000_000_000_000_000_000), "1.00Ybps");
    assert_eq!(
        bps_to_string(340_282_366_920_938_463_463_374_607_431_768_211_455),
        "340282366920938Ybps"
    );
}

#[test]
fn byte_sizes_across_magnitudes() {
    assert_eq!(bytes_to_string(0), "0.00B");
    assert_eq!(bytes_to_string(999), "999B");
    assert_eq!(bytes_to_string(1_000), "1.00KB");
    assert_eq!(bytes_to_string(200_000_000), "200MB");
}

#[test]
fn durations_display_as_milliseconds() {
    assert_eq!(micros_to_string(0), "0.00ms");
    assert_eq!(micros_to_string(1_234), "1.23ms");
    assert_eq!(micros_to_string(55_500), "55.5ms");
    assert_eq!(micros_to_string(123_456), "123ms");
    assert_eq!(micros_to_string(12_345_678), "12345ms");
}

#[test]
fn upload_summary_formats_the_rate() {
    // 1.25 MB uploaded in one second: 10 Mbps.
    assert_eq!(
        upload_summary(1_000_000, 1_250_000),
        Some(String::from("10.0Mbps"))
    );
}

#[test]
fn upload_summary_rejects_zero_duration() {
    assert_eq!(upload_summary(0, 1_250_000), None);
}
