//! Human-readable unit formatting for rates, byte sizes and durations.
//!
//! The display rule, shared by all three: divide the value by 1000 while it
//! is at least 1000 (at most eight times, one step per magnitude suffix),
//! then print it with two decimal places under 10, one decimal place under
//! 100, and as a truncated integer otherwise. Decimal places are rounded
//! half-up; the integer form truncates.

use crate::estimator::{calculate_bps, spec_bps};
use vstd::prelude::*;
use vstd::string::*;

verus! {

/// `1000^m`, the divisor that goes with magnitude index `m`.
pub open spec fn pow1000(m: nat) -> int
    decreases m,
{
    if m == 0 {
        1
    } else {
        1000 * pow1000((m - 1) as nat)
    }
}

/// How many times the value must be divided by 1000 to fall under 1000.
pub open spec fn spec_magnitude(v: int) -> nat
    decreases v,
{
    if v < 1000 {
        0
    } else {
        (1 + spec_magnitude(v / 1000)) as nat
    }
}

/// The magnitude index actually used: capped at 8, the last suffix.
pub open spec fn spec_scale_index(v: int) -> nat {
    if spec_magnitude(v) > 8 {
        8
    } else {
        spec_magnitude(v)
    }
}

/// The decimal digit character for `d` in `0 ..= 9`.
pub open spec fn spec_digit_char(d: int) -> char
    recommends
        0 <= d <= 9,
{
    if d == 0 {
        '0'
    } else if d == 1 {
        '1'
    } else if d == 2 {
        '2'
    } else if d == 3 {
        '3'
    } else if d == 4 {
        '4'
    } else if d == 5 {
        '5'
    } else if d == 6 {
        '6'
    } else if d == 7 {
        '7'
    } else if d == 8 {
        '8'
    } else {
        '9'
    }
}

/// The decimal digits of `n`, most significant first.
pub open spec fn spec_decimal_digits(n: int) -> Seq<char>
    recommends
        n >= 0,
    decreases n,
{
    if n < 10 {
        seq![spec_digit_char(n)]
    } else {
        spec_decimal_digits(n / 10).push(spec_digit_char(n % 10))
    }
}

/// `a / b` rounded to the nearest integer, halves up.
pub open spec fn spec_round_div(a: int, b: int) -> int
    recommends
        b > 0,
{
    (2 * a + b) / (2 * b)
}

/// `v / d` printed with two decimal places, rounded half-up.
pub open spec fn spec_two_decimals(v: int, d: int) -> Seq<char>
    recommends
        d > 0,
{
    let h = spec_round_div(100 * v, d);
    spec_decimal_digits(h / 100) + seq!['.', spec_digit_char(h / 10 % 10), spec_digit_char(h % 10)]
}

/// `v / d` printed with one decimal place, rounded half-up.
pub open spec fn spec_one_decimal(v: int, d: int) -> Seq<char>
    recommends
        d > 0,
{
    let t = spec_round_div(10 * v, d);
    spec_decimal_digits(t / 10) + seq!['.', spec_digit_char(t % 10)]
}

/// The numeric part of the display: `v / d` under the precision rule.
pub open spec fn spec_scaled_digits(v: int, d: int) -> Seq<char>
    recommends
        d > 0,
{
    if v < 10 * d {
        spec_two_decimals(v, d)
    } else if v < 100 * d {
        spec_one_decimal(v, d)
    } else {
        spec_decimal_digits(v / d)
    }
}

/// The rate suffix for magnitude index `m`, from bits per second up.
pub open spec fn spec_rate_suffix(m: nat) -> Seq<char> {
    if m == 0 {
        "bps"@
    } else if m == 1 {
        "Kbps"@
    } else if m == 2 {
        "Mbps"@
    } else if m == 3 {
        "Gbps"@
    } else if m == 4 {
        "Tbps"@
    } else if m == 5 {
        "Pbps"@
    } else if m == 6 {
        "Ebps"@
    } else if m == 7 {
        "Zbps"@
    } else {
        "Ybps"@
    }
}

/// The byte-size suffix for magnitude index `m`.
pub open spec fn spec_size_suffix(m: nat) -> Seq<char> {
    if m == 0 {
        "B"@
    } else if m == 1 {
        "KB"@
    } else if m == 2 {
        "MB"@
    } else if m == 3 {
        "GB"@
    } else if m == 4 {
        "TB"@
    } else if m == 5 {
        "PB"@
    } else if m == 6 {
        "EB"@
    } else if m == 7 {
        "ZB"@
    } else {
        "YB"@
    }
}

/// The full display of a rate in bits per second.
pub open spec fn spec_rate_string(v: int) -> Seq<char> {
    spec_scaled_digits(v, pow1000(spec_scale_index(v))) + spec_rate_suffix(spec_scale_index(v))
}

/// The full display of a byte count.
pub open spec fn spec_size_string(v: int) -> Seq<char> {
    spec_scaled_digits(v, pow1000(spec_scale_index(v))) + spec_size_suffix(spec_scale_index(v))
}

/// The full display of a duration given in microseconds: milliseconds
/// under the shared precision rule.
pub open spec fn spec_duration_string(micros: int) -> Seq<char> {
    spec_scaled_digits(micros, 1000) + "ms"@
}

/// The divisors grow monotonically and stay within `10^24` up to index 8.
proof fn lemma_pow1000_bounds(m: nat)
    requires
        m <= 8,
    ensures
        pow1000(m) >= 1,
        pow1000(m) <= 1_000_000_000_000_000_000_000_000,
{
    lemma_pow1000_exact();
    if m == 0 {
    } else if m == 1 {
    } else if m == 2 {
    } else if m == 3 {
    } else if m == 4 {
    } else if m == 5 {
    } else if m == 6 {
    } else if m == 7 {
    } else {
    }
}

/// The concrete divisor for each magnitude index.
proof fn lemma_pow1000_exact()
    ensures
        pow1000(0) == 1,
        pow1000(1) == 1000,
        pow1000(2) == 1_000_000,
        pow1000(3) == 1_000_000_000,
        pow1000(4) == 1_000_000_000_000,
        pow1000(5) == 1_000_000_000_000_000,
        pow1000(6) == 1_000_000_000_000_000_000,
        pow1000(7) == 1_000_000_000_000_000_000_000,
        pow1000(8) == 1_000_000_000_000_000_000_000_000,
{
    assert(pow1000(1) == 1000 * pow1000(0));
    assert(pow1000(2) == 1000 * pow1000(1));
    assert(pow1000(3) == 1000 * pow1000(2));
    assert(pow1000(4) == 1000 * pow1000(3));
    assert(pow1000(5) == 1000 * pow1000(4));
    assert(pow1000(6) == 1000 * pow1000(5));
    assert(pow1000(7) == 1000 * pow1000(6));
    assert(pow1000(8) == 1000 * pow1000(7));
}

/// For positive exponents, having magnitude at least `k` is the same as
/// reaching the `k`-th divisor.
proof fn lemma_magnitude_threshold(v: int, k: nat)
    requires
        v >= 0,
        k >= 1,
    ensures
        spec_magnitude(v) >= k <==> v >= pow1000(k),
    decreases k,
{
    vstd::arithmetic::div_mod::lemma_fundamental_div_mod(v, 1000);
    if k == 1 {
    } else {
        let p = pow1000((k - 1) as nat);
        lemma_pow1000_positive((k - 1) as nat);
        if v < 1000 {
            assert(1000 * p >= 1000) by (nonlinear_arith)
                requires
                    p >= 1,
            ;
        } else {
            lemma_magnitude_threshold(v / 1000, (k - 1) as nat);
            assert(v / 1000 >= p <==> v >= 1000 * p) by (nonlinear_arith)
                requires
                    v >= 0 && p >= 1 && v == 1000 * (v / 1000) + v % 1000 && 0 <= v % 1000 < 1000,
            ;
        }
    }
}

/// Every divisor is at least 1.
proof fn lemma_pow1000_positive(m: nat)
    ensures
        pow1000(m) >= 1,
    decreases m,
{
    if m > 0 {
        lemma_pow1000_positive((m - 1) as nat);
        assert(pow1000(m) == 1000 * pow1000((m - 1) as nat));
        assert(1000 * pow1000((m - 1) as nat) >= 1) by (nonlinear_arith)
            requires
                pow1000((m - 1) as nat) >= 1,
        ;
    }
}

/// The single-character string for a decimal digit.
fn digit_str(d: u128) -> (result: &'static str)
    requires
        d < 10,
    ensures
        result@ == seq![spec_digit_char(d as int)],
{
    let s: &'static str = if d == 0 {
        "0"
    } else if d == 1 {
        "1"
    } else if d == 2 {
        "2"
    } else if d == 3 {
        "3"
    } else if d == 4 {
        "4"
    } else if d == 5 {
        "5"
    } else if d == 6 {
        "6"
    } else if d == 7 {
        "7"
    } else if d == 8 {
        "8"
    } else {
        "9"
    };
    proof {
        reveal_strlit("0");
        reveal_strlit("1");
        reveal_strlit("2");
        reveal_strlit("3");
        reveal_strlit("4");
        reveal_strlit("5");
        reveal_strlit("6");
        reveal_strlit("7");
        reveal_strlit("8");
        reveal_strlit("9");
        assert(s@ =~= seq![spec_digit_char(d as int)]);
    }
    s
}

/// The decimal digits of `n`, most significant first.
pub fn decimal_string(n: u128) -> (result: String)
    ensures
        result@ == spec_decimal_digits(n as int),
    decreases n,
{
    if n < 10 {
        String::from_str(digit_str(n))
    } else {
        let mut s = decimal_string(n / 10);
        s.append(digit_str(n % 10));
        proof {
            assert(s@ =~= spec_decimal_digits(n as int));
        }
        s
    }
}

/// Upper bound on divisors accepted by [`scaled_string`]: the divisor of
/// the largest magnitude index.
pub const MAX_DIVISOR: u128 = 1_000_000_000_000_000_000_000_000;

/// Renders `v / d` under the precision rule: two decimal places under 10,
/// one under 100, truncated integer otherwise.
fn scaled_string(v: u128, d: u128) -> (result: String)
    requires
        1 <= d <= MAX_DIVISOR,
    ensures
        result@ == spec_scaled_digits(v as int, d as int),
{
    if v < 10 * d {
        let h: u128 = (200 * v + d) / (2 * d);
        proof {
            assert(h == spec_round_div(100 * (v as int), d as int));
            assert(h <= 1000) by (nonlinear_arith)
                requires
                    d >= 1 && (v as int) < 10 * (d as int) && h == (200 * (v as int) + d) / (2 * (
                    d as int)),
            ;
        }
        let mut s = decimal_string(h / 100);
        s.append(".");
        s.append(digit_str(h / 10 % 10));
        s.append(digit_str(h % 10));
        proof {
            reveal_strlit(".");
            assert(s@ =~= spec_two_decimals(v as int, d as int));
        }
        s
    } else if v < 100 * d {
        let t: u128 = (20 * v + d) / (2 * d);
        proof {
            assert(t == spec_round_div(10 * (v as int), d as int));
        }
        let mut s = decimal_string(t / 10);
        s.append(".");
        s.append(digit_str(t % 10));
        proof {
            reveal_strlit(".");
            assert(s@ =~= spec_one_decimal(v as int, d as int));
        }
        s
    } else {
        decimal_string(v / d)
    }
}

/// Finds the divisor and magnitude index for `v`: the number of times it
/// can be divided by 1000 before falling under 1000, capped at 8.
fn scale_factor(v: u128) -> (result: (u128, usize))
    ensures
        result.1 == spec_scale_index(v as int),
        result.0 == pow1000(result.1 as nat),
        1 <= result.0 <= MAX_DIVISOR,
{
    let mut d: u128 = 1;
    let mut m: usize = 0;
    while m < 8 && v / d >= 1000
        invariant
            m <= 8,
            d >= 1,
            d == pow1000(m as nat),
            m as nat <= spec_magnitude(v as int),
        decreases 8 - m,
    {
        proof {
            lemma_pow1000_bounds(m as nat);
            lemma_pow1000_bounds((m + 1) as nat);
            assert((v as int) / (d as int) >= 1000 ==> v as int >= 1000 * (d as int))
                by (nonlinear_arith)
                requires
                    d >= 1 && v >= 0,
            ;
            lemma_magnitude_threshold(v as int, (m + 1) as nat);
            assert(pow1000((m + 1) as nat) == 1000 * pow1000(m as nat));
        }
        d = d * 1000;
        m = m + 1;
    }
    proof {
        lemma_pow1000_bounds(m as nat);
        if m < 8 {
            assert((v as int) < 1000 * (d as int)) by (nonlinear_arith)
                requires
                    d >= 1 && v >= 0 && (v as int) / (d as int) < 1000,
            ;
            assert(pow1000((m + 1) as nat) == 1000 * pow1000(m as nat));
            lemma_magnitude_threshold(v as int, (m + 1) as nat);
        }
    }
    (d, m)
}

/// The rate suffix for magnitude index `m`.
fn rate_suffix(m: usize) -> (result: &'static str)
    requires
        m <= 8,
    ensures
        result@ == spec_rate_suffix(m as nat),
{
    if m == 0 {
        "bps"
    } else if m == 1 {
        "Kbps"
    } else if m == 2 {
        "Mbps"
    } else if m == 3 {
        "Gbps"
    } else if m == 4 {
        "Tbps"
    } else if m == 5 {
        "Pbps"
    } else if m == 6 {
        "Ebps"
    } else if m == 7 {
        "Zbps"
    } else {
        "Ybps"
    }
}

/// The byte-size suffix for magnitude index `m`.
fn size_suffix(m: usize) -> (result: &'static str)
    requires
        m <= 8,
    ensures
        result@ == spec_size_suffix(m as nat),
{
    if m == 0 {
        "B"
    } else if m == 1 {
        "KB"
    } else if m == 2 {
        "MB"
    } else if m == 3 {
        "GB"
    } else if m == 4 {
        "TB"
    } else if m == 5 {
        "PB"
    } else if m == 6 {
        "EB"
    } else if m == 7 {
        "ZB"
    } else {
        "YB"
    }
}

/// Displays a rate in bits per second with its magnitude suffix.
pub fn bps_to_string(speed: u128) -> (result: String)
    ensures
        result@ == spec_rate_string(speed as int),
{
    let (d, m) = scale_factor(speed);
    let mut s = scaled_string(speed, d);
    s.append(rate_suffix(m));
    s
}

/// Displays a byte count with its magnitude suffix.
pub fn bytes_to_string(size: usize) -> (result: String)
    ensures
        result@ == spec_size_string(size as int),
{
    let v: u128 = size as u128;
    let (d, m) = scale_factor(v);
    let mut s = scaled_string(v, d);
    s.append(size_suffix(m));
    s
}

/// Displays a duration given in microseconds as milliseconds.
pub fn micros_to_string(micros: u128) -> (result: String)
    ensures
        result@ == spec_duration_string(micros as int),
{
    let mut s = scaled_string(micros, 1000);
    s.append("ms");
    proof {
        assert(s@ == spec_scaled_digits(micros as int, 1000) + "ms"@);
    }
    s
}

/// The single-shot upload result: total bytes over the wall-clock time
/// the stream took, displayed as a rate. A zero duration has no defined
/// rate and yields `None`.
pub fn upload_summary(elapsed_micros: u64, total_bytes: u64) -> (result: Option<String>)
    ensures
        result is Some <==> elapsed_micros > 0,
        elapsed_micros > 0 ==> (result matches Some(s) && s@ == spec_rate_string(
            spec_bps(elapsed_micros, total_bytes),
        )),
{
    match calculate_bps(elapsed_micros, total_bytes) {
        Some(bps) => Some(bps_to_string(bps)),
        None => None,
    }
}

} // verus!
