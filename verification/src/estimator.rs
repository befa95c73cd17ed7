//! Pure estimation arithmetic: instantaneous throughput, sample weights,
//! and the weighted online mean that accumulates them.
//!
//! All quantities are integers: durations in microseconds, sizes in bytes,
//! rates in bits per second. Weights are dimensionless scalars; only their
//! ratios matter, so the bandwidth weight is kept in (megabyte x
//! microsecond) units, which preserves sub-second resolution.

use vstd::arithmetic::div_mod::{lemma_div_is_ordered, lemma_div_multiples_vanish};
use vstd::arithmetic::mul::lemma_mul_is_commutative;
use vstd::prelude::*;

verus! {

/// Number of microseconds in one second.
pub open const MICROS_PER_SECOND: u64 = 1_000_000;

/// Bytes per weighting unit: one sample's weight grows by one unit of
/// elapsed time for each megabyte transferred.
pub open const WEIGHT_UNIT_BYTES: u64 = 1_000_000;

/// Instantaneous throughput of one transfer, in bits per second:
/// `size * 8 / elapsed_seconds`, evaluated exactly over integers as
/// `size * 8 * 1_000_000 / elapsed_micros`.
pub open spec fn spec_bps(elapsed_micros: u64, size: u64) -> int
    recommends
        elapsed_micros > 0,
{
    size * 8 * (MICROS_PER_SECOND as int) / (elapsed_micros as int)
}

/// Weight of one bandwidth sample: grows with both the size of the
/// transfer (per megabyte) and how far into the test it arrived.
pub open spec fn spec_bandwidth_weight(elapsed_micros: u64, size: u64) -> int {
    (size as int / (WEIGHT_UNIT_BYTES as int)) * elapsed_micros
}

/// One step of the weighted online mean:
/// `(avg * w + x * wx) / (w + wx)` paired with the new total `w + wx`.
pub open spec fn spec_weighted_update(avg: int, w: int, x: int, wx: int) -> (int, int)
    recommends
        w >= 0,
        wx > 0,
{
    ((avg * w + x * wx) / (w + wx), w + wx)
}

/// Whether one update of the running mean stays within the machine range
/// of the `u128` accumulators.
pub open spec fn spec_update_fits(avg: u128, w: u128, x: u128, wx: u128) -> bool {
    &&& avg * w + x * wx <= u128::MAX
    &&& w + wx <= u128::MAX
}

/// Throughput of one transfer of `size` bytes over `elapsed_micros`
/// microseconds, in bits per second. A zero duration has no defined
/// throughput and yields `None`.
pub fn calculate_bps(elapsed_micros: u64, size: u64) -> (result: Option<u128>)
    ensures
        result is Some <==> elapsed_micros > 0,
        elapsed_micros > 0 ==> result == Some((spec_bps(elapsed_micros, size) as u128)),
{
    if elapsed_micros == 0 {
        None
    } else {
        proof {
            assert((size as u128) * 8 * (MICROS_PER_SECOND as u128) <= u64::MAX as u128 * 8
                * 1_000_000) by (nonlinear_arith)
                requires
                    size <= u64::MAX,
            ;
        }
        let bits: u128 = (size as u128) * 8 * (MICROS_PER_SECOND as u128);
        Some(bits / (elapsed_micros as u128))
    }
}

/// Weight of one bandwidth sample taken `elapsed_micros` after the test
/// began, for a transfer of `size` bytes.
pub fn calculate_bandwidth_weight(elapsed_micros: u64, size: u64) -> (result: u128)
    ensures
        result == spec_bandwidth_weight(elapsed_micros, size),
{
    proof {
        assert((size as u128 / (WEIGHT_UNIT_BYTES as u128)) * (elapsed_micros as u128) <= u64::MAX
            as u128 * u64::MAX) by (nonlinear_arith)
            requires
                size <= u64::MAX && elapsed_micros <= u64::MAX,
        ;
    }
    ((size as u128) / (WEIGHT_UNIT_BYTES as u128)) * (elapsed_micros as u128)
}

/// One-way latency estimate from a measured round trip: half of it.
pub fn latency_sample(round_trip_micros: u64) -> (result: u64)
    ensures
        result == round_trip_micros as int / 2,
{
    round_trip_micros / 2
}

/// Folds one weighted sample into a running mean, returning the new
/// `(average, total_weight)` pair. A zero-weight sample leaves the pair
/// unchanged, so the mean is never a division by zero.
pub fn running_average_update(average: u128, total_weight: u128, value: u128, weight: u128) -> (result:
    (u128, u128))
    requires
        spec_update_fits(average, total_weight, value, weight),
    ensures
        weight == 0 ==> result == (average, total_weight),
        weight > 0 ==> (result.0 as int, result.1 as int) == spec_weighted_update(
            average as int,
            total_weight as int,
            value as int,
            weight as int,
        ),
{
    if weight == 0 {
        (average, total_weight)
    } else {
        ((average * total_weight + value * weight) / (total_weight + weight), total_weight + weight)
    }
}

/// Like [`running_average_update`], but total over all inputs: a sample
/// whose update would leave the machine range of the accumulators yields
/// `None` instead.
pub fn checked_average_update(average: u128, total_weight: u128, value: u128, weight: u128) -> (result:
    Option<(u128, u128)>)
    ensures
        weight == 0 ==> result == Some((average, total_weight)),
        weight > 0 && spec_update_fits(average, total_weight, value, weight) ==> result == Some(
            running_pair(average, total_weight, value, weight),
        ),
        result is None <==> weight > 0 && !spec_update_fits(average, total_weight, value, weight),
{
    if weight == 0 {
        Some((average, total_weight))
    } else {
        let scaled_old = average.checked_mul(total_weight);
        let scaled_new = value.checked_mul(weight);
        match (scaled_old, scaled_new) {
            (Some(a), Some(b)) => match (a.checked_add(b), total_weight.checked_add(weight)) {
                (Some(numerator), Some(denominator)) => Some(
                    (numerator / denominator, denominator),
                ),
                _ => None,
            },
            _ => None,
        }
    }
}

/// The `(average, total_weight)` pair after one in-range positive-weight
/// update, as concrete `u128` values.
pub open spec fn running_pair(avg: u128, w: u128, x: u128, wx: u128) -> (u128, u128)
    recommends
        wx > 0,
        spec_update_fits(avg, w, x, wx),
{
    (((avg * w + x * wx) / (w + wx)) as u128, (w + wx) as u128)
}

/// The total accumulator step the session applies per accepted sample:
/// zero-weight samples and samples whose update would leave the machine
/// range of the accumulators leave the pair unchanged.
pub open spec fn spec_checked_update(avg: u128, w: u128, x: u128, wx: u128) -> (u128, u128) {
    if wx == 0 {
        (avg, w)
    } else if spec_update_fits(avg, w, x, wx) {
        running_pair(avg, w, x, wx)
    } else {
        (avg, w)
    }
}

/// Weighted-mean boundedness, one step: folding a sample from `[lo, hi]`
/// into an average that already lies in `[lo, hi]` keeps it there.
pub proof fn lemma_weighted_update_bounds(avg: int, w: int, x: int, wx: int, lo: int, hi: int)
    requires
        w >= 0,
        wx > 0,
        lo <= avg <= hi,
        lo <= x <= hi,
    ensures
        lo <= spec_weighted_update(avg, w, x, wx).0 <= hi,
{
    let sum = avg * w + x * wx;
    let total = w + wx;
    assert(lo * total <= sum && sum <= hi * total) by (nonlinear_arith)
        requires
            w >= 0 && wx > 0 && lo <= avg <= hi && lo <= x <= hi && sum == avg * w + x * wx
                && total == w + wx,
    ;
    lemma_div_is_ordered(lo * total, sum, total);
    lemma_div_is_ordered(sum, hi * total, total);
    lemma_mul_is_commutative(lo, total);
    lemma_mul_is_commutative(hi, total);
    lemma_div_multiples_vanish(lo, total);
    lemma_div_multiples_vanish(hi, total);
}

/// Weighted-mean boundedness for the accumulator step the session
/// actually applies: starting from the empty accumulator, once any
/// positive-weight sample in `[lo, hi]` has been folded in, the average
/// lies in `[lo, hi]`, and folding further such samples keeps it there.
pub proof fn lemma_checked_update_bounds(avg: u128, w: u128, x: u128, wx: u128, lo: u128, hi: u128)
    requires
        w == 0 ==> avg == 0,
        w > 0 ==> lo <= avg <= hi,
        lo <= x <= hi,
    ensures
        ({
            let (avg2, w2) = spec_checked_update(avg, w, x, wx);
            &&& w2 == 0 ==> avg2 == 0
            &&& w2 > 0 ==> lo <= avg2 <= hi
        }),
{
    if wx > 0 && spec_update_fits(avg, w, x, wx) {
        if w == 0 {
            lemma_mul_is_commutative(x as int, wx as int);
            lemma_div_multiples_vanish(x as int, wx as int);
        } else {
            lemma_weighted_update_bounds(
                avg as int,
                w as int,
                x as int,
                wx as int,
                lo as int,
                hi as int,
            );
        }
    }
}

/// The running mean over a whole sequence of `(value, weight)` samples,
/// starting from the empty accumulator `(0, 0)`. Zero-weight samples are
/// skipped, as [`running_average_update`] skips them.
pub open spec fn spec_fold_samples(samples: Seq<(int, int)>) -> (int, int)
    decreases samples.len(),
{
    if samples.len() == 0 {
        (0, 0)
    } else {
        let (avg, w) = spec_fold_samples(samples.drop_last());
        let (x, wx) = samples.last();
        if wx <= 0 {
            (avg, w)
        } else {
            spec_weighted_update(avg, w, x, wx)
        }
    }
}

/// Weighted-mean boundedness over any sequence of accepted samples: once
/// any positive-weight sample has been folded in, the running average lies
/// between the smallest and the largest sample value; before that it is
/// still the initial zero.
pub proof fn lemma_fold_samples_bounds(samples: Seq<(int, int)>, lo: int, hi: int)
    requires
        forall|i: int| 0 <= i < samples.len() ==> lo <= (#[trigger] samples[i]).0 <= hi,
    ensures
        spec_fold_samples(samples).1 >= 0,
        spec_fold_samples(samples).1 == 0 ==> spec_fold_samples(samples).0 == 0,
        spec_fold_samples(samples).1 > 0 ==> lo <= spec_fold_samples(samples).0 <= hi,
    decreases samples.len(),
{
    if samples.len() > 0 {
        let prefix = samples.drop_last();
        assert(forall|i: int| 0 <= i < prefix.len() ==> lo <= (#[trigger] prefix[i]).0 <= hi);
        lemma_fold_samples_bounds(prefix, lo, hi);
        let (avg, w) = spec_fold_samples(prefix);
        let (x, wx) = samples.last();
        assert(samples[samples.len() - 1] == samples.last());
        if wx > 0 {
            if w == 0 {
                lemma_mul_is_commutative(x, wx);
                lemma_div_multiples_vanish(x, wx);
            } else {
                lemma_weighted_update_bounds(avg, w, x, wx, lo, hi);
            }
        }
    }
}

} // verus!
