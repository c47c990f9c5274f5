//! Streaming band indicator.
//!
//! Feeding a candle window through the streaming update in chronological
//! order and keeping the final values leaves a band over the last `period`
//! closes: their mean, widened by `k` standard deviations each way.  The
//! computation is exact fixed-point arithmetic — mean and population
//! variance by truncating division, the deviation by integer square root —
//! and the final bounds are truncated to the caller's price precision.

use vstd::prelude::*;
use vstd::arithmetic::div_mod::{
    lemma_div_is_ordered, lemma_div_multiples_vanish, lemma_div_pos_is_pos,
};
use crate::dec::{div_tz, trunc_to, Dec, DEC_DP, MAX_UNITS};
use crate::kline::{Candle, KlineWindow};

verus! {

/// Close prices of a candle run, in units.
pub open spec fn closes_of(cs: Seq<Candle>) -> Seq<int> {
    cs.map_values(|c: Candle| c.close@)
}

/// The closes the indicator state retains: the last `period` of them.
pub open spec fn band_window(cs: Seq<Candle>, period: int) -> Seq<int>
    recommends
        period >= 1,
{
    let xs = closes_of(cs);
    if xs.len() <= period {
        xs
    } else {
        xs.subrange(xs.len() - period, xs.len() as int)
    }
}

pub open spec fn sum_seq(xs: Seq<int>) -> int
    decreases xs.len(),
{
    if xs.len() == 0 {
        0
    } else {
        sum_seq(xs.drop_last()) + xs.last()
    }
}

/// Sum of squared deviations from `m`.
pub open spec fn dev_sq_sum(xs: Seq<int>, m: int) -> int
    decreases xs.len(),
{
    if xs.len() == 0 {
        0
    } else {
        dev_sq_sum(xs.drop_last(), m) + (xs.last() - m) * (xs.last() - m)
    }
}

/// Mean with truncating division.
pub open spec fn band_mean(xs: Seq<int>) -> int
    recommends
        xs.len() >= 1,
{
    div_tz(sum_seq(xs), xs.len() as int)
}

/// Population variance with truncating division, in squared units.
pub open spec fn band_var(xs: Seq<int>) -> int
    recommends
        xs.len() >= 1,
{
    div_tz(dev_sq_sum(xs, band_mean(xs)), xs.len() as int)
}

/// Integer square root, rounded down.
pub open spec fn floor_sqrt(v: int) -> int
    decreases
            (if v >= 0 {
                v
            } else {
                0
            }),
{
    if v <= 0 {
        0
    } else {
        let p = floor_sqrt(v - 1);
        if (p + 1) * (p + 1) <= v {
            p + 1
        } else {
            p
        }
    }
}

pub proof fn lemma_floor_sqrt(v: int)
    requires
        v >= 0,
    ensures
        floor_sqrt(v) >= 0,
        floor_sqrt(v) * floor_sqrt(v) <= v,
        v < (floor_sqrt(v) + 1) * (floor_sqrt(v) + 1),
    decreases v,
{
    if v > 0 {
        lemma_floor_sqrt(v - 1);
        let p = floor_sqrt(v - 1);
        if (p + 1) * (p + 1) <= v {
            assert(v < (p + 2) * (p + 2)) by (nonlinear_arith)
                requires
                    p >= 0,
                    v - 1 < (p + 1) * (p + 1),
                    (p + 1) * (p + 1) <= v,
            ;
        }
    }
}

/// A floor square root is pinned by its two inequalities.
pub proof fn lemma_floor_sqrt_unique(v: int, r: int)
    requires
        v >= 0,
        r >= 0,
        r * r <= v,
        v < (r + 1) * (r + 1),
    ensures
        r == floor_sqrt(v),
{
    lemma_floor_sqrt(v);
    let f = floor_sqrt(v);
    assert(r == f) by (nonlinear_arith)
        requires
            r >= 0,
            f >= 0,
            r * r <= v,
            v < (r + 1) * (r + 1),
            f * f <= v,
            v < (f + 1) * (f + 1),
    ;
}

/// Integer square root by bisection.
pub fn isqrt_u128(v: u128) -> (r: u128)
    ensures
        r == floor_sqrt(v as int),
{
    let mut lo: u128 = 0;
    let mut hi: u128 = 0xFFFF_FFFF_FFFF_FFFF;
    proof {
        assert((hi + 1) * (hi + 1) > u128::MAX) by (nonlinear_arith)
            requires
                hi == 0xFFFF_FFFF_FFFF_FFFFu128,
        ;
    }
    while lo < hi
        invariant
            lo <= hi,
            hi <= 0xFFFF_FFFF_FFFF_FFFF,
            lo * lo <= v,
            (v as int) < (hi + 1) * (hi + 1),
        decreases hi - lo,
    {
        let mid: u128 = lo + (hi - lo + 1) / 2;
        proof {
            assert(lo < mid <= hi);
            assert(mid * mid <= u128::MAX) by (nonlinear_arith)
                requires
                    mid <= 0xFFFF_FFFF_FFFF_FFFF,
            ;
        }
        if mid * mid <= v {
            lo = mid;
        } else {
            hi = mid - 1;
        }
    }
    proof {
        lemma_floor_sqrt_unique(v as int, lo as int);
    }
    lo
}

proof fn lemma_sum_seq_bounds(xs: Seq<int>, m: int)
    requires
        m >= 0,
        forall|i: int| 0 <= i < xs.len() ==> 0 <= #[trigger] xs[i] <= m,
    ensures
        0 <= sum_seq(xs) <= xs.len() * m,
    decreases xs.len(),
{
    if xs.len() == 0 {
        assert(0 * m == 0) by (nonlinear_arith);
    } else {
        let pre = xs.drop_last();
        assert(forall|i: int| 0 <= i < pre.len() ==> 0 <= #[trigger] pre[i] <= m);
        lemma_sum_seq_bounds(pre, m);
        assert(pre.len() * m + m == xs.len() * m) by (nonlinear_arith)
            requires
                pre.len() == xs.len() - 1,
        ;
    }
}

proof fn lemma_dev_sq_sum_bounds(xs: Seq<int>, m: int, b: int)
    requires
        b >= 0,
        forall|i: int| 0 <= i < xs.len() ==> -b <= #[trigger] xs[i] - m <= b,
    ensures
        0 <= dev_sq_sum(xs, m) <= xs.len() * (b * b),
    decreases xs.len(),
{
    if xs.len() == 0 {
        assert(0 * (b * b) == 0) by (nonlinear_arith);
    } else {
        let pre = xs.drop_last();
        assert(forall|i: int| 0 <= i < pre.len() ==> -b <= #[trigger] pre[i] - m <= b);
        lemma_dev_sq_sum_bounds(pre, m, b);
        let d = xs.last() - m;
        assert(0 <= d * d <= b * b) by (nonlinear_arith)
            requires
                -b <= d <= b,
        ;
        assert(pre.len() * (b * b) + b * b == xs.len() * (b * b)) by (nonlinear_arith)
            requires
                pre.len() == xs.len() - 1,
        ;
    }
}

/// Final upper and lower band values, truncated to the price precision.
#[derive(Clone, Copy, Debug)]
pub struct BandQuote {
    pub upper: Dec,
    pub lower: Dec,
}

/// Band of a populated window: mean of the last `period` closes, plus and
/// minus `k` deviations, truncated to `price_dp` places.  An empty window
/// has no band.
pub fn band_of_window(w: &KlineWindow, period: usize, k: u32, price_dp: u32) -> (r: Option<
    BandQuote,
>)
    requires
        w.wf(),
        1 <= period <= 30,
        k <= 10,
        price_dp <= DEC_DP,
    ensures
        r is Some <==> w@.len() > 0,
        r matches Some(b) ==> ({
            let xs = band_window(w@, period as int);
            let m = band_mean(xs);
            let sd = floor_sqrt(band_var(xs));
            &&& b.upper@ == trunc_to(m + k * sd, price_dp as nat)
            &&& b.lower@ == trunc_to(m - k * sd, price_dp as nat)
        }),
{
    let candles = w.candles();
    let len = candles.len();
    if len == 0 {
        return None;
    }
    let n: usize = if len <= period {
        len
    } else {
        period
    };
    let start: usize = len - n;
    let ghost xs = band_window(w@, period as int);
    proof {
        assert(xs.len() == n);
        assert forall|j: int| 0 <= j < n implies xs[j] == candles@[start + j].close@ by {
            assert(closes_of(w@)[start + j] == candles@[start + j].close@);
        }
        assert forall|j: int| 0 <= j < n implies 0 <= #[trigger] xs[j] <= MAX_UNITS by {
            assert(candles@[start + j].wf());
        }
    }
    let mut sum: i128 = 0;
    let mut j: usize = 0;
    proof {
        assert(xs.subrange(0, 0) =~= Seq::<int>::empty());
        lemma_sum_seq_bounds(xs, MAX_UNITS as int);
    }
    while j < n
        invariant
            j <= n,
            1 <= n <= 30,
            n <= len == candles@.len(),
            start == len - n,
            xs.len() == n,
            forall|q: int| 0 <= q < n ==> xs[q] == candles@[start + q].close@,
            forall|q: int| 0 <= q < n ==> 0 <= #[trigger] xs[q] <= MAX_UNITS,
            sum == sum_seq(xs.subrange(0, j as int)),
            0 <= sum <= j * MAX_UNITS,
        decreases n - j,
    {
        proof {
            assert(xs.subrange(0, j + 1).drop_last() =~= xs.subrange(0, j as int));
            assert(xs.subrange(0, j + 1).last() == xs[j as int]);
            assert(sum + xs[j as int] <= j * MAX_UNITS + MAX_UNITS);
            assert(j * MAX_UNITS + MAX_UNITS == (j + 1) * MAX_UNITS) by (nonlinear_arith);
        }
        sum = sum + candles[start + j].close.units;
        j = j + 1;
    }
    proof {
        assert(xs.subrange(0, n as int) =~= xs);
        assert(sum <= n * MAX_UNITS <= 30 * MAX_UNITS) by (nonlinear_arith)
            requires
                sum <= n * MAX_UNITS,
                1 <= n <= 30,
        ;
    }
    let mean: i128 = crate::dec::div_units(sum, n as i128);
    proof {
        assert(mean == band_mean(xs));
        // The mean of values in [0, MAX_UNITS] stays in [0, MAX_UNITS].
        lemma_div_pos_is_pos(sum as int, n as int);
        lemma_div_is_ordered(sum as int, n * MAX_UNITS, n as int);
        lemma_div_multiples_vanish(MAX_UNITS as int, n as int);
        assert(0 <= mean <= MAX_UNITS);
        lemma_dev_sq_sum_bounds(xs, mean as int, MAX_UNITS as int);
    }
    let mut dev: i128 = 0;
    let mut j2: usize = 0;
    proof {
        assert(xs.subrange(0, 0) =~= Seq::<int>::empty());
    }
    while j2 < n
        invariant
            j2 <= n,
            1 <= n <= 30,
            n <= len == candles@.len(),
            start == len - n,
            xs.len() == n,
            0 <= mean <= MAX_UNITS,
            forall|q: int| 0 <= q < n ==> xs[q] == candles@[start + q].close@,
            forall|q: int| 0 <= q < n ==> 0 <= #[trigger] xs[q] <= MAX_UNITS,
            dev == dev_sq_sum(xs.subrange(0, j2 as int), mean as int),
            0 <= dev <= j2 * (MAX_UNITS * MAX_UNITS),
        decreases n - j2,
    {
        proof {
            assert(xs.subrange(0, j2 + 1).drop_last() =~= xs.subrange(0, j2 as int));
            assert(xs.subrange(0, j2 + 1).last() == xs[j2 as int]);
        }
        let d: i128 = candles[start + j2].close.units - mean;
        proof {
            assert(d == xs[j2 as int] - mean);
            assert(0 <= d * d <= MAX_UNITS * MAX_UNITS) by (nonlinear_arith)
                requires
                    -MAX_UNITS <= d <= MAX_UNITS,
            ;
            assert(j2 * (MAX_UNITS * MAX_UNITS) + MAX_UNITS * MAX_UNITS == (j2 + 1) * (MAX_UNITS
                * MAX_UNITS)) by (nonlinear_arith);
            assert((j2 + 1) * (MAX_UNITS * MAX_UNITS) <= 30 * (MAX_UNITS * MAX_UNITS)) by (
            nonlinear_arith)
                requires
                    j2 + 1 <= 30,
            ;
        }
        dev = dev + d * d;
        j2 = j2 + 1;
    }
    proof {
        assert(xs.subrange(0, n as int) =~= xs);
        assert(dev <= n * (MAX_UNITS * MAX_UNITS) <= 30 * (MAX_UNITS * MAX_UNITS)) by (
        nonlinear_arith)
            requires
                dev <= n * (MAX_UNITS * MAX_UNITS),
                1 <= n <= 30,
        ;
    }
    let variance: i128 = crate::dec::div_units(dev, n as i128);
    proof {
        assert(variance == band_var(xs));
        lemma_div_pos_is_pos(dev as int, n as int);
        crate::dec::lemma_div_tz_bounds(dev as int, n as int);
    }
    let sd: u128 = isqrt_u128(variance as u128);
    proof {
        lemma_floor_sqrt(variance as int);
        assert(sd * sd <= variance);
        // sd is at most 2^64, so k * sd stays far inside i128.
        assert(sd <= 0xFFFF_FFFF_FFFF_FFFF_FFFF) by (nonlinear_arith)
            requires
                sd * sd <= variance,
                variance <= 30 * (MAX_UNITS * MAX_UNITS),
                sd >= 0,
        ;
    }
    proof {
        assert(0 <= (k as i128) * (sd as i128) <= 10 * 0xFFFF_FFFF_FFFF_FFFF_FFFFi128) by (
        nonlinear_arith)
            requires
                0 <= (k as i128) <= 10,
                0 <= (sd as i128) <= 0xFFFF_FFFF_FFFF_FFFF_FFFFi128,
        ;
    }
    let spread: i128 = (k as i128) * (sd as i128);
    let upper = Dec::from_units(mean + spread).trunc_dp(price_dp);
    let lower = Dec::from_units(mean - spread).trunc_dp(price_dp);
    Some(BandQuote { upper, lower })
}

} // verus!
