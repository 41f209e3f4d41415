//! The rolling Bollinger-band indicator.
//!
//! Over the last `days` candles of a window: the simple moving average of
//! the closes, the population standard deviation (integer square root of the
//! mean squared deviation), and the band `sma ± width * deviation`. All of
//! it exact fixed-point arithmetic; each function's contract pins its result
//! as a function of the window's closes.

use vstd::prelude::*;

use crate::arith::{
    is_isqrt, isqrt, isqrt_of, lemma_div_lower, lemma_div_upper, mul_div, PRICE_MAX, SCALE,
    WIDTH_MAX, WINDOW_MAX,
};
use crate::types::{all_klines_valid, valid_kline, BollingerBand, Kline};

verus! {

/// Sum of the close prices of a candle sequence.
pub open spec fn sum_closes(s: Seq<Kline>) -> int
    decreases s.len(),
{
    if s.len() == 0 {
        0
    } else {
        sum_closes(s.drop_last()) + s.last().close
    }
}

/// The simple moving average of the closes: their sum divided by the length
/// (meaningful only for a non-empty sequence).
pub open spec fn sma_of(s: Seq<Kline>) -> int {
    sum_closes(s) / (s.len() as int)
}

/// Sum of the squared deviations of the closes from `m`.
pub open spec fn sum_sq_dev(s: Seq<Kline>, m: int) -> int
    decreases s.len(),
{
    if s.len() == 0 {
        0
    } else {
        sum_sq_dev(s.drop_last(), m) + (s.last().close - m) * (s.last().close - m)
    }
}

/// The mean squared deviation of the closes from their average.
pub open spec fn msd_of(s: Seq<Kline>) -> int {
    sum_sq_dev(s, sma_of(s)) / (s.len() as int)
}

/// The population standard deviation of the closes: the integer square root
/// of the mean squared deviation.
pub open spec fn dev_of(s: Seq<Kline>) -> int {
    isqrt_of(msd_of(s))
}

/// The scaled half-width of the band: `width * dev / SCALE`.
pub open spec fn band_delta(width: int, dev: int) -> int {
    width * dev / (SCALE as int)
}

/// Upper Bollinger bound of a window.
pub open spec fn band_up(s: Seq<Kline>, width: int) -> int {
    sma_of(s) + band_delta(width, dev_of(s))
}

/// Lower Bollinger bound of a window.
pub open spec fn band_down(s: Seq<Kline>, width: int) -> int {
    sma_of(s) - band_delta(width, dev_of(s))
}

/// The sum of valid closes lies between the length and `len * PRICE_MAX`.
pub proof fn lemma_sum_closes_bounds(s: Seq<Kline>)
    requires
        all_klines_valid(s),
    ensures
        s.len() <= sum_closes(s) <= s.len() * (PRICE_MAX as int),
    decreases s.len(),
{
    if s.len() > 0 {
        assert forall|i: int| 0 <= i < s.drop_last().len() implies valid_kline(
            #[trigger] s.drop_last()[i],
        ) by {
            assert(s.drop_last()[i] == s[i]);
        }
        lemma_sum_closes_bounds(s.drop_last());
        assert(valid_kline(s.last()));
    }
}

/// The sum of squared deviations from an in-range mean is bounded by
/// `len * PRICE_MAX * PRICE_MAX`.
pub proof fn lemma_sum_sq_dev_bounds(s: Seq<Kline>, m: int)
    requires
        all_klines_valid(s),
        0 <= m <= PRICE_MAX,
    ensures
        0 <= sum_sq_dev(s, m) <= s.len() * (PRICE_MAX as int) * (PRICE_MAX as int),
    decreases s.len(),
{
    if s.len() > 0 {
        assert forall|i: int| 0 <= i < s.drop_last().len() implies valid_kline(
            #[trigger] s.drop_last()[i],
        ) by {
            assert(s.drop_last()[i] == s[i]);
        }
        lemma_sum_sq_dev_bounds(s.drop_last(), m);
        assert(valid_kline(s.last()));
        let d: int = s.last().close - m;
        assert(0 <= d * d <= (PRICE_MAX as int) * (PRICE_MAX as int)) by (nonlinear_arith)
            requires
                -(PRICE_MAX as int) <= d <= PRICE_MAX as int,
        ;
        assert(s.len() * (PRICE_MAX as int) * (PRICE_MAX as int) == (s.len() - 1) * (
        PRICE_MAX as int) * (PRICE_MAX as int) + (PRICE_MAX as int) * (PRICE_MAX as int))
            by (nonlinear_arith);
    }
}

/// Simple moving average over the last `days` candles; absent while fewer
/// than `days` candles are available.
pub fn sma(days: usize, klines: &Vec<Kline>) -> (r: Option<u64>)
    requires
        1 <= days <= WINDOW_MAX,
        all_klines_valid(klines@),
    ensures
        match r {
            Some(v) => {
                &&& klines@.len() >= days
                &&& v == sma_of(klines@.subrange(klines@.len() - days, klines@.len() as int))
                &&& 1 <= v <= PRICE_MAX
            },
            None => klines@.len() < days,
        },
{
    if klines.len() < days {
        return None;
    }
    let start: usize = klines.len() - days;
    let ghost w = klines@.subrange(start as int, klines@.len() as int);
    let mut sum: u128 = 0;
    let mut i: usize = start;
    while i < klines.len()
        invariant
            start <= i <= klines@.len(),
            start == klines@.len() - days,
            all_klines_valid(klines@),
            w == klines@.subrange(start as int, klines@.len() as int),
            sum == sum_closes(klines@.subrange(start as int, i as int)),
            sum <= (i - start) * (PRICE_MAX as int),
        decreases klines@.len() - i,
    {
        let ghost pre = klines@.subrange(start as int, i as int);
        let ghost post = klines@.subrange(start as int, i + 1 as int);
        proof {
            assert(post.drop_last() =~= pre);
            assert(post.last() == klines@[i as int]);
            assert(valid_kline(klines@[i as int]));
        }
        sum = sum + (klines[i].close as u128);
        i = i + 1;
    }
    proof {
        assert(klines@.subrange(start as int, i as int) =~= w);
        lemma_sum_closes_bounds(w);
        lemma_div_upper(sum as int, PRICE_MAX as int, days as int);
        lemma_div_lower(sum as int, 1, days as int);
        assert(w.len() * (PRICE_MAX as int) == days * (PRICE_MAX as int));
    }
    let q: u128 = sum / (days as u128);
    Some(q as u64)
}

/// Population standard deviation of the closes over the last `days`
/// candles; absent while fewer than `days` candles are available.
pub fn deviation(days: usize, klines: &Vec<Kline>) -> (r: Option<u64>)
    requires
        1 <= days <= WINDOW_MAX,
        all_klines_valid(klines@),
    ensures
        match r {
            Some(v) => {
                &&& klines@.len() >= days
                &&& v == dev_of(klines@.subrange(klines@.len() - days, klines@.len() as int))
                &&& is_isqrt(
                    msd_of(klines@.subrange(klines@.len() - days, klines@.len() as int)),
                    v as int,
                )
                &&& v <= PRICE_MAX
            },
            None => klines@.len() < days,
        },
{
    let m_opt: Option<u64> = sma(days, klines);
    if m_opt.is_none() {
        return None;
    }
    let m: u64 = m_opt.unwrap();
    let start: usize = klines.len() - days;
    let ghost w = klines@.subrange(start as int, klines@.len() as int);
    let mut acc: u128 = 0;
    let mut i: usize = start;
    while i < klines.len()
        invariant
            start <= i <= klines@.len(),
            start == klines@.len() - days,
            1 <= days <= WINDOW_MAX,
            all_klines_valid(klines@),
            w == klines@.subrange(start as int, klines@.len() as int),
            m <= PRICE_MAX,
            acc == sum_sq_dev(klines@.subrange(start as int, i as int), m as int),
            acc <= (i - start) * (PRICE_MAX as int) * (PRICE_MAX as int),
        decreases klines@.len() - i,
    {
        let ghost pre = klines@.subrange(start as int, i as int);
        let ghost post = klines@.subrange(start as int, i + 1 as int);
        proof {
            assert(post.drop_last() =~= pre);
            assert(post.last() == klines@[i as int]);
            assert(valid_kline(klines@[i as int]));
        }
        let c: u64 = klines[i].close;
        let d: u64 = if c >= m {
            c - m
        } else {
            m - c
        };
        proof {
            assert((d as int) * (d as int) == (c - m) * (c - m)) by (nonlinear_arith)
                requires
                    d == if c >= m {
                        c - m
                    } else {
                        m - c
                    },
            ;
            assert((d as int) * (d as int) <= (PRICE_MAX as int) * (PRICE_MAX as int))
                by (nonlinear_arith)
                requires
                    0 <= d <= PRICE_MAX,
            ;
            assert((i + 1 - start) * (PRICE_MAX as int) * (PRICE_MAX as int) == (i - start) * (
            PRICE_MAX as int) * (PRICE_MAX as int) + (PRICE_MAX as int) * (PRICE_MAX as int))
                by (nonlinear_arith);
        }
        let sq: u128 = (d as u128) * (d as u128);
        acc = acc + sq;
        i = i + 1;
    }
    proof {
        assert(klines@.subrange(start as int, i as int) =~= w);
        assert(sma_of(w) == m);
        assert(acc <= days * (PRICE_MAX as int) * (PRICE_MAX as int));
        lemma_div_upper(
            acc as int,
            (PRICE_MAX as int) * (PRICE_MAX as int),
            days as int,
        );
    }
    let msd: u128 = acc / (days as u128);
    let r: u64 = isqrt(msd);
    Some(r)
}

/// The Bollinger band over the last `days` candles: average, deviation and
/// the `sma ± width * dev / SCALE` envelope, timestamped at the window's
/// most recent candle. Absent while fewer than `days` candles are
/// available.
pub fn bollinger_band(days: usize, width: u64, klines: &Vec<Kline>) -> (r: Option<BollingerBand>)
    requires
        1 <= days <= WINDOW_MAX,
        width <= WIDTH_MAX,
        all_klines_valid(klines@),
    ensures
        match r {
            Some(b) => {
                &&& klines@.len() >= days
                &&& b.sma == sma_of(klines@.subrange(klines@.len() - days, klines@.len() as int))
                &&& b.dev == dev_of(klines@.subrange(klines@.len() - days, klines@.len() as int))
                &&& b.up == band_up(
                    klines@.subrange(klines@.len() - days, klines@.len() as int),
                    width as int,
                )
                &&& b.down == band_down(
                    klines@.subrange(klines@.len() - days, klines@.len() as int),
                    width as int,
                )
                &&& b.close_time == klines@.last().close_time
                &&& 1 <= b.sma <= PRICE_MAX
                &&& b.dev <= PRICE_MAX
            },
            None => klines@.len() < days,
        },
{
    let sma_opt: Option<u64> = sma(days, klines);
    let dev_opt: Option<u64> = deviation(days, klines);
    if sma_opt.is_some() && dev_opt.is_some() {
        let sm: u64 = sma_opt.unwrap();
        let dv: u64 = dev_opt.unwrap();
        let wd128: u128 = mul_div(width, dv, SCALE);
        proof {
            assert((width as int) * (dv as int) <= (WIDTH_MAX as int) * (PRICE_MAX as int))
                by (nonlinear_arith)
                requires
                    0 <= width <= WIDTH_MAX,
                    0 <= dv <= PRICE_MAX,
            ;
            lemma_div_upper(
                (width as int) * (dv as int),
                (WIDTH_MAX as int) * (PRICE_MAX as int) / (SCALE as int),
                SCALE as int,
            );
        }
        let wd: i64 = wd128 as i64;
        let ts: i64 = klines[klines.len() - 1].close_time;
        Some(
            BollingerBand {
                up: (sm as i64) + wd,
                sma: sm,
                down: (sm as i64) - wd,
                dev: dv,
                close_time: ts,
            },
        )
    } else {
        None
    }
}

} // verus!
