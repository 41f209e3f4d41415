//! Fixed-point arithmetic for the engine.
//!
//! Prices, percentages, rates, fractions, sizes and balances are integers
//! scaled by `SCALE` (four decimal places). All engine arithmetic is staged
//! through 128-bit intermediates, so each operation here is exact and its
//! result is pinned by the contract.

use vstd::prelude::*;

verus! {

/// Fixed-point scale: one unit of price, rate or size is `SCALE` ticks.
pub const SCALE: u64 = 10_000;

/// Largest admissible scaled price (10^11 price units).
pub const PRICE_MAX: u64 = 1_000_000_000_000_000;

/// Largest admissible scaled position size.
pub const SIZE_MAX: u64 = 1_000_000_000_000_000;

/// Largest admissible magnitude for scaled cash amounts (balances, fees,
/// profits and their running totals).
pub const CASH_MAX: i64 = 100_000_000_000_000_000;

/// Largest admissible leverage multiplier (unscaled).
pub const LEVERAGE_MAX: u64 = 1_000;

/// Largest admissible scaled band width (100 deviations).
pub const WIDTH_MAX: u64 = 1_000_000;

/// Largest admissible indicator window length.
pub const WINDOW_MAX: usize = 1_000_000;

/// Floor of `a * b / d`, exact over the naturals.
pub fn mul_div(a: u64, b: u64, d: u64) -> (r: u128)
    requires
        d >= 1,
    ensures
        r == a * b / (d as int),
{
    proof {
        assert((a as u128) * (b as u128) <= u128::MAX) by (nonlinear_arith)
            requires
                a <= u64::MAX,
                b <= u64::MAX,
        ;
    }
    let p: u128 = (a as u128) * (b as u128);
    p / (d as u128)
}

/// `amount * pct / SCALE`, the scaled fraction `pct` of `amount`; never more
/// than `amount` itself because `pct <= SCALE`.
pub fn scale_fraction(amount: u64, pct: u64) -> (r: u64)
    requires
        pct <= SCALE,
    ensures
        r == amount * pct / (SCALE as int),
        r <= amount,
{
    let q: u128 = mul_div(amount, pct, SCALE);
    proof {
        assert(amount * pct / (SCALE as int) <= amount) by (nonlinear_arith)
            requires
                pct <= SCALE,
                0 <= amount,
                SCALE == 10_000,
        ;
    }
    q as u64
}

/// A quotient stays below any bound whose product with the divisor covers
/// the dividend.
pub proof fn lemma_div_upper(a: int, b: int, c: int)
    requires
        0 <= a,
        1 <= c,
        a <= b * c,
    ensures
        a / c <= b,
{
    vstd::arithmetic::div_mod::lemma_div_is_ordered(a, b * c, c);
    assert(b * c == c * b) by (nonlinear_arith);
    vstd::arithmetic::div_mod::lemma_div_multiples_vanish(b, c);
}

/// A quotient stays above any bound whose product with the divisor fits
/// under the dividend.
pub proof fn lemma_div_lower(a: int, b: int, c: int)
    requires
        1 <= c,
        b * c <= a,
    ensures
        b <= a / c,
{
    vstd::arithmetic::div_mod::lemma_div_is_ordered(b * c, a, c);
    assert(b * c == c * b) by (nonlinear_arith);
    vstd::arithmetic::div_mod::lemma_div_multiples_vanish(b, c);
}

/// `r` is the integer square root of `n`.
pub open spec fn is_isqrt(n: int, r: int) -> bool {
    0 <= r && r * r <= n && n < (r + 1) * (r + 1)
}

/// The integer square root of `n`, as a value (unique by
/// `lemma_isqrt_unique`, existing by `lemma_isqrt_exists`).
pub open spec fn isqrt_of(n: int) -> int {
    choose|r: int| is_isqrt(n, r)
}

/// Any nonnegative integer has an integer square root.
pub proof fn lemma_isqrt_exists(n: nat)
    ensures
        exists|r: int| is_isqrt(n as int, r),
    decreases n,
{
    if n == 0 {
        assert(is_isqrt(0, 0));
    } else {
        lemma_isqrt_exists((n - 1) as nat);
        let p: int = choose|r: int| #[trigger] is_isqrt(n - 1, r);
        if n < (p + 1) * (p + 1) {
            assert(is_isqrt(n as int, p));
        } else {
            assert((p + 1) * (p + 1) == n) by (nonlinear_arith)
                requires
                    0 <= p,
                    p * p <= n - 1,
                    n - 1 < (p + 1) * (p + 1),
                    (p + 1) * (p + 1) <= n,
            ;
            assert(n < (p + 2) * (p + 2)) by (nonlinear_arith)
                requires
                    0 <= p,
                    (p + 1) * (p + 1) == n,
            ;
            assert(is_isqrt(n as int, p + 1));
        }
    }
}

/// The integer square root is unique.
pub proof fn lemma_isqrt_unique(n: int, a: int, b: int)
    requires
        is_isqrt(n, a),
        is_isqrt(n, b),
    ensures
        a == b,
{
    assert(a == b) by (nonlinear_arith)
        requires
            0 <= a,
            0 <= b,
            a * a <= n,
            n < (a + 1) * (a + 1),
            b * b <= n,
            n < (b + 1) * (b + 1),
    ;
}

/// Integer square root by bisection, exact for every `n` up to the square of
/// `PRICE_MAX`.
pub fn isqrt(n: u128) -> (r: u64)
    requires
        n <= (PRICE_MAX as int) * (PRICE_MAX as int),
    ensures
        is_isqrt(n as int, r as int),
        r == isqrt_of(n as int),
        r <= PRICE_MAX,
{
    let mut lo: u128 = 0;
    let mut hi: u128 = (PRICE_MAX as u128) + 1;
    proof {
        assert(n < ((PRICE_MAX + 1) as int) * ((PRICE_MAX + 1) as int)) by (nonlinear_arith)
            requires
                n <= (PRICE_MAX as int) * (PRICE_MAX as int),
                PRICE_MAX == 1_000_000_000_000_000,
        ;
    }
    while lo + 1 < hi
        invariant
            0 <= lo < hi <= (PRICE_MAX as u128) + 1,
            (lo as int) * (lo as int) <= n,
            n < (hi as int) * (hi as int),
        decreases hi - lo,
    {
        let mid: u128 = lo + (hi - lo) / 2;
        proof {
            assert((mid as int) * (mid as int) <= u128::MAX) by (nonlinear_arith)
                requires
                    0 <= mid <= (PRICE_MAX as int) + 1,
                    PRICE_MAX == 1_000_000_000_000_000,
            ;
        }
        if mid * mid <= n {
            lo = mid;
        } else {
            hi = mid;
        }
    }
    proof {
        assert(is_isqrt(n as int, lo as int));
        lemma_isqrt_exists(n as nat);
        lemma_isqrt_unique(n as int, lo as int, isqrt_of(n as int));
        assert(lo <= PRICE_MAX) by (nonlinear_arith)
            requires
                (lo as int) * (lo as int) <= n,
                n <= (PRICE_MAX as int) * (PRICE_MAX as int),
                0 <= lo,
                PRICE_MAX == 1_000_000_000_000_000,
        ;
    }
    lo as u64
}

} // verus!
