//! Integer rounding and clamping used throughout the display pipeline.
//!
//! Sensor magnitudes travel through the library as integer tenths, so every
//! place a coarser value is needed (whole degrees, a 1-10 bar level, an
//! average over several sensors) rounds with `round_div`: the nearest
//! integer to `n / d`, halves rounded away from zero.

use vstd::prelude::*;
use vstd::arithmetic::div_mod::{
    lemma_fundamental_div_mod, lemma_div_multiples_vanish_fancy, lemma_div_is_ordered,
    lemma_div_pos_is_pos, lemma_div_nonincreasing, lemma_mod_bound,
};
use vstd::arithmetic::mul::{lemma_mul_inequality, lemma_mul_unary_negation};

verus! {

/// Nearest integer to `n / d` for `d > 0`, halves rounded away from zero
/// (the rounding `f32::round` performs, carried over to integer tenths).
pub open spec fn round_div(n: int, d: int) -> int {
    if n >= 0 {
        (n + d / 2) / d
    } else {
        -((-n + d / 2) / d)
    }
}

/// `x` forced into the interval `[lo, hi]`.
pub open spec fn spec_clamp(x: int, lo: int, hi: int) -> int {
    if x < lo {
        lo
    } else if x > hi {
        hi
    } else {
        x
    }
}

/// Rounding division for nonnegative operands.
pub fn round_div_u64(n: u64, d: u64) -> (r: u64)
    requires
        0 < d,
        n + d / 2 <= u64::MAX,
    ensures
        r == round_div(n as int, d as int),
{
    (n + d / 2) / d
}

/// Rounding division for a signed numerand; the divisor stays positive.
pub fn round_div_i64(n: i64, d: u64) -> (r: i64)
    requires
        0 < d <= 0x4000_0000_0000_0000,
        -0x4000_0000_0000_0000 <= n <= 0x4000_0000_0000_0000,
    ensures
        r == round_div(n as int, d as int),
{
    if n >= 0 {
        let q: u64 = round_div_u64(n as u64, d);
        proof {
            lemma_div_nonincreasing(n + d / 2, d as int);
        }
        q as i64
    } else {
        let m: u64 = (-n) as u64;
        let q: u64 = round_div_u64(m, d);
        proof {
            lemma_div_nonincreasing(m + d / 2, d as int);
        }
        -(q as i64)
    }
}

/// The rounded multiple lands within half a divisor of the numerand:
/// `|d * round_div(n, d) - n| <= d / 2`.
pub proof fn lemma_round_div_error(n: int, d: int)
    requires
        0 < d,
    ensures
        -(d / 2) <= d * round_div(n, d) - n <= d / 2,
{
    if n >= 0 {
        let q = (n + d / 2) / d;
        lemma_fundamental_div_mod(n + d / 2, d);
        lemma_mod_bound(n + d / 2, d);
        assert(d * q - n == d / 2 - ((n + d / 2) % d));
    } else {
        let m = -n;
        let q = (m + d / 2) / d;
        lemma_fundamental_div_mod(m + d / 2, d);
        lemma_mod_bound(m + d / 2, d);
        assert(d * q - m == d / 2 - ((m + d / 2) % d));
        lemma_mul_unary_negation(d, q);
        assert(d * round_div(n, d) - n == -(d * q - m));
    }
}

/// A numerand within `(d-1)/2` of the multiple `d * k` rounds exactly to `k`.
pub proof fn lemma_round_div_exact(n: int, d: int, k: int)
    requires
        0 < d,
        -((d - 1) / 2) <= n - d * k <= (d - 1) / 2,
    ensures
        round_div(n, d) == k,
{
    let h = d / 2;
    let e = n - d * k;
    assert(h >= (d - 1) / 2);
    assert((d - 1) / 2 + h == d - 1);
    if n >= 0 {
        if k < 0 {
            lemma_mul_inequality(k, -1, d);
        }
        assert(k >= 0);
        assert(n + h == d * k + (e + h));
        assert(0 <= e + h < d);
        lemma_div_multiples_vanish_fancy(k, e + h, d);
        assert((d * k + (e + h)) / d == k);
    } else {
        let m = -n;
        if -k < 0 {
            lemma_mul_inequality(-k, -1, d);
        }
        lemma_mul_unary_negation(d, k);
        assert(m == d * (-k) + (-e));
        assert(-k >= 0);
        assert(m + h == d * (-k) + (h - e));
        assert(0 <= h - e < d);
        lemma_div_multiples_vanish_fancy(-k, h - e, d);
        assert((d * (-k) + (h - e)) / d == -k);
    }
}

/// A numerand bounded by `d * b` in magnitude rounds to at most `b` in
/// magnitude; this is how every rounded quantity is shown to fit its
/// machine integer.
pub proof fn lemma_round_div_bound(n: int, d: int, b: int)
    requires
        0 < d,
        0 <= b,
        -(d * b) <= n <= d * b,
    ensures
        -b <= round_div(n, d) <= b,
{
    let h = d / 2;
    if n >= 0 {
        lemma_div_pos_is_pos(n + h, d);
        assert(n + h <= d * b + (d - 1));
        lemma_div_is_ordered(n + h, d * b + (d - 1), d);
        lemma_div_multiples_vanish_fancy(b, d - 1, d);
        assert((d * b + (d - 1)) / d == b);
    } else {
        let m = -n;
        lemma_div_pos_is_pos(m + h, d);
        assert(m + h <= d * b + (d - 1));
        lemma_div_is_ordered(m + h, d * b + (d - 1), d);
        lemma_div_multiples_vanish_fancy(b, d - 1, d);
        assert((d * b + (d - 1)) / d == b);
    }
}

} // verus!
