//! Q32 saturating fixed-point arithmetic.
//!
//! A value is an `i64` holding the real number scaled by `SCALE` = 2^32.
//! Every operation saturates at `FX_MAX` in magnitude, so all operations are
//! total: no overflow, no division by zero, no panic. Products and quotients
//! truncate toward zero, computed on unsigned magnitudes.

use vstd::prelude::*;
use vstd::arithmetic::mul::{lemma_mul_upper_bound, lemma_mul_nonnegative};
use vstd::arithmetic::div_mod::{lemma_div_is_ordered, lemma_div_multiples_vanish, lemma_div_pos_is_pos, lemma_div_nonincreasing, lemma_div_of0};

verus! {

/// One in Q32: the fixed-point scale factor 2^32.
pub const SCALE: i64 = 4294967296;

/// Largest magnitude a Q32 value may take: 2^62 - 1.
pub const FX_MAX: i64 = 4611686018427387903;

/// Lowest admissible cutoff: 20 Hz in Q32.
pub const CUTOFF_MIN: i64 = 85899345920;

/// Highest admissible cutoff: 20000 Hz in Q32.
pub const CUTOFF_MAX: i64 = 85899345920000;

/// Default cutoff: 1000 Hz in Q32.
pub const DEFAULT_CUTOFF: i64 = 4294967296000;

/// One half in Q32.
pub const HALF_SCALE: i64 = 2147483648;

/// Four in Q32.
pub const FOUR_SCALE: i64 = 17179869184;

/// A Q32 value is in range when its magnitude is at most `FX_MAX`.
pub open spec fn fx_in_range(x: int) -> bool {
    -(FX_MAX as int) <= x <= FX_MAX as int
}

/// Saturation: clamp an unbounded integer into the Q32 range.
pub open spec fn fx_sat(x: int) -> int {
    if x > FX_MAX as int {
        FX_MAX as int
    } else if x < -(FX_MAX as int) {
        -(FX_MAX as int)
    } else {
        x
    }
}

/// Division truncating toward zero (the machine's signed division),
/// defined for a positive divisor.
pub open spec fn div_to_zero(a: int, b: int) -> int {
    if a >= 0 {
        a / b
    } else {
        -((-a) / b)
    }
}

/// The Q32 product: scale back by `SCALE`, truncate toward zero, saturate.
pub open spec fn fx_mul_s(a: int, b: int) -> int {
    fx_sat(div_to_zero(a * b, SCALE as int))
}

/// The Q32 quotient for a positive divisor: scale up by `SCALE`,
/// truncate toward zero, saturate.
pub open spec fn fx_div_s(a: int, b: int) -> int {
    fx_sat(div_to_zero(a * (SCALE as int), b))
}

/// Clamp into `[lo, hi]`.
pub open spec fn fx_clamp_s(x: int, lo: int, hi: int) -> int {
    if x < lo {
        lo
    } else if x > hi {
        hi
    } else {
        x
    }
}

/// Saturating addition.
pub fn fx_add(a: i64, b: i64) -> (r: i64)
    requires
        fx_in_range(a as int),
        fx_in_range(b as int),
    ensures
        r as int == fx_sat(a + b),
        fx_in_range(r as int),
{
    let s: i128 = (a as i128) + (b as i128);
    if s > FX_MAX as i128 {
        FX_MAX
    } else if s < -(FX_MAX as i128) {
        -FX_MAX
    } else {
        s as i64
    }
}

/// Saturating subtraction.
pub fn fx_sub(a: i64, b: i64) -> (r: i64)
    requires
        fx_in_range(a as int),
        fx_in_range(b as int),
    ensures
        r as int == fx_sat(a - b),
        fx_in_range(r as int),
{
    let s: i128 = (a as i128) - (b as i128);
    if s > FX_MAX as i128 {
        FX_MAX
    } else if s < -(FX_MAX as i128) {
        -FX_MAX
    } else {
        s as i64
    }
}

/// Saturating Q32 multiplication, truncating toward zero.
///
/// The extra clauses record the sign of the product and that multiplying
/// by a factor in `[0, SCALE]` never grows the magnitude; the per-sample
/// recurrences and the smoother lean on them.
pub fn fx_mul(a: i64, b: i64) -> (r: i64)
    requires
        fx_in_range(a as int),
        fx_in_range(b as int),
    ensures
        r as int == fx_mul_s(a as int, b as int),
        fx_in_range(r as int),
        a >= 0 && b >= 0 ==> r >= 0,
        a <= 0 && b <= 0 ==> r >= 0,
        a >= 0 && b <= 0 ==> r <= 0,
        a <= 0 && b >= 0 ==> r <= 0,
        0 <= b <= SCALE && a >= 0 ==> r <= a,
        0 <= b <= SCALE && a <= 0 ==> r >= a,
{
    let neg: bool = (a < 0) != (b < 0);
    let ma: u128 = (if a < 0 { -a } else { a }) as u128;
    let mb: u128 = (if b < 0 { -b } else { b }) as u128;
    proof {
        lemma_mul_upper_bound(ma as int, FX_MAX as int, mb as int, FX_MAX as int);
        lemma_mul_nonnegative(ma as int, mb as int);
    }
    let m: u128 = (ma * mb) / (SCALE as u128);
    let mc: u128 = if m > FX_MAX as u128 { FX_MAX as u128 } else { m };
    let r: i64 = if neg { -(mc as i64) } else { mc as i64 };
    proof {
        let ai = a as int;
        let bi = b as int;
        let mai = ma as int;
        let mbi = mb as int;
        assert(ai * bi == if (ai < 0) != (bi < 0) { -(mai * mbi) } else { mai * mbi })
            by (nonlinear_arith)
            requires
                mai == if ai < 0 { -ai } else { ai },
                mbi == if bi < 0 { -bi } else { bi },
        ;
        assert(m as int == (mai * mbi) / (SCALE as int));
        if ai * bi >= 0 {
            if !neg {
                assert(div_to_zero(ai * bi, SCALE as int) == m as int);
            } else {
                // a sign differs only when the product is zero
                assert(mai * mbi == ai * bi || mai * mbi == -(ai * bi));
                assert(mai * mbi == 0);
                lemma_div_is_ordered(0, mai * mbi, SCALE as int);
                lemma_div_nonincreasing(mai * mbi, SCALE as int);
                assert(m as int == 0);
            }
        } else {
            assert(neg);
            assert(mai * mbi == -(ai * bi));
            assert(div_to_zero(ai * bi, SCALE as int) == -((mai * mbi) / (SCALE as int)));
        }
        if ma == 0 || mb == 0 {
            assert(mai * mbi == 0);
            lemma_div_of0(SCALE as int);
            assert(m as int == 0);
        }
        // magnitude bound for the shrink clauses
        if 0 <= bi <= SCALE as int {
            assert(mai * mbi <= mai * (SCALE as int)) by (nonlinear_arith)
                requires
                    0 <= mai,
                    0 <= mbi <= SCALE as int,
            ;
            lemma_div_is_ordered(mai * mbi, mai * (SCALE as int), SCALE as int);
            lemma_div_multiples_vanish(mai, SCALE as int);
            assert(m as int <= mai);
        }
    }
    r
}

/// Saturating Q32 division by a positive value, truncating toward zero.
pub fn fx_div(a: i64, b: i64) -> (r: i64)
    requires
        fx_in_range(a as int),
        fx_in_range(b as int),
        b > 0,
    ensures
        r as int == fx_div_s(a as int, b as int),
        fx_in_range(r as int),
        a >= 0 ==> r >= 0,
        a <= 0 ==> r <= 0,
{
    let ma: u128 = (if a < 0 { -a } else { a }) as u128;
    proof {
        lemma_mul_upper_bound(ma as int, FX_MAX as int, SCALE as int, SCALE as int);
        lemma_mul_nonnegative(ma as int, SCALE as int);
    }
    let m: u128 = (ma * (SCALE as u128)) / (b as u128);
    let mc: u128 = if m > FX_MAX as u128 { FX_MAX as u128 } else { m };
    let r: i64 = if a < 0 { -(mc as i64) } else { mc as i64 };
    proof {
        let ai = a as int;
        let mai = ma as int;
        assert(ai * (SCALE as int) == if ai < 0 { -(mai * (SCALE as int)) } else { mai * (SCALE as int) })
            by (nonlinear_arith)
            requires
                mai == if ai < 0 { -ai } else { ai },
        ;
        assert(m as int == (mai * (SCALE as int)) / (b as int));
        if ai >= 0 {
            assert(div_to_zero(ai * (SCALE as int), b as int) == m as int);
        } else {
            assert(div_to_zero(ai * (SCALE as int), b as int) == -(m as int));
        }
    }
    r
}

/// Division of a Q32 value by a small positive integer count
/// (not itself in Q32), truncating toward zero. Never grows the magnitude.
pub fn fx_divn(a: i64, n: i64) -> (r: i64)
    requires
        fx_in_range(a as int),
        n > 0,
    ensures
        r as int == div_to_zero(a as int, n as int),
        fx_in_range(r as int),
        a >= 0 ==> 0 <= r <= a,
        a <= 0 ==> a <= r <= 0,
{
    let ma: u64 = (if a < 0 { -a } else { a }) as u64;
    let m: u64 = ma / (n as u64);
    proof {
        lemma_div_nonincreasing(ma as int, n as int);
        lemma_div_pos_is_pos(ma as int, n as int);
    }
    if a < 0 {
        -(m as i64)
    } else {
        m as i64
    }
}

/// Scale a Q32 value by a small positive rational `num / den`, truncating
/// toward zero, saturating.
pub fn fx_ratio(v: i64, num: i64, den: i64) -> (r: i64)
    requires
        fx_in_range(v as int),
        0 < num <= 16,
        0 < den <= 16,
    ensures
        r as int == fx_sat(div_to_zero(v * num, den as int)),
        fx_in_range(r as int),
        v >= 0 ==> r >= 0,
{
    let mv: u128 = (if v < 0 { -v } else { v }) as u128;
    proof {
        lemma_mul_upper_bound(mv as int, FX_MAX as int, num as int, 16);
        lemma_mul_nonnegative(mv as int, num as int);
    }
    let m: u128 = (mv * (num as u128)) / (den as u128);
    let mc: u128 = if m > FX_MAX as u128 { FX_MAX as u128 } else { m };
    proof {
        let vi = v as int;
        let mvi = mv as int;
        assert(vi * num == if vi < 0 { -(mvi * (num as int)) } else { mvi * (num as int) })
            by (nonlinear_arith)
            requires
                mvi == if vi < 0 { -vi } else { vi },
        ;
        if vi >= 0 {
            assert(div_to_zero(vi * num, den as int) == m as int);
        } else {
            assert(div_to_zero(vi * num, den as int) == -(m as int));
        }
    }
    if v < 0 {
        -(mc as i64)
    } else {
        mc as i64
    }
}

/// Truncating division keeps a magnitude bound: if `|t| <= bound * d`
/// then `|t / d| <= bound`.
pub proof fn lemma_div_to_zero_mag(t: int, d: int, bound: int)
    requires
        d > 0,
        0 <= bound,
        -(bound * d) <= t <= bound * d,
    ensures
        -bound <= div_to_zero(t, d) <= bound,
{
    lemma_div_multiples_vanish(bound, d);
    assert(bound * d == d * bound) by (nonlinear_arith);
    assert((bound * d) / d == bound);
    if t >= 0 {
        lemma_div_is_ordered(t, bound * d, d);
        lemma_div_pos_is_pos(t, d);
        assert(div_to_zero(t, d) == t / d);
    } else {
        lemma_div_is_ordered(-t, bound * d, d);
        lemma_div_pos_is_pos(-t, d);
        assert(div_to_zero(t, d) == -((-t) / d));
    }
}

/// Clamp into `[lo, hi]`.
pub fn fx_clamp(x: i64, lo: i64, hi: i64) -> (r: i64)
    requires
        lo <= hi,
    ensures
        r as int == fx_clamp_s(x as int, lo as int, hi as int),
        lo <= r <= hi,
{
    if x < lo {
        lo
    } else if x > hi {
        hi
    } else {
        x
    }
}

} // verus!
