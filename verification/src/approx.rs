//! Q32 approximations of the two transcendental coefficient functions the
//! filter recurrences need: a sine (for the cascade model's per-sample
//! coefficient) and a decaying exponential (for the integrator gain and the
//! smoothing coefficient).
//!
//! The sine reduces its argument modulo a full turn and evaluates the
//! parabola `4u(1-u)` on each half turn; the exponential is the reciprocal
//! of the fourth-order series of `e^x`. Both are exact fixed-point
//! recurrences stated by their own spec functions, with their ranges proved.

use vstd::prelude::*;
use vstd::arithmetic::div_mod::{lemma_div_is_ordered, lemma_div_multiples_vanish, lemma_multiply_divide_le, lemma_multiply_divide_lt};
use vstd::arithmetic::mul::lemma_mul_inequality;
use crate::fixed::{SCALE, fx_in_range, fx_sat, div_to_zero, fx_mul_s, fx_div_s, fx_add, fx_mul, fx_div, fx_divn};

verus! {

/// A full turn (2 pi) in Q32, rounded to an even value so that a half turn
/// is exact.
pub const FX_TAU: i64 = 26986075408;

/// A half turn (pi) in Q32: exactly half of `FX_TAU`.
pub const FX_PI: i64 = 13493037704;

/// The parabola `4 u (1 - u)` with `u = m / pi`, for `m` in `[0, pi)`:
/// one positive hump of the sine wave.
pub open spec fn sin_hump_s(m: int) -> int {
    let u = fx_div_s(m, FX_PI as int);
    4 * fx_mul_s(u, SCALE as int - u)
}

/// The Q32 sine: reduce modulo a turn, one parabolic hump per half turn.
pub open spec fn fx_sin_s(x: int) -> int {
    let m = x % (FX_TAU as int);
    if m < FX_PI as int {
        sin_hump_s(m)
    } else {
        -sin_hump_s(m - FX_PI as int)
    }
}

/// The reciprocal of the fourth-order series of `e^x`, in Q32: an
/// approximation of `e^(-x)` for `x >= 0` that always lies in `[0, 1]`.
pub open spec fn fx_exp_neg_s(x: int) -> int {
    let x2 = fx_mul_s(x, x);
    let x3 = fx_mul_s(x2, x);
    let x4 = fx_mul_s(x2, x2);
    let t2 = div_to_zero(x2, 2);
    let t3 = div_to_zero(x3, 6);
    let t4 = div_to_zero(x4, 24);
    let den = fx_sat(fx_sat(fx_sat(fx_sat(SCALE as int + x) + t2) + t3) + t4);
    fx_div_s(SCALE as int, den)
}

/// Q32 sine of a nonnegative angle; the result lies in `[-1, 1]`.
pub fn fx_sin(x: i64) -> (r: i64)
    requires
        0 <= x,
        fx_in_range(x as int),
    ensures
        r as int == fx_sin_s(x as int),
        -SCALE <= r <= SCALE,
{
    let m: i64 = ((x as u64) % (FX_TAU as u64)) as i64;
    let below: bool = m < FX_PI;
    let mh: i64 = if below { m } else { m - FX_PI };
    let u: i64 = fx_div(mh, FX_PI);
    proof {
        lemma_mul_inequality(mh as int, FX_PI as int, SCALE as int);
        lemma_div_is_ordered(mh * (SCALE as int), (FX_PI as int) * (SCALE as int), FX_PI as int);
        lemma_div_multiples_vanish(SCALE as int, FX_PI as int);
        assert(0 <= u <= SCALE);
    }
    let d: i64 = SCALE - u;
    let core: i64 = fx_mul(u, d);
    proof {
        assert(u * (SCALE as int - u) <= 0x4000000000000000) by (nonlinear_arith)
            requires
                0 <= u <= SCALE as int,
                SCALE as int == 4294967296,
        ;
        lemma_div_is_ordered(u * d, 0x4000000000000000, SCALE as int);
        assert(core <= 0x40000000);
    }
    let r0: i64 = 4 * core;
    if below {
        r0
    } else {
        -r0
    }
}

/// Q32 approximation of `e^(-x)` for `x >= 0`. The result lies in `[0, 1]`,
/// is exactly one at zero, and strictly below one for positive arguments.
pub fn fx_exp_neg(x: i64) -> (r: i64)
    requires
        0 <= x,
        fx_in_range(x as int),
    ensures
        r as int == fx_exp_neg_s(x as int),
        0 <= r <= SCALE,
        x == 0 ==> r == SCALE,
        x > 0 ==> r < SCALE,
{
    let x2: i64 = fx_mul(x, x);
    let x3: i64 = fx_mul(x2, x);
    let x4: i64 = fx_mul(x2, x2);
    let t2: i64 = fx_divn(x2, 2);
    let t3: i64 = fx_divn(x3, 6);
    let t4: i64 = fx_divn(x4, 24);
    let d1: i64 = fx_add(SCALE, x);
    let d2: i64 = fx_add(d1, t2);
    let d3: i64 = fx_add(d2, t3);
    let den: i64 = fx_add(d3, t4);
    proof {
        assert(den >= SCALE);
        if x > 0 {
            assert(den >= SCALE + 1);
        }
    }
    let r: i64 = fx_div(SCALE, den);
    proof {
        let si = SCALE as int;
        assert(si * si <= den * si) by (nonlinear_arith)
            requires
                den >= si,
                si > 0,
        ;
        lemma_multiply_divide_le(si * si, den as int, si);
        if x == 0 {
            assert(den == si);
            lemma_div_multiples_vanish(si, si);
        }
        if x > 0 {
            assert(si * si < den * si) by (nonlinear_arith)
                requires
                    den >= si + 1,
                    si > 0,
            ;
            lemma_multiply_divide_lt(si * si, den as int, si);
        }
    }
    r
}

} // verus!
