//! The parameter smoother: a one-pole exponential glide of cutoff and
//! resonance toward their block targets, applied once per sample.
//!
//! The block-rate coefficient is `e^(-2 pi / (time_s * sample_rate))` when
//! smoothing is enabled and the denominator is positive, and zero
//! otherwise — a zero coefficient snaps the value straight to the target.
//! The per-sample update is written as `target + (current - target) *
//! coefficient`, the rounding-stable form of `current * coefficient +
//! target * (1 - coefficient)`: one rounding instead of two, so the
//! smoothed value provably never leaves the closed interval between the
//! previous value and the target.

use vstd::prelude::*;
use vstd::arithmetic::div_mod::{lemma_div_pos_is_pos, lemma_div_of0};
use crate::fixed::{SCALE, DEFAULT_CUTOFF, fx_in_range, fx_sat, div_to_zero, fx_mul_s, fx_div_s, fx_add, fx_sub, fx_mul, fx_div, lemma_div_to_zero_mag};
use crate::approx::{FX_TAU, fx_exp_neg_s, fx_exp_neg};

verus! {

/// One thousandth in Q32 (truncated): the milliseconds-to-seconds factor.
pub const MS_TO_S: i64 = 4294967;

pub struct ParameterSmoother {
    pub current_cutoff: i64,
    pub current_resonance: i64,
}

impl ParameterSmoother {
    /// The state invariant: both glide values within the Q32 range.
    pub open spec fn wf(self) -> bool {
        &&& fx_in_range(self.current_cutoff as int)
        &&& fx_in_range(self.current_resonance as int)
    }

    /// Seeded from the default parameter set (1000 Hz, resonance zero) so
    /// the first block starts without a jump.
    pub fn new() -> (r: ParameterSmoother)
        ensures
            r == smoother_default_s(),
            r.wf(),
    {
        ParameterSmoother { current_cutoff: DEFAULT_CUTOFF, current_resonance: 0 }
    }

    /// One sample of the glide: move each value toward its target by the
    /// kept fraction `coeff`. The new value never overshoots the target
    /// and never retreats from it; a zero coefficient reaches the target
    /// at once.
    pub fn advance(&mut self, target_cutoff: i64, target_resonance: i64, coeff: i64)
        requires
            old(self).wf(),
            fx_in_range(target_cutoff as int),
            fx_in_range(target_resonance as int),
            0 <= coeff <= SCALE,
        ensures
            *final(self) == smoother_step_s(*old(self), target_cutoff as int, target_resonance as int, coeff as int),
            final(self).wf(),
            old(self).current_cutoff <= target_cutoff
                ==> old(self).current_cutoff <= final(self).current_cutoff <= target_cutoff,
            target_cutoff <= old(self).current_cutoff
                ==> target_cutoff <= final(self).current_cutoff <= old(self).current_cutoff,
            old(self).current_resonance <= target_resonance
                ==> old(self).current_resonance <= final(self).current_resonance <= target_resonance,
            target_resonance <= old(self).current_resonance
                ==> target_resonance <= final(self).current_resonance <= old(self).current_resonance,
            coeff == 0 ==> final(self).current_cutoff == target_cutoff
                && final(self).current_resonance == target_resonance,
    {
        proof {
            lemma_smoothed_value_between(old(self).current_cutoff as int, target_cutoff as int, coeff as int);
            lemma_smoothed_value_between(old(self).current_resonance as int, target_resonance as int, coeff as int);
        }
        let d_cut: i64 = fx_sub(self.current_cutoff, target_cutoff);
        self.current_cutoff = fx_add(target_cutoff, fx_mul(d_cut, coeff));
        let d_res: i64 = fx_sub(self.current_resonance, target_resonance);
        self.current_resonance = fx_add(target_resonance, fx_mul(d_res, coeff));
    }
}

/// The initial glide state: the default parameter set.
pub open spec fn smoother_default_s() -> ParameterSmoother {
    ParameterSmoother { current_cutoff: DEFAULT_CUTOFF, current_resonance: 0 }
}

/// One smoothed value: `target + (current - target) * coeff`, every
/// operation saturating.
pub open spec fn smoothed_value_s(current: int, target: int, coeff: int) -> int {
    fx_sat(target + fx_mul_s(fx_sat(current - target), coeff))
}

/// One sample of the glide on both values.
pub open spec fn smoother_step_s(s: ParameterSmoother, target_cutoff: int, target_resonance: int, coeff: int) -> ParameterSmoother {
    ParameterSmoother {
        current_cutoff: smoothed_value_s(s.current_cutoff as int, target_cutoff, coeff) as i64,
        current_resonance: smoothed_value_s(s.current_resonance as int, target_resonance, coeff) as i64,
    }
}

/// The block-rate smoothing coefficient:
/// `e^(-2 pi / (time_ms / 1000 * sample_rate))` when smoothing is enabled,
/// zero when it is disabled or the time is so small (or negative) that the
/// denominator vanishes — the guard against a division by zero that a
/// zero smoothing time would otherwise cause.
pub open spec fn smoothing_coefficient_s(enabled: bool, time_ms: int, sr: int) -> int {
    let denom = fx_mul_s(fx_mul_s(time_ms, MS_TO_S as int), sr);
    if !enabled || denom <= 0 {
        0
    } else {
        fx_exp_neg_s(fx_div_s(FX_TAU as int, denom))
    }
}

/// Compute the block-rate coefficient; it always lies in `[0, 1]`, and is
/// zero exactly when smoothing is off or the guard fires.
pub fn smoothing_coefficient(enabled: bool, smoothing_time_ms: i64, sample_rate: i64) -> (c: i64)
    requires
        fx_in_range(smoothing_time_ms as int),
        fx_in_range(sample_rate as int),
    ensures
        c as int == smoothing_coefficient_s(enabled, smoothing_time_ms as int, sample_rate as int),
        0 <= c <= SCALE,
        !enabled ==> c == 0,
{
    let denom: i64 = fx_mul(fx_mul(smoothing_time_ms, MS_TO_S), sample_rate);
    if !enabled || denom <= 0 {
        0
    } else {
        fx_exp_neg(fx_div(FX_TAU, denom))
    }
}

/// Law: the glide is monotone. For any coefficient in `[0, 1]` the
/// smoothed value stays in the closed interval between the previous value
/// and the target — it never overshoots and never retreats — and a zero
/// coefficient lands exactly on the target.
pub proof fn lemma_smoothed_value_between(current: int, target: int, coeff: int)
    requires
        fx_in_range(current),
        fx_in_range(target),
        0 <= coeff <= SCALE as int,
    ensures
        current <= target ==> current <= smoothed_value_s(current, target, coeff) <= target,
        target <= current ==> target <= smoothed_value_s(current, target, coeff) <= current,
        coeff == 0 ==> smoothed_value_s(current, target, coeff) == target,
{
    let d = fx_sat(current - target);
    let mag = if d >= 0 { d } else { -d };
    assert(-(mag * (SCALE as int)) <= d * coeff <= mag * (SCALE as int)) by (nonlinear_arith)
        requires
            0 <= coeff <= SCALE as int,
            mag == if d >= 0 { d } else { -d },
    ;
    lemma_div_to_zero_mag(d * coeff, SCALE as int, mag);
    if coeff == 0 {
        lemma_div_of0(SCALE as int);
        assert(d * coeff == 0);
    }
    if d >= 0 {
        lemma_div_pos_is_pos(d * coeff, SCALE as int);
        assert(d * coeff >= 0) by (nonlinear_arith)
            requires
                d >= 0,
                coeff >= 0,
        ;
    } else {
        assert(d * coeff <= 0) by (nonlinear_arith)
            requires
                d <= 0,
                coeff >= 0,
        ;
        lemma_div_pos_is_pos(-(d * coeff), SCALE as int);
    }
}

} // verus!
