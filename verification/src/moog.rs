//! The four-pole ladder model. From `f = 2 cutoff / sample_rate` it
//! derives `k = 3.6 f - 1.6 f^2 - 1`, the stage gain `p = (k + 1) / 2`
//! and the feedback scale `(1.8 - p) * 1.386249`. Each of the four
//! cascaded stages averages its current and previous raw input
//! (`y = x p + x_prev p - k y_prev`); the final stage is hard-clamped to
//! `[-1, 1]` before being stored and returned — an intentional
//! saturation, reproducing the model's limiting character.

use vstd::prelude::*;
use crate::fixed::{SCALE, CUTOFF_MIN, CUTOFF_MAX, DEFAULT_CUTOFF, fx_in_range, fx_sat, div_to_zero, fx_mul_s, fx_div_s, fx_clamp_s, fx_add, fx_sub, fx_mul, fx_div, fx_divn, fx_clamp};

verus! {

/// 3.6 in Q32.
pub const COEF_3_6: i64 = 15461882265;

/// 1.6 in Q32.
pub const COEF_1_6: i64 = 6871947673;

/// 1.8 in Q32.
pub const COEF_1_8: i64 = 7730941132;

/// 1.386249 in Q32.
pub const COEF_RES_SCALE: i64 = 5953894119;

pub struct MoogFilter {
    pub cutoff: i64,
    pub resonance: i64,
    pub y1: i64,
    pub y2: i64,
    pub y3: i64,
    pub y4: i64,
    pub oldx: i64,
    pub oldy1: i64,
    pub oldy2: i64,
    pub oldy3: i64,
}

impl MoogFilter {
    /// The state invariant: parameters clamped into their ranges, every
    /// register within the Q32 saturation range, the stored final stage
    /// within the `[-1, 1]` clamp.
    pub open spec fn wf(self) -> bool {
        &&& CUTOFF_MIN <= self.cutoff <= CUTOFF_MAX
        &&& 0 <= self.resonance <= SCALE
        &&& fx_in_range(self.y1 as int)
        &&& fx_in_range(self.y2 as int)
        &&& fx_in_range(self.y3 as int)
        &&& -SCALE <= self.y4 <= SCALE
        &&& fx_in_range(self.oldx as int)
        &&& fx_in_range(self.oldy1 as int)
        &&& fx_in_range(self.oldy2 as int)
        &&& fx_in_range(self.oldy3 as int)
    }

    pub fn new() -> (r: MoogFilter)
        ensures
            r == moog_default_s(),
            r.wf(),
    {
        MoogFilter {
            cutoff: DEFAULT_CUTOFF,
            resonance: 0,
            y1: 0,
            y2: 0,
            y3: 0,
            y4: 0,
            oldx: 0,
            oldy1: 0,
            oldy2: 0,
            oldy3: 0,
        }
    }

    pub fn set_params(&mut self, cutoff: i64, resonance: i64)
        requires
            old(self).wf(),
        ensures
            *final(self) == moog_set_params_s(*old(self), cutoff as int, resonance as int),
            final(self).wf(),
    {
        self.cutoff = fx_clamp(cutoff, CUTOFF_MIN, CUTOFF_MAX);
        self.resonance = fx_clamp(resonance, 0, SCALE);
    }

    pub fn process(&mut self, input: i64, sample_rate: i64) -> (out: i64)
        requires
            old(self).wf(),
            fx_in_range(input as int),
            0 < sample_rate,
            fx_in_range(sample_rate as int),
        ensures
            *final(self) == moog_step_s(*old(self), input as int, sample_rate as int),
            out == final(self).y4,
            -SCALE <= out <= SCALE,
            final(self).wf(),
    {
        let f: i64 = fx_div(fx_add(self.cutoff, self.cutoff), sample_rate);
        let k: i64 = fx_sub(fx_sub(fx_mul(COEF_3_6, f), fx_mul(COEF_1_6, fx_mul(f, f))), SCALE);
        let p: i64 = fx_divn(fx_add(k, SCALE), 2);
        let fb_scale: i64 = fx_mul(fx_sub(COEF_1_8, p), COEF_RES_SCALE);
        let r: i64 = fx_mul(self.resonance, fb_scale);

        let x: i64 = fx_sub(input, fx_mul(r, self.y4));

        let y1: i64 = ladder_stage(x, self.oldx, self.y1, p, k);
        let y2: i64 = ladder_stage(y1, self.oldy1, self.y2, p, k);
        let y3: i64 = ladder_stage(y2, self.oldy2, self.y3, p, k);
        let y4: i64 = fx_clamp(ladder_stage(y3, self.oldy3, self.y4, p, k), -SCALE, SCALE);

        self.y1 = y1;
        self.y2 = y2;
        self.y3 = y3;
        self.y4 = y4;
        self.oldx = x;
        self.oldy1 = y1;
        self.oldy2 = y2;
        self.oldy3 = y3;
        y4
    }
}

/// The initial state: default parameters (1000 Hz, resonance zero), all
/// stages and their histories silent.
pub open spec fn moog_default_s() -> MoogFilter {
    MoogFilter {
        cutoff: DEFAULT_CUTOFF,
        resonance: 0,
        y1: 0,
        y2: 0,
        y3: 0,
        y4: 0,
        oldx: 0,
        oldy1: 0,
        oldy2: 0,
        oldy3: 0,
    }
}

/// Clamp the raw parameters into their ranges; the registers keep their
/// values.
pub open spec fn moog_set_params_s(st: MoogFilter, cutoff: int, resonance: int) -> MoogFilter {
    MoogFilter {
        cutoff: fx_clamp_s(cutoff, CUTOFF_MIN as int, CUTOFF_MAX as int) as i64,
        resonance: fx_clamp_s(resonance, 0, SCALE as int) as i64,
        ..st
    }
}

/// One ladder stage: `x p + x_prev p - k y_prev`, every operation
/// saturating.
pub open spec fn ladder_stage_s(x: int, x_prev: int, y_prev: int, p: int, k: int) -> int {
    fx_sat(fx_sat(fx_mul_s(x, p) + fx_mul_s(x_prev, p)) - fx_mul_s(k, y_prev))
}

/// `k = 3.6 f - 1.6 f^2 - 1` for `f = 2 cutoff / sample_rate`.
pub open spec fn moog_k_s(cutoff: int, sr: int) -> int {
    let f = fx_div_s(fx_sat(cutoff + cutoff), sr);
    fx_sat(fx_sat(fx_mul_s(COEF_3_6 as int, f) - fx_mul_s(COEF_1_6 as int, fx_mul_s(f, f))) - SCALE as int)
}

/// The stage gain `p = (k + 1) / 2`.
pub open spec fn moog_p_s(cutoff: int, sr: int) -> int {
    div_to_zero(fx_sat(moog_k_s(cutoff, sr) + SCALE as int), 2)
}

/// One sample of the ladder model: feedback subtraction, four averaged
/// stages, the final stage clamped to `[-1, 1]`, then the per-stage
/// history updated from the pre-update inputs; parameters unchanged.
pub open spec fn moog_step_s(st: MoogFilter, x_in: int, sr: int) -> MoogFilter {
    let k = moog_k_s(st.cutoff as int, sr);
    let p = moog_p_s(st.cutoff as int, sr);
    let fb_scale = fx_mul_s(fx_sat(COEF_1_8 as int - p), COEF_RES_SCALE as int);
    let r = fx_mul_s(st.resonance as int, fb_scale);
    let x = fx_sat(x_in - fx_mul_s(r, st.y4 as int));
    let y1 = ladder_stage_s(x, st.oldx as int, st.y1 as int, p, k);
    let y2 = ladder_stage_s(y1, st.oldy1 as int, st.y2 as int, p, k);
    let y3 = ladder_stage_s(y2, st.oldy2 as int, st.y3 as int, p, k);
    let y4 = fx_clamp_s(ladder_stage_s(y3, st.oldy3 as int, st.y4 as int, p, k), -(SCALE as int), SCALE as int);
    MoogFilter {
        y1: y1 as i64,
        y2: y2 as i64,
        y3: y3 as i64,
        y4: y4 as i64,
        oldx: x as i64,
        oldy1: y1 as i64,
        oldy2: y2 as i64,
        oldy3: y3 as i64,
        ..st
    }
}

fn ladder_stage(x: i64, x_prev: i64, y_prev: i64, p: i64, k: i64) -> (r: i64)
    requires
        fx_in_range(x as int),
        fx_in_range(x_prev as int),
        fx_in_range(y_prev as int),
        fx_in_range(p as int),
        fx_in_range(k as int),
    ensures
        r as int == ladder_stage_s(x as int, x_prev as int, y_prev as int, p as int, k as int),
        fx_in_range(r as int),
{
    fx_sub(fx_add(fx_mul(x, p), fx_mul(x_prev, p)), fx_mul(k, y_prev))
}

} // verus!
