//! The four-stage cascade model: four one-pole stages in a fixed
//! left-to-right pipeline, each stage's output feeding the next, with the
//! per-sample coefficient `sin(2 pi cutoff / sample_rate)`. The final
//! stage's state is the output; there is no output clamp, so at high
//! resonance the state may run up to the saturation rail — an accepted
//! characteristic of this model, not a defect.

use vstd::prelude::*;
use crate::fixed::{SCALE, CUTOFF_MIN, CUTOFF_MAX, DEFAULT_CUTOFF, HALF_SCALE, fx_in_range, fx_sat, fx_mul_s, fx_div_s, fx_clamp_s, fx_add, fx_sub, fx_mul, fx_div, fx_clamp};
use crate::approx::{FX_TAU, fx_sin_s, fx_sin};

verus! {

pub struct Arp4075 {
    pub cutoff: i64,
    pub resonance: i64,
    pub s1: i64,
    pub s2: i64,
    pub s3: i64,
    pub s4: i64,
}

impl Arp4075 {
    /// The state invariant: parameters clamped into their ranges, every
    /// stage register within the Q32 saturation range.
    pub open spec fn wf(self) -> bool {
        &&& CUTOFF_MIN <= self.cutoff <= CUTOFF_MAX
        &&& 0 <= self.resonance <= SCALE
        &&& fx_in_range(self.s1 as int)
        &&& fx_in_range(self.s2 as int)
        &&& fx_in_range(self.s3 as int)
        &&& fx_in_range(self.s4 as int)
    }

    pub fn new() -> (r: Arp4075)
        ensures
            r == arp_default_s(),
            r.wf(),
    {
        Arp4075 { cutoff: DEFAULT_CUTOFF, resonance: HALF_SCALE, s1: 0, s2: 0, s3: 0, s4: 0 }
    }

    pub fn set_params(&mut self, cutoff: i64, resonance: i64)
        requires
            old(self).wf(),
        ensures
            *final(self) == arp_set_params_s(*old(self), cutoff as int, resonance as int),
            final(self).wf(),
    {
        self.cutoff = fx_clamp(cutoff, CUTOFF_MIN, CUTOFF_MAX);
        self.resonance = fx_clamp(resonance, 0, SCALE);
    }

    pub fn process(&mut self, input: i64, sample_rate: i64) -> (out: i64)
        requires
            old(self).wf(),
            fx_in_range(input as int),
            0 < sample_rate,
            fx_in_range(sample_rate as int),
        ensures
            *final(self) == arp_step_s(*old(self), input as int, sample_rate as int),
            out == final(self).s4,
            final(self).wf(),
    {
        let ratio: i64 = fx_div(self.cutoff, sample_rate);
        let angle: i64 = fx_mul(FX_TAU, ratio);
        let fc: i64 = fx_sin(angle);
        let res: i64 = self.resonance;
        let s1: i64 = arp_stage(self.s1, input, fc, res);
        let s2: i64 = arp_stage(self.s2, s1, fc, res);
        let s3: i64 = arp_stage(self.s3, s2, fc, res);
        let s4: i64 = arp_stage(self.s4, s3, fc, res);
        self.s1 = s1;
        self.s2 = s2;
        self.s3 = s3;
        self.s4 = s4;
        s4
    }
}

/// The initial state: default parameters (1000 Hz, resonance one half),
/// silent stages.
pub open spec fn arp_default_s() -> Arp4075 {
    Arp4075 { cutoff: DEFAULT_CUTOFF, resonance: HALF_SCALE, s1: 0, s2: 0, s3: 0, s4: 0 }
}

/// Clamp the raw parameters into their ranges; the stage registers keep
/// their values.
pub open spec fn arp_set_params_s(st: Arp4075, cutoff: int, resonance: int) -> Arp4075 {
    Arp4075 {
        cutoff: fx_clamp_s(cutoff, CUTOFF_MIN as int, CUTOFF_MAX as int) as i64,
        resonance: fx_clamp_s(resonance, 0, SCALE as int) as i64,
        ..st
    }
}

/// One stage of the cascade:
/// `s + fc * (x - s + res * (s - x))`, every operation saturating.
pub open spec fn arp_stage_s(s: int, x: int, fc: int, res: int) -> int {
    fx_sat(s + fx_mul_s(fc, fx_sat(fx_sat(x - s) + fx_mul_s(res, fx_sat(s - x)))))
}

/// The per-sample coefficient `sin(2 pi cutoff / sample_rate)`.
pub open spec fn arp_coeff_s(cutoff: int, sr: int) -> int {
    fx_sin_s(fx_mul_s(FX_TAU as int, fx_div_s(cutoff, sr)))
}

/// One sample of the cascade model: the four stages updated in pipeline
/// order, parameters unchanged.
pub open spec fn arp_step_s(st: Arp4075, x: int, sr: int) -> Arp4075 {
    let fc = arp_coeff_s(st.cutoff as int, sr);
    let s1 = arp_stage_s(st.s1 as int, x, fc, st.resonance as int);
    let s2 = arp_stage_s(st.s2 as int, s1, fc, st.resonance as int);
    let s3 = arp_stage_s(st.s3 as int, s2, fc, st.resonance as int);
    let s4 = arp_stage_s(st.s4 as int, s3, fc, st.resonance as int);
    Arp4075 { s1: s1 as i64, s2: s2 as i64, s3: s3 as i64, s4: s4 as i64, ..st }
}

fn arp_stage(s: i64, x: i64, fc: i64, res: i64) -> (r: i64)
    requires
        fx_in_range(s as int),
        fx_in_range(x as int),
        fx_in_range(fc as int),
        fx_in_range(res as int),
    ensures
        r as int == arp_stage_s(s as int, x as int, fc as int, res as int),
        fx_in_range(r as int),
{
    let d1: i64 = fx_sub(x, s);
    let d2: i64 = fx_sub(s, x);
    let t: i64 = fx_add(d1, fx_mul(res, d2));
    fx_add(s, fx_mul(fc, t))
}

} // verus!
