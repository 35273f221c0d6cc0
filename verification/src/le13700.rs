//! The OTA-integrator model: two cascaded leaky integrators with a
//! feedback path. Per sample the integrator gain is
//! `1 - e^(-2 pi cutoff / sample_rate)`; the amplifier accumulators are
//! advanced from the previous capacitor values before the capacitors
//! themselves move, so there is no read-after-write within a sample.

use vstd::prelude::*;
use crate::fixed::{SCALE, CUTOFF_MIN, CUTOFF_MAX, DEFAULT_CUTOFF, FOUR_SCALE, fx_in_range, fx_sat, fx_mul_s, fx_div_s, fx_clamp_s, fx_add, fx_sub, fx_mul, fx_div, fx_clamp};
use crate::approx::{FX_TAU, fx_exp_neg_s, fx_exp_neg};

verus! {

pub struct Le13700Filter {
    pub cutoff: i64,
    pub resonance: i64,
    pub vca1: i64,
    pub vca2: i64,
    pub cap1: i64,
    pub cap2: i64,
}

impl Le13700Filter {
    /// The state invariant: parameters clamped into their ranges, every
    /// register within the Q32 saturation range.
    pub open spec fn wf(self) -> bool {
        &&& CUTOFF_MIN <= self.cutoff <= CUTOFF_MAX
        &&& 0 <= self.resonance <= SCALE
        &&& fx_in_range(self.vca1 as int)
        &&& fx_in_range(self.vca2 as int)
        &&& fx_in_range(self.cap1 as int)
        &&& fx_in_range(self.cap2 as int)
    }

    pub fn new() -> (r: Le13700Filter)
        ensures
            r == le_default_s(),
            r.wf(),
    {
        Le13700Filter { cutoff: DEFAULT_CUTOFF, resonance: 0, vca1: 0, vca2: 0, cap1: 0, cap2: 0 }
    }

    pub fn set_params(&mut self, cutoff: i64, resonance: i64)
        requires
            old(self).wf(),
        ensures
            *final(self) == le_set_params_s(*old(self), cutoff as int, resonance as int),
            final(self).wf(),
    {
        self.cutoff = fx_clamp(cutoff, CUTOFF_MIN, CUTOFF_MAX);
        self.resonance = fx_clamp(resonance, 0, SCALE);
    }

    pub fn process(&mut self, input: i64, sample_rate: i64) -> (out: i64)
        requires
            old(self).wf(),
            fx_in_range(input as int),
            0 < sample_rate,
            fx_in_range(sample_rate as int),
        ensures
            *final(self) == le_step_s(*old(self), input as int, sample_rate as int),
            out == final(self).cap2,
            final(self).wf(),
    {
        let dt: i64 = fx_div(SCALE, sample_rate);
        let fc: i64 = fx_div(self.cutoff, sample_rate);
        let kk: i64 = fx_mul(FX_TAU, fc);
        let ota: i64 = fx_sub(SCALE, fx_exp_neg(kk));
        let fb: i64 = fx_mul(FOUR_SCALE, self.resonance);
        let drive: i64 = fx_sub(fx_sub(input, self.cap1), fx_mul(fb, self.cap2));
        let vca1: i64 = fx_add(self.vca1, fx_mul(drive, ota));
        let vca2: i64 = fx_add(self.vca2, fx_mul(fx_sub(self.cap1, self.cap2), ota));
        let cap1: i64 = fx_add(self.cap1, fx_mul(vca1, dt));
        let cap2: i64 = fx_add(self.cap2, fx_mul(vca2, dt));
        self.vca1 = vca1;
        self.vca2 = vca2;
        self.cap1 = cap1;
        self.cap2 = cap2;
        cap2
    }
}

/// The initial state: default parameters (1000 Hz, resonance zero),
/// discharged integrators.
pub open spec fn le_default_s() -> Le13700Filter {
    Le13700Filter { cutoff: DEFAULT_CUTOFF, resonance: 0, vca1: 0, vca2: 0, cap1: 0, cap2: 0 }
}

/// Clamp the raw parameters into their ranges; the registers keep their
/// values.
pub open spec fn le_set_params_s(st: Le13700Filter, cutoff: int, resonance: int) -> Le13700Filter {
    Le13700Filter {
        cutoff: fx_clamp_s(cutoff, CUTOFF_MIN as int, CUTOFF_MAX as int) as i64,
        resonance: fx_clamp_s(resonance, 0, SCALE as int) as i64,
        ..st
    }
}

/// The integrator gain `1 - e^(-2 pi cutoff / sample_rate)`.
pub open spec fn le_gain_s(cutoff: int, sr: int) -> int {
    fx_sat(SCALE as int - fx_exp_neg_s(fx_mul_s(FX_TAU as int, fx_div_s(cutoff, sr))))
}

/// One sample of the OTA-integrator model: amplifiers first, from the
/// previous capacitor values, then the capacitors; parameters unchanged.
pub open spec fn le_step_s(st: Le13700Filter, x: int, sr: int) -> Le13700Filter {
    let dt = fx_div_s(SCALE as int, sr);
    let ota = le_gain_s(st.cutoff as int, sr);
    let fb = fx_mul_s(FOUR_SCALE as int, st.resonance as int);
    let drive = fx_sat(fx_sat(x - st.cap1) - fx_mul_s(fb, st.cap2 as int));
    let vca1 = fx_sat(st.vca1 + fx_mul_s(drive, ota));
    let vca2 = fx_sat(st.vca2 + fx_mul_s(fx_sat(st.cap1 - st.cap2), ota));
    let cap1 = fx_sat(st.cap1 + fx_mul_s(vca1, dt));
    let cap2 = fx_sat(st.cap2 + fx_mul_s(vca2, dt));
    Le13700Filter {
        vca1: vca1 as i64,
        vca2: vca2 as i64,
        cap1: cap1 as i64,
        cap2: cap2 as i64,
        ..st
    }
}

} // verus!
