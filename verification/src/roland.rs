//! The fourth model. Its topology is a cascade of four one-pole lowpass
//! stages `y += g (x - y)` with the gain `g = 1 - e^(-2 pi cutoff /
//! sample_rate)`, resonance feedback `4 resonance` taken from the fourth
//! stage, and the fourth stage hard-clamped to `[-1, 1]`. Because each
//! stage moves between its old value and its input and the gain lies in
//! `[0, 1]`, the whole state stays bounded whenever the input does: the
//! model is a stable lowpass with resonance across the whole parameter
//! range, and brightness falls with the cutoff.

use vstd::prelude::*;
use crate::fixed::{SCALE, CUTOFF_MIN, CUTOFF_MAX, DEFAULT_CUTOFF, FOUR_SCALE, fx_in_range, fx_sat, fx_mul_s, fx_div_s, fx_clamp_s, fx_add, fx_sub, fx_mul, fx_div, fx_clamp, lemma_div_to_zero_mag};
use crate::approx::{FX_TAU, fx_exp_neg_s, fx_exp_neg};

verus! {

/// Five in Q32: the bound the three free stages keep when the input stays
/// within `[-1, 1]` (one unit of input plus at most four of feedback).
pub const FIVE_SCALE: i64 = 21474836480;

pub struct RolandFilter {
    pub cutoff: i64,
    pub resonance: i64,
    pub p1: i64,
    pub p2: i64,
    pub p3: i64,
    pub p4: i64,
}

impl RolandFilter {
    /// The state invariant: parameters clamped into their ranges, the three
    /// free stages within the Q32 saturation range, the clamped fourth
    /// stage within `[-1, 1]`.
    pub open spec fn wf(self) -> bool {
        &&& CUTOFF_MIN <= self.cutoff <= CUTOFF_MAX
        &&& 0 <= self.resonance <= SCALE
        &&& fx_in_range(self.p1 as int)
        &&& fx_in_range(self.p2 as int)
        &&& fx_in_range(self.p3 as int)
        &&& -SCALE <= self.p4 <= SCALE
    }

    /// The stages stay small: at most five units on the free stages, one
    /// on the clamped output stage.
    pub open spec fn bounded(self) -> bool {
        &&& -FIVE_SCALE <= self.p1 <= FIVE_SCALE
        &&& -FIVE_SCALE <= self.p2 <= FIVE_SCALE
        &&& -FIVE_SCALE <= self.p3 <= FIVE_SCALE
        &&& -SCALE <= self.p4 <= SCALE
    }

    pub fn new() -> (r: RolandFilter)
        ensures
            r == roland_default_s(),
            r.wf(),
            r.bounded(),
    {
        RolandFilter { cutoff: DEFAULT_CUTOFF, resonance: 0, p1: 0, p2: 0, p3: 0, p4: 0 }
    }

    pub fn set_params(&mut self, cutoff: i64, resonance: i64)
        requires
            old(self).wf(),
        ensures
            *final(self) == roland_set_params_s(*old(self), cutoff as int, resonance as int),
            final(self).wf(),
            old(self).bounded() ==> final(self).bounded(),
    {
        self.cutoff = fx_clamp(cutoff, CUTOFF_MIN, CUTOFF_MAX);
        self.resonance = fx_clamp(resonance, 0, SCALE);
    }

    pub fn process(&mut self, input: i64, sample_rate: i64) -> (out: i64)
        requires
            old(self).wf(),
            fx_in_range(input as int),
            0 < sample_rate,
            fx_in_range(sample_rate as int),
        ensures
            *final(self) == roland_step_s(*old(self), input as int, sample_rate as int),
            out == final(self).p4,
            -SCALE <= out <= SCALE,
            final(self).wf(),
            old(self).bounded() && -SCALE <= input <= SCALE ==> final(self).bounded(),
    {
        let kk: i64 = fx_mul(FX_TAU, fx_div(self.cutoff, sample_rate));
        let g: i64 = fx_sub(SCALE, fx_exp_neg(kk));
        let fb: i64 = fx_mul(FOUR_SCALE, self.resonance);
        let fb_amount: i64 = fx_mul(fb, self.p4);
        proof {
            assert((fb as int) * (self.p4 as int) <= (FOUR_SCALE as int) * (SCALE as int)
                && -((FOUR_SCALE as int) * (SCALE as int)) <= (fb as int) * (self.p4 as int))
                by (nonlinear_arith)
                requires
                    0 <= fb <= FOUR_SCALE as int,
                    -(SCALE as int) <= self.p4 <= SCALE as int,
            ;
            lemma_div_to_zero_mag((fb as int) * (self.p4 as int), SCALE as int, FOUR_SCALE as int);
        }
        let x: i64 = fx_sub(input, fb_amount);
        let p1: i64 = one_pole(self.p1, x, g);
        let p2: i64 = one_pole(self.p2, p1, g);
        let p3: i64 = one_pole(self.p3, p2, g);
        let p4: i64 = fx_clamp(one_pole(self.p4, p3, g), -SCALE, SCALE);
        self.p1 = p1;
        self.p2 = p2;
        self.p3 = p3;
        self.p4 = p4;
        p4
    }
}

/// The initial state: default parameters (1000 Hz, resonance zero),
/// silent stages.
pub open spec fn roland_default_s() -> RolandFilter {
    RolandFilter { cutoff: DEFAULT_CUTOFF, resonance: 0, p1: 0, p2: 0, p3: 0, p4: 0 }
}

/// Clamp the raw parameters into their ranges; the stages keep their
/// values.
pub open spec fn roland_set_params_s(st: RolandFilter, cutoff: int, resonance: int) -> RolandFilter {
    RolandFilter {
        cutoff: fx_clamp_s(cutoff, CUTOFF_MIN as int, CUTOFF_MAX as int) as i64,
        resonance: fx_clamp_s(resonance, 0, SCALE as int) as i64,
        ..st
    }
}

/// One lowpass stage: `y + g (x - y)`, every operation saturating.
pub open spec fn one_pole_s(y: int, x: int, g: int) -> int {
    fx_sat(y + fx_mul_s(fx_sat(x - y), g))
}

/// The stage gain `1 - e^(-2 pi cutoff / sample_rate)`.
pub open spec fn roland_gain_s(cutoff: int, sr: int) -> int {
    fx_sat(SCALE as int - fx_exp_neg_s(fx_mul_s(FX_TAU as int, fx_div_s(cutoff, sr))))
}

/// One sample of the fourth model: feedback subtraction, four one-pole
/// stages in cascade, the fourth clamped to `[-1, 1]`; parameters
/// unchanged.
pub open spec fn roland_step_s(st: RolandFilter, x_in: int, sr: int) -> RolandFilter {
    let g = roland_gain_s(st.cutoff as int, sr);
    let fb = fx_mul_s(FOUR_SCALE as int, st.resonance as int);
    let x = fx_sat(x_in - fx_mul_s(fb, st.p4 as int));
    let p1 = one_pole_s(st.p1 as int, x, g);
    let p2 = one_pole_s(st.p2 as int, p1, g);
    let p3 = one_pole_s(st.p3 as int, p2, g);
    let p4 = fx_clamp_s(one_pole_s(st.p4 as int, p3, g), -(SCALE as int), SCALE as int);
    RolandFilter { p1: p1 as i64, p2: p2 as i64, p3: p3 as i64, p4: p4 as i64, ..st }
}

/// One lowpass stage; the result always lies between the old stage value
/// and the stage input.
fn one_pole(y: i64, x: i64, g: i64) -> (r: i64)
    requires
        fx_in_range(y as int),
        fx_in_range(x as int),
        0 <= g <= SCALE,
    ensures
        r as int == one_pole_s(y as int, x as int, g as int),
        fx_in_range(r as int),
        y <= x ==> y <= r <= x,
        x <= y ==> x <= r <= y,
{
    let d: i64 = fx_sub(x, y);
    let e: i64 = fx_mul(d, g);
    fx_add(y, e)
}

} // verus!
