//! The engine for one audio channel: a filter bank and its own parameter
//! smoother, driven one block at a time. Per block the smoothing time is
//! taken directly or resolved from the tempo, and the smoothing
//! coefficient derived from it; per sample the smoother advances toward
//! the block targets, the smoothed parameters are broadcast to every
//! model, and the active model filters the sample.

use vstd::prelude::*;
use crate::fixed::{SCALE, fx_in_range};
use crate::bank::{Filter, FilterType, bank_default_s, bank_set_params_s, bank_step_s, bank_out_s};
use crate::smoother::{ParameterSmoother, smoother_default_s, smoother_step_s, smoothing_coefficient_s, smoothing_coefficient};
use crate::sync::{SyncMode, sync_time_ms_s, get_sync_time_ms};
use crate::params::VariableFilterParams;

verus! {

pub struct VariableFilter {
    pub filter: Filter,
    pub smoother: ParameterSmoother,
}

impl Default for VariableFilter {
    /// A fresh channel: every model in its default state, the glide seeded
    /// from the default parameters.
    fn default() -> (r: VariableFilter)
        ensures
            r == engine_default_s(),
            r.wf(),
    {
        VariableFilter { filter: Filter::new(), smoother: ParameterSmoother::new() }
    }
}

impl VariableFilter {
    /// The state invariant: the bank and the smoother are well formed.
    pub open spec fn wf(self) -> bool {
        &&& self.filter.wf()
        &&& self.smoother.wf()
    }

    /// Process one block: select the variant, derive the block's smoothing
    /// coefficient, then per sample advance the glide, broadcast the
    /// smoothed parameters and filter through the active model. Returns
    /// one output sample per input sample, exactly the fold of the
    /// per-sample step over the block.
    #[verifier::rlimit(100)]
    pub fn process(&mut self, input: &Vec<i64>, params: &VariableFilterParams, sample_rate: i64, tempo: i64) -> (out: Vec<i64>)
        requires
            old(self).wf(),
            params.wf(),
            0 < sample_rate,
            fx_in_range(sample_rate as int),
            0 < tempo,
            fx_in_range(tempo as int),
            forall|j: int| 0 <= j < input@.len() ==> fx_in_range(input@[j] as int),
        ensures
            final(self).wf(),
            out@.len() == input@.len(),
            *final(self) == engine_after_s(
                engine_with_type_s(*old(self), params.filter_type),
                params.cutoff as int,
                params.resonance as int,
                block_coeff_s(*params, tempo as int, sample_rate as int),
                sample_rate as int,
                input@,
            ),
            out@ == engine_outs_s(
                engine_with_type_s(*old(self), params.filter_type),
                params.cutoff as int,
                params.resonance as int,
                block_coeff_s(*params, tempo as int, sample_rate as int),
                sample_rate as int,
                input@,
            ),
    {
        self.filter.set_filter_type(params.filter_type);
        let smoothing_time: i64 = match params.sync_mode {
            SyncMode::Milliseconds => params.smoothing_time,
            SyncMode::MidiSync => get_sync_time_ms(params.sync_value, tempo),
        };
        let coeff: i64 = smoothing_coefficient(params.smoothing_enabled, smoothing_time, sample_rate);
        let ghost e0 = *self;
        let ghost tc = params.cutoff as int;
        let ghost tr = params.resonance as int;
        let ghost sri = sample_rate as int;
        let n: usize = input.len();
        let mut out: Vec<i64> = Vec::new();
        let mut i: usize = 0;
        while i < n
            invariant
                0 <= i <= n,
                n == input@.len(),
                out@.len() == i,
                e0 == engine_with_type_s(*old(self), params.filter_type),
                e0.wf(),
                tc == params.cutoff as int,
                tr == params.resonance as int,
                sri == sample_rate as int,
                0 < sample_rate,
                fx_in_range(sample_rate as int),
                params.wf(),
                0 <= coeff <= SCALE,
                coeff as int == block_coeff_s(*params, tempo as int, sample_rate as int),
                forall|j: int| 0 <= j < input@.len() ==> fx_in_range(input@[j] as int),
                *self == engine_after_s(e0, tc, tr, coeff as int, sri, input@.take(i as int)),
                out@ == engine_outs_s(e0, tc, tr, coeff as int, sri, input@.take(i as int)),
                self.wf(),
            decreases n - i,
        {
            let x: i64 = input[i];
            self.smoother.advance(params.cutoff, params.resonance, coeff);
            self.filter.set_params(self.smoother.current_cutoff, self.smoother.current_resonance);
            let y: i64 = self.filter.process(x, sample_rate);
            out.push(y);
            proof {
                assert(input@.take(i as int + 1).drop_last() =~= input@.take(i as int));
                assert(input@.take(i as int + 1).last() == input@[i as int]);
            }
            i = i + 1;
        }
        proof {
            assert(input@.take(n as int) =~= input@);
        }
        out
    }
}

/// A fresh engine.
pub open spec fn engine_default_s() -> VariableFilter {
    VariableFilter { filter: bank_default_s(), smoother: smoother_default_s() }
}

/// The engine with the block's variant selected.
pub open spec fn engine_with_type_s(e: VariableFilter, t: FilterType) -> VariableFilter {
    VariableFilter { filter: Filter { filter_type: t, ..e.filter }, ..e }
}

/// The block's smoothing time: the direct millisecond value, or the
/// selected musical duration resolved against the tempo.
pub open spec fn block_time_ms_s(p: VariableFilterParams, tempo: int) -> int {
    match p.sync_mode {
        SyncMode::Milliseconds => p.smoothing_time as int,
        SyncMode::MidiSync => sync_time_ms_s(p.sync_value, tempo),
    }
}

/// The block's smoothing coefficient.
pub open spec fn block_coeff_s(p: VariableFilterParams, tempo: int, sr: int) -> int {
    smoothing_coefficient_s(p.smoothing_enabled, block_time_ms_s(p, tempo), sr)
}

/// One sample of the engine: glide, broadcast, filter.
pub open spec fn engine_step_s(e: VariableFilter, tc: int, tr: int, coeff: int, x: int, sr: int) -> VariableFilter {
    let sm = smoother_step_s(e.smoother, tc, tr, coeff);
    let f1 = bank_set_params_s(e.filter, sm.current_cutoff as int, sm.current_resonance as int);
    VariableFilter { filter: bank_step_s(f1, x, sr), smoother: sm }
}

/// The sample the engine emits for this step.
pub open spec fn engine_step_out_s(e: VariableFilter, tc: int, tr: int, coeff: int, x: int, sr: int) -> i64 {
    let sm = smoother_step_s(e.smoother, tc, tr, coeff);
    let f1 = bank_set_params_s(e.filter, sm.current_cutoff as int, sm.current_resonance as int);
    bank_out_s(f1, x, sr)
}

/// The engine state after a whole block of samples.
pub open spec fn engine_after_s(e: VariableFilter, tc: int, tr: int, coeff: int, sr: int, xs: Seq<i64>) -> VariableFilter
    decreases xs.len(),
{
    if xs.len() == 0 {
        e
    } else {
        engine_step_s(engine_after_s(e, tc, tr, coeff, sr, xs.drop_last()), tc, tr, coeff, xs.last() as int, sr)
    }
}

/// The output samples of a whole block.
pub open spec fn engine_outs_s(e: VariableFilter, tc: int, tr: int, coeff: int, sr: int, xs: Seq<i64>) -> Seq<i64>
    decreases xs.len(),
{
    if xs.len() == 0 {
        Seq::empty()
    } else {
        engine_outs_s(e, tc, tr, coeff, sr, xs.drop_last()).push(
            engine_step_out_s(engine_after_s(e, tc, tr, coeff, sr, xs.drop_last()), tc, tr, coeff, xs.last() as int, sr),
        )
    }
}

} // verus!
