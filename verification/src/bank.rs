//! The filter bank: one instance of every model plus the active-variant
//! selector. Parameter updates are broadcast to all four models on every
//! call, so that a variant switched to mid-stream resumes with current
//! parameters; `process` reaches only the active model, so an inactive
//! model's state is frozen exactly where it was last active.

use vstd::prelude::*;
use crate::fixed::fx_in_range;
use crate::arp4075::{Arp4075, arp_default_s, arp_set_params_s, arp_step_s};
use crate::le13700::{Le13700Filter, le_default_s, le_set_params_s, le_step_s};
use crate::moog::{MoogFilter, moog_default_s, moog_set_params_s, moog_step_s};
use crate::roland::{RolandFilter, roland_default_s, roland_set_params_s, roland_step_s};

verus! {

#[derive(Clone, Copy, PartialEq, Eq, Structural, Debug)]
pub enum FilterType {
    Moog,
    Roland,
    Le13700,
    ARP4075,
}

pub struct Filter {
    pub filter_type: FilterType,
    pub moog_filter: MoogFilter,
    pub roland_filter: RolandFilter,
    pub le13700_filter: Le13700Filter,
    pub arp4075: Arp4075,
}

impl Filter {
    /// The state invariant: every owned model is well formed.
    pub open spec fn wf(self) -> bool {
        &&& self.moog_filter.wf()
        &&& self.roland_filter.wf()
        &&& self.le13700_filter.wf()
        &&& self.arp4075.wf()
    }

    pub fn new() -> (r: Filter)
        ensures
            r == bank_default_s(),
            r.wf(),
    {
        Filter {
            filter_type: FilterType::Moog,
            moog_filter: MoogFilter::new(),
            roland_filter: RolandFilter::new(),
            le13700_filter: Le13700Filter::new(),
            arp4075: Arp4075::new(),
        }
    }

    /// Broadcast the raw parameters to all four models, active or not.
    pub fn set_params(&mut self, cutoff: i64, resonance: i64)
        requires
            old(self).wf(),
        ensures
            *final(self) == bank_set_params_s(*old(self), cutoff as int, resonance as int),
            final(self).wf(),
    {
        self.moog_filter.set_params(cutoff, resonance);
        self.roland_filter.set_params(cutoff, resonance);
        self.le13700_filter.set_params(cutoff, resonance);
        self.arp4075.set_params(cutoff, resonance);
    }

    /// A pure selector switch: no model state moves until the next
    /// `process` call.
    pub fn set_filter_type(&mut self, filter_type: FilterType)
        ensures
            *final(self) == (Filter { filter_type, ..*old(self) }),
    {
        self.filter_type = filter_type;
    }

    /// Advance the active model by one sample; the three inactive models
    /// keep their state untouched.
    pub fn process(&mut self, input: i64, sample_rate: i64) -> (out: i64)
        requires
            old(self).wf(),
            fx_in_range(input as int),
            0 < sample_rate,
            fx_in_range(sample_rate as int),
        ensures
            *final(self) == bank_step_s(*old(self), input as int, sample_rate as int),
            out == bank_out_s(*old(self), input as int, sample_rate as int),
            final(self).wf(),
    {
        match self.filter_type {
            FilterType::Moog => self.moog_filter.process(input, sample_rate),
            FilterType::Roland => self.roland_filter.process(input, sample_rate),
            FilterType::Le13700 => self.le13700_filter.process(input, sample_rate),
            FilterType::ARP4075 => self.arp4075.process(input, sample_rate),
        }
    }
}

/// The initial bank: the ladder model active, every model in its default
/// state.
pub open spec fn bank_default_s() -> Filter {
    Filter {
        filter_type: FilterType::Moog,
        moog_filter: moog_default_s(),
        roland_filter: roland_default_s(),
        le13700_filter: le_default_s(),
        arp4075: arp_default_s(),
    }
}

/// Parameters broadcast to all four models; the selector keeps its value.
pub open spec fn bank_set_params_s(f: Filter, cutoff: int, resonance: int) -> Filter {
    Filter {
        filter_type: f.filter_type,
        moog_filter: moog_set_params_s(f.moog_filter, cutoff, resonance),
        roland_filter: roland_set_params_s(f.roland_filter, cutoff, resonance),
        le13700_filter: le_set_params_s(f.le13700_filter, cutoff, resonance),
        arp4075: arp_set_params_s(f.arp4075, cutoff, resonance),
    }
}

/// One sample through the bank: only the active model's state advances.
pub open spec fn bank_step_s(f: Filter, x: int, sr: int) -> Filter {
    match f.filter_type {
        FilterType::Moog => Filter { moog_filter: moog_step_s(f.moog_filter, x, sr), ..f },
        FilterType::Roland => Filter { roland_filter: roland_step_s(f.roland_filter, x, sr), ..f },
        FilterType::Le13700 => Filter { le13700_filter: le_step_s(f.le13700_filter, x, sr), ..f },
        FilterType::ARP4075 => Filter { arp4075: arp_step_s(f.arp4075, x, sr), ..f },
    }
}

/// The sample the active model returns for this step.
pub open spec fn bank_out_s(f: Filter, x: int, sr: int) -> i64 {
    match f.filter_type {
        FilterType::Moog => moog_step_s(f.moog_filter, x, sr).y4,
        FilterType::Roland => roland_step_s(f.roland_filter, x, sr).p4,
        FilterType::Le13700 => le_step_s(f.le13700_filter, x, sr).cap2,
        FilterType::ARP4075 => arp_step_s(f.arp4075, x, sr).s4,
    }
}

/// Law: repeated `set_params` with the same raw values is idempotent —
/// the second broadcast leaves every model exactly as the first did, so
/// all subsequent `process` output is identical; updating parameters has
/// no hidden per-call side effect.
pub proof fn lemma_set_params_idempotent(f: Filter, cutoff: int, resonance: int, x: int, sr: int)
    ensures
        bank_set_params_s(bank_set_params_s(f, cutoff, resonance), cutoff, resonance)
            == bank_set_params_s(f, cutoff, resonance),
        bank_out_s(bank_set_params_s(bank_set_params_s(f, cutoff, resonance), cutoff, resonance), x, sr)
            == bank_out_s(bank_set_params_s(f, cutoff, resonance), x, sr),
        bank_step_s(bank_set_params_s(bank_set_params_s(f, cutoff, resonance), cutoff, resonance), x, sr)
            == bank_step_s(bank_set_params_s(f, cutoff, resonance), x, sr),
{
}

/// Law: a variant switch is continuous. `set_filter_type` moves only the
/// selector; a `process` call leaves every inactive model's state frozen;
/// and the first sample after switching to a model is computed from the
/// state that model carried while inactive — with the parameter updates
/// it kept receiving — never from a cold reset.
pub proof fn lemma_variant_switch_continuity(f: Filter, t: FilterType, cutoff: int, resonance: int, x: int, sr: int)
    ensures
        f.filter_type != FilterType::Moog ==> bank_step_s(f, x, sr).moog_filter == f.moog_filter,
        f.filter_type != FilterType::Roland ==> bank_step_s(f, x, sr).roland_filter == f.roland_filter,
        f.filter_type != FilterType::Le13700 ==> bank_step_s(f, x, sr).le13700_filter == f.le13700_filter,
        f.filter_type != FilterType::ARP4075 ==> bank_step_s(f, x, sr).arp4075 == f.arp4075,
        t == FilterType::Moog ==> bank_out_s(
            bank_set_params_s((Filter { filter_type: t, ..f }), cutoff, resonance), x, sr)
            == moog_step_s(moog_set_params_s(f.moog_filter, cutoff, resonance), x, sr).y4,
        t == FilterType::Roland ==> bank_out_s(
            bank_set_params_s((Filter { filter_type: t, ..f }), cutoff, resonance), x, sr)
            == roland_step_s(roland_set_params_s(f.roland_filter, cutoff, resonance), x, sr).p4,
        t == FilterType::Le13700 ==> bank_out_s(
            bank_set_params_s((Filter { filter_type: t, ..f }), cutoff, resonance), x, sr)
            == le_step_s(le_set_params_s(f.le13700_filter, cutoff, resonance), x, sr).cap2,
        t == FilterType::ARP4075 ==> bank_out_s(
            bank_set_params_s((Filter { filter_type: t, ..f }), cutoff, resonance), x, sr)
            == arp_step_s(arp_set_params_s(f.arp4075, cutoff, resonance), x, sr).s4,
{
}

} // verus!
