//! The per-block parameter set the host hands the engine: target cutoff
//! and resonance, the active variant, and the smoothing configuration.
//! Raw targets may lie outside the admissible ranges; every model clamps
//! them on each update.

use vstd::prelude::*;
use crate::fixed::{DEFAULT_CUTOFF, fx_in_range};
use crate::bank::FilterType;
use crate::sync::{SyncMode, SyncValue};

verus! {

/// The default smoothing time: 50 ms in Q32.
pub const DEFAULT_SMOOTHING_TIME: i64 = 214748364800;

pub struct VariableFilterParams {
    pub cutoff: i64,
    pub resonance: i64,
    pub filter_type: FilterType,
    pub smoothing_enabled: bool,
    pub smoothing_time: i64,
    pub sync_mode: SyncMode,
    pub sync_value: SyncValue,
}

impl VariableFilterParams {
    /// The parameter values are within the Q32 range (not yet clamped to
    /// their admissible intervals — the models do that on every update).
    pub open spec fn wf(self) -> bool {
        &&& fx_in_range(self.cutoff as int)
        &&& fx_in_range(self.resonance as int)
        &&& fx_in_range(self.smoothing_time as int)
    }

    /// The default parameter set: 1000 Hz, no resonance, the ladder model,
    /// smoothing off at 50 ms, millisecond mode, a quarter note.
    pub fn new() -> (r: VariableFilterParams)
        ensures
            r == params_default_s(),
            r.wf(),
    {
        VariableFilterParams {
            cutoff: DEFAULT_CUTOFF,
            resonance: 0,
            filter_type: FilterType::Moog,
            smoothing_enabled: false,
            smoothing_time: DEFAULT_SMOOTHING_TIME,
            sync_mode: SyncMode::Milliseconds,
            sync_value: SyncValue::Note1_4,
        }
    }
}

/// The default parameter set.
pub open spec fn params_default_s() -> VariableFilterParams {
    VariableFilterParams {
        cutoff: DEFAULT_CUTOFF,
        resonance: 0,
        filter_type: FilterType::Moog,
        smoothing_enabled: false,
        smoothing_time: DEFAULT_SMOOTHING_TIME,
        sync_mode: SyncMode::Milliseconds,
        sync_value: SyncValue::Note1_4,
    }
}

} // verus!
