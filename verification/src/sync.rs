//! Tempo synchronization: map a musical duration and a tempo in beats per
//! minute to a smoothing time in milliseconds. A quarter note is one
//! beat, `60000 / tempo` ms; every other duration is a fixed rational
//! multiple of that, from four bars (sixteen beats) down to a 1/64 note
//! (a sixteenth of a beat), including the dotted and triplet values.

use vstd::prelude::*;
use vstd::arithmetic::div_mod::lemma_div_multiples_vanish;
use crate::fixed::{SCALE, fx_in_range, fx_sat, div_to_zero, fx_div_s, fx_div, fx_ratio};

verus! {

/// One minute in milliseconds, in Q32.
pub const F60000: i64 = 257698037760000;

/// How the smoothing time is chosen: a direct millisecond value, or a
/// musical duration resolved against the host's tempo.
#[derive(Clone, Copy, PartialEq, Eq, Structural, Debug)]
pub enum SyncMode {
    Milliseconds,
    MidiSync,
}

/// The nineteen musical durations, from four bars down to a 1/64 note,
/// with dotted and triplet variants.
#[derive(Clone, Copy, PartialEq, Eq, Structural, Debug)]
pub enum SyncValue {
    Bars4,
    Bars3_5,
    Bars3,
    Bars2_5,
    Bars2,
    Bars1_5,
    Bar1,
    Note3_4,
    Note1_2,
    Note3_8,
    Note1_4,
    Note3_16,
    Note1_6,
    Note1_8,
    Note1_12,
    Note1_16,
    Note1_24,
    Note1_32,
    Note1_48,
    Note1_64,
}

/// The numerator of the duration's multiplier, in beats.
pub open spec fn sync_numerator_s(v: SyncValue) -> int {
    match v {
        SyncValue::Bars4 => 16,
        SyncValue::Bars3_5 => 14,
        SyncValue::Bars3 => 12,
        SyncValue::Bars2_5 => 10,
        SyncValue::Bars2 => 8,
        SyncValue::Bars1_5 => 6,
        SyncValue::Bar1 => 4,
        SyncValue::Note3_4 => 3,
        SyncValue::Note1_2 => 2,
        SyncValue::Note3_8 => 3,
        SyncValue::Note1_4 => 1,
        SyncValue::Note3_16 => 3,
        SyncValue::Note1_6 => 2,
        SyncValue::Note1_8 => 1,
        SyncValue::Note1_12 => 1,
        SyncValue::Note1_16 => 1,
        SyncValue::Note1_24 => 1,
        SyncValue::Note1_32 => 1,
        SyncValue::Note1_48 => 1,
        SyncValue::Note1_64 => 1,
    }
}

/// The denominator of the duration's multiplier.
pub open spec fn sync_denominator_s(v: SyncValue) -> int {
    match v {
        SyncValue::Bars4 => 1,
        SyncValue::Bars3_5 => 1,
        SyncValue::Bars3 => 1,
        SyncValue::Bars2_5 => 1,
        SyncValue::Bars2 => 1,
        SyncValue::Bars1_5 => 1,
        SyncValue::Bar1 => 1,
        SyncValue::Note3_4 => 1,
        SyncValue::Note1_2 => 1,
        SyncValue::Note3_8 => 2,
        SyncValue::Note1_4 => 1,
        SyncValue::Note3_16 => 4,
        SyncValue::Note1_6 => 3,
        SyncValue::Note1_8 => 2,
        SyncValue::Note1_12 => 3,
        SyncValue::Note1_16 => 4,
        SyncValue::Note1_24 => 6,
        SyncValue::Note1_32 => 8,
        SyncValue::Note1_48 => 12,
        SyncValue::Note1_64 => 16,
    }
}

/// The duration in milliseconds: `60000 / tempo` scaled by the duration's
/// rational multiplier, every operation saturating.
pub open spec fn sync_time_ms_s(v: SyncValue, tempo: int) -> int {
    let ms_per_beat = fx_div_s(F60000 as int, tempo);
    fx_sat(div_to_zero(ms_per_beat * sync_numerator_s(v), sync_denominator_s(v)))
}

/// Resolve a musical duration against a tempo, in Q32 milliseconds.
pub fn get_sync_time_ms(sync_value: SyncValue, tempo: i64) -> (r: i64)
    requires
        0 < tempo,
        fx_in_range(tempo as int),
    ensures
        r as int == sync_time_ms_s(sync_value, tempo as int),
        r >= 0,
        fx_in_range(r as int),
{
    let ms_per_beat: i64 = fx_div(F60000, tempo);
    let num: i64 = match sync_value {
        SyncValue::Bars4 => 16,
        SyncValue::Bars3_5 => 14,
        SyncValue::Bars3 => 12,
        SyncValue::Bars2_5 => 10,
        SyncValue::Bars2 => 8,
        SyncValue::Bars1_5 => 6,
        SyncValue::Bar1 => 4,
        SyncValue::Note3_4 => 3,
        SyncValue::Note1_2 => 2,
        SyncValue::Note3_8 => 3,
        SyncValue::Note1_4 => 1,
        SyncValue::Note3_16 => 3,
        SyncValue::Note1_6 => 2,
        SyncValue::Note1_8 => 1,
        SyncValue::Note1_12 => 1,
        SyncValue::Note1_16 => 1,
        SyncValue::Note1_24 => 1,
        SyncValue::Note1_32 => 1,
        SyncValue::Note1_48 => 1,
        SyncValue::Note1_64 => 1,
    };
    let den: i64 = match sync_value {
        SyncValue::Bars4 => 1,
        SyncValue::Bars3_5 => 1,
        SyncValue::Bars3 => 1,
        SyncValue::Bars2_5 => 1,
        SyncValue::Bars2 => 1,
        SyncValue::Bars1_5 => 1,
        SyncValue::Bar1 => 1,
        SyncValue::Note3_4 => 1,
        SyncValue::Note1_2 => 1,
        SyncValue::Note3_8 => 2,
        SyncValue::Note1_4 => 1,
        SyncValue::Note3_16 => 4,
        SyncValue::Note1_6 => 3,
        SyncValue::Note1_8 => 2,
        SyncValue::Note1_12 => 3,
        SyncValue::Note1_16 => 4,
        SyncValue::Note1_24 => 6,
        SyncValue::Note1_32 => 8,
        SyncValue::Note1_48 => 12,
        SyncValue::Note1_64 => 16,
    };
    fx_ratio(ms_per_beat, num, den)
}

/// Law: the synchronized durations are exact where the tempo divides the
/// minute evenly — a quarter note at 120 beats per minute is 500 ms, one
/// bar at 120 is 2000 ms, and an eighth note at 60 is 500 ms.
pub proof fn lemma_sync_time_exact()
    ensures
        sync_time_ms_s(SyncValue::Note1_4, 120 * (SCALE as int)) == 500 * (SCALE as int),
        sync_time_ms_s(SyncValue::Bar1, 120 * (SCALE as int)) == 2000 * (SCALE as int),
        sync_time_ms_s(SyncValue::Note1_8, 60 * (SCALE as int)) == 500 * (SCALE as int),
{
    let s = SCALE as int;
    assert((F60000 as int) * s == (120 * s) * (500 * s)) by (nonlinear_arith)
        requires
            s == 4294967296,
            F60000 as int == 257698037760000,
    ;
    lemma_div_multiples_vanish(500 * s, 120 * s);
    assert(fx_div_s(F60000 as int, 120 * s) == 500 * s);
    lemma_div_multiples_vanish(500 * s, 1);
    assert((1int) * (500 * s) == 500 * s) by (nonlinear_arith);
    lemma_div_multiples_vanish(2000 * s, 1);
    assert((1int) * (2000 * s) == 2000 * s) by (nonlinear_arith);

    assert((F60000 as int) * s == (60 * s) * (1000 * s)) by (nonlinear_arith)
        requires
            s == 4294967296,
            F60000 as int == 257698037760000,
    ;
    lemma_div_multiples_vanish(1000 * s, 60 * s);
    assert(fx_div_s(F60000 as int, 60 * s) == 1000 * s);
    lemma_div_multiples_vanish(500 * s, 2);
    assert((2int) * (500 * s) == 1000 * s) by (nonlinear_arith);
}

} // verus!
