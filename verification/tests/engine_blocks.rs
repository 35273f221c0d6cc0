use variable_filter::engine::VariableFilter;
use variable_filter::params::VariableFilterParams;
use variable_filter::bank::FilterType;
use variable_filter::sync::{SyncMode, SyncValue};
use variable_filter::moog::MoogFilter;

const ONE: i64 = 4294967296;

fn q(x: i64) -> i64 {
    x * ONE
}

fn block_params() -> VariableFilterParams {
    VariableFilterParams {
        cutoff: q(2000),
        resonance: ONE / 4,
        filter_type: FilterType::Moog,
        smoothing_enabled: false,
        smoothing_time: q(50),
        sync_mode: SyncMode::Milliseconds,
        sync_value: SyncValue::Note1_4,
    }
}

#[test]
fn default_parameters_match_the_documented_set() {
    let p = VariableFilterParams::new();
    assert_eq!(p.cutoff, q(1000));
    assert_eq!(p.resonance, 0);
    assert_eq!(p.filter_type, FilterType::Moog);
    assert!(!p.smoothing_enabled);
    assert_eq!(p.smoothing_time, q(50));
    assert_eq!(p.sync_mode, SyncMode::Milliseconds);
    assert_eq!(p.sync_value, SyncValue::Note1_4);
}

#[test]
fn engine_processes_one_output_per_input() {
    let mut e = VariableFilter::default();
    let input: Vec<i64> = vec![ONE; 16];
    let out = e.process(&input, &block_params(), q(44100), q(120));
    assert_eq!(out.len(), 16);
}

#[test]
fn engine_without_smoothing_snaps_targets_on_the_first_sample() {
    let mut e = VariableFilter::default();
    let input: Vec<i64> = vec![0; 4];
    e.process(&input, &block_params(), q(44100), q(120));
    assert_eq!(e.smoother.current_cutoff, q(2000));
    assert_eq!(e.smoother.current_resonance, ONE / 4);
    assert_eq!(e.filter.moog_filter.cutoff, q(2000));
    assert_eq!(e.filter.le13700_filter.cutoff, q(2000));
}

#[test]
fn engine_block_matches_a_hand_driven_model() {
    let sr = q(44100);
    let mut e = VariableFilter::default();
    let input: Vec<i64> = vec![ONE, ONE / 2, -ONE, 0, ONE / 4, -ONE / 2];
    let out = e.process(&input, &block_params(), sr, q(120));

    // smoothing is off, so every sample runs the active model at the block
    // targets
    let mut shadow = MoogFilter::new();
    shadow.set_params(q(2000), ONE / 4);
    for (x, y) in input.iter().zip(out.iter()) {
        assert_eq!(shadow.process(*x, sr), *y);
    }
}

#[test]
fn engine_with_smoothing_glides_toward_the_target() {
    let mut p = block_params();
    p.smoothing_enabled = true;
    let mut e = VariableFilter::default();
    let input: Vec<i64> = vec![0; 32];
    e.process(&input, &p, q(44100), q(120));
    // started at the 1000 Hz default, gliding up toward 2000 Hz
    assert!(e.smoother.current_cutoff > q(1000));
    assert!(e.smoother.current_cutoff < q(2000));
}

#[test]
fn engine_midi_sync_resolves_the_smoothing_time() {
    let mut p = block_params();
    p.smoothing_enabled = true;
    p.sync_mode = SyncMode::MidiSync;
    p.sync_value = SyncValue::Note1_4;
    let mut e = VariableFilter::default();
    let input: Vec<i64> = vec![ONE; 8];
    let out = e.process(&input, &p, q(44100), q(120));
    assert_eq!(out.len(), 8);
    assert!(e.smoother.current_cutoff > q(1000));
    assert!(e.smoother.current_cutoff < q(2000));
}

#[test]
fn engine_switches_variants_between_blocks_without_reset() {
    let sr = q(44100);
    let mut e = VariableFilter::default();
    let input: Vec<i64> = vec![ONE; 20];
    e.process(&input, &block_params(), sr, q(120));
    let moog_state_after = e.filter.moog_filter.y4;

    let mut p = block_params();
    p.filter_type = FilterType::Roland;
    e.process(&input, &p, sr, q(120));
    // the ladder model was inactive: its state is exactly where it froze
    assert_eq!(e.filter.moog_filter.y4, moog_state_after);
    // the newly active model had been tracking parameters all along
    assert_eq!(e.filter.roland_filter.cutoff, q(2000));
}
