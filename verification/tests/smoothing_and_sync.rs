use variable_filter::smoother::{ParameterSmoother, smoothing_coefficient};
use variable_filter::sync::{get_sync_time_ms, SyncValue};
use variable_filter::moog::MoogFilter;

const ONE: i64 = 4294967296;

fn q(x: i64) -> i64 {
    x * ONE
}

#[test]
fn sync_times_are_exact_at_even_tempos() {
    assert_eq!(get_sync_time_ms(SyncValue::Note1_4, q(120)), q(500));
    assert_eq!(get_sync_time_ms(SyncValue::Bar1, q(120)), q(2000));
    assert_eq!(get_sync_time_ms(SyncValue::Note1_8, q(60)), q(500));
}

#[test]
fn sync_table_covers_bars_dots_and_triplets() {
    let t = q(120);
    assert_eq!(get_sync_time_ms(SyncValue::Bars4, t), q(8000));
    assert_eq!(get_sync_time_ms(SyncValue::Bars3_5, t), q(7000));
    assert_eq!(get_sync_time_ms(SyncValue::Bars2, t), q(4000));
    assert_eq!(get_sync_time_ms(SyncValue::Note3_8, t), q(750));
    assert_eq!(get_sync_time_ms(SyncValue::Note3_16, t), q(375));
    assert_eq!(get_sync_time_ms(SyncValue::Note1_16, t), q(125));
    assert_eq!(get_sync_time_ms(SyncValue::Note1_64, t), q(500) / 16);
    // a triplet value truncates toward zero
    assert_eq!(get_sync_time_ms(SyncValue::Note1_6, t), 1431655765333);
}

#[test]
fn smoother_bypass_snaps_to_target_in_one_sample() {
    let mut s = ParameterSmoother::new();
    assert_eq!(s.current_cutoff, q(1000));
    assert_eq!(s.current_resonance, 0);
    s.advance(q(5000), ONE / 2, 0);
    assert_eq!(s.current_cutoff, q(5000));
    assert_eq!(s.current_resonance, ONE / 2);
}

#[test]
fn disabled_smoothing_gives_zero_coefficient() {
    assert_eq!(smoothing_coefficient(false, q(50), q(44100)), 0);
}

#[test]
fn nonpositive_smoothing_time_is_guarded() {
    assert_eq!(smoothing_coefficient(true, 0, q(44100)), 0);
    assert_eq!(smoothing_coefficient(true, -q(5), q(44100)), 0);
}

#[test]
fn smoother_converges_within_one_percent_without_overshoot() {
    let coeff = smoothing_coefficient(true, q(50), q(44100));
    assert!(0 < coeff && coeff < ONE);
    let mut s = ParameterSmoother::new();
    let target = q(5000);
    let mut previous = s.current_cutoff;
    // five time constants at 50 ms and 44100 Hz
    for _ in 0..11025 {
        s.advance(target, 0, coeff);
        assert!(s.current_cutoff >= previous);
        assert!(s.current_cutoff <= target);
        previous = s.current_cutoff;
    }
    assert!(target - s.current_cutoff <= target / 100);
}

#[test]
fn smoother_glides_down_as_well() {
    let coeff = smoothing_coefficient(true, q(50), q(44100));
    let mut s = ParameterSmoother::new();
    let target = q(200);
    let mut previous = s.current_cutoff;
    for _ in 0..11025 {
        s.advance(target, 0, coeff);
        assert!(s.current_cutoff <= previous);
        assert!(s.current_cutoff >= target);
        previous = s.current_cutoff;
    }
    assert!(s.current_cutoff - target <= target / 100);
}

#[test]
fn repeated_set_params_has_no_hidden_effect() {
    let sr = q(44100);
    let mut once = MoogFilter::new();
    let mut thrice = MoogFilter::new();
    once.set_params(q(800), ONE / 4);
    thrice.set_params(q(800), ONE / 4);
    thrice.set_params(q(800), ONE / 4);
    thrice.set_params(q(800), ONE / 4);
    for i in 0..50 {
        let x = if i % 2 == 0 { ONE } else { -ONE };
        assert_eq!(once.process(x, sr), thrice.process(x, sr));
    }
}
