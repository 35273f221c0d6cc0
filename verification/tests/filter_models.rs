use variable_filter::fixed::{fx_add, fx_mul, fx_div, FX_MAX};
use variable_filter::approx::{fx_sin, fx_exp_neg, FX_TAU};
use variable_filter::arp4075::Arp4075;
use variable_filter::le13700::Le13700Filter;
use variable_filter::moog::MoogFilter;
use variable_filter::roland::RolandFilter;
use variable_filter::bank::{Filter, FilterType};

const ONE: i64 = 4294967296;

fn q(x: i64) -> i64 {
    x * ONE
}

#[test]
fn fixed_point_arithmetic_is_exact() {
    assert_eq!(fx_mul(q(2), q(3)), q(6));
    assert_eq!(fx_mul(-q(2), q(3)), -q(6));
    assert_eq!(fx_mul(-q(2), -q(3)), q(6));
    assert_eq!(fx_div(q(1), q(2)), ONE / 2);
    assert_eq!(fx_div(q(60000), q(120)), q(500));
    assert_eq!(fx_add(FX_MAX, FX_MAX), FX_MAX);
    assert_eq!(fx_mul(FX_MAX, q(2)), FX_MAX);
}

#[test]
fn sine_is_exact_at_quarter_turns() {
    assert_eq!(fx_sin(0), 0);
    assert_eq!(fx_sin(FX_TAU / 4), ONE);
    assert_eq!(fx_sin(FX_TAU / 2), 0);
    assert_eq!(fx_sin(3 * (FX_TAU / 4)), -ONE);
    assert_eq!(fx_sin(FX_TAU + FX_TAU / 4), ONE);
}

#[test]
fn exp_neg_is_one_at_zero_and_decreasing() {
    assert_eq!(fx_exp_neg(0), ONE);
    assert_eq!(fx_exp_neg(ONE), 1585834078);
    assert!(fx_exp_neg(q(2)) < fx_exp_neg(ONE));
    assert!(fx_exp_neg(q(100)) < fx_exp_neg(q(2)));
    assert!(fx_exp_neg(q(100)) >= 0);
}

#[test]
fn every_model_clamps_parameters() {
    let mut m = MoogFilter::new();
    m.set_params(q(100000), q(2));
    assert_eq!(m.cutoff, q(20000));
    assert_eq!(m.resonance, ONE);
    m.set_params(q(1), -q(5));
    assert_eq!(m.cutoff, q(20));
    assert_eq!(m.resonance, 0);

    let mut a = Arp4075::new();
    a.set_params(q(100000), q(2));
    assert_eq!(a.cutoff, q(20000));
    assert_eq!(a.resonance, ONE);

    let mut l = Le13700Filter::new();
    l.set_params(-q(7), q(2));
    assert_eq!(l.cutoff, q(20));
    assert_eq!(l.resonance, ONE);

    let mut r = RolandFilter::new();
    r.set_params(q(100000), -q(1));
    assert_eq!(r.cutoff, q(20000));
    assert_eq!(r.resonance, 0);
}

#[test]
fn models_start_from_their_defaults() {
    let m = MoogFilter::new();
    assert_eq!(m.cutoff, q(1000));
    assert_eq!(m.resonance, 0);
    assert_eq!(m.y4, 0);
    let a = Arp4075::new();
    assert_eq!(a.cutoff, q(1000));
    assert_eq!(a.resonance, ONE / 2);
    let l = Le13700Filter::new();
    assert_eq!(l.cutoff, q(1000));
    assert_eq!(l.resonance, 0);
    let r = RolandFilter::new();
    assert_eq!(r.cutoff, q(1000));
    assert_eq!(r.resonance, 0);
}

#[test]
fn moog_impulse_response_is_bounded_and_nonzero() {
    let sr = q(44100);
    let mut m = MoogFilter::new();
    let first = m.process(ONE, sr);
    assert_eq!(first, 175809);
    let mut peak: i64 = first;
    for _ in 0..999 {
        let out = m.process(0, sr);
        assert!(-ONE <= out && out <= ONE);
        if out > peak {
            peak = out;
        }
    }
    assert!(peak > 0);
}

#[test]
fn moog_dc_step_settles_within_unit_bounds() {
    let sr = q(44100);
    let mut m = MoogFilter::new();
    let mut last: i64 = 0;
    for _ in 0..2000 {
        last = m.process(ONE, sr);
        assert!(-ONE <= last && last <= ONE);
    }
    assert!(last > ONE - q(1) / 1000);
}

#[test]
fn le13700_dc_step_stays_bounded() {
    let sr = q(44100);
    let mut l = Le13700Filter::new();
    for _ in 0..5000 {
        let out = l.process(ONE, sr);
        assert!(-q(8) <= out && out <= q(8));
    }
}

#[test]
fn roland_dc_step_settles_to_unity() {
    let sr = q(44100);
    let mut r = RolandFilter::new();
    let first = r.process(ONE, sr);
    assert_eq!(first, 1335476);
    let mut last: i64 = first;
    for _ in 0..2999 {
        last = r.process(ONE, sr);
        assert!(-ONE <= last && last <= ONE);
    }
    assert!(last > ONE - 1000);
}

#[test]
fn roland_brightness_falls_with_cutoff() {
    let sr = q(44100);
    let mut low = RolandFilter::new();
    low.set_params(q(100), 0);
    let mut high = RolandFilter::new();
    high.set_params(q(10000), 0);
    let mut low_out: i64 = 0;
    let mut high_out: i64 = 0;
    for _ in 0..50 {
        low_out = low.process(ONE, sr);
        high_out = high.process(ONE, sr);
    }
    assert!(low_out < high_out);
}

#[test]
fn arp_impulse_runs_and_extreme_resonance_saturates_without_panic() {
    let sr = q(44100);
    let mut a = Arp4075::new();
    let first = a.process(ONE, sr);
    assert_eq!(first, 241445);
    for _ in 0..999 {
        a.process(0, sr);
    }
    let mut hot = Arp4075::new();
    hot.set_params(q(20000), ONE);
    for _ in 0..1000 {
        hot.process(ONE, sr);
    }
}

#[test]
fn edge_cutoffs_stay_finite_on_every_model() {
    let sr = q(44100);
    for cutoff in [q(20), q(20000)] {
        for resonance in [0, ONE] {
            let mut m = MoogFilter::new();
            let mut l = Le13700Filter::new();
            let mut r = RolandFilter::new();
            m.set_params(cutoff, resonance);
            l.set_params(cutoff, resonance);
            r.set_params(cutoff, resonance);
            for _ in 0..500 {
                let mo = m.process(ONE, sr);
                assert!(-ONE <= mo && mo <= ONE);
                l.process(ONE, sr);
                let ro = r.process(ONE, sr);
                assert!(-ONE <= ro && ro <= ONE);
            }
        }
    }
}

#[test]
fn bank_dispatches_to_the_active_model_only() {
    let sr = q(44100);
    let mut bank = Filter::new();
    assert_eq!(bank.filter_type, FilterType::Moog);
    bank.set_params(q(500), ONE / 2);
    for _ in 0..10 {
        bank.process(ONE, sr);
    }
    // the inactive models were updated but never processed
    assert_eq!(bank.le13700_filter.cutoff, q(500));
    assert_eq!(bank.le13700_filter.cap2, 0);
    assert_eq!(bank.arp4075.s4, 0);
    assert_eq!(bank.roland_filter.p4, 0);
    assert!(bank.moog_filter.y4 != 0 || bank.moog_filter.y1 != 0);
}

#[test]
fn variant_switch_resumes_from_tracked_state() {
    let sr = q(44100);
    let mut bank = Filter::new();
    bank.set_params(q(500), ONE / 2);
    for _ in 0..10 {
        bank.process(ONE, sr);
    }
    bank.set_filter_type(FilterType::Le13700);
    let switched = bank.process(ONE, sr);

    // a standalone model that received the same parameter updates but no
    // process calls produces the same first sample: no cold reset
    let mut shadow = Le13700Filter::new();
    shadow.set_params(q(500), ONE / 2);
    let expected = shadow.process(ONE, sr);
    assert_eq!(switched, expected);
}
