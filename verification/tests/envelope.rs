use surgemachine::envelope::{ADSREnvelope, ADSRState, Envelope};
use surgemachine::fixed::{HALF, ONE};
use surgemachine::helpers::{calc_coef, segment_rate, LOG2_RATIO_A, LOG2_RATIO_DR};

const RATE: u64 = 44100 * ONE;
const TEN_MS: u64 = ONE / 100;

fn shaped() -> ADSREnvelope {
    let mut env = ADSREnvelope::new();
    env.set_adsr(RATE, TEN_MS, TEN_MS, HALF, TEN_MS);
    env
}

#[test]
fn new_envelope_is_idle_and_silent() {
    let env = ADSREnvelope::new();
    assert_eq!(env.state, ADSRState::Idle);
    assert_eq!(env.get_value(), 0);
    assert!(env.is_finished());
}

#[test]
fn set_adsr_derives_coefficients_and_bases() {
    let env = shaped();
    assert_eq!(segment_rate(TEN_MS, RATE), 473520133800);
    assert_eq!(env.attack_coef, 1070177475);
    assert_eq!(env.decay_coef, 1051548862);
    assert_eq!(env.release_coef, 1051548862);
    assert_eq!(env.sustain_level, HALF);
    assert_eq!(env.attack_base, 4633653);
    assert_eq!(env.decay_base, 11094261);
    assert_eq!(env.release_drop, 2219);
}

#[test]
fn sustain_level_is_clamped_to_one() {
    let mut env = ADSREnvelope::new();
    env.set_adsr(RATE, TEN_MS, TEN_MS, 5 * ONE, TEN_MS);
    assert_eq!(env.sustain_level, ONE);
}

#[test]
fn calc_coef_is_zero_without_duration() {
    assert_eq!(calc_coef(0, LOG2_RATIO_A), 0);
    assert_eq!(calc_coef(0, LOG2_RATIO_DR), 0);
    assert_eq!(calc_coef(-1, LOG2_RATIO_A), 0);
    assert_eq!(calc_coef(i64::MIN, 12345), 0);
    assert_eq!(calc_coef(0, 0), 0);
    assert_eq!(calc_coef(0, u64::MAX), 0);
}

#[test]
fn calc_coef_exact_values() {
    assert_eq!(calc_coef((8820 * ONE) as i64, LOG2_RATIO_A), 1073563268);
    assert_eq!(calc_coef(1, LOG2_RATIO_A), 0);
    assert_eq!(calc_coef(ONE as i64, LOG2_RATIO_DR), 107363);
}

#[test]
fn attack_rises_monotonically_to_one_then_decays_to_sustain() {
    let mut env = shaped();
    env.trigger();
    assert_eq!(env.state, ADSRState::Attack);
    let mut previous = env.get_value();
    let mut steps = 0;
    while env.state == ADSRState::Attack {
        env.process();
        assert!(env.get_value() >= previous);
        assert!(env.get_value() <= ONE);
        previous = env.get_value();
        steps += 1;
        assert!(steps < 10_000);
    }
    assert_eq!(steps, 441);
    assert_eq!(env.state, ADSRState::Decay);
    assert_eq!(env.get_value(), ONE);
    while env.state == ADSRState::Decay {
        env.process();
        assert!(env.get_value() <= previous);
        assert!(env.get_value() >= HALF);
        previous = env.get_value();
        steps += 1;
        assert!(steps < 10_000);
    }
    assert_eq!(env.state, ADSRState::Sustain);
    assert_eq!(env.get_value(), HALF);
}

#[test]
fn first_attack_steps_have_exact_values() {
    let mut env = shaped();
    env.trigger();
    env.process();
    assert_eq!(env.get_value(), 4633653);
    env.process();
    assert_eq!(env.get_value(), 9251924);
}

#[test]
fn ten_millisecond_envelope_end_to_end() {
    let mut env = shaped();
    env.trigger();
    for _ in 0..441 {
        env.process();
    }
    let level = env.get_value() as f64 / ONE as f64;
    assert!((level - 1.0).abs() < 1e-3);
    for _ in 0..441 {
        env.process();
    }
    let level = env.get_value() as f64 / ONE as f64;
    assert!(level < 1.0);
    assert!(level >= 0.5);
    for _ in 0..100_000 {
        env.process();
    }
    assert_eq!(env.get_value(), HALF);
    assert_eq!(env.state, ADSRState::Sustain);
    for _ in 0..1000 {
        env.process();
        assert_eq!(env.get_value(), HALF);
    }
}

#[test]
fn release_falls_to_exactly_zero_and_stays_finished() {
    let mut env = shaped();
    env.trigger();
    for _ in 0..2000 {
        env.process();
    }
    assert_eq!(env.get_value(), HALF);
    env.release();
    assert!(!env.is_finished());
    let mut previous = env.get_value();
    let mut steps = 0;
    while !env.is_finished() {
        env.process();
        assert!(env.get_value() <= previous);
        previous = env.get_value();
        steps += 1;
        assert!(steps < 10_000);
    }
    assert_eq!(steps, 408);
    assert_eq!(env.get_value(), 0);
    for _ in 0..100 {
        env.process();
        assert!(env.is_finished());
        assert_eq!(env.get_value(), 0);
    }
    env.trigger();
    assert!(!env.is_finished());
}

#[test]
fn zero_length_segments_pass_at_once() {
    let mut env = ADSREnvelope::new();
    env.set_adsr(RATE, 0, 0, HALF, 0);
    assert_eq!(env.attack_coef, 0);
    env.trigger();
    env.process();
    assert_eq!(env.state, ADSRState::Decay);
    assert_eq!(env.get_value(), ONE);
    env.process();
    assert_eq!(env.state, ADSRState::Sustain);
    assert_eq!(env.get_value(), HALF);
    env.release();
    env.process();
    assert!(env.is_finished());
    assert_eq!(env.get_value(), 0);
}

#[test]
fn reset_silences_at_once() {
    let mut env = shaped();
    env.trigger();
    for _ in 0..100 {
        env.process();
    }
    assert!(env.get_value() > 0);
    env.reset();
    assert!(env.is_finished());
    assert_eq!(env.get_value(), 0);
}

#[test]
fn trigger_rearms_from_any_state() {
    let mut env = shaped();
    env.trigger();
    for _ in 0..600 {
        env.process();
    }
    assert_eq!(env.state, ADSRState::Decay);
    env.trigger();
    assert_eq!(env.state, ADSRState::Attack);
    env.release();
    assert_eq!(env.state, ADSRState::Release);
    env.trigger();
    assert_eq!(env.state, ADSRState::Attack);
}
