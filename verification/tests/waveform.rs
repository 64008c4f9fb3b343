use surgemachine::fixed::{exp2, mul_fixed, HALF, ONE};
use surgemachine::indexed::IndexedEnum;
use surgemachine::oscillator::Oscillator;
use surgemachine::waveform::{
    cubed, noise_from_bits, saw, sine, steepened, Dynamic, Random, Saw, SawExp, SawExp2, SinSq,
    Sine, Square, Waveform, QUARTER,
};

#[test]
fn square_is_low_then_high() {
    assert_eq!(Square.value_at_phase(0), -(ONE as i64));
    assert_eq!(Square.value_at_phase(HALF - 1), -(ONE as i64));
    assert_eq!(Square.value_at_phase(HALF), ONE as i64);
    assert_eq!(Square.value_at_phase(ONE - 1), ONE as i64);
    assert_eq!(Square.value_at_phase(ONE), -(ONE as i64));
    assert_eq!(Square.value_at_phase(ONE + HALF), ONE as i64);
    assert_eq!(Square.value_at_phase(7 * ONE + QUARTER), -(ONE as i64));
}

#[test]
fn saw_descends_from_one() {
    assert_eq!(Saw.value_at_phase(0), ONE as i64);
    assert_eq!(Saw.value_at_phase(QUARTER), HALF as i64);
    assert_eq!(Saw.value_at_phase(HALF), 0);
    assert_eq!(Saw.value_at_phase(ONE - 1), -1073741822);
    assert_eq!(saw(3 * QUARTER), -(HALF as i64));
}

#[test]
fn bent_saw_is_the_saw_cubed() {
    assert_eq!(SawExp2.value_at_phase(0), ONE as i64);
    assert_eq!(SawExp2.value_at_phase(QUARTER), 134217728);
    assert_eq!(SawExp2.value_at_phase(3 * QUARTER), -134217728);
    assert_eq!(SawExp2.value_at_phase(ONE / 8), 452984832);
    assert_eq!(cubed(-(ONE as i64)), -(ONE as i64));
    assert_eq!(cubed(0), 0);
}

#[test]
fn sine_hits_the_quarter_points() {
    assert_eq!(Sine.value_at_phase(0), 0);
    assert_eq!(Sine.value_at_phase(QUARTER), ONE as i64);
    assert_eq!(Sine.value_at_phase(HALF), 0);
    assert_eq!(Sine.value_at_phase(3 * QUARTER), -(ONE as i64));
    assert_eq!(sine(ONE / 8), 759250127);
    assert_eq!(sine(ONE / 3), 929887742);
}

#[test]
fn sine_stays_close_to_the_true_sine() {
    let mut phase: u64 = 0;
    while phase < ONE {
        let got = sine(phase) as f64 / ONE as f64;
        let want = (2.0 * std::f64::consts::PI * phase as f64 / ONE as f64).sin();
        assert!((got - want).abs() < 1e-5, "phase {}: {} vs {}", phase, got, want);
        phase += 104729;
    }
}

#[test]
fn exp2_stays_close_to_the_true_power() {
    assert_eq!(exp2(0), ONE);
    assert_eq!(exp2(ONE as i64), 2 * ONE);
    assert_eq!(exp2(-(ONE as i64)), HALF);
    assert_eq!(exp2(HALF as i64), 1518500249);
    assert_eq!(exp2(10 * ONE as i64), 1099511627776);
    assert_eq!(exp2(-64 * (ONE as i64)), 0);
    assert_eq!(exp2(40 * ONE as i64), 2305843009213693952);
    let mut x: i64 = -8 * (ONE as i64);
    while x < 8 * (ONE as i64) {
        let got = exp2(x) as f64 / ONE as f64;
        let want = (x as f64 / ONE as f64).exp2();
        assert!((got - want).abs() <= want * 1e-6 + 2e-9, "x {}: {} vs {}", x, got, want);
        x += 7_654_321;
    }
}

#[test]
fn mul_fixed_rounds_toward_zero() {
    assert_eq!(mul_fixed(ONE as i64, ONE as i64), ONE as i64);
    assert_eq!(mul_fixed(HALF as i64, HALF as i64), (ONE / 4) as i64);
    assert_eq!(mul_fixed(-(HALF as i64), HALF as i64), -((ONE / 4) as i64));
    assert_eq!(mul_fixed(-3, HALF as i64), -1);
    assert_eq!(mul_fixed(3, HALF as i64), 1);
    assert_eq!(mul_fixed(-3, -(HALF as i64)), 1);
}

#[test]
fn noise_spreads_bits_over_the_range() {
    assert_eq!(noise_from_bits(0), -(ONE as i64));
    assert_eq!(noise_from_bits(u32::MAX), ONE as i64);
    assert_eq!(noise_from_bits(0x8000_0000), 0);
}

#[test]
fn random_waveform_stays_in_range_and_varies() {
    let first = Random.value_at_phase(0);
    let mut varied = false;
    for _ in 0..256 {
        let value = Random.value_at_phase(0);
        assert!(value >= -(ONE as i64) && value <= ONE as i64);
        if value != first {
            varied = true;
        }
    }
    assert!(varied);
}

#[test]
fn blend_of_sine_and_square() {
    let pure_sine = SinSq { square_mix: 0 };
    let pure_square = SinSq { square_mix: ONE };
    let even = SinSq { square_mix: HALF };
    assert_eq!(pure_sine.value_at_phase(ONE / 8), 759250127);
    assert_eq!(pure_square.value_at_phase(ONE / 8), -(ONE as i64));
    assert_eq!(pure_square.value_at_phase(3 * QUARTER), ONE as i64);
    assert_eq!(even.value_at_phase(ONE / 8), 759250127 / 2 - (HALF as i64));
    assert_eq!((SinSq { square_mix: 9 * ONE }).value_at_phase(0), -(ONE as i64));
}

#[test]
fn selector_from_param_covers_all_variants() {
    assert_eq!(Dynamic::from_param(0), Dynamic::Sine);
    assert_eq!(Dynamic::from_param(ONE / 5 - 1), Dynamic::Sine);
    assert_eq!(Dynamic::from_param(ONE / 5 + 1), Dynamic::Saw);
    assert_eq!(Dynamic::from_param(HALF), Dynamic::Square);
    assert_eq!(Dynamic::from_param(7 * (ONE / 10)), Dynamic::SawExp2);
    assert_eq!(Dynamic::from_param(ONE - 1), Dynamic::Random);
    assert_eq!(Dynamic::from_param(ONE), Dynamic::Random);
    assert_eq!(Dynamic::from_param(u64::MAX), Dynamic::Random);
    assert_eq!(Dynamic::from_param(3 * (ONE / 10)), Dynamic::Saw);
}

#[test]
fn selector_index_round_trip() {
    assert_eq!(Dynamic::num_items(), 5);
    for index in 0..5u32 {
        assert_eq!(Dynamic::from_index(index).to_index(), index);
    }
    assert_eq!(Dynamic::Sine.to_index(), 0);
    assert_eq!(Dynamic::Random.to_index(), 4);
    assert_eq!(Dynamic::SawExp2.name(), "SawExp2");
}

#[test]
fn dynamic_dispatches_to_the_selected_shape() {
    assert_eq!(Dynamic::Saw.value_at_phase(QUARTER), HALF as i64);
    assert_eq!(Dynamic::Square.value_at_phase(QUARTER), -(ONE as i64));
    assert_eq!(Dynamic::Sine.value_at_phase(QUARTER), ONE as i64);
    assert_eq!(Dynamic::SawExp2.value_at_phase(QUARTER), 134217728);
    let noise = Dynamic::Random.value_at_phase(QUARTER);
    assert!(noise >= -(ONE as i64) && noise <= ONE as i64);
}

#[test]
fn oscillator_phase_stays_in_cycle() {
    let step: u64 = 25530610132;
    let mut osc = Oscillator::new(Saw);
    for freq in [440 * ONE as i64, -(440 * ONE as i64), i64::MAX, i64::MIN, 0, 1, -1] {
        osc.set_freq(freq);
        for _ in 0..1000 {
            osc.step(step);
            assert!(osc.phase < ONE);
        }
        osc.step(u64::MAX);
        assert!(osc.phase < ONE);
    }
}

#[test]
fn oscillator_steps_by_frequency_times_time() {
    let mut osc = Oscillator::new(Saw);
    osc.set_freq(ONE as i64);
    osc.step(1u64 << 48);
    assert_eq!(osc.phase, QUARTER);
    osc.step(1u64 << 49);
    assert_eq!(osc.phase, 3 * QUARTER);
    osc.step(1u64 << 49);
    assert_eq!(osc.phase, QUARTER);
    osc.set_freq(-(ONE as i64));
    osc.step(1u64 << 49);
    assert_eq!(osc.phase, 3 * QUARTER);
    osc.set_freq(0);
    osc.step(1u64 << 49);
    assert_eq!(osc.phase, 3 * QUARTER);
    osc.phase_reset();
    assert_eq!(osc.phase, 0);
}

#[test]
fn oscillator_offset_value_leaves_phase_alone() {
    let mut osc = Oscillator::new(Saw);
    osc.set_freq(ONE as i64);
    osc.step(1u64 << 48);
    assert_eq!(osc.get_value(), HALF as i64);
    assert_eq!(osc.get_offset_value(QUARTER as i64), 0);
    assert_eq!(osc.get_offset_value(-(QUARTER as i64)), ONE as i64);
    assert_eq!(osc.get_offset_value(ONE as i64), HALF as i64);
    assert_eq!(osc.get_offset_value(i64::MIN), HALF as i64);
    assert_eq!(osc.phase, QUARTER);
    let mut other = Oscillator::new(Dynamic::Sine);
    other.set_wave(Dynamic::Square);
    assert_eq!(other.get_value(), -(ONE as i64));
}

#[test]
fn saw_with_steepness() {
    assert_eq!(SawExp(2 * ONE).value_at_phase(QUARTER), 134217728);
    assert_eq!(SawExp(2 * ONE).value_at_phase(3 * QUARTER), -134217728);
    assert_eq!(SawExp(HALF).value_at_phase(QUARTER), 379625062);
    assert_eq!(SawExp(ONE * 12 / 10).value_at_phase(ONE / 8), 570209762);
    assert_eq!(SawExp(5 * ONE).value_at_phase(0), ONE as i64);
    assert_eq!(SawExp(ONE).value_at_phase(HALF), 0);
    assert_eq!(SawExp(0).value_at_phase(QUARTER), HALF as i64);
    assert_eq!(SawExp(1u64 << 63).value_at_phase(QUARTER), 0);
    assert_eq!(steepened(-(ONE as i64), 3 * ONE), -(ONE as i64));
    for steepness in [HALF, ONE * 12 / 10, 2 * ONE] {
        let mut phase: u64 = 0;
        while phase < ONE {
            let got = SawExp(steepness).value_at_phase(phase) as f64 / ONE as f64;
            let s = 1.0 - 2.0 * phase as f64 / ONE as f64;
            let want = s * s.abs().powf(steepness as f64 / ONE as f64);
            assert!((got - want).abs() < 1e-5, "phase {}: {} vs {}", phase, got, want);
            phase += 15_485_863;
        }
    }
}
