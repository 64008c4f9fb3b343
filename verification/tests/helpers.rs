use surgemachine::fixed::{unit_clamp, HALF, ONE};
use surgemachine::frame::Frame;
use surgemachine::helpers::{
    cents_to_ratio, control_to_db, fix_denormal, frame_iter, log2, log_control, midi_note_to_hz,
    param_detune, ratio_scalar, round, scale_freq, segment_rate, time_per_sample, unit_to_cents,
    unit_to_db, velocity_scale,
};
use surgemachine::params_bag::{percent, ParamsBag};
use surgemachine::pendulum::PendulumParams;

#[test]
fn note_frequencies() {
    assert_eq!(midi_note_to_hz(69), 440 * ONE);
    assert_eq!(midi_note_to_hz(81), 880 * ONE);
    assert_eq!(midi_note_to_hz(60), 280918311520);
    for note in 0..=127u8 {
        let got = midi_note_to_hz(note) as f64 / ONE as f64;
        let want = 440.0 / 32.0 * ((note as f64 - 9.0) / 12.0).exp2();
        assert!((got - want).abs() <= want * 1e-6, "note {}: {} vs {}", note, got, want);
    }
}

#[test]
fn ratio_scalar_steps_and_squares() {
    assert_eq!(ratio_scalar(0, 0), ONE);
    assert_eq!(ratio_scalar(ONE, ONE), 34 * ONE);
    assert_eq!(ratio_scalar(HALF, HALF), 18522046464);
    assert_eq!(ratio_scalar(3 * (ONE / 10), 0), 10 * ONE);
    assert_eq!(ratio_scalar(u64::MAX, u64::MAX), 34 * ONE);
}

#[test]
fn log_control_curve() {
    assert_eq!(log_control(0), 0);
    assert_eq!(log_control(HALF), 405381201);
    assert_eq!(log_control(ONE), 1073741823);
    assert_eq!(log_control(u64::MAX), 1073741823);
    let got = log_control(HALF) as f64 / ONE as f64;
    let want = (0.5f64.exp() - 1.0) / (std::f64::consts::E - 1.0);
    assert!((got - want).abs() < 1e-6);
}

#[test]
fn cents_and_detune() {
    assert_eq!(unit_to_cents(0), -1288490188800);
    assert_eq!(unit_to_cents(HALF), 0);
    assert_eq!(unit_to_cents(ONE), 1288490188800);
    assert_eq!(cents_to_ratio(0), ONE);
    assert_eq!(cents_to_ratio(1200 * (ONE as i64)), 2 * ONE);
    assert_eq!(cents_to_ratio(-1200 * (ONE as i64)), HALF);
    assert_eq!(param_detune(HALF), ONE);
    assert_eq!(param_detune(0), 1001836523);
    assert_eq!(param_detune(ONE), 1150807991);
    assert_eq!(param_detune(HALF + ONE / 100), 1075231377);
}

#[test]
fn time_steps_and_rates() {
    assert_eq!(time_per_sample(44100 * ONE), 25530610132);
    assert_eq!(time_per_sample(ONE), 1u64 << 50);
    assert_eq!(time_per_sample(0), 0);
    assert_eq!(time_per_sample(1), u64::MAX);
    assert_eq!(segment_rate(ONE / 100, 44100 * ONE), 473520133800);
    assert_eq!(segment_rate(0, 44100 * ONE), 0);
    assert_eq!(segment_rate(u64::MAX, u64::MAX), i64::MAX);
    assert_eq!(scale_freq(440 * ONE, 2 * ONE, ONE), (880 * ONE) as i64);
    assert_eq!(scale_freq(440 * ONE, ONE, 2 * ONE), (220 * ONE) as i64);
    assert_eq!(scale_freq(u64::MAX, u64::MAX, 1), i64::MAX);
}

#[test]
fn velocity_is_linear_and_clamped() {
    assert_eq!(velocity_scale(0), 0);
    assert_eq!(velocity_scale(64), 541098242);
    assert_eq!(velocity_scale(100), 845466003);
    assert_eq!(velocity_scale(127), ONE);
    assert_eq!(velocity_scale(200), ONE);
    assert_eq!(velocity_scale(255), ONE);
}

#[test]
fn small_helpers() {
    assert_eq!(fix_denormal(-17), -17);
    assert_eq!(unit_clamp(ONE + 1), ONE);
    assert_eq!(unit_clamp(ONE - 1), ONE - 1);
    assert_eq!(percent(30), 322122547);
    assert_eq!(percent(1), 10737418);
    assert_eq!(percent(100), ONE);
}

#[test]
fn frame_iter_pairs_the_channels() {
    let left = [1, 2, 3, 4];
    let right = [10, 20, 30];
    assert_eq!(frame_iter(&left, &right), vec![(1, 10), (2, 20), (3, 30)]);
    assert_eq!(frame_iter(&right, &left), vec![(10, 1), (20, 2), (30, 3)]);
    let none: [i32; 0] = [];
    assert_eq!(frame_iter(&none, &right), Vec::<(i32, i32)>::new());
}

#[test]
fn frame_arithmetic() {
    let a = Frame { l: ONE as i64, r: -(HALF as i64) };
    let b = Frame { l: HALF as i64, r: HALF as i64 };
    assert_eq!(a.plus(b), Frame { l: (ONE + HALF) as i64, r: 0 });
    assert_eq!(a.scaled(HALF as i64), Frame { l: HALF as i64, r: -((ONE / 4) as i64) });
    assert_eq!(a.times(b), Frame { l: HALF as i64, r: -((ONE / 4) as i64) });
    assert_eq!(b.offset(-(HALF as i64)), Frame { l: 0, r: 0 });
    assert_eq!(Frame::silence(), Frame { l: 0, r: 0 });
}

#[test]
fn params_bag_get_set_for_each() {
    let defaults: Vec<u8> = (0..31u8).collect();
    let mut bag: ParamsBag<PendulumParams> = ParamsBag::from_percent(&defaults);
    assert_eq!(bag.get(PendulumParams::Osc1Waveform), 0);
    assert_eq!(bag.get(PendulumParams::MasterLevel), percent(30));
    bag.set(PendulumParams::Osc2Level, 77);
    assert_eq!(bag.get(PendulumParams::Osc2Level), 77);
    assert_eq!(bag.get(PendulumParams::Osc3Level), percent(29));
    let all = bag.for_each();
    assert_eq!(all.len(), 31);
    for (i, (param, value)) in all.iter().enumerate() {
        assert_eq!(surgemachine::indexed::IndexedEnum::to_index(param), i as u32);
        assert_eq!(*value, if i == 28 { 77 } else { percent(i as u8) });
    }
}

#[test]
fn binary_logarithm() {
    assert_eq!(log2(ONE), 0);
    assert_eq!(log2(2 * ONE), ONE as i64);
    assert_eq!(log2(HALF), -(ONE as i64));
    assert_eq!(log2(3 * ONE), 1701840526);
    assert_eq!(log2(1), -30 * (ONE as i64));
    assert_eq!(log2(u64::MAX), 36507222015);
    let mut x: u64 = 1000;
    while x < 1u64 << 40 {
        let got = log2(x) as f64 / ONE as f64;
        let want = (x as f64 / ONE as f64).log2();
        assert!((got - want).abs() < 1e-5, "x {}: {} vs {}", x, got, want);
        x = x * 3 + 7;
    }
}

#[test]
fn decibels() {
    assert_eq!(unit_to_db(0), None);
    assert_eq!(unit_to_db(ONE), Some(0));
    assert_eq!(unit_to_db(HALF), Some(-3232284966));
    assert_eq!(unit_to_db(10 * ONE), Some(10737418240));
    assert_eq!(unit_to_db(ONE / 10), Some(-10737418264));
    assert_eq!(control_to_db(0), None);
    assert_eq!(control_to_db(HALF), Some(-4542317311));
    assert_eq!(control_to_db(ONE), Some(-6));
    let got = control_to_db(HALF).unwrap() as f64 / ONE as f64;
    let gain = (0.5f64.exp() - 1.0) / (std::f64::consts::E - 1.0);
    assert!((got - 10.0 * gain.log10()).abs() < 1e-5);
}

#[test]
fn rounding_to_whole_numbers() {
    assert_eq!(round(0), 0);
    assert_eq!(round(HALF as i64), 1);
    assert_eq!(round(HALF as i64 - 1), 0);
    assert_eq!(round(-(HALF as i64)), -1);
    assert_eq!(round(-(HALF as i64) + 1), 0);
    assert_eq!(round(3 * HALF as i64), 2);
    assert_eq!(round(-3 * (ONE as i64) - HALF as i64), -4);
}
