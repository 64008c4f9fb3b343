use surgemachine::device::{
    create_device, decode_midi, display, Device, DevicePlugin, DeviceType, FermiPluginData,
    MidiEvent, ParamText, ParamValue, PendulumPluginData, SynthPluginData,
};
use surgemachine::envelope::ADSRState;
use surgemachine::fermi::{FermiParams, FermiVoice};
use surgemachine::fixed::{HALF, ONE};
use surgemachine::frame::Frame;
use surgemachine::indexed::IndexedEnum;
use surgemachine::param_indices::ParamIndices;
use surgemachine::params_bag::percent;
use surgemachine::pendulum::{PendulumOscMode, PendulumParams, PendulumVoice};
use surgemachine::poly_synth::PolySynth;
use surgemachine::voice::{init_by_update, Voice};
use surgemachine::waveform::Dynamic;

const RATE: u64 = 44100 * ONE;

fn held(synth: &PolySynth<PendulumVoice>) -> Vec<Option<u8>> {
    synth.voices.iter().map(|v| v.current_note).collect()
}

fn attacking(synth: &PolySynth<PendulumVoice>) -> usize {
    synth.voices.iter().filter(|v| v.osc1.envelope.state == ADSRState::Attack).count()
}

#[test]
fn new_engine_is_idle_with_defaults() {
    let synth: PolySynth<PendulumVoice> = PolySynth::new();
    assert_eq!(synth.voices.len(), 8);
    assert_eq!(synth.voice_cycle, 0);
    assert_eq!(synth.sample_rate, ONE);
    assert!(synth.is_finished());
    assert_eq!(held(&synth), vec![None; 8]);
    assert_eq!(synth.get_num_parameters(), 31);
    assert_eq!(synth.get_parameter(4), percent(30));
    assert_eq!(synth.get_parameter(20), percent(1));
    assert_eq!(synth.get_parameter(30), HALF);
    assert_eq!(synth.voices[0].osc2.osc_l.wave, Dynamic::Saw);
    assert_eq!(synth.voices[7].osc3.osc_r.wave, Dynamic::Random);
    let fermi: PolySynth<FermiVoice> = PolySynth::new();
    assert_eq!(fermi.get_num_parameters(), 19);
    assert_eq!(fermi.get_parameter(6), HALF);
}

#[test]
fn round_robin_assigns_voices_in_cursor_order() {
    let mut synth: PolySynth<PendulumVoice> = PolySynth::new();
    for i in 0..8u8 {
        assert_eq!(synth.voice_cycle, i);
        assert_eq!(synth.note_on(60 + i, 100), Some(i as usize));
    }
    assert_eq!(synth.voice_cycle, 0);
    assert_eq!(held(&synth), (60u8..68).map(Some).collect::<Vec<_>>());
}

#[test]
fn ninth_note_is_dropped() {
    let mut synth: PolySynth<PendulumVoice> = PolySynth::new();
    synth.set_sample_rate(RATE);
    for note in 60u8..68 {
        assert!(synth.note_on(note, 100).is_some());
    }
    assert_eq!(attacking(&synth), 8);
    for voice in synth.voices.iter_mut() {
        voice.process_sample(25530610132);
    }
    let before: Vec<u64> = synth.voices.iter().map(|v| v.osc1.envelope.output).collect();
    let phases: Vec<u64> = synth.voices.iter().map(|v| v.osc1.osc_l.phase).collect();
    assert_eq!(synth.note_on(80, 100), None);
    assert_eq!(held(&synth), (60u8..68).map(Some).collect::<Vec<_>>());
    assert_eq!(synth.voice_cycle, 0);
    assert_eq!(synth.voices.iter().map(|v| v.osc1.envelope.output).collect::<Vec<_>>(), before);
    assert_eq!(synth.voices.iter().map(|v| v.osc1.osc_l.phase).collect::<Vec<_>>(), phases);
    assert_eq!(attacking(&synth), 8);
}

#[test]
fn note_off_for_a_note_not_held_changes_nothing() {
    let mut synth: PolySynth<PendulumVoice> = PolySynth::new();
    assert_eq!(synth.note_off(60, 0), None);
    assert!(synth.is_finished());
    synth.note_on(60, 100);
    synth.note_on(62, 100);
    assert_eq!(synth.note_off(61, 0), None);
    assert_eq!(held(&synth)[..3], [Some(60), Some(62), None]);
    assert_eq!(synth.voice_cycle, 2);
    assert_eq!(attacking(&synth), 2);
}

#[test]
fn note_off_releases_the_first_match_only() {
    let mut synth: PolySynth<PendulumVoice> = PolySynth::new();
    synth.note_on(60, 100);
    synth.note_on(60, 100);
    synth.note_on(64, 100);
    assert_eq!(synth.note_off(60, 0), Some(0));
    assert_eq!(held(&synth)[..3], [None, Some(60), Some(64)]);
    assert_eq!(synth.voices[0].osc1.envelope.state, ADSRState::Release);
    assert_eq!(synth.voices[1].osc1.envelope.state, ADSRState::Attack);
    assert_eq!(synth.note_off(60, 0), Some(1));
    assert_eq!(synth.note_off(60, 0), None);
    assert!(!synth.is_finished());
}

#[test]
fn busy_cursor_falls_back_to_the_first_free_voice() {
    let mut synth: PolySynth<PendulumVoice> = PolySynth::new();
    for note in 60u8..68 {
        synth.note_on(note, 100);
    }
    synth.note_off(63, 0);
    synth.note_off(65, 0);
    assert_eq!(synth.voice_cycle, 0);
    assert_eq!(synth.note_on(70, 100), Some(3));
    assert_eq!(synth.voice_cycle, 0);
    assert_eq!(synth.note_on(71, 100), Some(5));
    assert_eq!(synth.note_on(72, 100), None);
    synth.note_off(60, 0);
    assert_eq!(synth.note_on(73, 100), Some(0));
    assert_eq!(synth.voice_cycle, 1);
}

#[test]
fn idle_pool_renders_silence_and_touches_nothing() {
    let mut synth: PolySynth<PendulumVoice> = PolySynth::new();
    synth.set_sample_rate(RATE);
    let phases: Vec<u64> = synth.voices.iter().map(|v| v.osc1.osc_l.phase).collect();
    let mut left = vec![7i64; 64];
    let mut right = vec![-7i64; 48];
    synth.run(&mut left, &mut right);
    assert!(left[..48].iter().all(|&s| s == 0));
    assert!(right.iter().all(|&s| s == 0));
    assert!(left[48..].iter().all(|&s| s == 7));
    assert!(synth.is_finished());
    assert_eq!(synth.voices.iter().map(|v| v.osc1.osc_l.phase).collect::<Vec<_>>(), phases);
    assert!(synth.voices.iter().all(|v| v.osc1.envelope.output == 0));
}

#[test]
fn a_held_note_renders_sound_and_release_returns_to_silence() {
    let mut synth: PolySynth<PendulumVoice> = PolySynth::new();
    synth.set_sample_rate(RATE);
    synth.note_on(69, 127);
    let mut left = vec![0i64; 512];
    let mut right = vec![0i64; 512];
    synth.run(&mut left, &mut right);
    assert!(left.iter().any(|&s| s != 0));
    assert!(left.iter().all(|&s| s.abs() <= 3 * ONE as i64));
    assert!(right.iter().all(|&s| s.abs() <= 3 * ONE as i64));
    assert_eq!(synth.voices[0].osc1.osc_l.frequency, (440 * ONE) as i64);
    assert!(synth.voices[0].osc1.osc_l.phase < ONE);
    assert_eq!(synth.voices[1].osc1.osc_l.phase, 0);
    synth.note_off(69, 0);
    let mut blocks = 0;
    while !synth.is_finished() {
        synth.run(&mut left, &mut right);
        blocks += 1;
        assert!(blocks < 1000);
    }
    synth.run(&mut left, &mut right);
    assert!(left.iter().all(|&s| s == 0));
    assert!(right.iter().all(|&s| s == 0));
}

#[test]
fn init_process_lists_sounding_voices_in_order() {
    let mut synth: PolySynth<PendulumVoice> = PolySynth::new();
    synth.set_sample_rate(RATE);
    assert_eq!(synth.init_process().to_vec(), Vec::<usize>::new());
    synth.note_on(60, 100);
    synth.note_on(62, 100);
    synth.note_on(64, 100);
    synth.note_off(62, 0);
    let active = synth.init_process();
    assert_eq!(active.len(), 3);
    assert_eq!(active.to_vec(), vec![0, 1, 2]);
    assert_eq!(active.get(1), Some(1));
    assert_eq!(active.get(3), None);
    let mut left = vec![0i64; 4096];
    let mut right = vec![0i64; 4096];
    for _ in 0..40 {
        synth.run(&mut left, &mut right);
    }
    assert_eq!(synth.init_process().to_vec(), vec![0, 2]);
    for note in 70u8..80 {
        synth.note_on(note, 100);
    }
    assert_eq!(synth.init_process().to_vec(), vec![0, 1, 2, 3, 4, 5, 6, 7]);
}

#[test]
fn mix_sums_the_active_voices() {
    let mut synth: PolySynth<FermiVoice> = PolySynth::new();
    synth.set_sample_rate(RATE);
    synth.note_on(60, 100);
    synth.note_on(67, 100);
    let active = synth.init_process();
    let mut twin: PolySynth<FermiVoice> = PolySynth::new();
    twin.set_sample_rate(RATE);
    twin.note_on(60, 100);
    twin.note_on(67, 100);
    twin.init_process();
    for _ in 0..200 {
        let frame = synth.mix(&active, 25530610132);
        let a = twin.voices[0].process_sample(25530610132);
        let b = twin.voices[1].process_sample(25530610132);
        assert_eq!(frame, a.plus(b));
    }
    assert_eq!(synth.voices[2].env1.output, 0);
}

#[test]
fn set_parameter_reaches_bag_and_voices() {
    let mut synth: PolySynth<PendulumVoice> = PolySynth::new();
    synth.set_sample_rate(RATE);
    synth.set_parameter(PendulumParams::Osc1Waveform.to_index() as i32, ONE - 1);
    assert_eq!(synth.get_parameter(0), ONE - 1);
    assert!(synth.voices.iter().all(|v| v.osc1.osc_l.wave == Dynamic::Random));
    assert!(synth.voices.iter().all(|v| v.osc1.osc_r.wave == Dynamic::Random));
    assert!(synth.voices.iter().all(|v| v.osc2.osc_l.wave == Dynamic::Saw));
    synth.set_parameter(PendulumParams::Osc1Attack.to_index() as i32, ONE / 100);
    synth.set_parameter(PendulumParams::Osc1Sustain.to_index() as i32, HALF);
    assert!(synth.voices.iter().all(|v| v.osc1.envelope.attack_coef == 1070177475));
    assert!(synth.voices.iter().all(|v| v.osc1.envelope.sustain_level == HALF));
    let before = synth.voices[3].osc2.envelope;
    synth.set_parameter(PendulumParams::MasterLevel.to_index() as i32, ONE);
    assert_eq!(synth.voices[3].osc2.envelope.decay_coef, before.decay_coef);
    assert_eq!(synth.get_parameter(30), ONE);
}

#[test]
fn sample_rate_change_rederives_envelopes() {
    let mut synth: PolySynth<PendulumVoice> = PolySynth::new();
    let slow = synth.voices[0].osc1.envelope.attack_coef;
    synth.set_sample_rate(RATE);
    assert_eq!(synth.sample_rate, RATE);
    let fast = synth.voices[0].osc1.envelope.attack_coef;
    assert!(fast > slow);
    assert!(synth.voices.iter().all(|v| v.osc1.envelope.attack_coef == fast));
}

#[test]
fn pendulum_block_preparation_decides_modes() {
    let mut synth: PolySynth<PendulumVoice> = PolySynth::new();
    synth.set_sample_rate(RATE);
    synth.note_on(69, 127);
    synth.init_process();
    let voice = &synth.voices[0];
    assert_eq!(voice.osc1.osc_mode, PendulumOscMode::Mono);
    assert_eq!(voice.osc2.osc_mode, PendulumOscMode::MonoOffset);
    assert_eq!(voice.osc2.phase_offset, ONE);
    assert!(!voice.osc3_am);
    assert_eq!(voice.osc2_level, 1073741823);
    assert_eq!(voice.velocity, ONE);
    synth.set_parameter(PendulumParams::Osc1Detune.to_index() as i32, HALF + ONE / 100);
    synth.set_parameter(PendulumParams::Osc3AM.to_index() as i32, ONE);
    synth.set_parameter(PendulumParams::Osc1RatioCoarse.to_index() as i32, 3 * (ONE / 10));
    synth.init_process();
    let voice = &synth.voices[0];
    assert_eq!(voice.osc1.osc_mode, PendulumOscMode::Stereo);
    assert!(voice.osc3_am);
    let freq = 4400 * ONE as u128;
    assert_eq!(voice.osc1.osc_l.frequency as u128, freq * ONE as u128 / 1075231377);
    assert_eq!(voice.osc1.osc_r.frequency as u128, freq * 1075231377 / ONE as u128);
    assert_eq!(synth.voices[1].osc1.osc_mode, PendulumOscMode::Mono);
}

#[test]
fn pendulum_voice_mixes_three_oscillators() {
    let mut voice = PendulumVoice::new();
    voice.osc2_level = HALF;
    voice.osc3_level = ONE;
    voice.velocity = ONE;
    let one = ONE as i64;
    let f1 = Frame { l: one, r: -one };
    let f2 = Frame { l: one, r: one };
    let f3 = Frame { l: -one, r: one };
    assert_eq!(voice.mix(f1, f2, f3), Frame { l: one / 2, r: one / 2 });
    voice.osc3_am = true;
    assert_eq!(voice.mix(f1, f2, f3), Frame { l: 0, r: -one / 2 });
    voice.velocity = HALF;
    assert_eq!(voice.mix(f1, f2, f3), Frame { l: 0, r: -one / 4 });
}

#[test]
fn fermi_voice_feeds_back() {
    let mut synth: PolySynth<FermiVoice> = PolySynth::new();
    synth.set_sample_rate(RATE);
    for index in 0..19 {
        let value = synth.get_parameter(index);
        synth.set_parameter(index, value);
    }
    assert_eq!(synth.voices[0].osc1.wave.square_mix, HALF);
    assert_eq!(synth.voices[0].osc2.wave.square_mix, percent(20));
    assert_eq!(synth.voices[0].osc1_feedback, surgemachine::helpers::log_control(percent(10)));
    synth.note_on(57, 90);
    let mut left = vec![0i64; 256];
    let mut right = vec![0i64; 256];
    synth.run(&mut left, &mut right);
    assert_eq!(left, right);
    assert!(left.iter().any(|&s| s != 0));
    assert_eq!(synth.voices[0].osc1.frequency, (220 * ONE) as i64);
    assert!(synth.voices[0].osc1_output.abs() <= surgemachine::fermi::MAGIC);
    assert_eq!(synth.voices[0].current_note(), Some(57));
    synth.voices[0].note_off(57, 0);
    assert_eq!(synth.voices[0].current_note(), None);
    assert!(!synth.voices[0].is_finished());
}

#[test]
fn init_by_update_resyncs_everything() {
    let bag = PendulumVoice::default_bag();
    let mut by_update = PendulumVoice::new();
    init_by_update(&mut by_update, &bag, RATE);
    let mut direct = PendulumVoice::new();
    direct.init(&bag, RATE);
    assert_eq!(by_update.osc1.envelope.attack_coef, direct.osc1.envelope.attack_coef);
    assert_eq!(by_update.osc3.envelope.release_drop, direct.osc3.envelope.release_drop);
    assert_eq!(by_update.osc2.osc_l.wave, Dynamic::Saw);
    assert_eq!(by_update.osc3.osc_r.wave, direct.osc3.osc_r.wave);
    assert!(direct.osc1.envelope.attack_coef > 0);
}

#[test]
fn post_processing_applies_master_gain() {
    let bag = PendulumVoice::default_bag();
    let gain = PendulumVoice::prepare_post(&bag);
    assert_eq!(gain, 405381201);
    let frame = Frame { l: ONE as i64, r: -(ONE as i64) };
    assert_eq!(PendulumVoice::process_post(&gain, frame), Frame { l: 405381201, r: -405381201 });
    let fermi_gain = FermiVoice::prepare_post(&FermiVoice::default_bag());
    assert_eq!(FermiVoice::process_post(&fermi_gain, frame), Frame { l: 405381201, r: -405381201 });
}

#[test]
fn parameter_enumerations_are_dense() {
    assert_eq!(PendulumParams::num_items(), 31);
    assert_eq!(FermiParams::num_items(), 19);
    for index in 0..31u32 {
        assert_eq!(PendulumParams::from_index(index).to_index(), index);
    }
    for index in 0..19u32 {
        assert_eq!(FermiParams::from_index(index).to_index(), index);
    }
    assert_eq!(PendulumParams::from_index(0), PendulumParams::Osc1Waveform);
    assert_eq!(PendulumParams::from_index(27), PendulumParams::Osc3AM);
    assert_eq!(PendulumParams::from_index(30), PendulumParams::MasterLevel);
    assert_eq!(FermiParams::from_index(11), FermiParams::Osc1Level);
    assert_eq!(FermiParams::from_index(18), FermiParams::MasterLevel);
    assert_eq!(PendulumParams::from_param(0), PendulumParams::Osc1Waveform);
    assert_eq!(PendulumParams::from_param(ONE), PendulumParams::MasterLevel);
}

#[test]
fn host_numbering_of_the_two_oscillator_layout() {
    assert_eq!(ParamIndices::from_i32(0), ParamIndices::Osc1Waveform);
    assert_eq!(ParamIndices::from_i32(3), ParamIndices::Osc1Attack);
    assert_eq!(ParamIndices::from_i32(7), ParamIndices::Osc2Waveform);
    assert_eq!(ParamIndices::from_i32(14), ParamIndices::MasterLevel);
    for num in 0..15 {
        assert_eq!(ParamIndices::from_i32(num).to_i32(), num);
    }
    assert_eq!(ParamIndices::LAST_PARAM.to_i32(), 15);
}

#[test]
fn parameter_names_labels_and_text() {
    let pendulum: PolySynth<PendulumVoice> = PolySynth::new();
    assert_eq!(pendulum.get_parameter_name(0), "Osc1Waveform");
    assert_eq!(pendulum.get_parameter_name(30), "MasterLevel");
    assert_eq!(pendulum.get_parameter_label(28), "dB");
    assert_eq!(pendulum.get_parameter_label(24), "cents");
    assert_eq!(pendulum.get_parameter_label(0), "");
    assert_eq!(pendulum.get_parameter_text(0), ParamValue::Waveform(Dynamic::Sine));
    assert_eq!(pendulum.get_parameter_text(4), ParamValue::Waveform(Dynamic::Saw));
    assert_eq!(pendulum.get_parameter_text(8), ParamValue::Waveform(Dynamic::Random));
    assert_eq!(pendulum.get_parameter_text(1), ParamValue::RatioSteps(0));
    assert_eq!(pendulum.get_parameter_text(25), ParamValue::Cents(0));
    assert_eq!(pendulum.get_parameter_text(27), ParamValue::Switch(false));
    assert_eq!(pendulum.get_parameter_text(30), ParamValue::Decibels(Some(-4)));
    assert_eq!(pendulum.get_parameter_text(28), ParamValue::Decibels(Some(0)));
    assert_eq!(pendulum.get_parameter_text(12), ParamValue::Thousandths(200));
    assert_eq!(pendulum.get_parameter_text(20), ParamValue::Thousandths(10));
    let fermi: PolySynth<FermiVoice> = PolySynth::new();
    assert_eq!(fermi.get_parameter_name(2), "Osc1Feedback");
    assert_eq!(fermi.get_parameter_label(11), "dB");
    assert_eq!(fermi.get_parameter_label(18), "dB");
    assert_eq!(fermi.get_parameter_label(16), "");
    assert_eq!(fermi.get_parameter_text(16), ParamValue::Tenths(5));
    assert_eq!(fermi.get_parameter_text(17), ParamValue::Tenths(2));
    assert_eq!(fermi.get_parameter_text(8), ParamValue::RatioSteps(0));
    assert_eq!(fermi.get_parameter_text(11), ParamValue::Decibels(Some(-4)));
    assert_eq!(fermi.get_parameter_text(7), ParamValue::Thousandths(400));
}

#[test]
fn parameter_text_kinds() {
    assert_eq!(PendulumParams::Osc1Waveform.text_kind(), ParamText::Waveform);
    assert_eq!(PendulumParams::Osc3RatioCoarse.text_kind(), ParamText::RatioSteps);
    assert_eq!(PendulumParams::Osc2Detune.text_kind(), ParamText::Cents);
    assert_eq!(PendulumParams::Osc3AM.text_kind(), ParamText::Switch);
    assert_eq!(PendulumParams::MasterLevel.text_kind(), ParamText::Decibels);
    assert_eq!(PendulumParams::Osc1Attack.text_kind(), ParamText::Plain);
    assert_eq!(FermiParams::Osc1Waveform.text_kind(), ParamText::Blend);
    assert_eq!(FermiParams::Osc2RatioCoarse.text_kind(), ParamText::RatioSteps);
    assert_eq!(FermiParams::Osc1Level.text_kind(), ParamText::Decibels);
    assert_eq!(FermiParams::Osc1Feedback.text_kind(), ParamText::Plain);
}

#[test]
fn display_values() {
    assert_eq!(display(ParamText::Waveform, HALF), ParamValue::Waveform(Dynamic::Square));
    assert_eq!(display(ParamText::RatioSteps, HALF), ParamValue::RatioSteps(16));
    assert_eq!(display(ParamText::RatioSteps, ONE), ParamValue::RatioSteps(32));
    assert_eq!(display(ParamText::RatioSteps, percent(30)), ParamValue::RatioSteps(9));
    assert_eq!(display(ParamText::Cents, 0), ParamValue::Cents(-120));
    assert_eq!(display(ParamText::Cents, ONE), ParamValue::Cents(120));
    assert_eq!(display(ParamText::Cents, HALF + ONE / 100), ParamValue::Cents(2));
    assert_eq!(display(ParamText::Cents, percent(30)), ParamValue::Cents(-48));
    assert_eq!(display(ParamText::Decibels, 0), ParamValue::Decibels(None));
    assert_eq!(display(ParamText::Decibels, ONE / 100), ParamValue::Decibels(Some(-22)));
    assert_eq!(display(ParamText::Decibels, ONE / 10), ParamValue::Decibels(Some(-12)));
    assert_eq!(display(ParamText::Decibels, percent(30)), ParamValue::Decibels(Some(-7)));
    assert_eq!(display(ParamText::Decibels, ONE), ParamValue::Decibels(Some(0)));
    assert_eq!(display(ParamText::Switch, HALF), ParamValue::Switch(false));
    assert_eq!(display(ParamText::Switch, HALF + 1), ParamValue::Switch(true));
    assert_eq!(display(ParamText::Blend, HALF), ParamValue::Tenths(5));
    assert_eq!(display(ParamText::Plain, percent(30)), ParamValue::Thousandths(300));
    assert_eq!(display(ParamText::Plain, u64::MAX), ParamValue::Thousandths(17179869184000));
}

#[test]
fn midi_bytes_decode_to_key_events() {
    assert_eq!(decode_midi([144, 60, 100]), Some(MidiEvent::NoteOn { note: 60, velocity: 100 }));
    assert_eq!(decode_midi([128, 60, 0]), Some(MidiEvent::NoteOff { note: 60, velocity: 0 }));
    assert_eq!(decode_midi([176, 1, 2]), None);
    assert_eq!(decode_midi([0, 0, 0]), None);
}

#[test]
fn devices_are_created_by_type_and_take_midi() {
    let mut device = create_device(DeviceType::Pendulum);
    assert!(matches!(device, Device::Pendulum(_)));
    assert_eq!(device.get_num_parameters(), 31);
    assert_eq!(device.process_midi_event([144, 60, 100]), Some(0));
    assert_eq!(device.process_midi_event([144, 64, 100]), Some(1));
    assert_eq!(device.process_midi_event([176, 64, 100]), None);
    assert_eq!(device.process_midi_event([128, 64, 0]), Some(1));
    assert_eq!(device.process_midi_event([128, 64, 0]), None);
    device.set_sample_rate(RATE);
    device.set_parameter(30, ONE);
    assert_eq!(device.get_parameter(30), ONE);
    let mut left = vec![0i64; 128];
    let mut right = vec![0i64; 128];
    device.run(&mut left, &mut right);
    assert!(left.iter().any(|&s| s != 0));
    let fermi = create_device(DeviceType::Fermi);
    assert!(matches!(fermi, Device::Fermi(_)));
    assert_eq!(fermi.get_num_parameters(), 19);
    assert_eq!(DeviceType::Pendulum.name(), "Pendulum");
    assert_eq!(DeviceType::Fermi.name(), "Fermi");
}

#[test]
fn plugin_data_names_its_design() {
    assert_eq!(PendulumPluginData::get_device_type(), DeviceType::Pendulum);
    assert_eq!(FermiPluginData::get_device_type(), DeviceType::Fermi);
    assert_eq!(PendulumPluginData::get_name(), "Pendulum");
    assert_eq!(FermiPluginData::get_name(), "Fermi");
}
