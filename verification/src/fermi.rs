//! A voice of two oscillators in a feedback arrangement: each oscillator's
//! phase is pushed by its own previous output, and the first also pushes the
//! second.

use vstd::prelude::*;
use crate::device::ParamText;
use crate::envelope::{ADSREnvelope, ADSRState, Envelope};
use crate::fixed::{mul_fixed, spec_mul_fixed, ONE};
use crate::frame::Frame;
use crate::helpers::{log_control, spec_log_control, spec_velocity, velocity_scale};
use crate::indexed::IndexedEnum;
use crate::oscillator::{spec_wrap, Oscillator};
use crate::params_bag::{spec_percents, ParamsBag};
use crate::poly_synth::PolySynth;
use crate::pendulum::{osc_freq, spec_osc_freq};
use crate::voice::Voice;
use crate::waveform::{spec_sin_sq, SinSq, Waveform};

verus! {

/// The gain between the first oscillator and the phases it pushes: 13.25.
pub const MAGIC: i64 = 14227079168;

/// The parameters of the feedback voice, in index order.
#[derive(Debug, Clone, Copy, PartialEq, Eq, Structural)]
pub enum FermiParams {
    Osc1RatioCoarse,
    Osc1RatioFine,
    Osc1Feedback,
    Osc1Feedforward,
    Osc1Attack,
    Osc1Decay,
    Osc1Sustain,
    Osc1Release,
    Osc2RatioCoarse,
    Osc2RatioFine,
    Osc2Feedback,
    Osc1Level,
    Osc2Attack,
    Osc2Decay,
    Osc2Sustain,
    Osc2Release,
    Osc1Waveform,
    Osc2Waveform,
    MasterLevel,
}

impl IndexedEnum for FermiParams {
    open spec fn count() -> nat {
        19
    }

    open spec fn index(&self) -> nat {
        match *self {
            FermiParams::Osc1RatioCoarse => 0,
            FermiParams::Osc1RatioFine => 1,
            FermiParams::Osc1Feedback => 2,
            FermiParams::Osc1Feedforward => 3,
            FermiParams::Osc1Attack => 4,
            FermiParams::Osc1Decay => 5,
            FermiParams::Osc1Sustain => 6,
            FermiParams::Osc1Release => 7,
            FermiParams::Osc2RatioCoarse => 8,
            FermiParams::Osc2RatioFine => 9,
            FermiParams::Osc2Feedback => 10,
            FermiParams::Osc1Level => 11,
            FermiParams::Osc2Attack => 12,
            FermiParams::Osc2Decay => 13,
            FermiParams::Osc2Sustain => 14,
            FermiParams::Osc2Release => 15,
            FermiParams::Osc1Waveform => 16,
            FermiParams::Osc2Waveform => 17,
            FermiParams::MasterLevel => 18,
        }
    }

    open spec fn member(index: nat) -> Self {
        if index == 0 {
            FermiParams::Osc1RatioCoarse
        } else if index == 1 {
            FermiParams::Osc1RatioFine
        } else if index == 2 {
            FermiParams::Osc1Feedback
        } else if index == 3 {
            FermiParams::Osc1Feedforward
        } else if index == 4 {
            FermiParams::Osc1Attack
        } else if index == 5 {
            FermiParams::Osc1Decay
        } else if index == 6 {
            FermiParams::Osc1Sustain
        } else if index == 7 {
            FermiParams::Osc1Release
        } else if index == 8 {
            FermiParams::Osc2RatioCoarse
        } else if index == 9 {
            FermiParams::Osc2RatioFine
        } else if index == 10 {
            FermiParams::Osc2Feedback
        } else if index == 11 {
            FermiParams::Osc1Level
        } else if index == 12 {
            FermiParams::Osc2Attack
        } else if index == 13 {
            FermiParams::Osc2Decay
        } else if index == 14 {
            FermiParams::Osc2Sustain
        } else if index == 15 {
            FermiParams::Osc2Release
        } else if index == 16 {
            FermiParams::Osc1Waveform
        } else if index == 17 {
            FermiParams::Osc2Waveform
        } else {
            FermiParams::MasterLevel
        }
    }

    proof fn index_is_dense(&self) {
        assert(FermiParams::member(self.index()) == *self);
    }

    proof fn member_is_indexed(index: nat) {
        assert(FermiParams::member(index).index() == index);
    }

    fn num_items() -> (n: u32) {
        19
    }

    fn to_index(&self) -> (i: u32) {
        match *self {
            FermiParams::Osc1RatioCoarse => 0,
            FermiParams::Osc1RatioFine => 1,
            FermiParams::Osc1Feedback => 2,
            FermiParams::Osc1Feedforward => 3,
            FermiParams::Osc1Attack => 4,
            FermiParams::Osc1Decay => 5,
            FermiParams::Osc1Sustain => 6,
            FermiParams::Osc1Release => 7,
            FermiParams::Osc2RatioCoarse => 8,
            FermiParams::Osc2RatioFine => 9,
            FermiParams::Osc2Feedback => 10,
            FermiParams::Osc1Level => 11,
            FermiParams::Osc2Attack => 12,
            FermiParams::Osc2Decay => 13,
            FermiParams::Osc2Sustain => 14,
            FermiParams::Osc2Release => 15,
            FermiParams::Osc1Waveform => 16,
            FermiParams::Osc2Waveform => 17,
            FermiParams::MasterLevel => 18,
        }
    }

    fn from_index(index: u32) -> (m: Self) {
        proof {
            Self::member_is_indexed(index as nat);
        }
        match index {
            0 => FermiParams::Osc1RatioCoarse,
            1 => FermiParams::Osc1RatioFine,
            2 => FermiParams::Osc1Feedback,
            3 => FermiParams::Osc1Feedforward,
            4 => FermiParams::Osc1Attack,
            5 => FermiParams::Osc1Decay,
            6 => FermiParams::Osc1Sustain,
            7 => FermiParams::Osc1Release,
            8 => FermiParams::Osc2RatioCoarse,
            9 => FermiParams::Osc2RatioFine,
            10 => FermiParams::Osc2Feedback,
            11 => FermiParams::Osc1Level,
            12 => FermiParams::Osc2Attack,
            13 => FermiParams::Osc2Decay,
            14 => FermiParams::Osc2Sustain,
            15 => FermiParams::Osc2Release,
            16 => FermiParams::Osc1Waveform,
            17 => FermiParams::Osc2Waveform,
            _ => FermiParams::MasterLevel,
        }
    }
}


impl FermiParams {
    /// The identifier as written, for display.
    pub fn name(&self) -> (s: &'static str)
        ensures
            s@ == self.spec_name(),
    {
        match *self {
            FermiParams::Osc1RatioCoarse => "Osc1RatioCoarse",
            FermiParams::Osc1RatioFine => "Osc1RatioFine",
            FermiParams::Osc1Feedback => "Osc1Feedback",
            FermiParams::Osc1Feedforward => "Osc1Feedforward",
            FermiParams::Osc1Attack => "Osc1Attack",
            FermiParams::Osc1Decay => "Osc1Decay",
            FermiParams::Osc1Sustain => "Osc1Sustain",
            FermiParams::Osc1Release => "Osc1Release",
            FermiParams::Osc2RatioCoarse => "Osc2RatioCoarse",
            FermiParams::Osc2RatioFine => "Osc2RatioFine",
            FermiParams::Osc2Feedback => "Osc2Feedback",
            FermiParams::Osc1Level => "Osc1Level",
            FermiParams::Osc2Attack => "Osc2Attack",
            FermiParams::Osc2Decay => "Osc2Decay",
            FermiParams::Osc2Sustain => "Osc2Sustain",
            FermiParams::Osc2Release => "Osc2Release",
            FermiParams::Osc1Waveform => "Osc1Waveform",
            FermiParams::Osc2Waveform => "Osc2Waveform",
            FermiParams::MasterLevel => "MasterLevel",
        }
    }

    /// The identifier as written.
    pub open spec fn spec_name(&self) -> Seq<char> {
        match *self {
            FermiParams::Osc1RatioCoarse => "Osc1RatioCoarse"@,
            FermiParams::Osc1RatioFine => "Osc1RatioFine"@,
            FermiParams::Osc1Feedback => "Osc1Feedback"@,
            FermiParams::Osc1Feedforward => "Osc1Feedforward"@,
            FermiParams::Osc1Attack => "Osc1Attack"@,
            FermiParams::Osc1Decay => "Osc1Decay"@,
            FermiParams::Osc1Sustain => "Osc1Sustain"@,
            FermiParams::Osc1Release => "Osc1Release"@,
            FermiParams::Osc2RatioCoarse => "Osc2RatioCoarse"@,
            FermiParams::Osc2RatioFine => "Osc2RatioFine"@,
            FermiParams::Osc2Feedback => "Osc2Feedback"@,
            FermiParams::Osc1Level => "Osc1Level"@,
            FermiParams::Osc2Attack => "Osc2Attack"@,
            FermiParams::Osc2Decay => "Osc2Decay"@,
            FermiParams::Osc2Sustain => "Osc2Sustain"@,
            FermiParams::Osc2Release => "Osc2Release"@,
            FermiParams::Osc1Waveform => "Osc1Waveform"@,
            FermiParams::Osc2Waveform => "Osc2Waveform"@,
            FermiParams::MasterLevel => "MasterLevel"@,
        }
    }

    /// The unit shown beside the parameter's value.
    pub fn label(&self) -> (s: &'static str)
        ensures
            s@ == self.spec_label(),
    {
        match *self {
            FermiParams::Osc1Level | FermiParams::MasterLevel => "dB",
            _ => "",
        }
    }

    /// The unit of a parameter: decibels for levels, none for the rest.
    pub open spec fn spec_label(&self) -> Seq<char> {
        match *self {
            FermiParams::Osc1Level | FermiParams::MasterLevel => "dB"@,
            _ => ""@,
        }
    }

    /// How the parameter's value is shown. The waveform parameters are shown
    /// as numbers, for they blend two shapes.
    pub fn text_kind(&self) -> (kind: ParamText)
        ensures
            kind == self.spec_text_kind(),
    {
        match *self {
            FermiParams::Osc1Waveform | FermiParams::Osc2Waveform => ParamText::Blend,
            FermiParams::Osc1RatioCoarse | FermiParams::Osc2RatioCoarse => ParamText::RatioSteps,
            FermiParams::Osc1Level | FermiParams::MasterLevel => ParamText::Decibels,
            _ => ParamText::Plain,
        }
    }

    /// How the parameter's value is shown.
    pub open spec fn spec_text_kind(&self) -> ParamText {
        match *self {
            FermiParams::Osc1Waveform | FermiParams::Osc2Waveform => ParamText::Blend,
            FermiParams::Osc1RatioCoarse | FermiParams::Osc2RatioCoarse => ParamText::RatioSteps,
            FermiParams::Osc1Level | FermiParams::MasterLevel => ParamText::Decibels,
            _ => ParamText::Plain,
        }
    }
}

/// The engine of the feedback design.
pub type Fermi = PolySynth<FermiVoice>;

/// One feedback voice.
pub struct FermiVoice {
    pub env1: ADSREnvelope,
    pub env2: ADSREnvelope,
    pub osc1: Oscillator<SinSq>,
    pub osc2: Oscillator<SinSq>,
    pub current_note: Option<u8>,
    pub osc1_feedback: u64,
    pub osc2_feedback: u64,
    pub osc1_feedforward: u64,
    pub osc1_output: i64,
    pub osc2_output: i64,
    pub velocity: u64,
}

/// The percentages a new feedback engine starts with, in index order.
pub open spec fn spec_fermi_defaults() -> Seq<u8> {
    seq![
        0u8, 0, 10, 10,
        10, 20, 50, 40,
        0, 0, 10, 50,
        10, 20, 50, 40,
        50, 20, 50,
    ]
}

impl FermiVoice {
    /// Envelopes and oscillators are well formed, the feeds at most 1.0, and
    /// the kept outputs within the range the oscillators can reach.
    pub open spec fn wf(&self) -> bool {
        &&& self.env1.wf()
        &&& self.env2.wf()
        &&& self.osc1.wf()
        &&& self.osc2.wf()
        &&& self.osc1_feedback <= ONE
        &&& self.osc2_feedback <= ONE
        &&& self.osc1_feedforward <= ONE
        &&& -MAGIC <= self.osc1_output <= MAGIC
        &&& -ONE <= self.osc2_output <= ONE
        &&& self.velocity <= ONE
    }

    /// The output of the first oscillator for the current sample: its
    /// waveform, pushed in phase by its previous output, times its envelope
    /// level and the gain.
    pub open spec fn spec_output1(self) -> int {
        let feedback = spec_mul_fixed(self.osc1_output as int, self.osc1_feedback as int);
        let value = spec_sin_sq(
            self.osc1.wave.square_mix,
            spec_wrap(self.osc1.phase as int, feedback),
        );
        spec_mul_fixed(spec_mul_fixed(value, self.env1.output as int), MAGIC as int)
    }

    /// The output of the second oscillator for the current sample: its
    /// waveform, pushed in phase by its previous output and by the first
    /// oscillator, times its envelope level.
    pub open spec fn spec_output2(self) -> int {
        let feedback = spec_mul_fixed(self.osc2_output as int, self.osc2_feedback as int);
        let feedforward = spec_mul_fixed(self.spec_output1(), self.osc1_feedforward as int);
        let value = spec_sin_sq(
            self.osc2.wave.square_mix,
            spec_wrap(self.osc2.phase as int, spec_mul_fixed(feedback, MAGIC as int) + feedforward),
        );
        spec_mul_fixed(value, self.env2.output as int)
    }

    /// The voice with the envelopes that `bag` and the sample rate call for.
    pub open spec fn spec_setup_envelopes(self, bag: &ParamsBag<FermiParams>, rate: u64) -> FermiVoice {
        FermiVoice {
            env1: self.env1.spec_set_adsr(
                rate,
                bag.value(FermiParams::Osc1Attack),
                bag.value(FermiParams::Osc1Decay),
                bag.value(FermiParams::Osc1Sustain),
                bag.value(FermiParams::Osc1Release),
            ),
            env2: self.env2.spec_set_adsr(
                rate,
                bag.value(FermiParams::Osc2Attack),
                bag.value(FermiParams::Osc2Decay),
                bag.value(FermiParams::Osc2Sustain),
                bag.value(FermiParams::Osc2Release),
            ),
            ..self
        }
    }

    /// The voice with the feeds that `bag` calls for.
    pub open spec fn spec_setup_feeds(self, bag: &ParamsBag<FermiParams>) -> FermiVoice {
        FermiVoice {
            osc1_feedback: spec_log_control(bag.value(FermiParams::Osc1Feedback) as int) as u64,
            osc2_feedback: spec_log_control(bag.value(FermiParams::Osc2Feedback) as int) as u64,
            osc1_feedforward: spec_log_control(bag.value(FermiParams::Osc1Feedforward) as int) as u64,
            ..self
        }
    }

    /// The voice with the waveform blends that `bag` calls for.
    pub open spec fn spec_setup_waves(self, bag: &ParamsBag<FermiParams>) -> FermiVoice {
        FermiVoice {
            osc1: Oscillator {
                wave: SinSq { square_mix: bag.value(FermiParams::Osc1Waveform) },
                ..self.osc1
            },
            osc2: Oscillator {
                wave: SinSq { square_mix: bag.value(FermiParams::Osc2Waveform) },
                ..self.osc2
            },
            ..self
        }
    }

    /// Whether a change of `param` concerns the envelopes.
    pub open spec fn spec_shapes_envelope(param: FermiParams) -> bool {
        4 <= param.index() < 8 || 12 <= param.index() < 16
    }

    /// Whether a change of `param` concerns the feeds.
    pub open spec fn spec_sets_feed(param: FermiParams) -> bool {
        param == FermiParams::Osc1Feedback || param == FermiParams::Osc2Feedback || param
            == FermiParams::Osc1Feedforward
    }

    /// Whether a change of `param` concerns the waveforms.
    pub open spec fn spec_selects_wave(param: FermiParams) -> bool {
        param == FermiParams::Osc1Waveform || param == FermiParams::Osc2Waveform
    }

    /// Configures both envelopes from their parameters.
    pub fn setup_envelopes(&mut self, params: &ParamsBag<FermiParams>, rate: u64)
        requires
            old(self).wf(),
            params.wf(),
        ensures
            *final(self) == old(self).spec_setup_envelopes(params, rate),
            final(self).wf(),
    {
        let a1: u64 = params.get(FermiParams::Osc1Attack);
        let d1: u64 = params.get(FermiParams::Osc1Decay);
        let s1: u64 = params.get(FermiParams::Osc1Sustain);
        let r1: u64 = params.get(FermiParams::Osc1Release);
        let a2: u64 = params.get(FermiParams::Osc2Attack);
        let d2: u64 = params.get(FermiParams::Osc2Decay);
        let s2: u64 = params.get(FermiParams::Osc2Sustain);
        let r2: u64 = params.get(FermiParams::Osc2Release);
        self.env1.set_adsr(rate, a1, d1, s1, r1);
        self.env2.set_adsr(rate, a2, d2, s2, r2);
    }

    /// Derives the three feed amounts from their parameters.
    pub fn setup_feeds(&mut self, params: &ParamsBag<FermiParams>)
        requires
            old(self).wf(),
            params.wf(),
        ensures
            *final(self) == old(self).spec_setup_feeds(params),
            final(self).wf(),
    {
        self.osc1_feedback = log_control(params.get(FermiParams::Osc1Feedback));
        self.osc2_feedback = log_control(params.get(FermiParams::Osc2Feedback));
        self.osc1_feedforward = log_control(params.get(FermiParams::Osc1Feedforward));
    }

    /// Sets the blend of both oscillators from their parameters.
    pub fn setup_waves(&mut self, params: &ParamsBag<FermiParams>)
        requires
            old(self).wf(),
            params.wf(),
        ensures
            *final(self) == old(self).spec_setup_waves(params),
            final(self).wf(),
    {
        self.osc1.get_wave_mut().square_mix = params.get(FermiParams::Osc1Waveform);
        self.osc2.get_wave_mut().square_mix = params.get(FermiParams::Osc2Waveform);
    }
}

impl Voice for FermiVoice {
    type ParamsEnum = FermiParams;

    type PostParam = u64;

    open spec fn valid(&self) -> bool {
        self.wf()
    }

    open spec fn note(&self) -> Option<u8> {
        self.current_note
    }

    open spec fn at_rest(&self) -> bool {
        &&& self.env1.state == ADSRState::Idle
        &&& self.env2.state == ADSRState::Idle
    }

    open spec fn fresh() -> Self {
        FermiVoice {
            env1: ADSREnvelope::new_spec(),
            env2: ADSREnvelope::new_spec(),
            osc1: Oscillator { phase: 0, frequency: 0, wave: SinSq { square_mix: 0 } },
            osc2: Oscillator { phase: 0, frequency: 0, wave: SinSq { square_mix: 0 } },
            current_note: None,
            osc1_feedback: 0,
            osc2_feedback: 0,
            osc1_feedforward: 0,
            osc1_output: 0,
            osc2_output: 0,
            velocity: 0,
        }
    }

    open spec fn defaults() -> Seq<u64> {
        spec_percents(spec_fermi_defaults())
    }

    open spec fn after_init(&self, bag: &ParamsBag<FermiParams>, sample_rate: u64) -> Self {
        self.spec_setup_envelopes(bag, sample_rate)
    }

    open spec fn after_note_on(&self, note: u8, velocity: u8) -> Self {
        FermiVoice {
            current_note: Some(note),
            env1: ADSREnvelope { state: ADSRState::Attack, ..self.env1 },
            env2: ADSREnvelope { state: ADSRState::Attack, ..self.env2 },
            osc1: Oscillator { phase: 0, ..self.osc1 },
            osc2: Oscillator { phase: 0, ..self.osc2 },
            osc1_output: 0,
            osc2_output: 0,
            velocity: spec_velocity(velocity) as u64,
            ..*self
        }
    }

    open spec fn after_note_off(&self) -> Self {
        FermiVoice {
            current_note: None,
            env1: ADSREnvelope { state: ADSRState::Release, ..self.env1 },
            env2: ADSREnvelope { state: ADSRState::Release, ..self.env2 },
            ..*self
        }
    }

    open spec fn after_init_process(&self, bag: &ParamsBag<FermiParams>) -> Self {
        match self.current_note {
            Some(note) => FermiVoice {
                osc1: Oscillator {
                    frequency: spec_osc_freq(
                        note,
                        bag.value(FermiParams::Osc1RatioCoarse),
                        bag.value(FermiParams::Osc1RatioFine),
                    ) as i64,
                    ..self.osc1
                },
                osc2: Oscillator {
                    frequency: spec_osc_freq(
                        note,
                        bag.value(FermiParams::Osc2RatioCoarse),
                        bag.value(FermiParams::Osc2RatioFine),
                    ) as i64,
                    ..self.osc2
                },
                ..*self
            },
            None => *self,
        }
    }

    open spec fn after_sample(&self, timestep: u64) -> Self {
        FermiVoice {
            osc1_output: self.spec_output1() as i64,
            osc2_output: self.spec_output2() as i64,
            env1: self.env1.spec_process(),
            env2: self.env2.spec_process(),
            osc1: self.osc1.spec_step(timestep),
            osc2: self.osc2.spec_step(timestep),
            ..*self
        }
    }

    open spec fn may_yield(&self, frame: Frame) -> bool {
        frame == (Frame { l: self.spec_output2() as i64, r: self.spec_output2() as i64 })
    }

    open spec fn after_update(
        &self,
        bag: &ParamsBag<FermiParams>,
        param: FermiParams,
        sample_rate: u64,
    ) -> Self {
        if Self::spec_shapes_envelope(param) {
            self.spec_setup_envelopes(bag, sample_rate)
        } else if Self::spec_sets_feed(param) {
            self.spec_setup_feeds(bag)
        } else if Self::spec_selects_wave(param) {
            self.spec_setup_waves(bag)
        } else {
            *self
        }
    }

    open spec fn post_param(bag: &ParamsBag<FermiParams>) -> u64 {
        spec_log_control(bag.value(FermiParams::MasterLevel) as int) as u64
    }

    open spec fn post_valid(param: &u64) -> bool {
        *param <= ONE
    }

    open spec fn post(param: &u64, frame: Frame) -> Frame {
        frame.spec_scaled(*param as int)
    }

    fn new() -> (v: Self) {
        FermiVoice {
            env1: ADSREnvelope::new(),
            env2: ADSREnvelope::new(),
            osc1: Oscillator::new(SinSq { square_mix: 0 }),
            osc2: Oscillator::new(SinSq { square_mix: 0 }),
            current_note: None,
            osc1_feedback: 0,
            osc2_feedback: 0,
            osc1_feedforward: 0,
            osc1_output: 0,
            osc2_output: 0,
            velocity: 0,
        }
    }

    fn default_bag() -> (bag: ParamsBag<FermiParams>) {
        let defaults: [u8; 19] = [
            0, 0, 10, 10,
            10, 20, 50, 40,
            0, 0, 10, 50,
            10, 20, 50, 40,
            50, 20, 50,
        ];
        assert(defaults@ =~= spec_fermi_defaults());
        assert(FermiParams::count() == 19);
        ParamsBag::from_percent(defaults.as_slice())
    }

    fn init(&mut self, bag: &ParamsBag<FermiParams>, sample_rate: u64) {
        self.setup_envelopes(bag, sample_rate);
    }

    fn current_note(&self) -> (note: Option<u8>) {
        self.current_note
    }

    fn note_on(&mut self, note: u8, velocity: u8) {
        self.current_note = Some(note);
        self.env1.trigger();
        self.env2.trigger();
        self.osc1.phase_reset();
        self.osc2.phase_reset();
        self.osc1_output = 0;
        self.osc2_output = 0;
        self.velocity = velocity_scale(velocity);
    }

    fn note_off(&mut self, _note: u8, _velocity: u8) {
        self.current_note = None;
        self.env1.release();
        self.env2.release();
    }

    fn init_process(&mut self, params: &ParamsBag<FermiParams>) -> (active: bool) {
        match self.current_note {
            Some(note) => {
                let freq1: u64 = osc_freq(
                    note,
                    params.get(FermiParams::Osc1RatioCoarse),
                    params.get(FermiParams::Osc1RatioFine),
                );
                let freq2: u64 = osc_freq(
                    note,
                    params.get(FermiParams::Osc2RatioCoarse),
                    params.get(FermiParams::Osc2RatioFine),
                );
                self.osc1.set_freq(freq1 as i64);
                self.osc2.set_freq(freq2 as i64);
                true
            },
            _ => !self.is_finished(),
        }
    }

    fn process_sample(&mut self, timestep: u64) -> (frame: Frame)
        ensures
            frame.within(ONE as int),
    {
        let env1: u64 = self.env1.get_value();
        let env2: u64 = self.env2.get_value();
        let feedback1: i64 = mul_fixed(self.osc1_output, self.osc1_feedback as i64);
        let feedback2: i64 = mul_fixed(self.osc2_output, self.osc2_feedback as i64);
        let value1: i64 = self.osc1.get_offset_value(feedback1);
        self.osc1_output = mul_fixed(mul_fixed(value1, env1 as i64), MAGIC);
        let feedforward: i64 = mul_fixed(self.osc1_output, self.osc1_feedforward as i64);
        let push2: i64 = mul_fixed(feedback2, MAGIC);
        let value2: i64 = self.osc2.get_offset_value(push2 + feedforward);
        self.osc2_output = mul_fixed(value2, env2 as i64);
        self.env1.process();
        self.env2.process();
        self.osc1.step(timestep);
        self.osc2.step(timestep);
        Frame { l: self.osc2_output, r: self.osc2_output }
    }

    fn is_finished(&self) -> (finished: bool) {
        self.env1.is_finished() && self.env2.is_finished()
    }

    fn prepare_post(params: &ParamsBag<FermiParams>) -> (param: u64) {
        log_control(params.get(FermiParams::MasterLevel))
    }

    fn process_post(param: &u64, frame: Frame) -> (out: Frame) {
        frame.scaled(*param as i64)
    }

    fn update_param(&mut self, bag: &ParamsBag<FermiParams>, param: FermiParams, rate: u64) {
        match param {
            FermiParams::Osc1Attack => self.setup_envelopes(bag, rate),
            FermiParams::Osc1Decay => self.setup_envelopes(bag, rate),
            FermiParams::Osc1Sustain => self.setup_envelopes(bag, rate),
            FermiParams::Osc1Release => self.setup_envelopes(bag, rate),
            FermiParams::Osc2Attack => self.setup_envelopes(bag, rate),
            FermiParams::Osc2Decay => self.setup_envelopes(bag, rate),
            FermiParams::Osc2Sustain => self.setup_envelopes(bag, rate),
            FermiParams::Osc2Release => self.setup_envelopes(bag, rate),
            FermiParams::Osc1Feedback => self.setup_feeds(bag),
            FermiParams::Osc2Feedback => self.setup_feeds(bag),
            FermiParams::Osc1Feedforward => self.setup_feeds(bag),
            FermiParams::Osc1Waveform => self.setup_waves(bag),
            FermiParams::Osc2Waveform => self.setup_waves(bag),
            _ => (),
        };
    }
}

} // verus!
