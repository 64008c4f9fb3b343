//! A voice of three oscillators, each with an envelope of its own, a
//! frequency ratio, a detune and a phase offset; the third oscillator can
//! modulate the amplitude of the other two.

use vstd::prelude::*;
use crate::device::ParamText;
use crate::envelope::{ADSREnvelope, ADSRState, Envelope};
use crate::fixed::{spec_abs, HALF, ONE};
use crate::frame::Frame;
use crate::helpers::{log_control, midi_note_to_hz, param_detune, ratio_scalar, scale_freq, spec_log_control, spec_midi_note_to_hz, spec_param_detune, spec_ratio_scalar, spec_scale_freq, spec_velocity, velocity_scale};
use crate::indexed::{spec_param_index, IndexedEnum};
use crate::oscillator::{spec_wrap, Oscillator};
use crate::params_bag::{spec_percents, ParamsBag};
use crate::poly_synth::PolySynth;
use crate::voice::Voice;
use crate::waveform::{Dynamic, Waveform};

verus! {

/// The parameters of the three-oscillator voice, in index order.
#[derive(Debug, Clone, Copy, PartialEq, Eq, Structural)]
pub enum PendulumParams {
    Osc1Waveform,
    Osc1RatioCoarse,
    Osc1RatioFine,
    Osc1PhaseOffset,
    Osc2Waveform,
    Osc2RatioCoarse,
    Osc2RatioFine,
    Osc2PhaseOffset,
    Osc3Waveform,
    Osc3RatioCoarse,
    Osc3RatioFine,
    Osc3PhaseOffset,
    Osc1Attack,
    Osc1Decay,
    Osc1Sustain,
    Osc1Release,
    Osc2Attack,
    Osc2Decay,
    Osc2Sustain,
    Osc2Release,
    Osc3Attack,
    Osc3Decay,
    Osc3Sustain,
    Osc3Release,
    Osc1Detune,
    Osc2Detune,
    Osc3Detune,
    Osc3AM,
    Osc2Level,
    Osc3Level,
    MasterLevel,
}

impl IndexedEnum for PendulumParams {
    open spec fn count() -> nat {
        31
    }

    open spec fn index(&self) -> nat {
        match *self {
            PendulumParams::Osc1Waveform => 0,
            PendulumParams::Osc1RatioCoarse => 1,
            PendulumParams::Osc1RatioFine => 2,
            PendulumParams::Osc1PhaseOffset => 3,
            PendulumParams::Osc2Waveform => 4,
            PendulumParams::Osc2RatioCoarse => 5,
            PendulumParams::Osc2RatioFine => 6,
            PendulumParams::Osc2PhaseOffset => 7,
            PendulumParams::Osc3Waveform => 8,
            PendulumParams::Osc3RatioCoarse => 9,
            PendulumParams::Osc3RatioFine => 10,
            PendulumParams::Osc3PhaseOffset => 11,
            PendulumParams::Osc1Attack => 12,
            PendulumParams::Osc1Decay => 13,
            PendulumParams::Osc1Sustain => 14,
            PendulumParams::Osc1Release => 15,
            PendulumParams::Osc2Attack => 16,
            PendulumParams::Osc2Decay => 17,
            PendulumParams::Osc2Sustain => 18,
            PendulumParams::Osc2Release => 19,
            PendulumParams::Osc3Attack => 20,
            PendulumParams::Osc3Decay => 21,
            PendulumParams::Osc3Sustain => 22,
            PendulumParams::Osc3Release => 23,
            PendulumParams::Osc1Detune => 24,
            PendulumParams::Osc2Detune => 25,
            PendulumParams::Osc3Detune => 26,
            PendulumParams::Osc3AM => 27,
            PendulumParams::Osc2Level => 28,
            PendulumParams::Osc3Level => 29,
            PendulumParams::MasterLevel => 30,
        }
    }

    open spec fn member(index: nat) -> Self {
        if index == 0 {
            PendulumParams::Osc1Waveform
        } else if index == 1 {
            PendulumParams::Osc1RatioCoarse
        } else if index == 2 {
            PendulumParams::Osc1RatioFine
        } else if index == 3 {
            PendulumParams::Osc1PhaseOffset
        } else if index == 4 {
            PendulumParams::Osc2Waveform
        } else if index == 5 {
            PendulumParams::Osc2RatioCoarse
        } else if index == 6 {
            PendulumParams::Osc2RatioFine
        } else if index == 7 {
            PendulumParams::Osc2PhaseOffset
        } else if index == 8 {
            PendulumParams::Osc3Waveform
        } else if index == 9 {
            PendulumParams::Osc3RatioCoarse
        } else if index == 10 {
            PendulumParams::Osc3RatioFine
        } else if index == 11 {
            PendulumParams::Osc3PhaseOffset
        } else if index == 12 {
            PendulumParams::Osc1Attack
        } else if index == 13 {
            PendulumParams::Osc1Decay
        } else if index == 14 {
            PendulumParams::Osc1Sustain
        } else if index == 15 {
            PendulumParams::Osc1Release
        } else if index == 16 {
            PendulumParams::Osc2Attack
        } else if index == 17 {
            PendulumParams::Osc2Decay
        } else if index == 18 {
            PendulumParams::Osc2Sustain
        } else if index == 19 {
            PendulumParams::Osc2Release
        } else if index == 20 {
            PendulumParams::Osc3Attack
        } else if index == 21 {
            PendulumParams::Osc3Decay
        } else if index == 22 {
            PendulumParams::Osc3Sustain
        } else if index == 23 {
            PendulumParams::Osc3Release
        } else if index == 24 {
            PendulumParams::Osc1Detune
        } else if index == 25 {
            PendulumParams::Osc2Detune
        } else if index == 26 {
            PendulumParams::Osc3Detune
        } else if index == 27 {
            PendulumParams::Osc3AM
        } else if index == 28 {
            PendulumParams::Osc2Level
        } else if index == 29 {
            PendulumParams::Osc3Level
        } else {
            PendulumParams::MasterLevel
        }
    }

    proof fn index_is_dense(&self) {
        assert(PendulumParams::member(self.index()) == *self);
    }

    proof fn member_is_indexed(index: nat) {
        assert(PendulumParams::member(index).index() == index);
    }

    fn num_items() -> (n: u32) {
        31
    }

    fn to_index(&self) -> (i: u32) {
        match *self {
            PendulumParams::Osc1Waveform => 0,
            PendulumParams::Osc1RatioCoarse => 1,
            PendulumParams::Osc1RatioFine => 2,
            PendulumParams::Osc1PhaseOffset => 3,
            PendulumParams::Osc2Waveform => 4,
            PendulumParams::Osc2RatioCoarse => 5,
            PendulumParams::Osc2RatioFine => 6,
            PendulumParams::Osc2PhaseOffset => 7,
            PendulumParams::Osc3Waveform => 8,
            PendulumParams::Osc3RatioCoarse => 9,
            PendulumParams::Osc3RatioFine => 10,
            PendulumParams::Osc3PhaseOffset => 11,
            PendulumParams::Osc1Attack => 12,
            PendulumParams::Osc1Decay => 13,
            PendulumParams::Osc1Sustain => 14,
            PendulumParams::Osc1Release => 15,
            PendulumParams::Osc2Attack => 16,
            PendulumParams::Osc2Decay => 17,
            PendulumParams::Osc2Sustain => 18,
            PendulumParams::Osc2Release => 19,
            PendulumParams::Osc3Attack => 20,
            PendulumParams::Osc3Decay => 21,
            PendulumParams::Osc3Sustain => 22,
            PendulumParams::Osc3Release => 23,
            PendulumParams::Osc1Detune => 24,
            PendulumParams::Osc2Detune => 25,
            PendulumParams::Osc3Detune => 26,
            PendulumParams::Osc3AM => 27,
            PendulumParams::Osc2Level => 28,
            PendulumParams::Osc3Level => 29,
            PendulumParams::MasterLevel => 30,
        }
    }

    fn from_index(index: u32) -> (m: Self) {
        proof {
            Self::member_is_indexed(index as nat);
        }
        match index {
            0 => PendulumParams::Osc1Waveform,
            1 => PendulumParams::Osc1RatioCoarse,
            2 => PendulumParams::Osc1RatioFine,
            3 => PendulumParams::Osc1PhaseOffset,
            4 => PendulumParams::Osc2Waveform,
            5 => PendulumParams::Osc2RatioCoarse,
            6 => PendulumParams::Osc2RatioFine,
            7 => PendulumParams::Osc2PhaseOffset,
            8 => PendulumParams::Osc3Waveform,
            9 => PendulumParams::Osc3RatioCoarse,
            10 => PendulumParams::Osc3RatioFine,
            11 => PendulumParams::Osc3PhaseOffset,
            12 => PendulumParams::Osc1Attack,
            13 => PendulumParams::Osc1Decay,
            14 => PendulumParams::Osc1Sustain,
            15 => PendulumParams::Osc1Release,
            16 => PendulumParams::Osc2Attack,
            17 => PendulumParams::Osc2Decay,
            18 => PendulumParams::Osc2Sustain,
            19 => PendulumParams::Osc2Release,
            20 => PendulumParams::Osc3Attack,
            21 => PendulumParams::Osc3Decay,
            22 => PendulumParams::Osc3Sustain,
            23 => PendulumParams::Osc3Release,
            24 => PendulumParams::Osc1Detune,
            25 => PendulumParams::Osc2Detune,
            26 => PendulumParams::Osc3Detune,
            27 => PendulumParams::Osc3AM,
            28 => PendulumParams::Osc2Level,
            29 => PendulumParams::Osc3Level,
            _ => PendulumParams::MasterLevel,
        }
    }
}


impl PendulumParams {
    /// The identifier as written, for display.
    pub fn name(&self) -> (s: &'static str)
        ensures
            s@ == self.spec_name(),
    {
        match *self {
            PendulumParams::Osc1Waveform => "Osc1Waveform",
            PendulumParams::Osc1RatioCoarse => "Osc1RatioCoarse",
            PendulumParams::Osc1RatioFine => "Osc1RatioFine",
            PendulumParams::Osc1PhaseOffset => "Osc1PhaseOffset",
            PendulumParams::Osc2Waveform => "Osc2Waveform",
            PendulumParams::Osc2RatioCoarse => "Osc2RatioCoarse",
            PendulumParams::Osc2RatioFine => "Osc2RatioFine",
            PendulumParams::Osc2PhaseOffset => "Osc2PhaseOffset",
            PendulumParams::Osc3Waveform => "Osc3Waveform",
            PendulumParams::Osc3RatioCoarse => "Osc3RatioCoarse",
            PendulumParams::Osc3RatioFine => "Osc3RatioFine",
            PendulumParams::Osc3PhaseOffset => "Osc3PhaseOffset",
            PendulumParams::Osc1Attack => "Osc1Attack",
            PendulumParams::Osc1Decay => "Osc1Decay",
            PendulumParams::Osc1Sustain => "Osc1Sustain",
            PendulumParams::Osc1Release => "Osc1Release",
            PendulumParams::Osc2Attack => "Osc2Attack",
            PendulumParams::Osc2Decay => "Osc2Decay",
            PendulumParams::Osc2Sustain => "Osc2Sustain",
            PendulumParams::Osc2Release => "Osc2Release",
            PendulumParams::Osc3Attack => "Osc3Attack",
            PendulumParams::Osc3Decay => "Osc3Decay",
            PendulumParams::Osc3Sustain => "Osc3Sustain",
            PendulumParams::Osc3Release => "Osc3Release",
            PendulumParams::Osc1Detune => "Osc1Detune",
            PendulumParams::Osc2Detune => "Osc2Detune",
            PendulumParams::Osc3Detune => "Osc3Detune",
            PendulumParams::Osc3AM => "Osc3AM",
            PendulumParams::Osc2Level => "Osc2Level",
            PendulumParams::Osc3Level => "Osc3Level",
            PendulumParams::MasterLevel => "MasterLevel",
        }
    }

    /// The identifier as written.
    pub open spec fn spec_name(&self) -> Seq<char> {
        match *self {
            PendulumParams::Osc1Waveform => "Osc1Waveform"@,
            PendulumParams::Osc1RatioCoarse => "Osc1RatioCoarse"@,
            PendulumParams::Osc1RatioFine => "Osc1RatioFine"@,
            PendulumParams::Osc1PhaseOffset => "Osc1PhaseOffset"@,
            PendulumParams::Osc2Waveform => "Osc2Waveform"@,
            PendulumParams::Osc2RatioCoarse => "Osc2RatioCoarse"@,
            PendulumParams::Osc2RatioFine => "Osc2RatioFine"@,
            PendulumParams::Osc2PhaseOffset => "Osc2PhaseOffset"@,
            PendulumParams::Osc3Waveform => "Osc3Waveform"@,
            PendulumParams::Osc3RatioCoarse => "Osc3RatioCoarse"@,
            PendulumParams::Osc3RatioFine => "Osc3RatioFine"@,
            PendulumParams::Osc3PhaseOffset => "Osc3PhaseOffset"@,
            PendulumParams::Osc1Attack => "Osc1Attack"@,
            PendulumParams::Osc1Decay => "Osc1Decay"@,
            PendulumParams::Osc1Sustain => "Osc1Sustain"@,
            PendulumParams::Osc1Release => "Osc1Release"@,
            PendulumParams::Osc2Attack => "Osc2Attack"@,
            PendulumParams::Osc2Decay => "Osc2Decay"@,
            PendulumParams::Osc2Sustain => "Osc2Sustain"@,
            PendulumParams::Osc2Release => "Osc2Release"@,
            PendulumParams::Osc3Attack => "Osc3Attack"@,
            PendulumParams::Osc3Decay => "Osc3Decay"@,
            PendulumParams::Osc3Sustain => "Osc3Sustain"@,
            PendulumParams::Osc3Release => "Osc3Release"@,
            PendulumParams::Osc1Detune => "Osc1Detune"@,
            PendulumParams::Osc2Detune => "Osc2Detune"@,
            PendulumParams::Osc3Detune => "Osc3Detune"@,
            PendulumParams::Osc3AM => "Osc3AM"@,
            PendulumParams::Osc2Level => "Osc2Level"@,
            PendulumParams::Osc3Level => "Osc3Level"@,
            PendulumParams::MasterLevel => "MasterLevel"@,
        }
    }

    /// The unit shown beside the parameter's value.
    pub fn label(&self) -> (s: &'static str)
        ensures
            s@ == self.spec_label(),
    {
        match *self {
            PendulumParams::Osc2Level | PendulumParams::Osc3Level | PendulumParams::MasterLevel => "dB",
            PendulumParams::Osc1Detune | PendulumParams::Osc2Detune | PendulumParams::Osc3Detune => "cents",
            _ => "",
        }
    }

    /// The unit of a parameter: decibels for levels, cents for detunes, none
    /// for the rest.
    pub open spec fn spec_label(&self) -> Seq<char> {
        match *self {
            PendulumParams::Osc2Level | PendulumParams::Osc3Level | PendulumParams::MasterLevel => "dB"@,
            PendulumParams::Osc1Detune | PendulumParams::Osc2Detune | PendulumParams::Osc3Detune => "cents"@,
            _ => ""@,
        }
    }

    /// How the parameter's value is shown.
    pub fn text_kind(&self) -> (kind: ParamText)
        ensures
            kind == self.spec_text_kind(),
    {
        match *self {
            PendulumParams::Osc1Waveform | PendulumParams::Osc2Waveform | PendulumParams::Osc3Waveform => ParamText::Waveform,
            PendulumParams::Osc1RatioCoarse | PendulumParams::Osc2RatioCoarse | PendulumParams::Osc3RatioCoarse => ParamText::RatioSteps,
            PendulumParams::Osc1Detune | PendulumParams::Osc2Detune | PendulumParams::Osc3Detune => ParamText::Cents,
            PendulumParams::Osc2Level | PendulumParams::Osc3Level | PendulumParams::MasterLevel => ParamText::Decibels,
            PendulumParams::Osc3AM => ParamText::Switch,
            _ => ParamText::Plain,
        }
    }

    /// How the parameter's value is shown.
    pub open spec fn spec_text_kind(&self) -> ParamText {
        match *self {
            PendulumParams::Osc1Waveform | PendulumParams::Osc2Waveform | PendulumParams::Osc3Waveform => ParamText::Waveform,
            PendulumParams::Osc1RatioCoarse | PendulumParams::Osc2RatioCoarse | PendulumParams::Osc3RatioCoarse => ParamText::RatioSteps,
            PendulumParams::Osc1Detune | PendulumParams::Osc2Detune | PendulumParams::Osc3Detune => ParamText::Cents,
            PendulumParams::Osc2Level | PendulumParams::Osc3Level | PendulumParams::MasterLevel => ParamText::Decibels,
            PendulumParams::Osc3AM => ParamText::Switch,
            _ => ParamText::Plain,
        }
    }
}

/// How the two channels of an oscillator relate.
#[derive(Debug, Clone, Copy, PartialEq, Eq, Structural)]
pub enum PendulumOscMode {
    /// Both channels carry the same signal.
    Mono,
    /// The right channel is the left one shifted in phase.
    MonoOffset,
    /// The channels run at slightly different frequencies.
    Stereo,
}

impl Default for PendulumOscMode {
    /// Both channels carry the same signal.
    fn default() -> (mode: PendulumOscMode)
        ensures
            mode == PendulumOscMode::Mono,
    {
        PendulumOscMode::Mono
    }
}

/// Whether a detune ratio is too close to 1 to be heard: closer than one part
/// in a thousand.
pub open spec fn spec_detune_off(detune: u64) -> bool {
    spec_abs(ONE - detune) * 1000 < ONE
}

/// One oscillator of the voice: an envelope and one phase accumulator per
/// channel.
pub struct PendulumOsc {
    pub envelope: ADSREnvelope,
    pub osc_l: Oscillator<Dynamic>,
    pub osc_r: Oscillator<Dynamic>,
    pub phase_offset: u64,
    pub osc_mode: PendulumOscMode,
}

impl PendulumOsc {
    /// The envelope is well formed and both phases lie within the cycle.
    pub open spec fn wf(&self) -> bool {
        &&& self.envelope.wf()
        &&& self.osc_l.wf()
        &&& self.osc_r.wf()
    }

    /// The phase offset as applied: its fraction of a cycle.
    pub open spec fn spec_offset(self) -> int {
        (self.phase_offset % ONE) as int
    }

    /// Whether `vl` and `vr` can be the waveform values of the left and the
    /// right channel for the current sample.
    pub open spec fn taps(self, vl: int, vr: int) -> bool {
        &&& -ONE <= vl <= ONE
        &&& -ONE <= vr <= ONE
        &&& self.osc_l.wave.yields(self.osc_l.phase, vl)
        &&& match self.osc_mode {
            PendulumOscMode::Mono => vr == vl,
            PendulumOscMode::MonoOffset => self.osc_l.wave.yields(
                spec_wrap(self.osc_l.phase as int, self.spec_offset()) as u64,
                vr,
            ),
            PendulumOscMode::Stereo => self.osc_r.wave.yields(
                spec_wrap(self.osc_r.phase as int, self.spec_offset()) as u64,
                vr,
            ),
        }
    }

    /// Whether the oscillator can hand out `frame` for the current sample:
    /// the waveform values of the two channels times the envelope level.
    pub open spec fn may_yield(self, frame: Frame) -> bool {
        exists|vl: int, vr: int| #[trigger]
            self.taps(vl, vr) && frame == (Frame { l: vl as i64, r: vr as i64 }).spec_scaled(
                self.envelope.output as int,
            )
    }

    /// The oscillator one sample later: the envelope has advanced, and so has
    /// every phase accumulator in use.
    pub open spec fn spec_process_sample(self, timestep: u64) -> PendulumOsc {
        PendulumOsc {
            envelope: self.envelope.spec_process(),
            osc_l: self.osc_l.spec_step(timestep),
            osc_r: if self.osc_mode == PendulumOscMode::Stereo {
                self.osc_r.spec_step(timestep)
            } else {
                self.osc_r
            },
            ..self
        }
    }

    /// The oscillator triggered: the envelope attacks and both cycles start
    /// over.
    pub open spec fn spec_trigger(self) -> PendulumOsc {
        PendulumOsc {
            envelope: ADSREnvelope { state: ADSRState::Attack, ..self.envelope },
            osc_l: Oscillator { phase: 0, ..self.osc_l },
            osc_r: Oscillator { phase: 0, ..self.osc_r },
            ..self
        }
    }

    /// The oscillator released.
    pub open spec fn spec_release(self) -> PendulumOsc {
        PendulumOsc { envelope: ADSREnvelope { state: ADSRState::Release, ..self.envelope }, ..self }
    }

    /// The oscillator with the given waveform on both channels.
    pub open spec fn spec_set_wave(self, wave: Dynamic) -> PendulumOsc {
        PendulumOsc {
            osc_l: Oscillator { wave, ..self.osc_l },
            osc_r: Oscillator { wave, ..self.osc_r },
            ..self
        }
    }

    /// The oscillator prepared for a block. Without a noticeable detune both
    /// channels run at `freq`, as one signal if there is no phase offset
    /// either; with one the left channel runs at `freq / detune` and the right
    /// one at `freq * detune`.
    pub open spec fn spec_setup(self, freq: u64, detune: u64, phase_offset: u64) -> PendulumOsc {
        if spec_detune_off(detune) {
            PendulumOsc {
                phase_offset,
                osc_l: Oscillator {
                    frequency: spec_scale_freq(freq as int, ONE as int, ONE as int) as i64,
                    ..self.osc_l
                },
                osc_r: Oscillator {
                    frequency: spec_scale_freq(freq as int, ONE as int, ONE as int) as i64,
                    ..self.osc_r
                },
                osc_mode: if phase_offset == 0 {
                    PendulumOscMode::Mono
                } else {
                    PendulumOscMode::MonoOffset
                },
                ..self
            }
        } else {
            PendulumOsc {
                phase_offset,
                osc_l: Oscillator {
                    frequency: spec_scale_freq(freq as int, ONE as int, detune as int) as i64,
                    ..self.osc_l
                },
                osc_r: Oscillator {
                    frequency: spec_scale_freq(freq as int, detune as int, ONE as int) as i64,
                    ..self.osc_r
                },
                osc_mode: PendulumOscMode::Stereo,
                ..self
            }
        }
    }

    /// A silent sine oscillator.
    pub open spec fn spec_new() -> PendulumOsc {
        PendulumOsc {
            envelope: ADSREnvelope::new_spec(),
            osc_l: Oscillator { phase: 0, frequency: 0, wave: Dynamic::Sine },
            osc_r: Oscillator { phase: 0, frequency: 0, wave: Dynamic::Sine },
            phase_offset: 0,
            osc_mode: PendulumOscMode::Mono,
        }
    }

    /// A silent sine oscillator.
    pub fn new() -> (o: PendulumOsc)
        ensures
            o == PendulumOsc::spec_new(),
            o.wf(),
    {
        PendulumOsc {
            envelope: ADSREnvelope::new(),
            osc_l: Oscillator::new(Dynamic::Sine),
            osc_r: Oscillator::new(Dynamic::Sine),
            phase_offset: 0,
            osc_mode: PendulumOscMode::Mono,
        }
    }

    /// Hands out the frame of the current sample, the waveform values times
    /// the envelope level, and advances envelope and phases by one sample.
    pub fn process_sample(&mut self, timestep: u64) -> (frame: Frame)
        requires
            old(self).wf(),
        ensures
            *final(self) == old(self).spec_process_sample(timestep),
            old(self).may_yield(frame),
            frame.within(ONE as int),
            final(self).wf(),
    {
        let env: u64 = self.envelope.get_value();
        self.envelope.process();
        let offset: i64 = (self.phase_offset % ONE) as i64;
        match self.osc_mode {
            PendulumOscMode::Mono => {
                let val: i64 = self.osc_l.get_value();
                let f = (Frame { l: val, r: val }).scaled(env as i64);
                assert(old(self).taps(val as int, val as int));
                self.osc_l.step(timestep);
                f
            },
            PendulumOscMode::MonoOffset => {
                let l: i64 = self.osc_l.get_value();
                let r: i64 = self.osc_l.get_offset_value(offset);
                let f = (Frame { l, r }).scaled(env as i64);
                assert(old(self).taps(l as int, r as int));
                self.osc_l.step(timestep);
                f
            },
            PendulumOscMode::Stereo => {
                let l: i64 = self.osc_l.get_value();
                let r: i64 = self.osc_r.get_offset_value(offset);
                let f = (Frame { l, r }).scaled(env as i64);
                assert(old(self).taps(l as int, r as int));
                self.osc_l.step(timestep);
                self.osc_r.step(timestep);
                f
            },
        }
    }

    /// Selects the waveform of both channels.
    pub fn set_wave(&mut self, wave: Dynamic)
        ensures
            *final(self) == old(self).spec_set_wave(wave),
    {
        self.osc_l.set_wave(wave);
        self.osc_r.set_wave(wave);
    }

    /// Starts the attack of the envelope and both cycles over.
    pub fn trigger(&mut self)
        requires
            old(self).wf(),
        ensures
            *final(self) == old(self).spec_trigger(),
            final(self).wf(),
    {
        self.envelope.trigger();
        self.osc_l.phase_reset();
        self.osc_r.phase_reset();
    }

    /// Prepares the oscillator for a block: notes the phase offset, sets the
    /// frequencies of both channels and decides how the channels relate.
    pub fn setup(&mut self, freq: u64, detune: u64, phase_offset: u64)
        requires
            detune > 0,
        ensures
            *final(self) == old(self).spec_setup(freq, detune, phase_offset),
    {
        self.phase_offset = phase_offset;
        let distance: u64 = if detune > ONE {
            detune - ONE
        } else {
            ONE - detune
        };
        let detune_off: bool = distance <= 1073741;
        if detune_off {
            let f: i64 = scale_freq(freq, ONE, ONE);
            self.osc_l.set_freq(f);
            self.osc_r.set_freq(f);
            self.osc_mode = if phase_offset == 0 {
                PendulumOscMode::Mono
            } else {
                PendulumOscMode::MonoOffset
            };
        } else {
            self.osc_l.set_freq(scale_freq(freq, ONE, detune));
            self.osc_r.set_freq(scale_freq(freq, detune, ONE));
            self.osc_mode = PendulumOscMode::Stereo;
        }
    }

    /// Starts the release of the envelope.
    pub fn release(&mut self)
        requires
            old(self).wf(),
        ensures
            *final(self) == old(self).spec_release(),
            final(self).wf(),
    {
        self.envelope.release();
    }

    /// Whether the envelope has come to rest.
    pub fn is_finished(&self) -> (b: bool)
        ensures
            b == (self.envelope.state == ADSRState::Idle),
    {
        self.envelope.is_finished()
    }
}

/// The engine of the three-oscillator design.
pub type Pendulum = PolySynth<PendulumVoice>;

/// One three-oscillator voice.
pub struct PendulumVoice {
    pub osc1: PendulumOsc,
    pub osc2: PendulumOsc,
    pub osc3: PendulumOsc,
    pub current_note: Option<u8>,
    pub osc2_level: u64,
    pub osc3_level: u64,
    pub osc3_am: bool,
    pub velocity: u64,
}

/// The waveform that a control value selects.
pub open spec fn spec_wave(value: u64) -> Dynamic {
    Dynamic::member(spec_param_index(value as int, Dynamic::count()))
}

/// The percentages a new three-oscillator engine starts with, in index order.
pub open spec fn spec_pendulum_defaults() -> Seq<u8> {
    seq![
        0u8, 0, 0, 0,
        30, 0, 0, 100,
        100, 0, 0, 0,
        20, 10, 100, 20,
        10, 10, 100, 20,
        1, 10, 0, 10,
        50, 50, 50, 0,
        100, 100, 50,
    ]
}

/// Half of a magnitude of at most 1.0 is at most one half.
pub proof fn lemma_half_of_unit(m: int)
    requires
        0 <= m <= ONE,
    ensures
        (m * HALF) / (ONE as int) <= HALF,
{
    assert(m * HALF <= ONE * HALF) by (nonlinear_arith)
        requires
            0 <= m <= ONE,
    ;
}

/// The frequency of an oscillator playing `note` with the given ratio
/// controls.
pub open spec fn spec_osc_freq(note: u8, coarse: u64, fine: u64) -> u64 {
    spec_scale_freq(
        spec_midi_note_to_hz(note),
        spec_ratio_scalar(coarse as int, fine as int),
        ONE as int,
    ) as u64
}

/// The frequency of an oscillator playing `note` with the given ratio
/// controls.
pub fn osc_freq(note: u8, coarse: u64, fine: u64) -> (freq: u64)
    ensures
        freq == spec_osc_freq(note, coarse, fine),
{
    scale_freq(midi_note_to_hz(note), ratio_scalar(coarse, fine), ONE) as u64
}

impl PendulumVoice {
    /// The three oscillators are well formed and the gains at most 1.0.
    pub open spec fn wf(&self) -> bool {
        &&& self.osc1.wf()
        &&& self.osc2.wf()
        &&& self.osc3.wf()
        &&& self.osc2_level <= ONE
        &&& self.osc3_level <= ONE
        &&& self.velocity <= ONE
    }

    /// The voice with the envelopes that `bag` and the sample rate call for.
    pub open spec fn spec_setup_envelopes(self, bag: &ParamsBag<PendulumParams>, rate: u64) -> PendulumVoice {
        PendulumVoice {
            osc1: PendulumOsc {
                envelope: self.osc1.envelope.spec_set_adsr(
                    rate,
                    bag.value(PendulumParams::Osc1Attack),
                    bag.value(PendulumParams::Osc1Decay),
                    bag.value(PendulumParams::Osc1Sustain),
                    bag.value(PendulumParams::Osc1Release),
                ),
                ..self.osc1
            },
            osc2: PendulumOsc {
                envelope: self.osc2.envelope.spec_set_adsr(
                    rate,
                    bag.value(PendulumParams::Osc2Attack),
                    bag.value(PendulumParams::Osc2Decay),
                    bag.value(PendulumParams::Osc2Sustain),
                    bag.value(PendulumParams::Osc2Release),
                ),
                ..self.osc2
            },
            osc3: PendulumOsc {
                envelope: self.osc3.envelope.spec_set_adsr(
                    rate,
                    bag.value(PendulumParams::Osc3Attack),
                    bag.value(PendulumParams::Osc3Decay),
                    bag.value(PendulumParams::Osc3Sustain),
                    bag.value(PendulumParams::Osc3Release),
                ),
                ..self.osc3
            },
            ..self
        }
    }

    /// The voice with the waveforms that `bag` selects.
    pub open spec fn spec_setup_waves(self, bag: &ParamsBag<PendulumParams>) -> PendulumVoice {
        PendulumVoice {
            osc1: self.osc1.spec_set_wave(spec_wave(bag.value(PendulumParams::Osc1Waveform))),
            osc2: self.osc2.spec_set_wave(spec_wave(bag.value(PendulumParams::Osc2Waveform))),
            osc3: self.osc3.spec_set_wave(spec_wave(bag.value(PendulumParams::Osc3Waveform))),
            ..self
        }
    }

    /// Whether a change of `param` concerns the envelopes.
    pub open spec fn spec_shapes_envelope(param: PendulumParams) -> bool {
        12 <= param.index() < 24
    }

    /// Whether a change of `param` concerns the waveforms.
    pub open spec fn spec_selects_wave(param: PendulumParams) -> bool {
        param == PendulumParams::Osc1Waveform || param == PendulumParams::Osc2Waveform || param
            == PendulumParams::Osc3Waveform
    }

    /// The mix of the frames of the three oscillators: the second and third
    /// at their levels; either the plain sum, or the sum of the first two
    /// times the third moved into the range from 0 to 1; all scaled by the key
    /// velocity.
    pub open spec fn spec_mix(self, f1: Frame, f2: Frame, f3: Frame) -> Frame {
        let s2 = f2.spec_scaled(self.osc2_level as int);
        let s3 = f3.spec_scaled(self.osc3_level as int);
        let mixed = if self.osc3_am {
            f1.spec_plus(s2).spec_times(s3.spec_scaled(HALF as int).spec_offset(HALF as int))
        } else {
            f1.spec_plus(s2).spec_plus(s3)
        };
        mixed.spec_scaled(self.velocity as int)
    }

    /// Whether the three oscillators can hand out these frames.
    pub open spec fn parts(self, f1: Frame, f2: Frame, f3: Frame) -> bool {
        &&& self.osc1.may_yield(f1)
        &&& self.osc2.may_yield(f2)
        &&& self.osc3.may_yield(f3)
    }

    /// Mixes the frames of the three oscillators.
    pub fn mix(&self, f1: Frame, f2: Frame, f3: Frame) -> (frame: Frame)
        requires
            self.wf(),
            f1.within(ONE as int),
            f2.within(ONE as int),
            f3.within(ONE as int),
        ensures
            frame == self.spec_mix(f1, f2, f3),
            frame.within(3 * ONE),
    {
        let s2 = f2.scaled(self.osc2_level as i64);
        let s3 = f3.scaled(self.osc3_level as i64);
        assert(s2.within(ONE as int) && s3.within(ONE as int));
        let sum12 = f1.plus(s2);
        assert(sum12.within(2 * ONE));
        if self.osc3_am {
            let half3 = s3.scaled(HALF as i64);
            assert(half3.within(HALF as int)) by {
                lemma_half_of_unit(spec_abs(s3.l as int));
                lemma_half_of_unit(spec_abs(s3.r as int));
            }
            let gain = half3.offset(HALF as i64);
            assert(gain.within(ONE as int));
            let modulated = sum12.times(gain);
            assert(modulated.within(3 * ONE));
            let out = modulated.scaled(self.velocity as i64);
            assert(out.within(3 * ONE));
            out
        } else {
            let sum = sum12.plus(s3);
            assert(sum.within(3 * ONE));
            let out = sum.scaled(self.velocity as i64);
            assert(out.within(3 * ONE));
            out
        }
    }

    /// Configures the three envelopes from their parameters.
    pub fn setup_envelopes(&mut self, params: &ParamsBag<PendulumParams>, rate: u64)
        requires
            old(self).wf(),
            params.wf(),
        ensures
            *final(self) == old(self).spec_setup_envelopes(params, rate),
            final(self).wf(),
    {
        let a1: u64 = params.get(PendulumParams::Osc1Attack);
        let d1: u64 = params.get(PendulumParams::Osc1Decay);
        let s1: u64 = params.get(PendulumParams::Osc1Sustain);
        let r1: u64 = params.get(PendulumParams::Osc1Release);
        let a2: u64 = params.get(PendulumParams::Osc2Attack);
        let d2: u64 = params.get(PendulumParams::Osc2Decay);
        let s2: u64 = params.get(PendulumParams::Osc2Sustain);
        let r2: u64 = params.get(PendulumParams::Osc2Release);
        let a3: u64 = params.get(PendulumParams::Osc3Attack);
        let d3: u64 = params.get(PendulumParams::Osc3Decay);
        let s3: u64 = params.get(PendulumParams::Osc3Sustain);
        let r3: u64 = params.get(PendulumParams::Osc3Release);
        self.osc1.envelope.set_adsr(rate, a1, d1, s1, r1);
        self.osc2.envelope.set_adsr(rate, a2, d2, s2, r2);
        self.osc3.envelope.set_adsr(rate, a3, d3, s3, r3);
    }

    /// Selects the waveform of each oscillator from its parameter.
    pub fn setup_waves(&mut self, params: &ParamsBag<PendulumParams>)
        requires
            params.wf(),
        ensures
            *final(self) == old(self).spec_setup_waves(params),
    {
        let w1 = Dynamic::from_param(params.get(PendulumParams::Osc1Waveform));
        let w2 = Dynamic::from_param(params.get(PendulumParams::Osc2Waveform));
        let w3 = Dynamic::from_param(params.get(PendulumParams::Osc3Waveform));
        self.osc1.set_wave(w1);
        self.osc2.set_wave(w2);
        self.osc3.set_wave(w3);
    }
}

impl Voice for PendulumVoice {
    type ParamsEnum = PendulumParams;

    type PostParam = u64;

    open spec fn valid(&self) -> bool {
        self.wf()
    }

    open spec fn note(&self) -> Option<u8> {
        self.current_note
    }

    open spec fn at_rest(&self) -> bool {
        &&& self.osc1.envelope.state == ADSRState::Idle
        &&& self.osc2.envelope.state == ADSRState::Idle
        &&& self.osc3.envelope.state == ADSRState::Idle
    }

    open spec fn fresh() -> Self {
        PendulumVoice {
            osc1: PendulumOsc::spec_new(),
            osc2: PendulumOsc::spec_new(),
            osc3: PendulumOsc::spec_new(),
            current_note: None,
            osc2_level: 0,
            osc3_level: 0,
            osc3_am: false,
            velocity: 0,
        }
    }

    open spec fn defaults() -> Seq<u64> {
        spec_percents(spec_pendulum_defaults())
    }

    open spec fn after_init(&self, bag: &ParamsBag<PendulumParams>, sample_rate: u64) -> Self {
        self.spec_setup_envelopes(bag, sample_rate).spec_setup_waves(bag)
    }

    open spec fn after_note_on(&self, note: u8, velocity: u8) -> Self {
        PendulumVoice {
            current_note: Some(note),
            velocity: spec_velocity(velocity) as u64,
            osc1: self.osc1.spec_trigger(),
            osc2: self.osc2.spec_trigger(),
            osc3: self.osc3.spec_trigger(),
            ..*self
        }
    }

    open spec fn after_note_off(&self) -> Self {
        PendulumVoice {
            current_note: None,
            osc1: self.osc1.spec_release(),
            osc2: self.osc2.spec_release(),
            osc3: self.osc3.spec_release(),
            ..*self
        }
    }

    open spec fn after_init_process(&self, bag: &ParamsBag<PendulumParams>) -> Self {
        match self.current_note {
            Some(note) => PendulumVoice {
                osc2_level: spec_log_control(bag.value(PendulumParams::Osc2Level) as int) as u64,
                osc3_level: spec_log_control(bag.value(PendulumParams::Osc3Level) as int) as u64,
                osc3_am: bag.value(PendulumParams::Osc3AM) > HALF,
                osc1: self.osc1.spec_setup(
                    spec_osc_freq(
                        note,
                        bag.value(PendulumParams::Osc1RatioCoarse),
                        bag.value(PendulumParams::Osc1RatioFine),
                    ),
                    spec_param_detune(bag.value(PendulumParams::Osc1Detune) as int) as u64,
                    bag.value(PendulumParams::Osc1PhaseOffset),
                ),
                osc2: self.osc2.spec_setup(
                    spec_osc_freq(
                        note,
                        bag.value(PendulumParams::Osc2RatioCoarse),
                        bag.value(PendulumParams::Osc2RatioFine),
                    ),
                    spec_param_detune(bag.value(PendulumParams::Osc2Detune) as int) as u64,
                    bag.value(PendulumParams::Osc2PhaseOffset),
                ),
                osc3: self.osc3.spec_setup(
                    spec_osc_freq(
                        note,
                        bag.value(PendulumParams::Osc3RatioCoarse),
                        bag.value(PendulumParams::Osc3RatioFine),
                    ),
                    spec_param_detune(bag.value(PendulumParams::Osc3Detune) as int) as u64,
                    bag.value(PendulumParams::Osc3PhaseOffset),
                ),
                ..*self
            },
            None => *self,
        }
    }

    open spec fn after_sample(&self, timestep: u64) -> Self {
        PendulumVoice {
            osc1: self.osc1.spec_process_sample(timestep),
            osc2: self.osc2.spec_process_sample(timestep),
            osc3: self.osc3.spec_process_sample(timestep),
            ..*self
        }
    }

    open spec fn may_yield(&self, frame: Frame) -> bool {
        exists|f1: Frame, f2: Frame, f3: Frame| #[trigger]
            self.parts(f1, f2, f3) && frame == self.spec_mix(f1, f2, f3)
    }

    open spec fn after_update(
        &self,
        bag: &ParamsBag<PendulumParams>,
        param: PendulumParams,
        sample_rate: u64,
    ) -> Self {
        if Self::spec_shapes_envelope(param) {
            self.spec_setup_envelopes(bag, sample_rate)
        } else if Self::spec_selects_wave(param) {
            self.spec_setup_waves(bag)
        } else {
            *self
        }
    }

    open spec fn post_param(bag: &ParamsBag<PendulumParams>) -> u64 {
        spec_log_control(bag.value(PendulumParams::MasterLevel) as int) as u64
    }

    open spec fn post_valid(param: &u64) -> bool {
        *param <= ONE
    }

    open spec fn post(param: &u64, frame: Frame) -> Frame {
        frame.spec_scaled(*param as int)
    }

    fn new() -> (v: Self) {
        PendulumVoice {
            osc1: PendulumOsc::new(),
            osc2: PendulumOsc::new(),
            osc3: PendulumOsc::new(),
            current_note: None,
            osc2_level: 0,
            osc3_level: 0,
            osc3_am: false,
            velocity: 0,
        }
    }

    fn default_bag() -> (bag: ParamsBag<PendulumParams>) {
        let defaults: [u8; 31] = [
            0, 0, 0, 0,
            30, 0, 0, 100,
            100, 0, 0, 0,
            20, 10, 100, 20,
            10, 10, 100, 20,
            1, 10, 0, 10,
            50, 50, 50, 0,
            100, 100, 50,
        ];
        assert(defaults@ =~= spec_pendulum_defaults());
        assert(PendulumParams::count() == 31);
        ParamsBag::from_percent(defaults.as_slice())
    }

    fn init(&mut self, bag: &ParamsBag<PendulumParams>, sample_rate: u64) {
        self.setup_envelopes(bag, sample_rate);
        self.setup_waves(bag);
    }

    fn current_note(&self) -> (note: Option<u8>) {
        self.current_note
    }

    fn note_on(&mut self, note: u8, velocity: u8) {
        self.current_note = Some(note);
        self.velocity = velocity_scale(velocity);
        self.osc1.trigger();
        self.osc2.trigger();
        self.osc3.trigger();
    }

    fn note_off(&mut self, _note: u8, _velocity: u8) {
        self.current_note = None;
        self.osc1.release();
        self.osc2.release();
        self.osc3.release();
    }

    fn init_process(&mut self, params: &ParamsBag<PendulumParams>) -> (active: bool) {
        match self.current_note {
            Some(note) => {
                let freq1: u64 = osc_freq(
                    note,
                    params.get(PendulumParams::Osc1RatioCoarse),
                    params.get(PendulumParams::Osc1RatioFine),
                );
                let freq2: u64 = osc_freq(
                    note,
                    params.get(PendulumParams::Osc2RatioCoarse),
                    params.get(PendulumParams::Osc2RatioFine),
                );
                let freq3: u64 = osc_freq(
                    note,
                    params.get(PendulumParams::Osc3RatioCoarse),
                    params.get(PendulumParams::Osc3RatioFine),
                );
                let detune1: u64 = param_detune(params.get(PendulumParams::Osc1Detune));
                let detune2: u64 = param_detune(params.get(PendulumParams::Osc2Detune));
                let detune3: u64 = param_detune(params.get(PendulumParams::Osc3Detune));
                let phase_offset1: u64 = params.get(PendulumParams::Osc1PhaseOffset);
                let phase_offset2: u64 = params.get(PendulumParams::Osc2PhaseOffset);
                let phase_offset3: u64 = params.get(PendulumParams::Osc3PhaseOffset);
                self.osc2_level = log_control(params.get(PendulumParams::Osc2Level));
                self.osc3_level = log_control(params.get(PendulumParams::Osc3Level));
                self.osc3_am = params.get(PendulumParams::Osc3AM) > HALF;
                self.osc1.setup(freq1, detune1, phase_offset1);
                self.osc2.setup(freq2, detune2, phase_offset2);
                self.osc3.setup(freq3, detune3, phase_offset3);
                true
            },
            _ => !self.is_finished(),
        }
    }

    fn process_sample(&mut self, timestep: u64) -> (frame: Frame)
        ensures
            frame.within(3 * ONE),
    {
        let f1 = self.osc1.process_sample(timestep);
        let f2 = self.osc2.process_sample(timestep);
        let f3 = self.osc3.process_sample(timestep);
        assert(old(self).parts(f1, f2, f3));
        self.mix(f1, f2, f3)
    }

    fn is_finished(&self) -> (finished: bool) {
        self.osc1.is_finished() && self.osc2.is_finished() && self.osc3.is_finished()
    }

    fn prepare_post(params: &ParamsBag<PendulumParams>) -> (param: u64) {
        log_control(params.get(PendulumParams::MasterLevel))
    }

    fn process_post(param: &u64, frame: Frame) -> (out: Frame) {
        frame.scaled(*param as i64)
    }

    fn update_param(&mut self, bag: &ParamsBag<PendulumParams>, param: PendulumParams, rate: u64) {
        match param {
            PendulumParams::Osc1Attack => self.setup_envelopes(bag, rate),
            PendulumParams::Osc1Decay => self.setup_envelopes(bag, rate),
            PendulumParams::Osc1Sustain => self.setup_envelopes(bag, rate),
            PendulumParams::Osc1Release => self.setup_envelopes(bag, rate),
            PendulumParams::Osc2Attack => self.setup_envelopes(bag, rate),
            PendulumParams::Osc2Decay => self.setup_envelopes(bag, rate),
            PendulumParams::Osc2Sustain => self.setup_envelopes(bag, rate),
            PendulumParams::Osc2Release => self.setup_envelopes(bag, rate),
            PendulumParams::Osc3Attack => self.setup_envelopes(bag, rate),
            PendulumParams::Osc3Decay => self.setup_envelopes(bag, rate),
            PendulumParams::Osc3Sustain => self.setup_envelopes(bag, rate),
            PendulumParams::Osc3Release => self.setup_envelopes(bag, rate),
            PendulumParams::Osc1Waveform => self.setup_waves(bag),
            PendulumParams::Osc2Waveform => self.setup_waves(bag),
            PendulumParams::Osc3Waveform => self.setup_waves(bag),
            _ => (),
        };
    }
}

} // verus!
