//! The boundary toward a host: device kinds, their construction, parameter
//! display, the decoding of incoming key events, and one type that holds an
//! engine of either design.

use vstd::prelude::*;
use crate::fermi::{Fermi, FermiParams, FermiVoice};
use crate::fixed::{spec_trunc_div, HALF, ONE};
use crate::helpers::{control_to_db, round, spec_control_to_db, spec_round, spec_unit_to_cents, unit_to_cents};
use crate::indexed::{spec_param_index, IndexedEnum};
use crate::waveform::Dynamic;
use crate::pendulum::{Pendulum, PendulumParams, PendulumVoice};
use crate::poly_synth::{PolySynth, NUM_VOICES};
use crate::voice::Voice;

verus! {

/// The synthesizer designs on offer.
#[derive(Debug, Clone, Copy, PartialEq, Eq, Structural)]
pub enum DeviceType {
    Pendulum,
    Fermi,
}

impl DeviceType {
    /// The name of the design.
    pub open spec fn spec_name(&self) -> Seq<char> {
        match *self {
            DeviceType::Pendulum => "Pendulum"@,
            DeviceType::Fermi => "Fermi"@,
        }
    }

    /// The name of the design.
    pub fn name(&self) -> (s: &'static str)
        ensures
            s@ == self.spec_name(),
    {
        match *self {
            DeviceType::Pendulum => "Pendulum",
            DeviceType::Fermi => "Fermi",
        }
    }
}

/// How a parameter's value is shown to a user.
#[derive(Debug, Clone, Copy, PartialEq, Eq, Structural)]
pub enum ParamText {
    /// The name of the selected waveform.
    Waveform,
    /// The whole number of the coarse frequency ratio.
    RatioSteps,
    /// Rounded cents.
    Cents,
    /// Rounded decibels.
    Decibels,
    /// `true` or `false`.
    Switch,
    /// The value itself, to one decimal.
    Blend,
    /// The value itself, to three decimals.
    Plain,
}

/// What is shown for a parameter's value.
#[derive(Debug, Clone, Copy, PartialEq, Eq, Structural)]
pub enum ParamValue {
    /// The selected waveform.
    Waveform(Dynamic),
    /// The whole number of the coarse frequency ratio.
    RatioSteps(u64),
    /// Whole cents.
    Cents(i64),
    /// Whole decibels; none for a gain of zero, which lies below all of them.
    Decibels(Option<i64>),
    /// On or off.
    Switch(bool),
    /// The value in tenths.
    Tenths(u64),
    /// The value in thousandths.
    Thousandths(u64),
}

/// What is shown for `value` when it is shown as `kind`: the waveform it
/// selects; `floor(value * 32.99)`; a tenth of its cents, rounded; the
/// decibels of its gain, rounded; whether it lies above one half; or the value
/// itself, rounded to tenths or to thousandths.
pub open spec fn spec_display(kind: ParamText, value: u64) -> ParamValue {
    match kind {
        ParamText::Waveform => ParamValue::Waveform(
            Dynamic::member(spec_param_index(value as int, Dynamic::count())),
        ),
        ParamText::RatioSteps => ParamValue::RatioSteps((((value * 3299) / 100) / (ONE as int)) as u64),
        ParamText::Cents => ParamValue::Cents(
            spec_round(spec_trunc_div(spec_unit_to_cents(value as int), 10)) as i64,
        ),
        ParamText::Decibels => ParamValue::Decibels(
            match spec_control_to_db(value as int) {
                Some(db) => Some(spec_round(db) as i64),
                None => None,
            },
        ),
        ParamText::Switch => ParamValue::Switch(value > HALF),
        ParamText::Blend => ParamValue::Tenths(((value * 10 + HALF) / (ONE as int)) as u64),
        ParamText::Plain => ParamValue::Thousandths(((value * 1000 + HALF) / (ONE as int)) as u64),
    }
}

/// What is shown for `value` when it is shown as `kind`.
pub fn display(kind: ParamText, value: u64) -> (shown: ParamValue)
    ensures
        shown == spec_display(kind, value),
{
    match kind {
        ParamText::Waveform => ParamValue::Waveform(Dynamic::from_param(value)),
        ParamText::RatioSteps => {
            assert(0 <= value * 3299 <= 0xffff_ffff_ffff_ffff * 3299) by (nonlinear_arith)
                requires
                    value <= 0xffff_ffff_ffff_ffff,
            ;
            let steps: u128 = (value as u128) * 3299 / 100 / (ONE as u128);
            ParamValue::RatioSteps(steps as u64)
        },
        ParamText::Cents => ParamValue::Cents(round(unit_to_cents(value) / 10)),
        ParamText::Decibels => ParamValue::Decibels(
            match control_to_db(value) {
                Some(db) => Some(round(db)),
                None => None,
            },
        ),
        ParamText::Switch => ParamValue::Switch(value > HALF),
        ParamText::Blend => {
            assert(0 <= value * 10 <= 0xffff_ffff_ffff_ffff * 10) by (nonlinear_arith)
                requires
                    value <= 0xffff_ffff_ffff_ffff,
            ;
            let tenths: u128 = ((value as u128) * 10 + (HALF as u128)) / (ONE as u128);
            ParamValue::Tenths(tenths as u64)
        },
        ParamText::Plain => {
            assert(0 <= value * 1000 <= 0xffff_ffff_ffff_ffff * 1000) by (nonlinear_arith)
                requires
                    value <= 0xffff_ffff_ffff_ffff,
            ;
            let thousandths: u128 = ((value as u128) * 1000 + (HALF as u128)) / (ONE as u128);
            ParamValue::Thousandths(thousandths as u64)
        },
    }
}

/// An engine of one of the designs.
pub enum Device {
    Pendulum(Pendulum),
    Fermi(Fermi),
}

/// What a device tells a host about its parameters.
pub trait DevicePlugin {
    /// What the methods expect of the device.
    spec fn plugin_valid(&self) -> bool;

    /// The number of parameters of the device.
    spec fn parameter_count(&self) -> nat;

    /// The name of the parameter at `index`.
    spec fn parameter_name(&self, index: int) -> Seq<char>;

    /// The unit of the parameter at `index`.
    spec fn parameter_label(&self, index: int) -> Seq<char>;

    /// The name of the parameter at `index`.
    fn get_parameter_name(&self, index: i32) -> (name: String)
        requires
            0 <= index < self.parameter_count(),
        ensures
            name@ == self.parameter_name(index as int),
    ;

    /// The unit shown beside the value of the parameter at `index`.
    fn get_parameter_label(&self, index: i32) -> (label: String)
        requires
            0 <= index < self.parameter_count(),
        ensures
            label@ == self.parameter_label(index as int),
    ;

    /// What is shown for the value of the parameter at `index`.
    spec fn parameter_text(&self, index: int) -> ParamValue;

    /// What is shown for the value of the parameter at `index`.
    fn get_parameter_text(&self, index: i32) -> (shown: ParamValue)
        requires
            self.plugin_valid(),
            0 <= index < self.parameter_count(),
        ensures
            shown == self.parameter_text(index as int),
    ;
}

impl DevicePlugin for Pendulum {
    open spec fn plugin_valid(&self) -> bool {
        self.wf()
    }

    open spec fn parameter_count(&self) -> nat {
        PendulumParams::count()
    }

    open spec fn parameter_name(&self, index: int) -> Seq<char> {
        PendulumParams::member(index as nat).spec_name()
    }

    open spec fn parameter_label(&self, index: int) -> Seq<char> {
        PendulumParams::member(index as nat).spec_label()
    }

    fn get_parameter_name(&self, index: i32) -> (name: String) {
        PendulumParams::from_index(index as u32).name().to_owned()
    }

    fn get_parameter_label(&self, index: i32) -> (label: String) {
        PendulumParams::from_index(index as u32).label().to_owned()
    }

    open spec fn parameter_text(&self, index: int) -> ParamValue {
        spec_display(PendulumParams::member(index as nat).spec_text_kind(), self.params.params@[index])
    }

    fn get_parameter_text(&self, index: i32) -> (shown: ParamValue) {
        let value: u64 = self.get_parameter(index);
        display(PendulumParams::from_index(index as u32).text_kind(), value)
    }
}

impl DevicePlugin for Fermi {
    open spec fn plugin_valid(&self) -> bool {
        self.wf()
    }

    open spec fn parameter_count(&self) -> nat {
        FermiParams::count()
    }

    open spec fn parameter_name(&self, index: int) -> Seq<char> {
        FermiParams::member(index as nat).spec_name()
    }

    open spec fn parameter_label(&self, index: int) -> Seq<char> {
        FermiParams::member(index as nat).spec_label()
    }

    fn get_parameter_name(&self, index: i32) -> (name: String) {
        FermiParams::from_index(index as u32).name().to_owned()
    }

    fn get_parameter_label(&self, index: i32) -> (label: String) {
        FermiParams::from_index(index as u32).label().to_owned()
    }

    open spec fn parameter_text(&self, index: int) -> ParamValue {
        spec_display(FermiParams::member(index as nat).spec_text_kind(), self.params.params@[index])
    }

    fn get_parameter_text(&self, index: i32) -> (shown: ParamValue) {
        let value: u64 = self.get_parameter(index);
        display(FermiParams::from_index(index as u32).text_kind(), value)
    }
}

/// A key event of a host.
#[derive(Debug, Clone, Copy, PartialEq, Eq, Structural)]
pub enum MidiEvent {
    NoteOff { note: u8, velocity: u8 },
    NoteOn { note: u8, velocity: u8 },
}

/// The key event that three bytes of a host encode: status 128 is a note-off
/// and status 144 a note-on, each followed by note and velocity; every other
/// status is none.
pub open spec fn spec_decode_midi(data: [u8; 3]) -> Option<MidiEvent> {
    if data[0] == 128 {
        Some(MidiEvent::NoteOff { note: data[1], velocity: data[2] })
    } else if data[0] == 144 {
        Some(MidiEvent::NoteOn { note: data[1], velocity: data[2] })
    } else {
        None
    }
}

/// Decodes three bytes of a host into a key event.
pub fn decode_midi(data: [u8; 3]) -> (event: Option<MidiEvent>)
    ensures
        event == spec_decode_midi(data),
{
    match data[0] {
        128 => Some(MidiEvent::NoteOff { note: data[1], velocity: data[2] }),
        144 => Some(MidiEvent::NoteOn { note: data[1], velocity: data[2] }),
        _ => None,
    }
}

/// A new engine of the given design: eight silent voices, the design's
/// default parameter values, the cursor at the first voice.
pub fn create_device(device_type: DeviceType) -> (device: Device)
    ensures
        device.wf(),
        device.device_type() == device_type,
        device.is_fresh(),
        device.all_at_rest(),
        device.voice_cycle() == 0,
        forall|i: int| 0 <= i < NUM_VOICES ==> device.notes()[i].is_none(),
{
    match device_type {
        DeviceType::Pendulum => {
            let synth: PolySynth<PendulumVoice> = PolySynth::new();
            assert(synth.notes().len() == NUM_VOICES);
            Device::Pendulum(synth)
        },
        DeviceType::Fermi => {
            let synth: PolySynth<FermiVoice> = PolySynth::new();
            assert(synth.notes().len() == NUM_VOICES);
            Device::Fermi(synth)
        },
    }
}

impl Device {
    /// The engine inside is well formed.
    pub open spec fn wf(&self) -> bool {
        match *self {
            Device::Pendulum(synth) => synth.wf(),
            Device::Fermi(synth) => synth.wf(),
        }
    }

    /// Whether the engine inside is as `PolySynth::new` makes it.
    pub open spec fn is_fresh(&self) -> bool {
        match *self {
            Device::Pendulum(synth) => synth.is_fresh(),
            Device::Fermi(synth) => synth.is_fresh(),
        }
    }

    /// The design of the device.
    pub open spec fn device_type(&self) -> DeviceType {
        match *self {
            Device::Pendulum(_) => DeviceType::Pendulum,
            Device::Fermi(_) => DeviceType::Fermi,
        }
    }

    /// The note each voice is held by.
    pub open spec fn notes(&self) -> Seq<Option<u8>> {
        match *self {
            Device::Pendulum(synth) => synth.notes(),
            Device::Fermi(synth) => synth.notes(),
        }
    }

    /// Whether every voice is at rest.
    pub open spec fn all_at_rest(&self) -> bool {
        match *self {
            Device::Pendulum(synth) => synth.all_at_rest(),
            Device::Fermi(synth) => synth.all_at_rest(),
        }
    }

    /// The rotation cursor.
    pub open spec fn voice_cycle(&self) -> int {
        match *self {
            Device::Pendulum(synth) => synth.voice_cycle as int,
            Device::Fermi(synth) => synth.voice_cycle as int,
        }
    }

    /// The device after a key event: a note-on or note-off of the engine.
    pub open spec fn spec_handle(self, after: Device, event: MidiEvent, voice: Option<usize>) -> bool {
        match (self, after) {
            (Device::Pendulum(old_synth), Device::Pendulum(new_synth)) => spec_handled(
                old_synth,
                new_synth,
                event,
                voice,
            ),
            (Device::Fermi(old_synth), Device::Fermi(new_synth)) => spec_handled(
                old_synth,
                new_synth,
                event,
                voice,
            ),
            _ => false,
        }
    }

    /// Renders one block into the two channels.
    pub fn run(&mut self, left: &mut Vec<i64>, right: &mut Vec<i64>)
        requires
            old(self).wf(),
        ensures
            final(self).wf(),
            match (*old(self), *final(self)) {
                (Device::Pendulum(before), Device::Pendulum(after)) => before.spec_ran(
                    after,
                    old(left)@,
                    old(right)@,
                    final(left)@,
                    final(right)@,
                ),
                (Device::Fermi(before), Device::Fermi(after)) => before.spec_ran(
                    after,
                    old(left)@,
                    old(right)@,
                    final(left)@,
                    final(right)@,
                ),
                _ => false,
            },
    {
        match self {
            Device::Pendulum(synth) => synth.run(left, right),
            Device::Fermi(synth) => synth.run(left, right),
        }
    }

    /// Takes a new sample rate.
    pub fn set_sample_rate(&mut self, sample_rate: u64)
        requires
            old(self).wf(),
        ensures
            final(self).wf(),
            match (*old(self), *final(self)) {
                (Device::Pendulum(before), Device::Pendulum(after)) => before.spec_rate_set(
                    after,
                    sample_rate,
                ),
                (Device::Fermi(before), Device::Fermi(after)) => before.spec_rate_set(
                    after,
                    sample_rate,
                ),
                _ => false,
            },
    {
        match self {
            Device::Pendulum(synth) => synth.set_sample_rate(sample_rate),
            Device::Fermi(synth) => synth.set_sample_rate(sample_rate),
        }
    }

    /// The number of parameters of the design.
    pub open spec fn parameter_count(&self) -> nat {
        match *self {
            Device::Pendulum(_) => PendulumParams::count(),
            Device::Fermi(_) => FermiParams::count(),
        }
    }

    /// The parameter values in index order.
    pub open spec fn parameters(&self) -> Seq<u64> {
        match *self {
            Device::Pendulum(synth) => synth.params.params@,
            Device::Fermi(synth) => synth.params.params@,
        }
    }

    /// The number of parameters of the design.
    pub fn get_num_parameters(&self) -> (n: i32)
        ensures
            n == self.parameter_count(),
    {
        match self {
            Device::Pendulum(synth) => synth.get_num_parameters(),
            Device::Fermi(synth) => synth.get_num_parameters(),
        }
    }

    /// The value of the parameter at position `index`.
    pub fn get_parameter(&self, index: i32) -> (value: u64)
        requires
            self.wf(),
            0 <= index < self.parameter_count(),
        ensures
            value == self.parameters()[index as int],
    {
        match self {
            Device::Pendulum(synth) => synth.get_parameter(index),
            Device::Fermi(synth) => synth.get_parameter(index),
        }
    }

    /// Stores `value` for the parameter at position `index` and tells every
    /// voice of the change.
    pub fn set_parameter(&mut self, index: i32, value: u64)
        requires
            old(self).wf(),
            0 <= index < old(self).parameter_count(),
        ensures
            final(self).wf(),
            match (*old(self), *final(self)) {
                (Device::Pendulum(before), Device::Pendulum(after)) => before.spec_parameter_set(
                    after,
                    index,
                    value,
                ),
                (Device::Fermi(before), Device::Fermi(after)) => before.spec_parameter_set(
                    after,
                    index,
                    value,
                ),
                _ => false,
            },
    {
        match self {
            Device::Pendulum(synth) => synth.set_parameter(index, value),
            Device::Fermi(synth) => synth.set_parameter(index, value),
        }
    }

    /// Hands three bytes of a host to the engine: a note-on or a note-off is
    /// carried out, anything else is ignored. The result is the voice that
    /// took or let go of the note.
    pub fn process_midi_event(&mut self, data: [u8; 3]) -> (voice: Option<usize>)
        requires
            old(self).wf(),
        ensures
            final(self).wf(),
            final(self).device_type() == old(self).device_type(),
            match spec_decode_midi(data) {
                Some(event) => old(self).spec_handle(*final(self), event, voice),
                None => *final(self) == *old(self) && voice.is_none(),
            },
    {
        match decode_midi(data) {
            Some(MidiEvent::NoteOff { note, velocity }) => match self {
                Device::Pendulum(synth) => synth.note_off(note, velocity),
                Device::Fermi(synth) => synth.note_off(note, velocity),
            },
            Some(MidiEvent::NoteOn { note, velocity }) => match self {
                Device::Pendulum(synth) => synth.note_on(note, velocity),
                Device::Fermi(synth) => synth.note_on(note, velocity),
            },
            None => None,
        }
    }
}

/// Whether `after` is `before` with `event` carried out, `voice` being the
/// voice that took or let go of the note.
pub open spec fn spec_handled<V: Voice>(
    before: PolySynth<V>,
    after: PolySynth<V>,
    event: MidiEvent,
    voice: Option<usize>,
) -> bool {
    match event {
        MidiEvent::NoteOn { note, velocity } => before.spec_note_on(after, note, velocity, voice),
        MidiEvent::NoteOff { note, velocity } => before.spec_note_off(after, note, voice),
    }
}

/// What a plug-in built on a device says of itself.
pub trait SynthPluginData {
    /// The design the plug-in is built on.
    spec fn design() -> DeviceType;

    /// The design the plug-in is built on.
    fn get_device_type() -> (device_type: DeviceType)
        ensures
            device_type == Self::design(),
    ;

    /// The name of the plug-in: that of its design.
    fn get_name() -> (name: String)
        ensures
            name@ == Self::design().spec_name(),
    {
        Self::get_device_type().name().to_owned()
    }
}

/// The plug-in of the three-oscillator design.
pub struct PendulumPluginData;

/// The plug-in of the feedback design.
pub struct FermiPluginData;

impl SynthPluginData for PendulumPluginData {
    open spec fn design() -> DeviceType {
        DeviceType::Pendulum
    }

    fn get_device_type() -> (device_type: DeviceType) {
        DeviceType::Pendulum
    }
}

impl SynthPluginData for FermiPluginData {
    open spec fn design() -> DeviceType {
        DeviceType::Fermi
    }

    fn get_device_type() -> (device_type: DeviceType) {
        DeviceType::Fermi
    }
}

} // verus!
