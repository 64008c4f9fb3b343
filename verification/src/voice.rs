//! What the engine asks of one unit of polyphony.

use vstd::prelude::*;
use crate::frame::Frame;
use crate::fixed::MUL_LIMIT;
use crate::indexed::IndexedEnum;
use crate::params_bag::ParamsBag;

verus! {

/// The magnitude that no channel of a frame handed out by a voice exceeds:
/// 16.0 in fixed point.
pub const VOICE_LIMIT: i64 = 17179869184;

/// One unit of polyphony: the oscillators and envelopes needed to play one
/// note. The engine allocates voices to notes, advances them sample by sample
/// and mixes what they hand out.
pub trait Voice: Sized {
    /// The identifiers of the parameters that shape the voice.
    type ParamsEnum: IndexedEnum;

    /// What the post-processing of a block needs, derived once per block.
    type PostParam;

    /// What the methods expect of a voice and keep.
    spec fn valid(&self) -> bool;

    /// The note the voice is held by, if any.
    spec fn note(&self) -> Option<u8>;

    /// Whether all envelopes of the voice have come to rest.
    spec fn at_rest(&self) -> bool;

    /// The voice as it is made: silent and held by no note.
    spec fn fresh() -> Self;

    /// The parameter values a new engine starts with, in index order.
    spec fn defaults() -> Seq<u64>;

    /// The voice with everything derived again from the parameters.
    spec fn after_init(&self, bag: &ParamsBag<Self::ParamsEnum>, sample_rate: u64) -> Self;

    /// The voice after a note-on.
    spec fn after_note_on(&self, note: u8, velocity: u8) -> Self;

    /// The voice after a note-off.
    spec fn after_note_off(&self) -> Self;

    /// The voice after the per-block preparation.
    spec fn after_init_process(&self, bag: &ParamsBag<Self::ParamsEnum>) -> Self;

    /// The voice one sample later.
    spec fn after_sample(&self, timestep: u64) -> Self;

    /// Whether the voice can hand out `frame` for the current sample. A voice
    /// without noise admits exactly one frame.
    spec fn may_yield(&self, frame: Frame) -> bool;

    /// The voice after it has been told of a changed parameter.
    spec fn after_update(
        &self,
        bag: &ParamsBag<Self::ParamsEnum>,
        param: Self::ParamsEnum,
        sample_rate: u64,
    ) -> Self;

    /// What the post-processing derives from the parameters.
    spec fn post_param(bag: &ParamsBag<Self::ParamsEnum>) -> Self::PostParam;

    /// Whether `param` is something `prepare_post` can have derived.
    spec fn post_valid(param: &Self::PostParam) -> bool;

    /// The mixed frame after post-processing.
    spec fn post(param: &Self::PostParam, frame: Frame) -> Frame;

    /// A silent voice held by no note.
    fn new() -> (v: Self)
        ensures
            v == Self::fresh(),
            v.valid(),
            v.note().is_none(),
            v.at_rest(),
    ;

    /// The parameter values a new engine starts with.
    fn default_bag() -> (bag: ParamsBag<Self::ParamsEnum>)
        ensures
            bag.params@ == Self::defaults(),
            bag.wf(),
    ;

    /// Derives everything again that depends on the parameters and the sample
    /// rate, as after a change of the sample rate.
    fn init(&mut self, bag: &ParamsBag<Self::ParamsEnum>, sample_rate: u64)
        requires
            old(self).valid(),
            bag.wf(),
        ensures
            *final(self) == old(self).after_init(bag, sample_rate),
            final(self).valid(),
            final(self).note() == old(self).note(),
            final(self).at_rest() == old(self).at_rest(),
    ;

    /// The note the voice is held by, if any.
    fn current_note(&self) -> (note: Option<u8>)
        ensures
            note == self.note(),
    ;

    /// Starts `note`: the voice is held by it and its envelopes are triggered.
    fn note_on(&mut self, note: u8, velocity: u8)
        requires
            old(self).valid(),
        ensures
            *final(self) == old(self).after_note_on(note, velocity),
            final(self).valid(),
            final(self).note() == Some(note),
            !final(self).at_rest(),
    ;

    /// Lets go of the note: the voice is held by none and its envelopes are
    /// released, so that it keeps sounding until they come to rest.
    fn note_off(&mut self, note: u8, velocity: u8)
        requires
            old(self).valid(),
        ensures
            *final(self) == old(self).after_note_off(),
            final(self).valid(),
            final(self).note().is_none(),
    ;

    /// Prepares the voice for one block and says whether it takes part in it.
    /// A voice held by a note derives what changes only from block to block
    /// and takes part; another one takes part while it is not at rest.
    fn init_process(&mut self, bag: &ParamsBag<Self::ParamsEnum>) -> (active: bool)
        requires
            old(self).valid(),
            bag.wf(),
        ensures
            *final(self) == old(self).after_init_process(bag),
            final(self).valid(),
            final(self).note() == old(self).note(),
            final(self).at_rest() == old(self).at_rest(),
            active == (old(self).note().is_some() || !old(self).at_rest()),
    ;

    /// Hands out the frame of the current sample and advances all oscillators
    /// and envelopes by one sample.
    fn process_sample(&mut self, timestep: u64) -> (frame: Frame)
        requires
            old(self).valid(),
        ensures
            *final(self) == old(self).after_sample(timestep),
            old(self).may_yield(frame),
            frame.within(VOICE_LIMIT as int),
            final(self).valid(),
            final(self).note() == old(self).note(),
    ;

    /// Whether all envelopes of the voice have come to rest.
    fn is_finished(&self) -> (finished: bool)
        ensures
            finished == self.at_rest(),
    ;

    /// Derives once per block what the post-processing needs.
    fn prepare_post(bag: &ParamsBag<Self::ParamsEnum>) -> (param: Self::PostParam)
        requires
            bag.wf(),
        ensures
            param == Self::post_param(bag),
            Self::post_valid(&param),
    ;

    /// Post-processes the mixed frame of one sample.
    fn process_post(param: &Self::PostParam, frame: Frame) -> (out: Frame)
        requires
            Self::post_valid(param),
            frame.within(MUL_LIMIT as int),
        ensures
            out == Self::post(param, frame),
    ;

    /// Tells the voice that `param` has a new value in `bag`: the voice
    /// derives again what depends on it.
    fn update_param(
        &mut self,
        bag: &ParamsBag<Self::ParamsEnum>,
        param: Self::ParamsEnum,
        sample_rate: u64,
    )
        requires
            old(self).valid(),
            bag.wf(),
        ensures
            *final(self) == old(self).after_update(bag, param, sample_rate),
            final(self).valid(),
            final(self).note() == old(self).note(),
            final(self).at_rest() == old(self).at_rest(),
    ;
}

/// The voice after it has been told of the first `upto` parameters, one after
/// the other in index order.
pub open spec fn spec_update_all<V: Voice>(
    voice: V,
    bag: &ParamsBag<V::ParamsEnum>,
    sample_rate: u64,
    upto: nat,
) -> V
    decreases upto,
{
    if upto == 0 {
        voice
    } else {
        spec_update_all(voice, bag, sample_rate, (upto - 1) as nat).after_update(
            bag,
            V::ParamsEnum::member((upto - 1) as nat),
            sample_rate,
        )
    }
}

/// Derives all state of a voice again by telling it of every parameter once,
/// in index order: what a voice does on `init` unless it knows a shorter way.
pub fn init_by_update<V: Voice>(voice: &mut V, bag: &ParamsBag<V::ParamsEnum>, sample_rate: u64)
    requires
        old(voice).valid(),
        bag.wf(),
    ensures
        *final(voice) == spec_update_all(*old(voice), bag, sample_rate, V::ParamsEnum::count()),
        final(voice).valid(),
        final(voice).note() == old(voice).note(),
        final(voice).at_rest() == old(voice).at_rest(),
{
    let n: u32 = V::ParamsEnum::num_items();
    let mut x: u32 = 0;
    while x < n
        invariant
            x <= n,
            n == V::ParamsEnum::count(),
            bag.wf(),
            voice.valid(),
            voice.note() == old(voice).note(),
            voice.at_rest() == old(voice).at_rest(),
            *voice == spec_update_all(*old(voice), bag, sample_rate, x as nat),
        decreases n - x,
    {
        let param = V::ParamsEnum::from_index(x);
        voice.update_param(bag, param, sample_rate);
        x += 1;
    }
}

} // verus!
