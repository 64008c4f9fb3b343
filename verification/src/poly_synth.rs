//! The engine: a fixed pool of voices, a rotation cursor and the shared
//! parameter store.

use vstd::prelude::*;
use crate::active::{active_get, active_items, active_len, active_new, active_push, ActiveVoices};
use crate::fixed::ONE;
use crate::frame::{spec_sum, Frame};
use crate::helpers::{spec_time_per_sample, time_per_sample};
use crate::indexed::IndexedEnum;
use crate::params_bag::ParamsBag;
use crate::voice::{Voice, VOICE_LIMIT};

verus! {

/// The number of voices in the pool: at most this many notes sound at once.
pub const NUM_VOICES: usize = 8;

/// The first position from `from` on at which `notes` holds `held`, or the
/// length of `notes` if there is none.
pub open spec fn spec_first_held(notes: Seq<Option<u8>>, held: Option<u8>, from: int) -> int
    decreases notes.len() - from,
{
    if from >= notes.len() {
        notes.len() as int
    } else if notes[from] == held {
        from
    } else {
        spec_first_held(notes, held, from + 1)
    }
}

/// The voice that takes the next note: the one under the cursor if it is
/// free, else the first free one, else none (the length of `notes`).
pub open spec fn spec_slot(notes: Seq<Option<u8>>, cycle: int) -> int {
    if notes[cycle].is_none() {
        cycle
    } else {
        spec_first_held(notes, None, 0)
    }
}

/// The positions below `upto` at which `flags` holds `true`, in rising order.
pub open spec fn spec_flagged(flags: Seq<bool>, upto: int) -> Seq<usize>
    decreases upto,
{
    if upto <= 0 {
        Seq::<usize>::empty()
    } else if flags[upto - 1] {
        spec_flagged(flags, upto - 1).push((upto - 1) as usize)
    } else {
        spec_flagged(flags, upto - 1)
    }
}

/// The result of `spec_first_held` is the first position that holds `held`.
pub proof fn lemma_first_held(notes: Seq<Option<u8>>, held: Option<u8>, from: int)
    requires
        0 <= from <= notes.len(),
    ensures
        from <= spec_first_held(notes, held, from) <= notes.len(),
        spec_first_held(notes, held, from) < notes.len() ==> notes[spec_first_held(
            notes,
            held,
            from,
        )] == held,
        forall|i: int| from <= i < spec_first_held(notes, held, from) ==> notes[i] != held,
    decreases notes.len() - from,
{
    if from < notes.len() && notes[from] != held {
        lemma_first_held(notes, held, from + 1);
    }
}

/// The number of frames of a block: the length of the shorter channel.
pub open spec fn spec_frames(left: nat, right: nat) -> nat {
    if left <= right {
        left
    } else {
        right
    }
}

/// Whether `i` is among the first `upto` of `items`.
pub open spec fn spec_listed(items: Seq<usize>, upto: int, i: int) -> bool
    decreases upto,
{
    if upto <= 0 {
        false
    } else {
        items[upto - 1] == i || spec_listed(items, upto - 1, i)
    }
}

/// The items name voices of the pool in strictly rising order, so that none
/// is named twice.
pub open spec fn spec_rising(items: Seq<usize>) -> bool {
    &&& items.len() <= NUM_VOICES
    &&& forall|a: int, b: int| 0 <= a < b < items.len() ==> items[a] < items[b]
    &&& forall|a: int| 0 <= a < items.len() ==> items[a] < NUM_VOICES
}

/// Whether `frames` can be what the voices named by `items` hand out for the
/// current sample, one frame per item.
pub open spec fn spec_parts<V: Voice>(voices: Seq<V>, items: Seq<usize>, frames: Seq<Frame>) -> bool {
    &&& frames.len() == items.len()
    &&& forall|k: int|
        0 <= k < items.len() ==> voices[items[k] as int].may_yield(#[trigger] frames[k])
            && frames[k].within(VOICE_LIMIT as int)
}

/// Whether `frame` can be the mix of the current sample: the sum of one
/// frame from each voice named by `items`.
pub open spec fn spec_mixed<V: Voice>(voices: Seq<V>, items: Seq<usize>, frame: Frame) -> bool {
    exists|frames: Seq<Frame>| #[trigger]
        spec_parts(voices, items, frames) && frame.l == spec_sum(frames).0 && frame.r == spec_sum(
            frames,
        ).1
}

/// The voice `n` samples later.
pub open spec fn spec_after_samples<V: Voice>(voice: V, timestep: u64, n: nat) -> V
    decreases n,
{
    if n == 0 {
        voice
    } else {
        spec_after_samples(voice, timestep, (n - 1) as nat).after_sample(timestep)
    }
}

/// The pool `n` samples into a block: the voices named by `items` have
/// advanced by `n` samples, the others are as they were prepared.
pub open spec fn spec_pool_at<V: Voice>(prepared: Seq<V>, items: Seq<usize>, timestep: u64, n: nat) -> Seq<V> {
    Seq::new(
        prepared.len(),
        |i: int|
            if spec_listed(items, items.len() as int, i) {
                spec_after_samples(prepared[i], timestep, n)
            } else {
                prepared[i]
            },
    )
}

/// Whether `out` can be the output of a sample at which the pool is `pool`:
/// a mix of the voices named by `items`, post-processed.
pub open spec fn spec_rendered<V: Voice>(pool: Seq<V>, items: Seq<usize>, post: V::PostParam, out: Frame) -> bool {
    exists|raw: Frame| #[trigger]
        spec_mixed(pool, items, raw) && raw.within(8 * VOICE_LIMIT) && out == V::post(&post, raw)
}

/// An item that differs from all of the first `upto` items is not among them.
pub proof fn lemma_not_listed(items: Seq<usize>, upto: int, i: int)
    requires
        0 <= upto <= items.len(),
        forall|j: int| 0 <= j < upto ==> items[j] != i,
    ensures
        !spec_listed(items, upto, i),
    decreases upto,
{
    if upto > 0 {
        lemma_not_listed(items, upto - 1, i);
    }
}

/// The flagged positions come in strictly rising order, lie below `upto`, and
/// are exactly the positions that hold `true`.
pub proof fn lemma_flagged(flags: Seq<bool>, upto: int)
    requires
        0 <= upto <= flags.len(),
        upto <= NUM_VOICES,
    ensures
        spec_flagged(flags, upto).len() <= upto,
        forall|a: int, b: int|
            0 <= a < b < spec_flagged(flags, upto).len() ==> spec_flagged(flags, upto)[a]
                < spec_flagged(flags, upto)[b],
        forall|a: int|
            0 <= a < spec_flagged(flags, upto).len() ==> spec_flagged(flags, upto)[a] < upto,
        forall|i: int|
            0 <= i < upto ==> spec_listed(
                spec_flagged(flags, upto),
                spec_flagged(flags, upto).len() as int,
                i,
            ) == flags[i],
        forall|i: int|
            upto <= i ==> !spec_listed(
                spec_flagged(flags, upto),
                spec_flagged(flags, upto).len() as int,
                i,
            ),
    decreases upto,
{
    if upto > 0 {
        lemma_flagged(flags, upto - 1);
        let before = spec_flagged(flags, upto - 1);
        let all = spec_flagged(flags, upto);
        if flags[upto - 1] {
            assert(all == before.push((upto - 1) as usize));
            assert forall|i: int| spec_listed(all, before.len() as int, i) == spec_listed(
                before,
                before.len() as int,
                i,
            ) by {
                lemma_listed_prefix(all, before, before.len() as int, i);
            }
            assert forall|i: int| 0 <= i < upto implies spec_listed(all, all.len() as int, i)
                == flags[i] by {
                assert(all[all.len() - 1] == upto - 1);
            }
            assert forall|i: int| upto <= i implies !spec_listed(all, all.len() as int, i) by {
                assert(all[all.len() - 1] == upto - 1);
                lemma_listed_prefix(all, before, before.len() as int, i);
                assert(!spec_listed(before, before.len() as int, i));
            }
        }
    }
}

/// Whether an item is among the first `upto` depends on those items alone.
pub proof fn lemma_listed_prefix(a: Seq<usize>, b: Seq<usize>, upto: int, i: int)
    requires
        0 <= upto <= a.len(),
        upto <= b.len(),
        forall|j: int| 0 <= j < upto ==> a[j] == b[j],
    ensures
        spec_listed(a, upto, i) == spec_listed(b, upto, i),
    decreases upto,
{
    if upto > 0 {
        lemma_listed_prefix(a, b, upto - 1, i);
    }
}

/// While every voice is held by a note, a further note-on is dropped: it is
/// taken by no voice, and neither a voice nor the cursor changes.
pub proof fn lemma_full_pool_drops<V: Voice>(
    before: PolySynth<V>,
    after: PolySynth<V>,
    note: u8,
    velocity: u8,
    taken: Option<usize>,
)
    requires
        before.wf(),
        forall|i: int| 0 <= i < NUM_VOICES ==> (#[trigger] before.voices@[i]).note().is_some(),
        before.spec_note_on(after, note, velocity, taken),
    ensures
        taken.is_none(),
        after.voices@ == before.voices@,
        after.voice_cycle == before.voice_cycle,
        after.params == before.params,
{
    let notes = before.notes();
    lemma_first_held(notes, None, 0);
    let slot = spec_first_held(notes, None, 0);
    if slot < NUM_VOICES {
        assert(before.voices@[slot].note().is_some());
    }
    assert(before.voices@[before.voice_cycle as int].note().is_some());
}

/// While the voice under the cursor is free, it is the one that takes the
/// next note, and the cursor moves on by one, from the last voice back to the
/// first. No other voice changes.
pub proof fn lemma_cursor_takes<V: Voice>(
    before: PolySynth<V>,
    after: PolySynth<V>,
    note: u8,
    velocity: u8,
    taken: Option<usize>,
)
    requires
        before.wf(),
        before.voices@[before.voice_cycle as int].note().is_none(),
        before.spec_note_on(after, note, velocity, taken),
    ensures
        taken == Some(before.voice_cycle as usize),
        after.voices@[before.voice_cycle as int].note() == Some(note),
        after.voice_cycle == (before.voice_cycle + 1) % 8,
        before.voice_cycle == 7 ==> after.voice_cycle == 0,
        forall|i: int|
            0 <= i < NUM_VOICES && i != before.voice_cycle ==> after.voices@[i] == before.voices@[i],
{
}

/// A note-off for a note that no voice is held by changes nothing.
pub proof fn lemma_unheld_note_off<V: Voice>(
    before: PolySynth<V>,
    after: PolySynth<V>,
    note: u8,
    released: Option<usize>,
)
    requires
        before.wf(),
        forall|i: int| 0 <= i < NUM_VOICES ==> (#[trigger] before.voices@[i]).note() != Some(note),
        before.spec_note_off(after, note, released),
    ensures
        released.is_none(),
        after == before,
{
    let notes = before.notes();
    lemma_first_held(notes, Some(note), 0);
    let slot = spec_first_held(notes, Some(note), 0);
    if slot < NUM_VOICES {
        assert(before.voices@[slot].note() != Some(note));
    }
}

/// A note-on leaves every voice untouched that is held by a note: it neither
/// steals a voice nor restarts one.
pub proof fn lemma_note_on_keeps_held<V: Voice>(
    before: PolySynth<V>,
    after: PolySynth<V>,
    note: u8,
    velocity: u8,
    taken: Option<usize>,
    i: int,
)
    requires
        before.wf(),
        before.spec_note_on(after, note, velocity, taken),
        0 <= i < NUM_VOICES,
        before.voices@[i].note().is_some(),
    ensures
        after.voices@[i] == before.voices@[i],
{
    let notes = before.notes();
    lemma_first_held(notes, None, 0);
}

/// A polyphonic engine over voices of kind `V`.
pub struct PolySynth<V: Voice> {
    pub sample_rate: u64,
    pub voices: Vec<V>,
    pub params: ParamsBag<V::ParamsEnum>,
    pub voice_cycle: u8,
}

impl<V: Voice> Default for PolySynth<V> {
    /// An engine with eight silent voices, the default parameter values of the
    /// voice design, a sample rate of 1 Hz and the cursor at the first voice.
    fn default() -> (synth: Self)
        ensures
            synth.is_fresh(),
            synth.wf(),
            synth.all_at_rest(),
    {
        PolySynth::new()
    }
}

impl<V: Voice> PolySynth<V> {
    /// The pool has its eight valid voices, the store one value per
    /// parameter, and the cursor points at a voice.
    pub open spec fn wf(&self) -> bool {
        &&& self.voices@.len() == NUM_VOICES
        &&& forall|i: int| 0 <= i < NUM_VOICES ==> (#[trigger] self.voices@[i]).valid()
        &&& self.params.wf()
        &&& self.voice_cycle < NUM_VOICES
    }

    /// The note each voice is held by.
    pub open spec fn notes(&self) -> Seq<Option<u8>> {
        Seq::new(self.voices@.len(), |i: int| self.voices@[i].note())
    }

    /// For each voice, whether it takes part in the next block.
    pub open spec fn sounding(&self) -> Seq<bool> {
        Seq::new(
            self.voices@.len(),
            |i: int| self.voices@[i].note().is_some() || !self.voices@[i].at_rest(),
        )
    }

    /// Whether every voice of the pool is at rest.
    pub open spec fn all_at_rest(&self) -> bool {
        forall|i: int| 0 <= i < self.voices@.len() ==> (#[trigger] self.voices@[i]).at_rest()
    }

    /// Whether `after` is `self` after a note-on that reported `taken`: the
    /// voice under the cursor takes the note if it is free, and the cursor
    /// moves on by one; else the first free voice takes it and the cursor
    /// stays; with no free voice nothing changes.
    pub open spec fn spec_note_on(self, after: Self, note: u8, velocity: u8, taken: Option<usize>) -> bool {
        let cycle = self.voice_cycle as int;
        let slot = spec_slot(self.notes(), cycle);
        &&& after.params == self.params
        &&& after.sample_rate == self.sample_rate
        &&& 0 <= slot <= NUM_VOICES
        &&& slot < NUM_VOICES ==> {
            &&& taken == Some(slot as usize)
            &&& self.voices@[slot].note().is_none()
            &&& after.voices@ == self.voices@.update(
                slot,
                self.voices@[slot].after_note_on(note, velocity),
            )
            &&& after.voices@[slot].note() == Some(note)
        }
        &&& slot == NUM_VOICES ==> taken.is_none() && after.voices@ == self.voices@
        &&& after.voice_cycle == if slot == cycle {
            (cycle + 1) % 8
        } else {
            cycle
        }
    }

    /// Whether `after` is `self` after a note-off that reported `released`:
    /// the first voice held by `note` lets go of it; if there is none, nothing
    /// changes.
    pub open spec fn spec_note_off(self, after: Self, note: u8, released: Option<usize>) -> bool {
        let slot = spec_first_held(self.notes(), Some(note), 0);
        &&& after.params == self.params
        &&& after.sample_rate == self.sample_rate
        &&& after.voice_cycle == self.voice_cycle
        &&& 0 <= slot <= NUM_VOICES
        &&& slot < NUM_VOICES ==> {
            &&& released == Some(slot as usize)
            &&& after.voices@ == self.voices@.update(slot, self.voices@[slot].after_note_off())
            &&& after.voices@[slot].note().is_none()
        }
        &&& slot == NUM_VOICES ==> released.is_none() && after == self
    }

    /// Whether the engine is as `new` makes it: the default parameter values
    /// of the voice design, a sample rate of 1 Hz, the cursor at the first
    /// voice, and eight voices, each as it is made and then initialised for
    /// these parameters and this rate, none held by a note.
    pub open spec fn is_fresh(&self) -> bool {
        &&& self.params.params@ == V::defaults()
        &&& self.sample_rate == ONE
        &&& self.voice_cycle == 0
        &&& self.voices@.len() == NUM_VOICES
        &&& forall|i: int|
            0 <= i < NUM_VOICES ==> #[trigger] self.voices@[i] == V::fresh().after_init(
                &self.params,
                ONE,
            )
        &&& forall|i: int| 0 <= i < NUM_VOICES ==> (#[trigger] self.voices@[i]).note().is_none()
    }

    /// An engine with eight silent voices, the default parameter values of the
    /// voice design, a sample rate of 1 Hz and the cursor at the first voice.
    pub fn new() -> (synth: Self)
        ensures
            synth.is_fresh(),
            synth.wf(),
            synth.all_at_rest(),
    {
        let bag = V::default_bag();
        let mut voices: Vec<V> = Vec::new();
        let mut i: usize = 0;
        while i < NUM_VOICES
            invariant
                i <= NUM_VOICES,
                voices@.len() == i,
                bag.wf(),
                bag.params@ == V::defaults(),
                forall|k: int|
                    0 <= k < i ==> (#[trigger] voices@[k]).valid() && voices@[k].note().is_none()
                        && voices@[k].at_rest() && voices@[k] == V::fresh().after_init(&bag, ONE),
            decreases NUM_VOICES - i,
        {
            let mut voice = V::new();
            voice.init(&bag, ONE);
            voices.push(voice);
            i += 1;
        }
        PolySynth { sample_rate: ONE, voices, params: bag, voice_cycle: 0 }
    }

    /// Whether every voice of the pool is at rest.
    pub fn is_finished(&self) -> (finished: bool)
        requires
            self.wf(),
        ensures
            finished == self.all_at_rest(),
    {
        let mut i: usize = 0;
        while i < NUM_VOICES
            invariant
                self.voices@.len() == NUM_VOICES,
                i <= NUM_VOICES,
                forall|k: int| 0 <= k < i ==> (#[trigger] self.voices@[k]).at_rest(),
            decreases NUM_VOICES - i,
        {
            if !self.voices[i].is_finished() {
                return false;
            }
            i += 1;
        }
        true
    }

    /// Prepares every voice for one block and collects, in rising order, the
    /// indices of those that take part in it.
    pub fn init_process(&mut self) -> (active: ActiveVoices)
        requires
            old(self).wf(),
        ensures
            final(self).wf(),
            active_items(active) == spec_flagged(old(self).sounding(), NUM_VOICES as int),
            final(self).voices@.len() == NUM_VOICES,
            forall|i: int|
                0 <= i < NUM_VOICES ==> #[trigger] final(self).voices@[i] == old(
                    self,
                ).voices@[i].after_init_process(&old(self).params),
            final(self).params == old(self).params,
            final(self).voice_cycle == old(self).voice_cycle,
            final(self).sample_rate == old(self).sample_rate,
            final(self).notes() == old(self).notes(),
            final(self).sounding() == old(self).sounding(),
    {
        let mut active: ActiveVoices = active_new();
        let mut i: usize = 0;
        while i < NUM_VOICES
            invariant
                i <= NUM_VOICES,
                self.voices@.len() == NUM_VOICES,
                self.params == old(self).params,
                self.voice_cycle == old(self).voice_cycle,
                self.sample_rate == old(self).sample_rate,
                self.params.wf(),
                old(self).wf(),
                forall|k: int| 0 <= k < NUM_VOICES ==> (#[trigger] self.voices@[k]).valid(),
                forall|k: int|
                    0 <= k < i ==> #[trigger] self.voices@[k] == old(
                        self,
                    ).voices@[k].after_init_process(&old(self).params),
                forall|k: int|
                    0 <= k < i ==> (#[trigger] self.voices@[k]).note() == old(self).voices@[k].note()
                        && self.voices@[k].at_rest() == old(self).voices@[k].at_rest(),
                forall|k: int| i <= k < NUM_VOICES ==> #[trigger] self.voices@[k] == old(self).voices@[k],
                active_items(active) == spec_flagged(old(self).sounding(), i as int),
                active_items(active).len() <= i,
            decreases NUM_VOICES - i,
        {
            let takes_part: bool = self.voices[i].init_process(&self.params);
            if takes_part {
                active_push(&mut active, i);
            }
            i += 1;
        }
        assert(self.notes() =~= old(self).notes());
        assert(self.sounding() =~= old(self).sounding());
        active
    }

    /// Whether `after` and the two channels are what `run` leaves of `self`
    /// and of the channels it was given.
    pub open spec fn spec_ran(
        self,
        after: Self,
        left_before: Seq<i64>,
        right_before: Seq<i64>,
        left: Seq<i64>,
        right: Seq<i64>,
    ) -> bool {
        let n = spec_frames(left_before.len(), right_before.len());
        &&& left.len() == left_before.len()
        &&& right.len() == right_before.len()
        &&& after.params == self.params
        &&& after.voice_cycle == self.voice_cycle
        &&& after.sample_rate == self.sample_rate
        &&& after.notes() == self.notes()
        &&& forall|j: int| n <= j < left_before.len() ==> left[j] == left_before[j]
        &&& forall|j: int| n <= j < right_before.len() ==> right[j] == right_before[j]
        &&& self.all_at_rest() ==> {
            &&& after == self
            &&& forall|j: int| 0 <= j < n ==> left[j] == 0 && right[j] == 0
        }
        &&& !self.all_at_rest() ==> {
            let items = spec_flagged(self.sounding(), NUM_VOICES as int);
            let timestep = spec_time_per_sample(self.sample_rate as int) as u64;
            let post = V::post_param(&self.params);
            &&& after.voices@ == spec_pool_at(self.prepared(), items, timestep, n)
            &&& forall|j: int|
                0 <= j < n ==> spec_rendered(
                    spec_pool_at(self.prepared(), items, timestep, j as nat),
                    items,
                    post,
                    Frame { l: #[trigger] left[j], r: right[j] },
                )
        }
    }

    /// Whether `after` is `self` with `value` stored for the parameter at
    /// `index` and every voice told of the change.
    pub open spec fn spec_parameter_set(self, after: Self, index: i32, value: u64) -> bool {
        &&& after.params.params@ == self.params.params@.update(index as int, value)
        &&& after.voice_cycle == self.voice_cycle
        &&& after.sample_rate == self.sample_rate
        &&& after.voices@.len() == NUM_VOICES
        &&& forall|i: int|
            0 <= i < NUM_VOICES ==> #[trigger] after.voices@[i] == self.voices@[i].after_update(
                &after.params,
                V::ParamsEnum::member(index as nat),
                self.sample_rate,
            )
        &&& after.notes() == self.notes()
    }

    /// Whether `after` is `self` at the new sample rate, with all state of
    /// every voice derived again.
    pub open spec fn spec_rate_set(self, after: Self, sample_rate: u64) -> bool {
        &&& after.sample_rate == sample_rate
        &&& after.params == self.params
        &&& after.voice_cycle == self.voice_cycle
        &&& after.voices@.len() == NUM_VOICES
        &&& forall|i: int|
            0 <= i < NUM_VOICES ==> #[trigger] after.voices@[i] == self.voices@[i].after_init(
                &self.params,
                sample_rate,
            )
        &&& after.notes() == self.notes()
    }

    /// The voices as `init_process` leaves them.
    pub open spec fn prepared(&self) -> Seq<V> {
        Seq::new(self.voices@.len(), |i: int| self.voices@[i].after_init_process(&self.params))
    }

    /// Mixes one sample: every voice named by `active` hands out its frame
    /// and advances by one sample; the result is the sum of those frames.
    pub fn mix(&mut self, active: &ActiveVoices, timestep: u64) -> (frame: Frame)
        requires
            old(self).wf(),
            spec_rising(active_items(*active)),
        ensures
            final(self).wf(),
            final(self).params == old(self).params,
            final(self).voice_cycle == old(self).voice_cycle,
            final(self).sample_rate == old(self).sample_rate,
            final(self).voices@.len() == NUM_VOICES,
            forall|i: int|
                0 <= i < NUM_VOICES ==> #[trigger] final(self).voices@[i] == (if spec_listed(
                    active_items(*active),
                    active_items(*active).len() as int,
                    i,
                ) {
                    old(self).voices@[i].after_sample(timestep)
                } else {
                    old(self).voices@[i]
                }),
            spec_mixed(old(self).voices@, active_items(*active), frame),
            frame.within(8 * VOICE_LIMIT),
            final(self).notes() == old(self).notes(),
    {
        let n: usize = active_len(active);
        let ghost items = active_items(*active);
        let mut sum = Frame::silence();
        let ghost mut frames: Seq<Frame> = Seq::empty();
        let mut k: usize = 0;
        while k < n
            invariant
                k <= n,
                n == items.len(),
                items == active_items(*active),
                spec_rising(items),
                self.voices@.len() == NUM_VOICES,
                old(self).voices@.len() == NUM_VOICES,
                self.params == old(self).params,
                self.params.wf(),
                self.voice_cycle == old(self).voice_cycle,
                self.sample_rate == old(self).sample_rate,
                forall|i: int| 0 <= i < NUM_VOICES ==> (#[trigger] self.voices@[i]).valid(),
                forall|i: int|
                    0 <= i < NUM_VOICES ==> #[trigger] self.voices@[i] == (if spec_listed(
                        items,
                        k as int,
                        i,
                    ) {
                        old(self).voices@[i].after_sample(timestep)
                    } else {
                        old(self).voices@[i]
                    }),
                forall|i: int|
                    0 <= i < NUM_VOICES ==> (#[trigger] self.voices@[i]).note() == old(
                        self,
                    ).voices@[i].note(),
                frames.len() == k,
                forall|j: int|
                    0 <= j < k ==> old(self).voices@[items[j] as int].may_yield(#[trigger] frames[j])
                        && frames[j].within(VOICE_LIMIT as int),
                sum.l == spec_sum(frames).0,
                sum.r == spec_sum(frames).1,
                sum.within(k * VOICE_LIMIT),
            decreases n - k,
        {
            let index: usize = active_get(active, k);
            proof {
                lemma_not_listed(items, k as int, index as int);
            }
            let ghost before = self.voices@;
            let f = self.voices[index].process_sample(timestep);
            assert(self.voices@ =~= before.update(
                index as int,
                before[index as int].after_sample(timestep),
            ));
            proof {
                assert(frames.push(f).drop_last() =~= frames);
                frames = frames.push(f);
            }
            sum = sum.plus(f);
            k += 1;
        }
        assert(spec_parts(old(self).voices@, items, frames));
        assert(self.notes() =~= old(self).notes());
        sum
    }

    /// Renders one block into the two channels, as far as both reach. While
    /// the whole pool is at rest the block is silence: zeros are written, no
    /// voice is touched and no sample is computed. Otherwise every voice is
    /// prepared, and each sample is the post-processed sum of the frames of
    /// all voices that take part, which advance sample by sample.
    pub fn run(&mut self, left: &mut Vec<i64>, right: &mut Vec<i64>)
        requires
            old(self).wf(),
        ensures
            final(self).wf(),
            old(self).spec_ran(*final(self), old(left)@, old(right)@, final(left)@, final(right)@),
    {
        let timestep: u64 = time_per_sample(self.sample_rate);
        let n: usize = if left.len() <= right.len() {
            left.len()
        } else {
            right.len()
        };
        if !self.is_finished() {
            let ghost flags = self.sounding();
            let active = self.init_process();
            let post = V::prepare_post(&self.params);
            let ghost items = active_items(active);
            let ghost prepared = old(self).prepared();
            proof {
                lemma_flagged(flags, NUM_VOICES as int);
                assert(self.voices@ =~= prepared);
                assert(spec_pool_at(prepared, items, timestep, 0) =~= prepared);
            }
            let mut i: usize = 0;
            while i < n
                invariant
                    i <= n,
                    n == spec_frames(old(left)@.len(), old(right)@.len()),
                    left@.len() == old(left)@.len(),
                    right@.len() == old(right)@.len(),
                    self.wf(),
                    self.params == old(self).params,
                    self.voice_cycle == old(self).voice_cycle,
                    self.sample_rate == old(self).sample_rate,
                    self.notes() == old(self).notes(),
                    items == active_items(active),
                    items == spec_flagged(old(self).sounding(), NUM_VOICES as int),
                    spec_rising(items),
                    prepared == old(self).prepared(),
                    prepared.len() == NUM_VOICES,
                    post == V::post_param(&old(self).params),
                    V::post_valid(&post),
                    self.voices@ == spec_pool_at(prepared, items, timestep, i as nat),
                    forall|j: int| n <= j < old(left)@.len() ==> left@[j] == old(left)@[j],
                    forall|j: int| n <= j < old(right)@.len() ==> right@[j] == old(right)@[j],
                    forall|j: int|
                        0 <= j < i ==> spec_rendered(
                            spec_pool_at(prepared, items, timestep, j as nat),
                            items,
                            post,
                            Frame { l: #[trigger] left@[j], r: right@[j] },
                        ),
                decreases n - i,
            {
                let ghost pool = self.voices@;
                let raw = self.mix(&active, timestep);
                let out = V::process_post(&post, raw);
                left.set(i, out.l);
                right.set(i, out.r);
                proof {
                    assert(self.voices@ =~= spec_pool_at(prepared, items, timestep, (i + 1) as nat));
                    assert(spec_mixed(pool, items, raw));
                    assert(spec_rendered(pool, items, post, Frame { l: left@[i as int], r: right@[i as int] }));
                }
                i += 1;
            }
        } else {
            let mut i: usize = 0;
            while i < n
                invariant
                    i <= n,
                    n == spec_frames(old(left)@.len(), old(right)@.len()),
                    left@.len() == old(left)@.len(),
                    right@.len() == old(right)@.len(),
                    *self == *old(self),
                    forall|j: int| n <= j < old(left)@.len() ==> left@[j] == old(left)@[j],
                    forall|j: int| n <= j < old(right)@.len() ==> right@[j] == old(right)@[j],
                    forall|j: int| 0 <= j < i ==> left@[j] == 0 && right@[j] == 0,
                decreases n - i,
            {
                left.set(i, 0);
                right.set(i, 0);
                i += 1;
            }
        }
    }

    /// Gives a note to a voice and says which one took it. The voice under the
    /// cursor takes it if it is free, and the cursor moves on by one; else the
    /// first free voice takes it and the cursor stays. With no free voice the
    /// note is dropped and nothing changes.
    pub fn note_on(&mut self, note: u8, velocity: u8) -> (taken: Option<usize>)
        requires
            old(self).wf(),
        ensures
            final(self).wf(),
            old(self).spec_note_on(*final(self), note, velocity, taken),
    {
        let ghost notes = self.notes();
        let cycle: usize = self.voice_cycle as usize;
        proof {
            lemma_first_held(notes, None, 0);
        }
        if self.voices[cycle].current_note().is_none() {
            self.voices[cycle].note_on(note, velocity);
            self.voice_cycle = ((self.voice_cycle + 1) % 8) as u8;
            assert(self.voices@ =~= old(self).voices@.update(
                cycle as int,
                old(self).voices@[cycle as int].after_note_on(note, velocity),
            ));
            return Some(cycle);
        }
        assert(notes[cycle as int].is_some());
        let mut i: usize = 0;
        while i < NUM_VOICES
            invariant
                i <= NUM_VOICES,
                *self == *old(self),
                self.wf(),
                notes == self.notes(),
                spec_first_held(notes, None, 0) == spec_first_held(notes, None, i as int),
                cycle == old(self).voice_cycle,
                notes[cycle as int].is_some(),
            decreases NUM_VOICES - i,
        {
            if self.voices[i].current_note().is_none() {
                assert(notes[i as int].is_none());
                self.voices[i].note_on(note, velocity);
                assert(self.voices@ =~= old(self).voices@.update(
                    i as int,
                    old(self).voices@[i as int].after_note_on(note, velocity),
                ));
                return Some(i);
            }
            i += 1;
        }
        None
    }

    /// Releases the first voice that is held by `note` and says which one it
    /// was. If no voice is held by `note`, nothing changes.
    pub fn note_off(&mut self, note: u8, velocity: u8) -> (released: Option<usize>)
        requires
            old(self).wf(),
        ensures
            final(self).wf(),
            old(self).spec_note_off(*final(self), note, released),
    {
        let ghost notes = self.notes();
        proof {
            lemma_first_held(notes, Some(note), 0);
        }
        let mut i: usize = 0;
        while i < NUM_VOICES
            invariant
                i <= NUM_VOICES,
                *self == *old(self),
                self.wf(),
                notes == self.notes(),
                spec_first_held(notes, Some(note), 0) == spec_first_held(notes, Some(note), i as int),
            decreases NUM_VOICES - i,
        {
            if self.voices[i].current_note() == Some(note) {
                self.voices[i].note_off(note, velocity);
                assert(self.voices@ =~= old(self).voices@.update(
                    i as int,
                    old(self).voices@[i as int].after_note_off(),
                ));
                return Some(i);
            }
            i += 1;
        }
        None
    }

    /// The number of parameters.
    pub fn get_num_parameters(&self) -> (n: i32)
        ensures
            n == V::ParamsEnum::count(),
            n > 0,
    {
        let n: u32 = V::ParamsEnum::num_items();
        n as i32
    }

    /// The value of the parameter at position `index`.
    pub fn get_parameter(&self, index: i32) -> (value: u64)
        requires
            self.wf(),
            0 <= index < V::ParamsEnum::count(),
        ensures
            value == self.params.params@[index as int],
    {
        let param = V::ParamsEnum::from_index(index as u32);
        self.params.get(param)
    }

    /// Stores `value` for the parameter at position `index` and tells every
    /// voice of the change; each voice derives again what depends on it.
    pub fn set_parameter(&mut self, index: i32, value: u64)
        requires
            old(self).wf(),
            0 <= index < V::ParamsEnum::count(),
        ensures
            final(self).wf(),
            old(self).spec_parameter_set(*final(self), index, value),
    {
        let param = V::ParamsEnum::from_index(index as u32);
        self.params.set(param, value);
        let mut i: usize = 0;
        while i < NUM_VOICES
            invariant
                i <= NUM_VOICES,
                0 <= index < V::ParamsEnum::count(),
                old(self).voices@.len() == NUM_VOICES,
                self.voices@.len() == NUM_VOICES,
                self.params.wf(),
                self.voice_cycle == old(self).voice_cycle,
                self.sample_rate == old(self).sample_rate,
                self.params.params@ == old(self).params.params@.update(index as int, value),
                forall|k: int| 0 <= k < NUM_VOICES ==> (#[trigger] self.voices@[k]).valid(),
                forall|k: int|
                    0 <= k < i ==> #[trigger] self.voices@[k] == old(self).voices@[k].after_update(
                        &self.params,
                        V::ParamsEnum::member(index as nat),
                        self.sample_rate,
                    ),
                forall|k: int|
                    0 <= k < i ==> (#[trigger] self.voices@[k]).note() == old(self).voices@[k].note(),
                forall|k: int| i <= k < NUM_VOICES ==> #[trigger] self.voices@[k] == old(self).voices@[k],
            decreases NUM_VOICES - i,
        {
            let changed = V::ParamsEnum::from_index(index as u32);
            self.voices[i].update_param(&self.params, changed, self.sample_rate);
            i += 1;
        }
        assert(self.notes() =~= old(self).notes());
    }

    /// Takes a new sample rate: every voice derives all its state again.
    pub fn set_sample_rate(&mut self, sample_rate: u64)
        requires
            old(self).wf(),
        ensures
            final(self).wf(),
            old(self).spec_rate_set(*final(self), sample_rate),
    {
        self.sample_rate = sample_rate;
        let mut i: usize = 0;
        while i < NUM_VOICES
            invariant
                i <= NUM_VOICES,
                old(self).voices@.len() == NUM_VOICES,
                self.voices@.len() == NUM_VOICES,
                self.params == old(self).params,
                self.params.wf(),
                self.voice_cycle == old(self).voice_cycle,
                self.sample_rate == sample_rate,
                forall|k: int| 0 <= k < NUM_VOICES ==> (#[trigger] self.voices@[k]).valid(),
                forall|k: int|
                    0 <= k < i ==> #[trigger] self.voices@[k] == old(self).voices@[k].after_init(
                        &self.params,
                        sample_rate,
                    ),
                forall|k: int|
                    0 <= k < i ==> (#[trigger] self.voices@[k]).note() == old(self).voices@[k].note(),
                forall|k: int| i <= k < NUM_VOICES ==> #[trigger] self.voices@[k] == old(self).voices@[k],
            decreases NUM_VOICES - i,
        {
            self.voices[i].init(&self.params, self.sample_rate);
            i += 1;
        }
        assert(self.notes() =~= old(self).notes());
    }
}

} // verus!
