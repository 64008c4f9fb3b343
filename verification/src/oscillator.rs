//! A phase-accumulating oscillator: it keeps its position within the cycle,
//! advances it sample by sample and evaluates a waveform there.

use vstd::prelude::*;
use vstd::arithmetic::div_mod::{lemma_add_mod_noop, lemma_sub_mod_noop, lemma_small_mod, lemma_mod_multiples_vanish};
use crate::fixed::{magnitude, spec_abs, ONE};
use crate::helpers::SECOND;
use crate::waveform::Waveform;

verus! {

/// An oscillator over the waveform `W`. The phase is a fraction of one cycle
/// and always below `ONE`; the frequency is signed, in cycles per second as a
/// multiple of 1/`ONE`.
pub struct Oscillator<W: Waveform> {
    pub phase: u64,
    pub frequency: i64,
    pub wave: W,
}

/// The phase change of one step: the frequency in cycles per second times the
/// time step in units of 2^-50 s, rounded toward zero.
pub open spec fn spec_advance(frequency: int, timestep: int) -> int {
    if frequency >= 0 {
        (frequency * timestep) / (SECOND as int)
    } else {
        -((spec_abs(frequency) * timestep) / (SECOND as int))
    }
}

/// `phase` moved by `delta` and wrapped into one cycle.
pub open spec fn spec_wrap(phase: int, delta: int) -> int {
    (phase + delta) % (ONE as int)
}

/// `phase` moved forward by `amount`, or backward if `backward` is set, and
/// wrapped into one cycle.
pub fn wrap_phase(phase: u64, amount: u128, backward: bool) -> (p: u64)
    requires
        phase < ONE,
    ensures
        p == spec_wrap(phase as int, if backward { -(amount as int) } else { amount as int }),
        p < ONE,
{
    let one = ONE as u128;
    let reduced: u64 = (amount % one) as u64;
    proof {
        let o = ONE as int;
        lemma_small_mod(phase as nat, ONE as nat);
        if backward {
            lemma_sub_mod_noop(phase as int, amount as int, o);
            lemma_mod_multiples_vanish(1, phase as int - reduced as int, o);
            assert(o * 1 + (phase as int - reduced as int) == phase + ONE - reduced);
        } else {
            lemma_add_mod_noop(phase as int, amount as int, o);
        }
    }
    if backward {
        (phase + ONE - reduced) % ONE
    } else {
        (phase + reduced) % ONE
    }
}

impl<W: Waveform> Oscillator<W> {
    /// The phase lies within one cycle.
    pub open spec fn wf(&self) -> bool {
        self.phase < ONE
    }

    /// The oscillator one step later.
    pub open spec fn spec_step(self, timestep: u64) -> Self {
        Oscillator {
            phase: spec_wrap(
                self.phase as int,
                spec_advance(self.frequency as int, timestep as int),
            ) as u64,
            ..self
        }
    }

    /// A resting oscillator at the start of its cycle.
    pub fn new(wave: W) -> (o: Self)
        ensures
            o.wf(),
            o == (Oscillator { phase: 0, frequency: 0, wave }),
    {
        Oscillator { phase: 0, frequency: 0, wave }
    }

    /// Advances the phase by `frequency * timestep` and wraps it into the
    /// cycle: whatever the sign and size of the frequency, the phase stays in
    /// [0, 1).
    pub fn step(&mut self, timestep: u64)
        requires
            old(self).wf(),
        ensures
            *final(self) == old(self).spec_step(timestep),
            final(self).phase == spec_wrap(
                old(self).phase as int,
                spec_advance(old(self).frequency as int, timestep as int),
            ),
            final(self).phase < ONE,
            final(self).wf(),
            final(self).frequency == old(self).frequency,
            final(self).wave == old(self).wave,
    {
        let m: u64 = magnitude(self.frequency);
        assert(m * timestep <= 0xffff_ffff_ffff_ffff * 0xffff_ffff_ffff_ffff) by (nonlinear_arith)
            requires
                m <= 0xffff_ffff_ffff_ffff,
                timestep <= 0xffff_ffff_ffff_ffff,
        ;
        let amount: u128 = (m as u128) * (timestep as u128) / (SECOND as u128);
        self.phase = wrap_phase(self.phase, amount, self.frequency < 0);
    }

    /// Sets the frequency.
    pub fn set_freq(&mut self, freq: i64)
        ensures
            *final(self) == (Oscillator { frequency: freq, ..*old(self) }),
    {
        self.frequency = freq;
    }

    /// The waveform at the current phase.
    pub fn get_value(&self) -> (value: i64)
        requires
            self.wf(),
        ensures
            self.wave.yields(self.phase, value as int),
            -ONE <= value <= ONE,
    {
        self.wave.value_at_phase(self.phase)
    }

    /// The waveform at the current phase moved by `phase_offset` and wrapped
    /// into the cycle. The oscillator is left as it is.
    pub fn get_offset_value(&self, phase_offset: i64) -> (value: i64)
        requires
            self.wf(),
        ensures
            self.wave.yields(spec_wrap(self.phase as int, phase_offset as int) as u64, value as int),
            -ONE <= value <= ONE,
    {
        let m: u64 = magnitude(phase_offset);
        let at: u64 = wrap_phase(self.phase, m as u128, phase_offset < 0);
        self.wave.value_at_phase(at)
    }

    /// Replaces the waveform.
    pub fn set_wave(&mut self, wave: W)
        ensures
            *final(self) == (Oscillator { wave, ..*old(self) }),
    {
        self.wave = wave;
    }

    /// The waveform, to be changed in place.
    pub fn get_wave_mut(&mut self) -> (wave: &mut W)
        ensures
            *wave == old(self).wave,
            *final(self) == (Oscillator { wave: *final(wave), ..*old(self) }),
    {
        &mut self.wave
    }

    /// Puts the oscillator back at the start of its cycle.
    pub fn phase_reset(&mut self)
        ensures
            *final(self) == (Oscillator { phase: 0, ..*old(self) }),
            final(self).wf(),
    {
        self.phase = 0;
    }
}

/// The phase of an oscillator stays within [0, 1) over any sequence of steps,
/// whatever the frequencies and time steps are.
pub proof fn lemma_phase_stays_in_cycle(phase: int, steps: Seq<(int, int)>)
    requires
        0 <= phase < ONE,
    ensures
        0 <= spec_phase_after(phase, steps) < ONE,
    decreases steps.len(),
{
    if steps.len() > 0 {
        let next = spec_wrap(phase, spec_advance(steps[0].0, steps[0].1));
        lemma_phase_stays_in_cycle(next, steps.subrange(1, steps.len() as int));
    }
}

/// The phase after a sequence of steps, each given by the frequency and the
/// time step in force.
pub open spec fn spec_phase_after(phase: int, steps: Seq<(int, int)>) -> int
    decreases steps.len(),
{
    if steps.len() == 0 {
        phase
    } else {
        spec_phase_after(
            spec_wrap(phase, spec_advance(steps[0].0, steps[0].1)),
            steps.subrange(1, steps.len() as int),
        )
    }
}

} // verus!
