//! A four-segment amplitude envelope computed in fixed point.
//!
//! Levels and coefficients are fractions of `ONE`. Each segment follows the
//! recurrence `output = base + output * coef`, which approaches its target
//! exponentially; the targets lie slightly beyond the level at which the
//! segment ends, so every segment ends after finitely many samples.

use vstd::prelude::*;
use crate::fixed::{ONE, unit_clamp, spec_unit_clamp, lemma_product_bound};
use crate::helpers::{calc_coef, segment_rate, spec_calc_coef, spec_segment_rate, LOG2_RATIO_A, LOG2_RATIO_DR};

verus! {

/// How far beyond full level the attack curve aims (0.3 of `ONE`).
pub const TARGET_RATIO_A: u64 = 322122547;

/// How far below its end level a decay or release curve aims (0.0001 of `ONE`).
pub const TARGET_RATIO_DR: u64 = 107374;

/// The segment an envelope is in.
#[derive(Debug, Clone, Copy, PartialEq, Eq, Structural)]
pub enum ADSRState {
    Idle,
    Attack,
    Decay,
    Sustain,
    Release,
}

/// What every envelope offers to the voice that owns it.
pub trait Envelope {
    /// The envelope one sample later.
    spec fn stepped(&self) -> Self where Self: Sized;

    /// Whether the envelope has come to rest.
    spec fn at_rest(&self) -> bool;

    /// The current amplitude as a fraction of `ONE`.
    spec fn level(&self) -> int;

    /// What the methods below expect of `self` and keep.
    spec fn valid(&self) -> bool;

    /// Advances the envelope by one sample.
    fn process(&mut self) where Self: Sized
        requires
            old(self).valid(),
        ensures
            final(self).valid(),
            *final(self) == old(self).stepped(),
    ;

    /// Starts the attack segment, from whatever segment the envelope is in.
    fn trigger(&mut self)
        requires
            old(self).valid(),
        ensures
            final(self).valid(),
            final(self).level() == old(self).level(),
            !final(self).at_rest(),
    ;

    /// Starts the release segment.
    fn release(&mut self)
        requires
            old(self).valid(),
        ensures
            final(self).valid(),
            final(self).level() == old(self).level(),
            !final(self).at_rest(),
    ;

    /// The current amplitude.
    fn get_value(&self) -> (v: u64)
        requires
            self.valid(),
        ensures
            v == self.level(),
            v <= ONE,
    ;

    /// Whether the envelope has come to rest.
    fn is_finished(&self) -> (b: bool)
        ensures
            b == self.at_rest(),
    ;

    /// Silences the envelope at once.
    fn reset(&mut self)
        requires
            old(self).valid(),
        ensures
            final(self).valid(),
            final(self).at_rest(),
            final(self).level() == 0,
    ;
}

/// An attack-decay-sustain-release envelope.
#[derive(Debug, Clone, Copy)]
pub struct ADSREnvelope {
    pub state: ADSRState,
    pub output: u64,
    pub attack_coef: u64,
    pub decay_coef: u64,
    pub release_coef: u64,
    pub sustain_level: u64,
    pub attack_base: u64,
    pub decay_base: i64,
    pub release_drop: u64,
}

/// The constant term of the attack recurrence: `(1 + ratio) * (1 - coef)`.
pub open spec fn spec_attack_base(coef: int) -> int {
    ((ONE + TARGET_RATIO_A) * (ONE - coef)) / (ONE as int)
}

/// The constant term of the decay recurrence: `(sustain - ratio) * (1 - coef)`,
/// rounded toward zero.
pub open spec fn spec_decay_base(sustain: int, coef: int) -> int {
    if sustain >= TARGET_RATIO_DR as int {
        ((sustain - TARGET_RATIO_DR) * (ONE - coef)) / (ONE as int)
    } else {
        -(((TARGET_RATIO_DR - sustain) * (ONE - coef)) / (ONE as int))
    }
}

/// The amount a release step subtracts: `ratio * (1 - coef)`.
pub open spec fn spec_release_drop(coef: int) -> int {
    (TARGET_RATIO_DR * (ONE - coef)) / (ONE as int)
}

/// `level * coef`, the part of the old output that a step keeps.
pub open spec fn spec_scale(level: int, coef: int) -> int {
    (level * coef) / (ONE as int)
}

impl ADSREnvelope {
    /// The levels and coefficients are fractions of `ONE`, and the three
    /// constant terms are the ones derived from them.
    pub open spec fn wf(&self) -> bool {
        &&& self.output <= ONE
        &&& self.attack_coef <= ONE
        &&& self.decay_coef <= ONE
        &&& self.release_coef <= ONE
        &&& self.sustain_level <= ONE
        &&& self.attack_base == spec_attack_base(self.attack_coef as int)
        &&& self.decay_base == spec_decay_base(self.sustain_level as int, self.decay_coef as int)
        &&& self.release_drop == spec_release_drop(self.release_coef as int)
    }

    /// The envelope after one sample.
    pub open spec fn spec_process(self) -> ADSREnvelope {
        match self.state {
            ADSRState::Attack => {
                let raw = self.attack_base + spec_scale(self.output as int, self.attack_coef as int);
                if raw >= ONE {
                    ADSREnvelope { output: ONE, state: ADSRState::Decay, ..self }
                } else {
                    ADSREnvelope { output: raw as u64, ..self }
                }
            },
            ADSRState::Decay => {
                let raw = self.decay_base + spec_scale(self.output as int, self.decay_coef as int);
                if raw <= self.sustain_level {
                    ADSREnvelope { output: self.sustain_level, state: ADSRState::Sustain, ..self }
                } else {
                    ADSREnvelope { output: raw as u64, ..self }
                }
            },
            ADSRState::Release => {
                let raw = spec_scale(self.output as int, self.release_coef as int)
                    - self.release_drop;
                if raw <= 0 {
                    ADSREnvelope { output: 0, state: ADSRState::Idle, ..self }
                } else {
                    ADSREnvelope { output: raw as u64, ..self }
                }
            },
            _ => self,
        }
    }

    /// The envelope after `n` samples.
    pub open spec fn spec_process_n(self, n: nat) -> ADSREnvelope
        decreases n,
    {
        if n == 0 {
            self
        } else {
            self.spec_process().spec_process_n((n - 1) as nat)
        }
    }

    /// The envelope with the given coefficients; state and output are kept.
    pub open spec fn spec_set_coefs(
        self,
        attack_coef: u64,
        decay_coef: u64,
        sustain: u64,
        release_coef: u64,
    ) -> ADSREnvelope {
        let a = spec_unit_clamp(attack_coef as int);
        let d = spec_unit_clamp(decay_coef as int);
        let s = spec_unit_clamp(sustain as int);
        let r = spec_unit_clamp(release_coef as int);
        ADSREnvelope {
            state: self.state,
            output: self.output,
            attack_coef: a as u64,
            decay_coef: d as u64,
            release_coef: r as u64,
            sustain_level: s as u64,
            attack_base: spec_attack_base(a) as u64,
            decay_base: spec_decay_base(s, d) as i64,
            release_drop: spec_release_drop(r) as u64,
        }
    }

    /// A silent envelope whose segments all end at once.
    pub open spec fn new_spec() -> ADSREnvelope {
        ADSREnvelope {
            state: ADSRState::Idle,
            output: 0,
            attack_coef: 0,
            decay_coef: 0,
            release_coef: 0,
            sustain_level: 0,
            attack_base: spec_attack_base(0) as u64,
            decay_base: spec_decay_base(0, 0) as i64,
            release_drop: spec_release_drop(0) as u64,
        }
    }

    /// A silent envelope whose segments all end at once.
    pub fn new() -> (e: ADSREnvelope)
        ensures
            e.wf(),
            e == ADSREnvelope::new_spec(),
    {
        let mut e = ADSREnvelope {
            state: ADSRState::Idle,
            output: 0,
            attack_coef: 0,
            decay_coef: 0,
            release_coef: 0,
            sustain_level: 0,
            attack_base: 0,
            decay_base: 0,
            release_drop: 0,
        };
        e.set_coefs(0, 0, 0, 0);
        e
    }

    /// The envelope configured for segment times in seconds at a sample rate.
    pub open spec fn spec_set_adsr(
        self,
        sample_rate: u64,
        attack: u64,
        decay: u64,
        sustain: u64,
        release: u64,
    ) -> ADSREnvelope {
        self.spec_set_coefs(
            spec_calc_coef(
                spec_segment_rate(attack as int, sample_rate as int),
                LOG2_RATIO_A as int,
            ) as u64,
            spec_calc_coef(
                spec_segment_rate(decay as int, sample_rate as int),
                LOG2_RATIO_DR as int,
            ) as u64,
            sustain,
            spec_calc_coef(
                spec_segment_rate(release as int, sample_rate as int),
                LOG2_RATIO_DR as int,
            ) as u64,
        )
    }

    /// Configures the envelope: attack, decay and release take the given
    /// times in seconds at `sample_rate`, and the decay ends at `sustain`,
    /// which is limited to 1.0. State and output are kept.
    pub fn set_adsr(&mut self, sample_rate: u64, attack: u64, decay: u64, sustain: u64, release: u64)
        ensures
            *final(self) == old(self).spec_set_adsr(sample_rate, attack, decay, sustain, release),
            old(self).output <= ONE ==> final(self).wf(),
            final(self).state == old(self).state,
            final(self).output == old(self).output,
    {
        let attack_coef: u64 = calc_coef(segment_rate(attack, sample_rate), LOG2_RATIO_A);
        let decay_coef: u64 = calc_coef(segment_rate(decay, sample_rate), LOG2_RATIO_DR);
        let release_coef: u64 = calc_coef(segment_rate(release, sample_rate), LOG2_RATIO_DR);
        self.set_coefs(attack_coef, decay_coef, sustain, release_coef);
    }

    /// Sets the three segment coefficients and the sustain level, each limited
    /// to `ONE`, and derives the constant terms of the three recurrences.
    ///
    pub fn set_coefs(&mut self, attack_coef: u64, decay_coef: u64, sustain: u64, release_coef: u64)
        ensures
            *final(self) == old(self).spec_set_coefs(attack_coef, decay_coef, sustain, release_coef),
            old(self).output <= ONE ==> final(self).wf(),
    {
        let a: u64 = unit_clamp(attack_coef);
        let d: u64 = unit_clamp(decay_coef);
        let s: u64 = unit_clamp(sustain);
        let r: u64 = unit_clamp(release_coef);
        proof {
            lemma_product_bound((ONE + TARGET_RATIO_A) as int, (ONE - a) as int, 2 * ONE, ONE as int);
            lemma_product_bound(ONE as int, (ONE - d) as int, ONE as int, ONE as int);
            lemma_product_bound(TARGET_RATIO_DR as int, (ONE - r) as int, ONE as int, ONE as int);
        }
        self.attack_coef = a;
        self.decay_coef = d;
        self.release_coef = r;
        self.sustain_level = s;
        self.attack_base = (ONE + TARGET_RATIO_A) * (ONE - a) / ONE;
        if s >= TARGET_RATIO_DR {
            proof {
                lemma_product_bound((s - TARGET_RATIO_DR) as int, (ONE - d) as int, ONE as int, ONE as int);
            }
            let magnitude: u64 = (s - TARGET_RATIO_DR) * (ONE - d) / ONE;
            self.decay_base = magnitude as i64;
        } else {
            proof {
                lemma_product_bound((TARGET_RATIO_DR - s) as int, (ONE - d) as int, ONE as int, ONE as int);
            }
            let magnitude: u64 = (TARGET_RATIO_DR - s) * (ONE - d) / ONE;
            self.decay_base = -(magnitude as i64);
        }
        self.release_drop = TARGET_RATIO_DR * (ONE - r) / ONE;
    }
}

impl Default for ADSREnvelope {
    /// A silent envelope whose segments all end at once.
    fn default() -> (e: ADSREnvelope)
        ensures
            e.wf(),
            e == ADSREnvelope::new_spec(),
    {
        ADSREnvelope::new()
    }
}

impl Envelope for ADSREnvelope {
    open spec fn stepped(&self) -> Self {
        self.spec_process()
    }

    open spec fn at_rest(&self) -> bool {
        self.state == ADSRState::Idle
    }

    open spec fn level(&self) -> int {
        self.output as int
    }

    open spec fn valid(&self) -> bool {
        self.wf()
    }

    fn process(&mut self) {
        proof {
            lemma_process_keeps_wf(*self);
        }
        match self.state {
            ADSRState::Attack => {
                proof {
                    lemma_product_bound(self.output as int, self.attack_coef as int, ONE as int, ONE as int);
                    lemma_product_bound((ONE + TARGET_RATIO_A) as int, (ONE - self.attack_coef) as int, 2 * ONE, ONE as int);
                }
                let raw: u64 = self.attack_base + self.output * self.attack_coef / ONE;
                if raw >= ONE {
                    self.output = ONE;
                    self.state = ADSRState::Decay;
                } else {
                    self.output = raw;
                }
            },
            ADSRState::Decay => {
                proof {
                    lemma_product_bound(self.output as int, self.decay_coef as int, ONE as int, ONE as int);
                    lemma_decay_base_bound(self.sustain_level as int, self.decay_coef as int);
                }
                let kept: u64 = self.output * self.decay_coef / ONE;
                let raw: i64 = self.decay_base + (kept as i64);
                if raw <= self.sustain_level as i64 {
                    self.output = self.sustain_level;
                    self.state = ADSRState::Sustain;
                } else {
                    self.output = raw as u64;
                }
            },
            ADSRState::Release => {
                proof {
                    lemma_product_bound(self.output as int, self.release_coef as int, ONE as int, ONE as int);
                }
                let kept: u64 = self.output * self.release_coef / ONE;
                if kept <= self.release_drop {
                    self.output = 0;
                    self.state = ADSRState::Idle;
                } else {
                    self.output = kept - self.release_drop;
                }
            },
            _ => {},
        }
    }

    fn trigger(&mut self)
        ensures
            *final(self) == (ADSREnvelope { state: ADSRState::Attack, ..*old(self) }),
    {
        self.state = ADSRState::Attack;
    }

    fn release(&mut self)
        ensures
            *final(self) == (ADSREnvelope { state: ADSRState::Release, ..*old(self) }),
    {
        self.state = ADSRState::Release;
    }

    fn get_value(&self) -> (v: u64) {
        self.output
    }

    fn is_finished(&self) -> (b: bool) {
        match self.state {
            ADSRState::Idle => true,
            _ => false,
        }
    }

    fn reset(&mut self)
        ensures
            *final(self) == (ADSREnvelope { state: ADSRState::Idle, output: 0, ..*old(self) }),
    {
        self.state = ADSRState::Idle;
        self.output = 0;
    }
}

/// The constant term of the decay recurrence lies between minus the target
/// ratio and the sustain level.
pub proof fn lemma_decay_base_bound(sustain: int, coef: int)
    requires
        0 <= sustain <= ONE,
        0 <= coef <= ONE,
    ensures
        -(TARGET_RATIO_DR as int) <= spec_decay_base(sustain, coef) <= sustain,
        spec_decay_base(sustain, coef) * ONE <= sustain * (ONE - coef),
{
    let one = ONE as int;
    let w = one - coef;
    if sustain >= TARGET_RATIO_DR as int {
        let x = sustain - TARGET_RATIO_DR;
        lemma_product_bound(x, w, x, one);
        let p = x * w;
        assert((p / one) * one <= p) by (nonlinear_arith)
            requires
                0 <= p,
                one > 0,
        ;
        assert(x * w <= sustain * w) by (nonlinear_arith)
            requires
                0 <= x <= sustain,
                0 <= w,
        ;
    } else {
        let x = TARGET_RATIO_DR - sustain;
        lemma_product_bound(x, w, x, one);
        assert(0 <= sustain * w) by (nonlinear_arith)
            requires
                0 <= sustain,
                0 <= w,
        ;
        let q = (x * w) / one;
        assert(-q * one <= 0) by (nonlinear_arith)
            requires
                0 <= q,
                one > 0,
        ;
    }
}

/// One sample keeps every level and coefficient a fraction of `ONE`: the
/// output stays within [0, 1] at every step.
pub proof fn lemma_process_keeps_wf(e: ADSREnvelope)
    requires
        e.wf(),
    ensures
        e.spec_process().wf(),
        e.spec_process().output <= ONE,
{
    lemma_product_bound(e.output as int, e.attack_coef as int, ONE as int, ONE as int);
    lemma_product_bound(e.output as int, e.decay_coef as int, ONE as int, ONE as int);
    lemma_product_bound(e.output as int, e.release_coef as int, ONE as int, ONE as int);
    lemma_product_bound((ONE + TARGET_RATIO_A) as int, (ONE - e.attack_coef) as int, 2 * ONE, ONE as int);
    lemma_decay_base_bound(e.sustain_level as int, e.decay_coef as int);
    lemma_product_bound(TARGET_RATIO_DR as int, (ONE - e.release_coef) as int, ONE as int, ONE as int);
    if e.state == ADSRState::Decay {
        lemma_decay_step_bound(e.output as int, e.sustain_level as int, e.decay_coef as int, ONE as int);
    }
}

/// A decay step from a level of at most `ceiling` that is not below the
/// sustain level gives a level of at most `ceiling`.
pub proof fn lemma_decay_step_bound(output: int, sustain: int, coef: int, ceiling: int)
    requires
        0 <= output <= ceiling,
        0 <= sustain <= ceiling,
        sustain <= ONE,
        0 <= coef <= ONE,
    ensures
        spec_decay_base(sustain, coef) + spec_scale(output, coef) <= ceiling,
{
    let one = ONE as int;
    let base = spec_decay_base(sustain, coef);
    let kept = spec_scale(output, coef);
    lemma_decay_base_bound(sustain, coef);
    let p = output * coef;
    assert(0 <= output * coef) by (nonlinear_arith)
        requires
            0 <= output,
            0 <= coef,
    ;
    assert((p / one) * one <= p) by (nonlinear_arith)
        requires
            0 <= p,
            one > 0,
    ;
    assert((base + kept) * one <= ceiling * one) by (nonlinear_arith)
        requires
            base * one <= sustain * (one - coef),
            kept * one <= output * coef,
            0 <= output <= ceiling,
            0 <= sustain <= ceiling,
            0 <= coef <= one,
    ;
    assert(base + kept <= ceiling) by (nonlinear_arith)
        requires
            (base + kept) * one <= ceiling * one,
            one > 0,
    ;
}

/// However many samples are processed, every level and coefficient stays a
/// fraction of `ONE`: the output lies within [0, 1] at every step.
pub proof fn lemma_process_n_keeps_wf(e: ADSREnvelope, n: nat)
    requires
        e.wf(),
    ensures
        e.spec_process_n(n).wf(),
        0 <= e.spec_process_n(n).output <= ONE,
    decreases n,
{
    if n > 0 {
        lemma_process_keeps_wf(e);
        lemma_process_n_keeps_wf(e.spec_process(), (n - 1) as nat);
    }
}

/// During the attack the output never falls and never exceeds full level.
pub proof fn lemma_attack_rises(e: ADSREnvelope)
    requires
        e.wf(),
        e.state == ADSRState::Attack,
    ensures
        e.output <= e.spec_process().output <= ONE,
        e.spec_process().state == ADSRState::Attack || (e.spec_process().state == ADSRState::Decay
            && e.spec_process().output == ONE),
{
    let one = ONE as int;
    let out = e.output as int;
    let coef = e.attack_coef as int;
    let w = one - coef;
    let full = one + TARGET_RATIO_A;
    lemma_process_keeps_wf(e);
    lemma_product_bound(out, coef, one, one);
    lemma_product_bound(full, w, 2 * one, one);
    // The constant term is at least 1 - coef.
    assert(full * w >= w * one) by (nonlinear_arith)
        requires
            full >= one,
            w >= 0,
    ;
    assert((full * w) / one >= w) by (nonlinear_arith)
        requires
            full * w >= w * one,
            one > 0,
    ;
    // The kept part is at least output - (1 - coef).
    assert(out * coef >= (out - w) * one) by (nonlinear_arith)
        requires
            0 <= out <= one,
            0 <= coef <= one,
            w == one - coef,
    ;
    assert((out * coef) / one >= out - w) by (nonlinear_arith)
        requires
            out * coef >= (out - w) * one,
            one > 0,
    ;
}

/// With an attack coefficient of at most `ONE - 4`, every attack step either
/// raises the output or ends the attack at full level.
pub proof fn lemma_attack_progress(e: ADSREnvelope)
    requires
        e.wf(),
        e.state == ADSRState::Attack,
        e.attack_coef + 4 <= ONE,
    ensures
        e.spec_process().state == ADSRState::Decay || e.spec_process().output > e.output,
{
    let one = ONE as int;
    let out = e.output as int;
    let coef = e.attack_coef as int;
    let w = one - coef;
    let full = one + TARGET_RATIO_A;
    lemma_attack_rises(e);
    lemma_product_bound(out, coef, one, one);
    lemma_product_bound(full, w, 2 * one, one);
    assert(full * w >= (w + 1) * one) by (nonlinear_arith)
        requires
            full == one + 322122547,
            one == 1073741824,
            w >= 4,
    ;
    assert((full * w) / one >= w + 1) by (nonlinear_arith)
        requires
            full * w >= (w + 1) * one,
            one > 0,
    ;
    assert(out * coef >= (out - w) * one) by (nonlinear_arith)
        requires
            0 <= out <= one,
            0 <= coef <= one,
            w == one - coef,
    ;
    assert((out * coef) / one >= out - w) by (nonlinear_arith)
        requires
            out * coef >= (out - w) * one,
            one > 0,
    ;
}

/// No step leads into the attack: an envelope that is not attacking does not
/// attack later unless it is triggered.
pub proof fn lemma_no_return_to_attack(e: ADSREnvelope, n: nat)
    requires
        e.state != ADSRState::Attack,
    ensures
        e.spec_process_n(n).state != ADSRState::Attack,
    decreases n,
{
    if n > 0 {
        lemma_no_return_to_attack(e.spec_process(), (n - 1) as nat);
    }
}

/// With an attack coefficient of at most `ONE - 4`, the attack is over after
/// at most `ONE - output + 1` samples.
pub proof fn lemma_attack_ends(e: ADSREnvelope, n: nat)
    requires
        e.wf(),
        e.state == ADSRState::Attack,
        e.attack_coef + 4 <= ONE,
        n >= ONE - e.output + 1,
    ensures
        e.spec_process_n(n).state != ADSRState::Attack,
    decreases ONE - e.output,
{
    let next = e.spec_process();
    lemma_attack_progress(e);
    lemma_attack_rises(e);
    lemma_process_keeps_wf(e);
    if next.state == ADSRState::Attack {
        lemma_attack_ends(next, (n - 1) as nat);
    } else {
        lemma_no_return_to_attack(next, (n - 1) as nat);
    }
}

/// With a decay coefficient below `ONE`, every decay step from a level that is
/// not below the sustain level either lowers the output or ends the decay at
/// the sustain level.
pub proof fn lemma_decay_progress(e: ADSREnvelope)
    requires
        e.wf(),
        e.state == ADSRState::Decay,
        e.output >= e.sustain_level,
        e.decay_coef < ONE,
    ensures
        e.spec_process().state == ADSRState::Sustain || e.spec_process().output < e.output,
{
    let one = ONE as int;
    let out = e.output as int;
    let sus = e.sustain_level as int;
    let coef = e.decay_coef as int;
    let w = one - coef;
    let base = spec_decay_base(sus, coef);
    let kept = spec_scale(out, coef);
    lemma_decay_falls(e);
    lemma_product_bound(out, coef, one, one);
    let p = out * coef;
    assert(kept * one <= p) by (nonlinear_arith)
        requires
            kept == p / one,
            0 <= p,
            one > 0,
    ;
    if sus >= TARGET_RATIO_DR as int {
        let x = sus - TARGET_RATIO_DR;
        lemma_product_bound(x, w, x, one);
        let q = x * w;
        assert(base * one <= q) by (nonlinear_arith)
            requires
                base == q / one,
                0 <= q,
                one > 0,
        ;
        assert((base + kept) * one < out * one) by (nonlinear_arith)
            requires
                base * one <= (sus - 107374) * w,
                kept * one <= out * coef,
                w == one - coef,
                w >= 1,
                sus <= out,
        ;
    } else {
        let x = TARGET_RATIO_DR - sus;
        lemma_product_bound(x, w, x, one);
        assert(base <= 0);
        if out > 0 {
            assert(out * coef < out * one) by (nonlinear_arith)
                requires
                    0 < out,
                    0 <= coef < one,
            ;
        }
    }
}

/// With a decay coefficient below `ONE`, a decay that starts at or above the
/// sustain level has reached the sustain level after at most
/// `output - sustain_level + 1` samples.
pub proof fn lemma_decay_ends(e: ADSREnvelope, n: nat)
    requires
        e.wf(),
        e.state == ADSRState::Decay,
        e.output >= e.sustain_level,
        e.decay_coef < ONE,
        n >= e.output - e.sustain_level + 1,
    ensures
        e.spec_process_n(n).state == ADSRState::Sustain,
        e.spec_process_n(n).output == e.sustain_level,
    decreases e.output - e.sustain_level,
{
    let next = e.spec_process();
    lemma_decay_progress(e);
    lemma_decay_falls(e);
    lemma_process_keeps_wf(e);
    if next.state == ADSRState::Decay {
        lemma_decay_ends(next, (n - 1) as nat);
    } else {
        lemma_sustain_holds(next, (n - 1) as nat);
    }
}

/// During the decay, from a level that is not below the sustain level, the
/// output never rises and never falls below the sustain level.
pub proof fn lemma_decay_falls(e: ADSREnvelope)
    requires
        e.wf(),
        e.state == ADSRState::Decay,
        e.output >= e.sustain_level,
    ensures
        e.sustain_level <= e.spec_process().output <= e.output,
        e.spec_process().state == ADSRState::Decay || (e.spec_process().state
            == ADSRState::Sustain && e.spec_process().output == e.sustain_level),
{
    lemma_process_keeps_wf(e);
    lemma_decay_step_bound(e.output as int, e.sustain_level as int, e.decay_coef as int, e.output as int);
}

/// During the release the output never rises; with a coefficient below `ONE`
/// it falls strictly until the envelope comes to rest at exactly zero.
pub proof fn lemma_release_falls(e: ADSREnvelope)
    requires
        e.wf(),
        e.state == ADSRState::Release,
    ensures
        e.spec_process().output <= e.output,
        e.spec_process().state == ADSRState::Release || (e.spec_process().state == ADSRState::Idle
            && e.spec_process().output == 0),
        e.release_coef < ONE ==> e.spec_process().output < e.output || e.spec_process().state
            == ADSRState::Idle,
{
    let one = ONE as int;
    let out = e.output as int;
    let coef = e.release_coef as int;
    lemma_process_keeps_wf(e);
    lemma_product_bound(out, coef, one, one);
    lemma_product_bound(TARGET_RATIO_DR as int, one - coef, one, one);
    if coef < one && out > 0 {
        assert(out * coef < out * one) by (nonlinear_arith)
            requires
                0 < out,
                0 <= coef < one,
        ;
        assert((out * coef) / one < out) by (nonlinear_arith)
            requires
                out * coef < out * one,
                one > 0,
        ;
    }
}

/// A released envelope whose release coefficient is below `ONE` comes to rest
/// at exactly zero within `output + 1` samples.
pub proof fn lemma_release_finishes(e: ADSREnvelope)
    requires
        e.wf(),
        e.state == ADSRState::Release,
        e.release_coef < ONE,
    ensures
        e.spec_process_n((e.output + 1) as nat).state == ADSRState::Idle,
        e.spec_process_n((e.output + 1) as nat).output == 0,
    decreases e.output,
{
    let next = e.spec_process();
    let n = (e.output + 1) as nat;
    lemma_release_falls(e);
    lemma_process_keeps_wf(e);
    assert(e.spec_process_n(n) == next.spec_process_n((n - 1) as nat));
    if next.state == ADSRState::Idle {
        lemma_idle_stays(next, (n - 1) as nat);
    } else {
        lemma_release_finishes(next);
        lemma_process_n_splits(next, (next.output + 1) as nat, (e.output - next.output - 1) as nat);
        lemma_idle_stays(
            next.spec_process_n((next.output + 1) as nat),
            (e.output - next.output - 1) as nat,
        );
    }
}

/// Processing `a + b` samples is processing `a` samples and then `b` more.
pub proof fn lemma_process_n_splits(e: ADSREnvelope, a: nat, b: nat)
    ensures
        e.spec_process_n(a + b) == e.spec_process_n(a).spec_process_n(b),
    decreases a,
{
    if a > 0 {
        lemma_process_n_splits(e.spec_process(), (a - 1) as nat, b);
        assert(e.spec_process_n(a + b) == e.spec_process().spec_process_n((a + b - 1) as nat));
    }
}

/// An envelope at rest stays at rest, with its output unchanged, however many
/// samples are processed: only `trigger` or `release` leaves that state.
pub proof fn lemma_idle_stays(e: ADSREnvelope, n: nat)
    requires
        e.state == ADSRState::Idle,
    ensures
        e.spec_process_n(n) == e,
    decreases n,
{
    if n > 0 {
        lemma_idle_stays(e, (n - 1) as nat);
    }
}

/// An envelope that has reached its sustain level holds it, however many
/// samples are processed.
pub proof fn lemma_sustain_holds(e: ADSREnvelope, n: nat)
    requires
        e.state == ADSRState::Sustain,
    ensures
        e.spec_process_n(n) == e,
    decreases n,
{
    if n > 0 {
        lemma_sustain_holds(e, (n - 1) as nat);
    }
}

} // verus!
