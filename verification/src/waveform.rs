//! Waveform generators: functions from a phase, a fraction of one cycle, to a
//! signal value between -1.0 and 1.0, both in fixed point.

use vstd::prelude::*;
use crate::fixed::{exp2, lemma_product_bound, magnitude, mul_fixed, spec_abs, spec_exp2, spec_mul_fixed, spec_unit_clamp, unit_clamp, HALF, ONE};
use crate::helpers::{log2, spec_log2};
use crate::indexed::IndexedEnum;

verus! {

/// The shape an oscillator evaluates, chosen at run time.
#[derive(Debug, Clone, Copy, PartialEq, Eq, Structural)]
pub enum Dynamic {
    Sine,
    Saw,
    Square,
    SawExp2,
    Random,
}

impl IndexedEnum for Dynamic {
    open spec fn count() -> nat {
        5
    }

    open spec fn index(&self) -> nat {
        match *self {
            Dynamic::Sine => 0,
            Dynamic::Saw => 1,
            Dynamic::Square => 2,
            Dynamic::SawExp2 => 3,
            Dynamic::Random => 4,
        }
    }

    open spec fn member(index: nat) -> Self {
        if index == 0 {
            Dynamic::Sine
        } else if index == 1 {
            Dynamic::Saw
        } else if index == 2 {
            Dynamic::Square
        } else if index == 3 {
            Dynamic::SawExp2
        } else {
            Dynamic::Random
        }
    }

    proof fn index_is_dense(&self) {
    }

    proof fn member_is_indexed(index: nat) {
        assert(Dynamic::member(index).index() == index);
    }

    fn num_items() -> (n: u32) {
        5
    }

    fn to_index(&self) -> (i: u32) {
        match *self {
            Dynamic::Sine => 0,
            Dynamic::Saw => 1,
            Dynamic::Square => 2,
            Dynamic::SawExp2 => 3,
            Dynamic::Random => 4,
        }
    }

    fn from_index(index: u32) -> (m: Self) {
        proof {
            Self::member_is_indexed(index as nat);
        }
        match index {
            0 => Dynamic::Sine,
            1 => Dynamic::Saw,
            2 => Dynamic::Square,
            3 => Dynamic::SawExp2,
            _ => Dynamic::Random,
        }
    }
}


impl Dynamic {
    /// The identifier as written, for display.
    pub fn name(&self) -> (s: &'static str)
        ensures
            s@ == self.spec_name(),
    {
        match *self {
            Dynamic::Sine => "Sine",
            Dynamic::Saw => "Saw",
            Dynamic::Square => "Square",
            Dynamic::SawExp2 => "SawExp2",
            Dynamic::Random => "Random",
        }
    }

    /// The identifier as written.
    pub open spec fn spec_name(&self) -> Seq<char> {
        match *self {
            Dynamic::Sine => "Sine"@,
            Dynamic::Saw => "Saw"@,
            Dynamic::Square => "Square"@,
            Dynamic::SawExp2 => "SawExp2"@,
            Dynamic::Random => "Random"@,
        }
    }
}

/// A quarter of a cycle.
pub const QUARTER: u64 = 268435456;

/// The angle of a full cycle, two pi, in fixed point.
pub const TAU: u64 = 6746518852;

/// A pure sine.
pub struct Sine;

/// A descending ramp.
pub struct Saw;

/// A square wave: low in the first half of the cycle, high in the second.
pub struct Square;

/// The ramp bent toward a spike: the saw times the square of its magnitude.
pub struct SawExp2;

/// Noise: every evaluation draws a new value.
pub struct Random;

/// A waveform generator.
pub trait Waveform {
    /// Whether `value` can be the result at `phase`. A periodic waveform
    /// admits exactly one value per phase; noise admits every value in range.
    spec fn yields(&self, phase: u64, value: int) -> bool;

    /// The signal value at `phase`, of which only the fraction of a cycle
    /// counts.
    fn value_at_phase(&self, phase: u64) -> (value: i64)
        ensures
            self.yields(phase, value as int),
            -ONE <= value <= ONE,
    ;
}

/// The part of `phase` within one cycle.
pub open spec fn spec_fract(phase: int) -> int {
    phase % (ONE as int)
}

/// The saw at `phase`: `1 - 2 * fract(phase)`.
pub open spec fn spec_saw(phase: int) -> int {
    ONE - 2 * spec_fract(phase)
}

/// The square at `phase`: -1 in the first half of the cycle, 1 in the second.
pub open spec fn spec_square(phase: int) -> int {
    if spec_fract(phase) < HALF {
        -(ONE as int)
    } else {
        ONE as int
    }
}

/// `value` times the square of its magnitude.
pub open spec fn spec_cubed(value: int) -> int {
    let m = spec_abs(value);
    let c = (m * ((m * m) / (ONE as int))) / (ONE as int);
    if value < 0 {
        -c
    } else {
        c
    }
}

/// The bent saw at `phase`: `saw * |saw|^2`.
pub open spec fn spec_saw_exp2(phase: int) -> int {
    spec_cubed(spec_saw(phase))
}

/// The sine of the first quarter of the cycle, at `x` of at most `QUARTER`:
/// the odd polynomial of ninth degree in the angle `x * TAU`, in nested form,
/// limited to 1.0.
pub open spec fn spec_sine_quarter(x: int) -> int {
    let one = ONE as int;
    let theta = (x * TAU) / one;
    let t2 = (theta * theta) / one;
    let a4 = one - t2 / 72;
    let a3 = one - ((t2 * a4) / one) / 42;
    let a2 = one - ((t2 * a3) / one) / 20;
    let a1 = one - ((t2 * a2) / one) / 6;
    let y = (theta * a1) / one;
    if y > one {
        one
    } else {
        y
    }
}

/// The sine at `phase`: the quarter wave, mirrored in the second and fourth
/// quarter of the cycle and negated in its second half.
pub open spec fn spec_sine(phase: int) -> int {
    let f = spec_fract(phase);
    let q = f / (QUARTER as int);
    let r = f % (QUARTER as int);
    let x = if q % 2 == 1 {
        QUARTER - r
    } else {
        r
    };
    if q >= 2 {
        -spec_sine_quarter(x)
    } else {
        spec_sine_quarter(x)
    }
}

/// The noise value made from 32 random bits: they are spread evenly from -1.0
/// to 1.0.
pub open spec fn spec_noise(bits: u32) -> int {
    (bits * (2 * ONE)) / 0xffff_ffff - ONE
}

/// The saw at `phase`.
pub fn saw(phase: u64) -> (value: i64)
    ensures
        value == spec_saw(phase as int),
        -ONE < value <= ONE,
{
    let f: u64 = phase % ONE;
    (ONE as i64) - 2 * (f as i64)
}

/// `value` times the square of its magnitude.
pub fn cubed(value: i64) -> (c: i64)
    requires
        -ONE <= value <= ONE,
    ensures
        c == spec_cubed(value as int),
        -ONE <= c <= ONE,
        (value >= 0) == (c >= 0) || c == 0,
{
    let m: u64 = if value < 0 {
        (-value) as u64
    } else {
        value as u64
    };
    proof {
        lemma_product_bound(m as int, m as int, ONE as int, ONE as int);
    }
    let square: u64 = m * m / ONE;
    proof {
        lemma_product_bound(m as int, square as int, ONE as int, ONE as int);
    }
    let c: u64 = m * square / ONE;
    if value < 0 {
        -(c as i64)
    } else {
        c as i64
    }
}

/// The sine of the first quarter of the cycle.
pub fn sine_quarter(x: u64) -> (y: u64)
    requires
        x <= QUARTER,
    ensures
        y == spec_sine_quarter(x as int),
        y <= ONE,
{
    let ghost one = ONE as int;
    proof {
        lemma_product_bound(x as int, TAU as int, QUARTER as int, TAU as int);
    }
    let theta: u64 = x * TAU / ONE;
    assert(theta <= 1686629713) by {
        assert(x * TAU <= QUARTER * TAU) by (nonlinear_arith)
            requires
                x <= QUARTER,
        ;
    }
    proof {
        lemma_product_bound(theta as int, theta as int, 1686629713, 1686629713);
    }
    let t2: u64 = theta * theta / ONE;
    assert(t2 <= 2649351758) by {
        assert(theta * theta <= 1686629713 * 1686629713) by (nonlinear_arith)
            requires
                theta <= 1686629713,
        ;
    }
    let a4: u64 = ONE - t2 / 72;
    proof {
        lemma_product_bound(t2 as int, a4 as int, 2649351758, ONE as int);
    }
    let a3: u64 = ONE - t2 * a4 / ONE / 42;
    proof {
        lemma_product_bound(t2 as int, a3 as int, 2649351758, ONE as int);
    }
    let a2: u64 = ONE - t2 * a3 / ONE / 20;
    proof {
        lemma_product_bound(t2 as int, a2 as int, 2649351758, ONE as int);
    }
    let a1: u64 = ONE - t2 * a2 / ONE / 6;
    proof {
        lemma_product_bound(theta as int, a1 as int, 1686629713, ONE as int);
    }
    let y: u64 = theta * a1 / ONE;
    if y > ONE {
        ONE
    } else {
        y
    }
}

/// The sine at `phase`.
pub fn sine(phase: u64) -> (value: i64)
    ensures
        value == spec_sine(phase as int),
        -ONE <= value <= ONE,
{
    let f: u64 = phase % ONE;
    let q: u64 = f / QUARTER;
    let r: u64 = f % QUARTER;
    let x: u64 = if q % 2 == 1 {
        QUARTER - r
    } else {
        r
    };
    let y: u64 = sine_quarter(x);
    if q >= 2 {
        -(y as i64)
    } else {
        y as i64
    }
}

/// The noise value made from 32 random bits.
pub fn noise_from_bits(bits: u32) -> (value: i64)
    ensures
        value == spec_noise(bits),
        -ONE <= value <= ONE,
{
    assert(bits * (2 * ONE) <= 0xffff_ffff * (2 * ONE)) by (nonlinear_arith)
        requires
            bits <= 0xffff_ffff,
    ;
    let spread: u64 = (bits as u64) * (2 * ONE) / 0xffff_ffff;
    (spread as i64) - (ONE as i64)
}

/// `rand::random`, asked for a `u32`: 32 bits from the generator of the
/// current thread. Nothing is claimed of the result: any value can come back.
#[verifier::external_body]
fn random_bits() -> (bits: u32) {
    rand::random::<u32>()
}

impl Waveform for Sine {
    open spec fn yields(&self, phase: u64, value: int) -> bool {
        value == spec_sine(phase as int)
    }

    fn value_at_phase(&self, phase: u64) -> (value: i64) {
        sine(phase)
    }
}

impl Waveform for Saw {
    open spec fn yields(&self, phase: u64, value: int) -> bool {
        value == spec_saw(phase as int)
    }

    fn value_at_phase(&self, phase: u64) -> (value: i64) {
        saw(phase)
    }
}

impl Waveform for SawExp2 {
    open spec fn yields(&self, phase: u64, value: int) -> bool {
        value == spec_saw_exp2(phase as int)
    }

    fn value_at_phase(&self, phase: u64) -> (value: i64) {
        cubed(saw(phase))
    }
}

impl Waveform for Square {
    open spec fn yields(&self, phase: u64, value: int) -> bool {
        value == spec_square(phase as int)
    }

    fn value_at_phase(&self, phase: u64) -> (value: i64) {
        if phase % ONE < HALF {
            -(ONE as i64)
        } else {
            ONE as i64
        }
    }
}

impl Waveform for Random {
    open spec fn yields(&self, phase: u64, value: int) -> bool {
        exists|bits: u32| value == spec_noise(bits)
    }

    fn value_at_phase(&self, _phase: u64) -> (value: i64) {
        noise_from_bits(random_bits())
    }
}

impl Waveform for Dynamic {
    open spec fn yields(&self, phase: u64, value: int) -> bool {
        match *self {
            Dynamic::Sine => Sine.yields(phase, value),
            Dynamic::Saw => Saw.yields(phase, value),
            Dynamic::Square => Square.yields(phase, value),
            Dynamic::SawExp2 => SawExp2.yields(phase, value),
            Dynamic::Random => Random.yields(phase, value),
        }
    }

    fn value_at_phase(&self, phase: u64) -> (value: i64) {
        match *self {
            Dynamic::Sine => Sine.value_at_phase(phase),
            Dynamic::Saw => Saw.value_at_phase(phase),
            Dynamic::Square => Square.value_at_phase(phase),
            Dynamic::SawExp2 => SawExp2.value_at_phase(phase),
            Dynamic::Random => Random.value_at_phase(phase),
        }
    }
}

/// The saw raised to a power that keeps its sign: `saw * |saw|^steepness`.
/// The larger the steepness, the closer the curve comes to a spike.
/// Steepness above 64.0 counts as 64.0.
pub struct SawExp(pub u64);

/// The largest steepness that makes a difference: 64.0.
pub const STEEPNESS_LIMIT: u64 = 68719476736;

/// `value`, of at most 1.0 in magnitude, times its magnitude to the power
/// `steepness`; the power is two to the power of `steepness` times the binary
/// logarithm of the magnitude.
pub open spec fn spec_steepened(value: int, steepness: u64) -> int {
    if value == 0 {
        0
    } else {
        let limited = if steepness > STEEPNESS_LIMIT {
            STEEPNESS_LIMIT as int
        } else {
            steepness as int
        };
        let exponent = spec_mul_fixed(spec_log2(spec_abs(value)), limited);
        spec_mul_fixed(value, spec_unit_clamp(spec_exp2(exponent)))
    }
}

/// `value` times its magnitude to the power `steepness`.
pub fn steepened(value: i64, steepness: u64) -> (out: i64)
    requires
        -ONE <= value <= ONE,
    ensures
        out == spec_steepened(value as int, steepness),
        -ONE <= out <= ONE,
{
    if value == 0 {
        0
    } else {
        let limited: u64 = if steepness > STEEPNESS_LIMIT {
            STEEPNESS_LIMIT
        } else {
            steepness
        };
        let log: i64 = log2(magnitude(value));
        let exponent: i64 = mul_fixed(log, limited as i64);
        let power: u64 = unit_clamp(exp2(exponent));
        mul_fixed(value, power as i64)
    }
}

impl Waveform for SawExp {
    open spec fn yields(&self, phase: u64, value: int) -> bool {
        value == spec_steepened(spec_saw(phase as int), self.0)
    }

    fn value_at_phase(&self, phase: u64) -> (value: i64) {
        steepened(saw(phase), self.0)
    }
}

/// A blend of sine and square: `square_mix` is the share of the square, the
/// rest is sine. Shares above 1.0 count as 1.0.
pub struct SinSq {
    pub square_mix: u64,
}

/// The blend of sine and square at `phase` with the square's share `mix`.
pub open spec fn spec_sin_sq(mix: u64, phase: int) -> int {
    let share = spec_unit_clamp(mix as int);
    spec_mul_fixed(spec_sine(phase), ONE - share) + spec_mul_fixed(spec_square(phase), share)
}

impl Waveform for SinSq {
    open spec fn yields(&self, phase: u64, value: int) -> bool {
        value == spec_sin_sq(self.square_mix, phase as int)
    }

    fn value_at_phase(&self, phase: u64) -> (value: i64) {
        let share: u64 = unit_clamp(self.square_mix);
        let curve: i64 = sine(phase);
        let round: i64 = mul_fixed(curve, (ONE - share) as i64);
        let edge: i64 = mul_fixed(Square.value_at_phase(phase), share as i64);
        proof {
            let m = spec_abs(curve as int);
            lemma_product_bound((ONE - share) as int, m, (ONE - share) as int, ONE as int);
            lemma_product_bound(share as int, ONE as int, share as int, ONE as int);
            assert(m * (ONE - share) == (ONE - share) * m) by (nonlinear_arith);
            assert(ONE * share == share * ONE) by (nonlinear_arith);
        }
        round + edge
    }
}

/// The square wave is -1 throughout the first half of every cycle and 1
/// throughout the second.
pub proof fn lemma_square_halves(phase: int)
    ensures
        0 <= spec_fract(phase) < ONE,
        spec_fract(phase) < HALF ==> spec_square(phase) == -ONE,
        spec_fract(phase) >= HALF ==> spec_square(phase) == ONE,
{
}

/// The sine is 0 at the start and in the middle of the cycle, 1 after a
/// quarter and -1 after three quarters of it.
pub proof fn lemma_sine_quarter_points()
    ensures
        spec_sine(0) == 0,
        spec_sine(QUARTER as int) == ONE,
        spec_sine(HALF as int) == 0,
        spec_sine(3 * QUARTER) == -ONE,
{
    let one = ONE as int;
    assert(spec_sine_quarter(0) == 0) by {
        assert((0int * TAU) / one == 0);
        let z = 0int;
        assert((z * z) / one == 0);
        assert((z * one) / one == 0);
    }
    assert(spec_sine_quarter(QUARTER as int) == one) by {
        let theta = 1686629713int;
        assert((QUARTER * TAU) / one == theta);
        let t2 = 2649351757int;
        assert((theta * theta) / one == t2);
        let a4 = one - t2 / 72;
        let a3 = one - ((t2 * a4) / one) / 42;
        let a2 = one - ((t2 * a3) / one) / 20;
        let a1 = one - ((t2 * a2) / one) / 6;
        assert((theta * a1) / one >= one);
    }
    assert(spec_fract(0) == 0);
    assert(spec_fract(QUARTER as int) == QUARTER);
    assert(spec_fract(HALF as int) == HALF);
    assert(spec_fract(3 * QUARTER) == 3 * QUARTER);
}

/// Half a cycle later the sine has the opposite sign and the same magnitude.
pub proof fn lemma_sine_half_turn(phase: int)
    requires
        0 <= phase < HALF,
    ensures
        spec_sine(phase + HALF) == -spec_sine(phase),
{
    let quarter = QUARTER as int;
    assert(spec_fract(phase) == phase);
    assert(spec_fract(phase + HALF) == phase + HALF);
    assert(HALF == 2 * quarter);
    assert((phase + 2 * quarter) / quarter == phase / quarter + 2) by (nonlinear_arith)
        requires
            quarter > 0,
    ;
    assert((phase + 2 * quarter) % quarter == phase % quarter) by (nonlinear_arith)
        requires
            quarter > 0,
    ;
    assert(phase / quarter < 2) by (nonlinear_arith)
        requires
            0 <= phase < 2 * quarter,
            quarter > 0,
    ;
    assert(0 <= phase / quarter) by (nonlinear_arith)
        requires
            0 <= phase,
            quarter > 0,
    ;
}

/// Every waveform repeats with the cycle: whole cycles added to the phase do
/// not change the sine, the saw, the bent saw or the square.
pub proof fn lemma_waveforms_periodic(phase: int, cycles: int)
    ensures
        spec_sine(phase + cycles * ONE) == spec_sine(phase),
        spec_saw(phase + cycles * ONE) == spec_saw(phase),
        spec_saw_exp2(phase + cycles * ONE) == spec_saw_exp2(phase),
        spec_square(phase + cycles * ONE) == spec_square(phase),
{
    let one = ONE as int;
    vstd::arithmetic::div_mod::lemma_mod_multiples_vanish(cycles, phase, one);
    assert(one * cycles + phase == phase + cycles * one) by (nonlinear_arith);
}

} // verus!
