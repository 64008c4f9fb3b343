//! The mappings from control values to physical quantities, all in fixed
//! point: frequency ratios, gains, cents, note frequencies and time steps.

use vstd::prelude::*;
use vstd::arithmetic::power2::{lemma2_to64, pow2};
use crate::fixed::{exp2, lemma_exp2_range, lemma_product_bound, spec_exp2, spec_trunc_div, spec_unit_clamp, unit_clamp, HALF, ONE};

verus! {

/// The binary logarithm of Euler's number in fixed point.
pub const LOG2_E: u64 = 1549082005;

/// Euler's number less one, in fixed point.
pub const E_MINUS_ONE: u64 = 1844991065;

/// One second in time steps: a time step is 2^-50 s.
pub const SECOND: u64 = 1125899906842624;

/// The frequency three semitones below note 0, 6.875 Hz, in fixed point.
pub const BASE_HZ: u64 = 7381975040;

/// The binary logarithm of `(1 + ratio) / ratio` for the attack's target
/// ratio of 0.3.
pub const LOG2_RATIO_A: u64 = 2271476366;

/// The binary logarithm of `(1 + ratio) / ratio` for the target ratio of
/// 0.0001 of decay and release.
pub const LOG2_RATIO_DR: u64 = 14267727428;

/// The largest value of a `u64`.
pub const U64_MAX: u64 = 0xffff_ffff_ffff_ffff;

/// The largest value of an `i64`.
pub const I64_MAX: u64 = 0x7fff_ffff_ffff_ffff;

/// `value` limited to at most `limit`.
pub open spec fn spec_at_most(value: int, limit: int) -> int {
    if value > limit {
        limit
    } else {
        value
    }
}

/// A key velocity as a linear gain: `velocity / 127`, at most 1.0.
pub open spec fn spec_velocity(velocity: u8) -> int {
    spec_at_most((velocity * ONE) / 127, ONE as int)
}

/// A key velocity as a linear gain: `velocity / 127`, at most 1.0.
pub fn velocity_scale(velocity: u8) -> (gain: u64)
    ensures
        gain == spec_velocity(velocity),
        gain <= ONE,
{
    assert(velocity * ONE <= 255 * ONE) by (nonlinear_arith)
        requires
            velocity <= 255,
    ;
    let linear: u64 = (velocity as u64) * ONE / 127;
    if linear > ONE {
        ONE
    } else {
        linear
    }
}

/// Leaves `value` as it is: fixed-point numbers have no denormals.
pub fn fix_denormal(value: i64) -> (same: i64)
    ensures
        same == value,
{
    value
}

/// The frequency ratio of an oscillator: `1 + floor(coarse * 32.99) +
/// fine^2`, with both controls limited to 1.0.
pub open spec fn spec_ratio_scalar(coarse: int, fine: int) -> int {
    let c = spec_unit_clamp(coarse);
    let f = spec_unit_clamp(fine);
    ONE + (((c * 3299) / 100) / (ONE as int)) * ONE + (f * f) / (ONE as int)
}

/// The frequency ratio of an oscillator, between 1 and 34.
pub fn ratio_scalar(coarse: u64, fine: u64) -> (ratio: u64)
    ensures
        ratio == spec_ratio_scalar(coarse as int, fine as int),
        ONE <= ratio <= 34 * ONE,
{
    let c: u64 = unit_clamp(coarse);
    let f: u64 = unit_clamp(fine);
    proof {
        lemma_product_bound(f as int, f as int, ONE as int, ONE as int);
        assert(c * 3299 <= ONE * 3299) by (nonlinear_arith)
            requires
                c <= ONE,
        ;
    }
    let steps: u64 = c * 3299 / 100 / ONE;
    ONE + steps * ONE + f * f / ONE
}

/// A linear control as a gain on an exponential curve: `(e^x - 1) / (e - 1)`,
/// with the control and the result limited to 1.0.
pub open spec fn spec_log_control(linear: int) -> int {
    let x = spec_unit_clamp(linear);
    let e = spec_exp2((x * LOG2_E) / (ONE as int));
    spec_unit_clamp(((e - ONE) * ONE) / (E_MINUS_ONE as int))
}

/// A linear control as a gain on an exponential curve.
pub fn log_control(linear: u64) -> (gain: u64)
    ensures
        gain == spec_log_control(linear as int),
        gain <= ONE,
{
    let x: u64 = unit_clamp(linear);
    proof {
        lemma_product_bound(x as int, LOG2_E as int, ONE as int, LOG2_E as int);
        lemma_product_bound(LOG2_E as int, x as int, LOG2_E as int, ONE as int);
        assert(x * LOG2_E == LOG2_E * x) by (nonlinear_arith);
        lemma_exp2_range((x * LOG2_E) / (ONE as int), 2);
        lemma2_to64();
    }
    let e: u64 = exp2((x * LOG2_E / ONE) as i64);
    assert((e - ONE) * ONE <= 12 * ONE * ONE) by (nonlinear_arith)
        requires
            ONE <= e <= 12 * ONE,
    ;
    unit_clamp((e - ONE) * ONE / E_MINUS_ONE)
}

/// A control as a detune in cents: the range of the control spans 2400 cents
/// around its centre. The control is limited to 1.0.
pub open spec fn spec_unit_to_cents(unit: int) -> int {
    (spec_unit_clamp(unit) - HALF) * 2400
}

/// A control as a detune in cents, from -1200 to 1200.
pub fn unit_to_cents(unit: u64) -> (cents: i64)
    ensures
        cents == spec_unit_to_cents(unit as int),
        -1200 * ONE <= cents <= 1200 * ONE,
{
    let u: u64 = unit_clamp(unit);
    ((u as i64) - (HALF as i64)) * 2400
}

/// Cents as a frequency ratio: two to the power `cents / 1200`.
pub open spec fn spec_cents_to_ratio(cents: int) -> int {
    spec_exp2(spec_trunc_div(cents, 1200))
}

/// Cents as a frequency ratio.
pub fn cents_to_ratio(cents: i64) -> (ratio: u64)
    ensures
        ratio == spec_cents_to_ratio(cents as int),
{
    exp2(cents / 1200)
}

/// The detune ratio of a control: a tenth of its cents, as a ratio.
pub open spec fn spec_param_detune(param: int) -> int {
    spec_cents_to_ratio(spec_trunc_div(spec_unit_to_cents(param), 10))
}

/// The detune ratio of a control, never zero and below 6.
pub fn param_detune(param: u64) -> (ratio: u64)
    ensures
        ratio == spec_param_detune(param as int),
        0 < ratio <= 6 * ONE,
{
    let cents: i64 = unit_to_cents(param) / 10;
    proof {
        let x = spec_trunc_div(cents as int, 1200);
        assert(-ONE < x < ONE);
        lemma_exp2_range(x, 1);
        lemma_exp2_positive_near_zero(x);
        lemma2_to64();
    }
    cents_to_ratio(cents)
}

/// Within one octave around zero, two to the power `x` is positive.
pub proof fn lemma_exp2_positive_near_zero(x: int)
    requires
        -ONE <= x < ONE,
    ensures
        spec_exp2(x) > 0,
{
    let one = ONE as int;
    lemma2_to64();
    crate::fixed::lemma_exp2_fraction_bound(x % one);
    if x >= 0 {
        lemma_exp2_range(x, 1);
    } else {
        let p = crate::fixed::spec_exp2_fraction(x % one);
        assert(x / one == -1);
        assert(pow2(1) == 2);
        assert(p / 2 > 0);
    }
}

/// The frequency of a note: 440 Hz at note 69, doubling every twelve notes.
pub open spec fn spec_midi_note_to_hz(note: u8) -> int {
    (BASE_HZ * spec_exp2(((note + 3) * ONE) / 12)) / (ONE as int)
}

/// The frequency of a note in Hz.
pub fn midi_note_to_hz(note: u8) -> (hz: u64)
    ensures
        hz == spec_midi_note_to_hz(note),
        0 < hz <= 0x0200_0000_0000_0000,
{
    assert((note + 3) * ONE <= 258 * ONE) by (nonlinear_arith)
        requires
            note <= 255,
    ;
    let x: u64 = ((note as u64) + 3) * ONE / 12;
    proof {
        lemma_exp2_range(x as int, 22);
        lemma2_to64();
        assert(pow2(22) == 0x400000);
    }
    let e: u64 = exp2(x as i64);
    assert(BASE_HZ * ONE <= BASE_HZ * e <= BASE_HZ * (3 * ONE * 0x400000)) by (nonlinear_arith)
        requires
            ONE <= e <= 3 * ONE * 0x400000,
    ;
    let product: u128 = (BASE_HZ as u128) * (e as u128);
    assert(BASE_HZ <= product / (ONE as u128) <= BASE_HZ * 3 * 0x400000) by (nonlinear_arith)
        requires
            BASE_HZ * ONE <= product <= BASE_HZ * (3 * ONE * 0x400000),
    ;
    let hz: u128 = product / (ONE as u128);
    hz as u64
}

/// A control at zero gives no gain at all.
pub proof fn lemma_log_control_zero()
    ensures
        spec_log_control(0) == 0,
{
    crate::fixed::lemma_exp2_zero();
    assert((0int * LOG2_E) / (ONE as int) == 0);
    assert(((ONE - ONE) * ONE) / (E_MINUS_ONE as int) == 0);
}

/// A detune control at its centre leaves the frequency as it is.
pub proof fn lemma_detune_centre()
    ensures
        spec_unit_to_cents(HALF as int) == 0,
        spec_param_detune(HALF as int) == ONE,
{
    crate::fixed::lemma_exp2_zero();
    assert(spec_trunc_div(0, 10) == 0);
    assert(spec_trunc_div(0, 1200) == 0);
}

/// Twelve notes up the frequency doubles, up to one unit of rounding.
pub proof fn lemma_octave_doubles(note: u8)
    requires
        note <= 243,
    ensures
        2 * spec_midi_note_to_hz(note) <= spec_midi_note_to_hz((note + 12) as u8) <= 2
            * spec_midi_note_to_hz(note) + 1,
{
    let one = ONE as int;
    let x = ((note + 3) * ONE) / 12;
    let up = ((note + 15) * ONE) / 12;
    assert(up == x + one) by {
        assert((note + 15) * ONE == (note + 3) * ONE + 12 * one) by (nonlinear_arith)
            requires
                one == ONE,
        ;
        vstd::arithmetic::div_mod::lemma_div_plus_one((note + 3) * ONE, 12);
    }
    assert(0 <= x < 31 * one) by {
        assert((note + 3) * ONE <= 258 * one) by (nonlinear_arith)
            requires
                note <= 255,
                one == ONE,
        ;
    }
    crate::fixed::lemma_exp2_doubles(x);
    lemma_exp2_range(x, 22);
    let e = spec_exp2(x);
    let p = BASE_HZ * e;
    assert(BASE_HZ * (2 * e) == 2 * p) by (nonlinear_arith)
        requires
            p == BASE_HZ * e,
    ;
    assert(0 <= p) by (nonlinear_arith)
        requires
            p == BASE_HZ * e,
            e >= 0,
    ;
    assert(2 * (p / one) <= (2 * p) / one <= 2 * (p / one) + 1) by (nonlinear_arith)
        requires
            0 <= p,
            one > 0,
    ;
}

/// The binary logarithm of ten in fixed point.
pub const LOG2_10: u64 = 3566893131;

/// How often a value of at least 1.0 can be halved before it falls below 2.0.
pub open spec fn spec_halvings(x: int) -> int
    decreases x,
{
    if x >= 2 * ONE {
        1 + spec_halvings(x / 2)
    } else {
        0
    }
}

/// `x`, of at least 1.0, halved until it is below 2.0.
pub open spec fn spec_halved(x: int) -> int
    decreases x,
{
    if x >= 2 * ONE {
        spec_halved(x / 2)
    } else {
        x
    }
}

/// How often a positive value has to be doubled to reach 1.0.
pub open spec fn spec_doublings(x: int) -> int
    decreases 2 * ONE - x,
{
    if 0 < x < ONE {
        1 + spec_doublings(2 * x)
    } else {
        0
    }
}

/// A positive `x` doubled until it has reached 1.0.
pub open spec fn spec_doubled(x: int) -> int
    decreases 2 * ONE - x,
{
    if 0 < x < ONE {
        spec_doubled(2 * x)
    } else {
        x
    }
}

/// The fraction of the binary logarithm of `y`, a value from 1.0 up to 2.0,
/// bit by bit from `weight` down: squaring `y` doubles its logarithm, and
/// the square reaches 2.0 exactly if the next bit is set.
pub open spec fn spec_log2_fraction(y: int, weight: int) -> int
    decreases weight,
{
    if weight <= 0 {
        0
    } else {
        let s = (y * y) / (ONE as int);
        if s >= 2 * ONE {
            weight + spec_log2_fraction(s / 2, weight / 2)
        } else {
            spec_log2_fraction(s, weight / 2)
        }
    }
}

/// The binary logarithm of a positive `x`, in fixed point.
pub open spec fn spec_log2(x: int) -> int {
    if x >= ONE {
        spec_halvings(x) * ONE + spec_log2_fraction(spec_halved(x), HALF as int)
    } else {
        -spec_doublings(x) * ONE + spec_log2_fraction(spec_doubled(x), HALF as int)
    }
}

/// The binary logarithm of a positive `x`, between -30 and 34.
pub fn log2(x: u64) -> (log: i64)
    requires
        x > 0,
    ensures
        log == spec_log2(x as int),
        -31 * ONE <= log <= 35 * ONE,
{
    let mut whole: i64 = 0;
    let mut y: u64 = x;
    proof {
        lemma2_to64();
        assert(y * pow2(0) <= x) by (nonlinear_arith)
            requires
                y == x,
                pow2(0) == 1,
        ;
    }
    if x >= ONE {
        while y >= 2 * ONE
            invariant
                y >= ONE,
                0 <= whole <= 33,
                y * pow2(whole as nat) <= x,
                spec_halvings(x as int) == whole + spec_halvings(y as int),
                spec_halved(x as int) == spec_halved(y as int),
            decreases y,
        {
            proof {
                vstd::arithmetic::power2::lemma_pow2_unfold((whole + 1) as nat);
                vstd::arithmetic::power2::lemma_pow2_pos(whole as nat);
                lemma_halving_step(y as int, pow2(whole as nat) as int, x as int);
                lemma_whole_bound(whole as int, y as int, x as int);
            }
            y = y / 2;
            whole = whole + 1;
        }
    } else {
        while y < ONE
            invariant
                0 < y < 2 * ONE,
                -30 <= whole <= 0,
                y >= pow2((-whole) as nat),
                spec_doublings(x as int) == -whole + spec_doublings(y as int),
                spec_doubled(x as int) == spec_doubled(y as int),
            decreases 2 * ONE - y,
        {
            proof {
                vstd::arithmetic::power2::lemma_pow2_unfold((1 - whole) as nat);
                if whole == -30 {
                    lemma2_to64();
                    assert(pow2(30) == ONE);
                }
            }
            y = 2 * y;
            whole = whole - 1;
        }
    }
    let mut fraction: u64 = 0;
    let mut weight: u64 = HALF;
    let ghost start = y;
    while weight > 0
        invariant
            ONE <= y < 2 * ONE,
            ONE <= start < 2 * ONE,
            weight <= HALF,
            fraction + 2 * weight <= ONE,
            spec_log2_fraction(start as int, HALF as int) == fraction + spec_log2_fraction(
                y as int,
                weight as int,
            ),
        decreases weight,
    {
        proof {
            lemma_square_range(y as int);
        }
        let s: u64 = y * y / ONE;
        if s >= 2 * ONE {
            fraction = fraction + weight;
            y = s / 2;
        } else {
            y = s;
        }
        weight = weight / 2;
    }
    whole * (ONE as i64) + (fraction as i64)
}

/// Halving once more keeps the halved value times the doubled power below
/// the value the halving began with.
pub proof fn lemma_halving_step(y: int, power: int, x: int)
    requires
        0 <= y,
        0 < power,
        y * power <= x,
    ensures
        (y / 2) * (2 * power) <= x,
{
    assert((y / 2) * (2 * power) <= y * power) by (nonlinear_arith)
        requires
            0 <= y,
            0 < power,
    ;
}

/// A 64-bit number halved thirty-three times is below 2.0.
pub proof fn lemma_whole_bound(whole: int, y: int, x: int)
    requires
        0 <= whole <= 33,
        y >= 2 * ONE,
        y * pow2(whole as nat) <= x,
        x <= U64_MAX,
    ensures
        whole < 33,
{
    if whole == 33 {
        lemma2_to64();
        vstd::arithmetic::power2::lemma_pow2_unfold(33);
        assert(pow2(33) == 0x2_0000_0000);
        assert(y * pow2(33) >= 2 * ONE * 0x2_0000_0000) by (nonlinear_arith)
            requires
                y >= 2 * ONE,
                pow2(33) == 0x2_0000_0000,
        ;
    }
}

/// The square of a value from 1.0 up to 2.0 lies from 1.0 up to 4.0.
pub proof fn lemma_square_range(y: int)
    requires
        ONE <= y < 2 * ONE,
    ensures
        ONE * ONE <= y * y < 4 * ONE * ONE,
        ONE <= (y * y) / (ONE as int) < 4 * ONE,
{
    let one = ONE as int;
    assert(one * one <= y * y < 4 * one * one) by (nonlinear_arith)
        requires
            one <= y < 2 * one,
    ;
    let p = y * y;
    assert(one <= p / one < 4 * one) by (nonlinear_arith)
        requires
            one * one <= p < 4 * one * one,
            one > 0,
    ;
}

/// A gain in decibels: ten times its decimal logarithm. A gain of zero has
/// none: it lies below every number of decibels.
pub open spec fn spec_unit_to_db(unit: int) -> Option<int> {
    if unit <= 0 {
        None
    } else {
        Some(spec_trunc_div(spec_log2(unit) * 10 * ONE, LOG2_10 as int))
    }
}

/// A gain in decibels.
pub fn unit_to_db(unit: u64) -> (db: Option<i64>)
    ensures
        match db {
            Some(value) => spec_unit_to_db(unit as int) == Some(value as int)
                && -0x4000_0000_0000_0000 <= value <= 0x4000_0000_0000_0000,
            None => spec_unit_to_db(unit as int).is_none(),
        },
{
    if unit == 0 {
        None
    } else {
        let log: i64 = log2(unit);
        assert(-310 * ONE * ONE <= (log * 10) * ONE <= 350 * ONE * ONE) by (nonlinear_arith)
            requires
                -31 * ONE <= log <= 35 * ONE,
        ;
        let scaled: i128 = (log as i128) * 10 * (ONE as i128);
        let db: i128 = scaled / (LOG2_10 as i128);
        proof {
            lemma_db_fits(log as int);
        }
        Some(db as i64)
    }
}

/// The decibels of a gain whose logarithm lies between -31 and 35 fit 64
/// bits, and dividing with rounding toward zero is what the machine does.
pub proof fn lemma_db_fits(log: int)
    requires
        -31 * ONE <= log <= 35 * ONE,
    ensures
        -0x4000_0000_0000_0000 <= spec_trunc_div(log * 10 * ONE, LOG2_10 as int)
            <= 0x4000_0000_0000_0000,
{
    let one = ONE as int;
    let d = LOG2_10 as int;
    let p = log * 10 * one;
    assert(-310 * one * one <= p <= 350 * one * one) by (nonlinear_arith)
        requires
            p == log * 10 * one,
            -31 * one <= log <= 35 * one,
            one > 0,
    ;
    if p >= 0 {
        assert(0 <= p / d <= p) by (nonlinear_arith)
            requires
                0 <= p,
                d >= 1,
        ;
    } else {
        let q = -p;
        assert(0 <= q / d <= q) by (nonlinear_arith)
            requires
                0 <= q,
                d >= 1,
        ;
    }
}

/// A linear control in decibels: the decibels of its gain on the exponential
/// curve.
pub open spec fn spec_control_to_db(linear: int) -> Option<int> {
    spec_unit_to_db(spec_log_control(linear))
}

/// A linear control in decibels.
pub fn control_to_db(linear: u64) -> (db: Option<i64>)
    ensures
        match db {
            Some(value) => spec_control_to_db(linear as int) == Some(value as int)
                && -0x4000_0000_0000_0000 <= value <= 0x4000_0000_0000_0000,
            None => spec_control_to_db(linear as int).is_none(),
        },
{
    unit_to_db(log_control(linear))
}

/// A fixed-point number rounded to the nearest whole number, halves away from
/// zero.
pub open spec fn spec_round(value: int) -> int {
    if value >= 0 {
        (value + HALF) / (ONE as int)
    } else {
        -((-value + HALF) / (ONE as int))
    }
}

/// A fixed-point number rounded to the nearest whole number.
pub fn round(value: i64) -> (whole: i64)
    requires
        -0x4000_0000_0000_0000 <= value <= 0x4000_0000_0000_0000,
    ensures
        whole == spec_round(value as int),
{
    if value >= 0 {
        (((value as u64) + HALF) / ONE) as i64
    } else {
        -(((((-value) as u64) + HALF) / ONE) as i64)
    }
}

/// The time between two samples, in time steps: the reciprocal of the sample
/// rate, limited to the largest `u64`; zero for a sample rate of zero.
pub open spec fn spec_time_per_sample(sample_rate: int) -> int {
    if sample_rate <= 0 {
        0
    } else {
        spec_at_most((SECOND * ONE) / sample_rate, U64_MAX as int)
    }
}

/// The time between two samples, in time steps.
pub fn time_per_sample(sample_rate: u64) -> (timestep: u64)
    ensures
        timestep == spec_time_per_sample(sample_rate as int),
{
    if sample_rate == 0 {
        0
    } else {
        assert(SECOND * ONE == 0x1_0000_0000_0000_0000_0000) by (nonlinear_arith);
        let steps: u128 = (SECOND as u128) * (ONE as u128) / (sample_rate as u128);
        if steps > U64_MAX as u128 {
            U64_MAX
        } else {
            steps as u64
        }
    }
}

/// The length of a segment in samples: its time in seconds times the sample
/// rate, limited to the largest `i64`.
pub open spec fn spec_segment_rate(time: int, sample_rate: int) -> int {
    spec_at_most((time * sample_rate) / (ONE as int), I64_MAX as int)
}

/// The length of a segment in samples.
pub fn segment_rate(time: u64, sample_rate: u64) -> (rate: i64)
    ensures
        rate == spec_segment_rate(time as int, sample_rate as int),
        rate >= 0,
{
    assert(0 <= time * sample_rate <= U64_MAX * U64_MAX) by (nonlinear_arith)
        requires
            time <= U64_MAX,
            sample_rate <= U64_MAX,
    ;
    let samples: u128 = (time as u128) * (sample_rate as u128) / (ONE as u128);
    if samples > I64_MAX as u128 {
        I64_MAX as i64
    } else {
        samples as i64
    }
}

/// A frequency times `num / den`, limited to the largest `i64`.
pub open spec fn spec_scale_freq(freq: int, num: int, den: int) -> int {
    spec_at_most((freq * num) / den, I64_MAX as int)
}

/// A frequency times the ratio `num / den`.
pub fn scale_freq(freq: u64, num: u64, den: u64) -> (scaled: i64)
    requires
        den > 0,
    ensures
        scaled == spec_scale_freq(freq as int, num as int, den as int),
        scaled >= 0,
{
    assert(0 <= freq * num <= U64_MAX * U64_MAX) by (nonlinear_arith)
        requires
            freq <= U64_MAX,
            num <= U64_MAX,
    ;
    let product: u128 = (freq as u128) * (num as u128);
    assert(0 <= product / (den as u128)) by (nonlinear_arith)
        requires
            0 <= product,
            den > 0,
    ;
    let quotient: u128 = product / (den as u128);
    if quotient > I64_MAX as u128 {
        I64_MAX as i64
    } else {
        quotient as i64
    }
}

/// The coefficient of a segment of `rate` samples: two to the power
/// `-log2_ratio / rate`, limited to 1.0, where `log2_ratio` is the binary
/// logarithm of `(1 + ratio) / ratio` for the segment's target ratio. A
/// segment without duration has the coefficient zero, and so has one whose
/// exponent lies below -64.
pub open spec fn spec_calc_coef(rate: int, log2_ratio: int) -> int {
    if rate <= 0 {
        0
    } else {
        let x = (log2_ratio * ONE) / rate;
        if x > 64 * ONE {
            0
        } else {
            spec_unit_clamp(spec_exp2(-x))
        }
    }
}

/// The coefficient of a segment of `rate` samples. It is zero whenever `rate`
/// is zero or negative, whatever the target ratio.
pub fn calc_coef(rate: i64, log2_ratio: u64) -> (coef: u64)
    ensures
        coef == spec_calc_coef(rate as int, log2_ratio as int),
        rate <= 0 ==> coef == 0,
        coef <= ONE,
{
    if rate <= 0 {
        0
    } else {
        assert(0 <= log2_ratio * ONE <= U64_MAX * ONE) by (nonlinear_arith)
            requires
                log2_ratio <= U64_MAX,
        ;
        let x: u128 = (log2_ratio as u128) * (ONE as u128) / (rate as u128);
        if x > 64 * (ONE as u128) {
            0
        } else {
            unit_clamp(exp2(-(x as i64)))
        }
    }
}

/// The frames of a stereo block: the samples of the left and the right
/// channel paired position by position, as far as both channels reach.
pub fn frame_iter<T: Copy>(left: &[T], right: &[T]) -> (frames: Vec<(T, T)>)
    ensures
        frames@.len() == if left@.len() <= right@.len() {
            left@.len()
        } else {
            right@.len()
        },
        forall|i: int| 0 <= i < frames@.len() ==> frames@[i] == (left@[i], right@[i]),
{
    let n: usize = if left.len() <= right.len() {
        left.len()
    } else {
        right.len()
    };
    let mut frames: Vec<(T, T)> = Vec::new();
    let mut i: usize = 0;
    while i < n
        invariant
            i <= n,
            n <= left@.len(),
            n <= right@.len(),
            frames@.len() == i,
            forall|k: int| 0 <= k < i ==> frames@[k] == (left@[k], right@[k]),
        decreases n - i,
    {
        frames.push((left[i], right[i]));
        i += 1;
    }
    frames
}

} // verus!
