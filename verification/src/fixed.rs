//! Fixed-point fractions: every control value, level and coefficient is a
//! multiple of 1/`ONE`.

use vstd::prelude::*;
use vstd::arithmetic::div_mod::{lemma_div_denominator, lemma_fundamental_div_mod_converse};
use vstd::arithmetic::power2::{lemma2_to64, lemma_pow2_pos, lemma_pow2_strictly_increases, lemma_pow2_unfold, pow2};

verus! {

/// The fixed-point representation of 1.0.
pub const ONE: u64 = 1073741824;

/// One half in fixed point.
pub const HALF: u64 = 536870912;

/// `value` limited to at most `ONE`.
pub open spec fn spec_unit_clamp(value: int) -> int {
    if value > ONE as int {
        ONE as int
    } else {
        value
    }
}

/// `value` limited to at most `ONE`.
pub fn unit_clamp(value: u64) -> (r: u64)
    ensures
        r == spec_unit_clamp(value as int),
        r <= ONE,
{
    if value > ONE {
        ONE
    } else {
        value
    }
}

/// A product of two bounded non-negative factors is bounded by the product of
/// the bounds, and so is its quotient by a positive divisor.
pub proof fn lemma_product_bound(a: int, b: int, a_max: int, b_max: int)
    requires
        0 <= a <= a_max,
        0 <= b <= b_max,
    ensures
        0 <= a * b <= a_max * b_max,
        0 <= (a * b) / (ONE as int) <= a_max * b_max,
        b_max <= ONE ==> (a * b) / (ONE as int) <= a,
{
    assert(0 <= a * b <= a_max * b_max) by (nonlinear_arith)
        requires
            0 <= a <= a_max,
            0 <= b <= b_max,
    ;
    let p = a * b;
    assert(0 <= p / (ONE as int) <= p) by (nonlinear_arith)
        requires
            0 <= p,
    ;
    if b_max <= ONE {
        assert(a * b <= a * (ONE as int)) by (nonlinear_arith)
            requires
                0 <= a,
                0 <= b <= ONE,
        ;
        assert(p / (ONE as int) <= a) by (nonlinear_arith)
            requires
                0 <= p <= a * (ONE as int),
        ;
    }
}

/// The natural logarithm of two in fixed point.
pub const LN2: u64 = 744261118;

/// The magnitude of `value`.
pub open spec fn spec_abs(value: int) -> int {
    if value < 0 {
        -value
    } else {
        value
    }
}

/// The quotient of `a` by a positive `b`, rounded toward zero.
pub open spec fn spec_trunc_div(a: int, b: int) -> int {
    if a >= 0 {
        a / b
    } else {
        -((-a) / b)
    }
}

/// The product of two fixed-point numbers, rounded toward zero.
#[verifier::opaque]
pub open spec fn spec_mul_fixed(a: int, b: int) -> int {
    spec_trunc_div(a * b, ONE as int)
}

/// The largest magnitude `mul_fixed` takes: 2^46.
pub const MUL_LIMIT: i64 = 70368744177664;

/// The magnitude of `value`.
pub fn magnitude(value: i64) -> (m: u64)
    ensures
        m == spec_abs(value as int),
{
    if value >= 0 {
        value as u64
    } else if value == i64::MIN {
        0x8000_0000_0000_0000
    } else {
        (-value) as u64
    }
}

/// The product of two fixed-point numbers, rounded toward zero. Both factors
/// are at most 2^46 in magnitude, so that the product fits.
pub fn mul_fixed(a: i64, b: i64) -> (product: i64)
    requires
        -MUL_LIMIT <= a <= MUL_LIMIT,
        -MUL_LIMIT <= b <= MUL_LIMIT,
    ensures
        product == spec_mul_fixed(a as int, b as int),
        spec_abs(product as int) <= (spec_abs(a as int) * spec_abs(b as int)) / (ONE as int),
        spec_abs(b as int) <= ONE ==> spec_abs(product as int) <= spec_abs(a as int),
        spec_abs(a as int) <= ONE ==> spec_abs(product as int) <= spec_abs(b as int),
{
    let ma: u64 = magnitude(a);
    let mb: u64 = magnitude(b);
    proof {
        reveal(spec_mul_fixed);
        lemma_product_bound(ma as int, mb as int, MUL_LIMIT as int, MUL_LIMIT as int);
        lemma_product_bound(mb as int, ma as int, MUL_LIMIT as int, MUL_LIMIT as int);
        lemma_signed_product(a as int, b as int);
        if mb <= ONE {
            lemma_product_bound(ma as int, mb as int, ma as int, ONE as int);
        }
        if ma <= ONE {
            lemma_product_bound(mb as int, ma as int, mb as int, ONE as int);
        }
        assert(mb as int * ma as int == ma as int * mb as int) by (nonlinear_arith);
    }
    let m: u128 = (ma as u128) * (mb as u128) / (ONE as u128);
    if (a < 0) != (b < 0) {
        -(m as i64)
    } else {
        m as i64
    }
}

/// The magnitude of a product is the product of the magnitudes, and the
/// product is negative only if exactly one factor is.
pub proof fn lemma_signed_product(a: int, b: int)
    ensures
        spec_abs(a * b) == spec_abs(a) * spec_abs(b),
        (a < 0) == (b < 0) ==> a * b >= 0,
        (a < 0) != (b < 0) ==> a * b <= 0,
{
    assert(spec_abs(a * b) == spec_abs(a) * spec_abs(b) && ((a < 0) == (b < 0) ==> a * b >= 0) && ((a
        < 0) != (b < 0) ==> a * b <= 0)) by (nonlinear_arith)
        requires
            spec_abs(a) == if a < 0 { -a } else { a },
            spec_abs(b) == if b < 0 { -b } else { b },
            spec_abs(a * b) == if a * b < 0 { -(a * b) } else { a * b },
    ;
}

/// Two to the power `f`, for a fraction `f` of `ONE`: the exponential series
/// of `f * ln 2` up to the eighth power, in nested form.
pub open spec fn spec_exp2_fraction(f: int) -> int {
    let one = ONE as int;
    let y = (f * LN2) / one;
    let b8 = one + y / 8;
    let b7 = one + ((y * b8) / one) / 7;
    let b6 = one + ((y * b7) / one) / 6;
    let b5 = one + ((y * b6) / one) / 5;
    let b4 = one + ((y * b5) / one) / 4;
    let b3 = one + ((y * b4) / one) / 3;
    let b2 = one + ((y * b3) / one) / 2;
    one + (y * b2) / one
}

/// Two to the power `x`, in fixed point: the whole part of `x` doubles or
/// halves the value for the fraction. Whole parts above 31 count as 31, and
/// below -63 the result is zero.
pub open spec fn spec_exp2(x: int) -> int {
    let n = x / (ONE as int);
    let p = spec_exp2_fraction(x % (ONE as int));
    if n > 31 {
        p * pow2(31)
    } else if n >= 0 {
        p * pow2(n as nat)
    } else if n >= -63 {
        p / (pow2((-n) as nat) as int)
    } else {
        0
    }
}

/// `x` split into its whole part and its fraction.
pub fn floor_split(x: i64) -> (parts: (i64, u64))
    ensures
        parts.0 == (x as int) / (ONE as int),
        parts.1 == (x as int) % (ONE as int),
        parts.1 < ONE,
{
    if x >= 0 {
        let whole: u64 = (x as u64) / ONE;
        let fraction: u64 = (x as u64) % ONE;
        (whole as i64, fraction)
    } else {
        let m: u64 = magnitude(x);
        let q: u64 = m / ONE;
        let r: u64 = m % ONE;
        if r == 0 {
            proof {
                lemma_fundamental_div_mod_converse(x as int, ONE as int, -(q as int), 0);
            }
            (-(q as i64), 0)
        } else {
            proof {
                lemma_fundamental_div_mod_converse(
                    x as int,
                    ONE as int,
                    -(q as int) - 1,
                    (ONE - r) as int,
                );
            }
            (-(q as i64) - 1, ONE - r)
        }
    }
}

/// The value for a fraction lies between 1 and 3, and every intermediate
/// value of the nested form between 1 and 2.
pub proof fn lemma_exp2_fraction_bound(f: int)
    requires
        0 <= f < ONE,
    ensures
        ONE <= spec_exp2_fraction(f) <= 3 * ONE,
{
    lemma_exp2_steps(f);
}

/// The steps of the nested form stay within bounds that keep every product
/// below 2^62.
pub proof fn lemma_exp2_steps(f: int)
    requires
        0 <= f < ONE,
    ensures
        ({
            let one = ONE as int;
            let y = (f * LN2) / one;
            let b8 = one + y / 8;
            let b7 = one + ((y * b8) / one) / 7;
            let b6 = one + ((y * b7) / one) / 6;
            let b5 = one + ((y * b6) / one) / 5;
            let b4 = one + ((y * b5) / one) / 4;
            let b3 = one + ((y * b4) / one) / 3;
            let b2 = one + ((y * b3) / one) / 2;
            &&& 0 <= f * LN2 <= one * LN2
            &&& 0 <= y <= one
            &&& one <= b8 <= 2 * one && 0 <= y * b8 <= 2 * one * one
            &&& one <= b7 <= 2 * one && 0 <= y * b7 <= 2 * one * one
            &&& one <= b6 <= 2 * one && 0 <= y * b6 <= 2 * one * one
            &&& one <= b5 <= 2 * one && 0 <= y * b5 <= 2 * one * one
            &&& one <= b4 <= 2 * one && 0 <= y * b4 <= 2 * one * one
            &&& one <= b3 <= 2 * one && 0 <= y * b3 <= 2 * one * one
            &&& one <= b2 <= 2 * one && 0 <= y * b2 <= 2 * one * one
            &&& one <= spec_exp2_fraction(f) <= 3 * one
        }),
{
    let one = ONE as int;
    lemma_product_bound(f, LN2 as int, one, LN2 as int);
    lemma_product_bound(LN2 as int, f, LN2 as int, one);
    assert(f * LN2 == LN2 * f) by (nonlinear_arith);
    let y = (f * LN2) / one;
    let b8 = one + y / 8;
    lemma_product_bound(b8, y, 2 * one, one);
    assert(y * b8 == b8 * y) by (nonlinear_arith);
    let b7 = one + ((y * b8) / one) / 7;
    lemma_product_bound(b7, y, 2 * one, one);
    assert(y * b7 == b7 * y) by (nonlinear_arith);
    let b6 = one + ((y * b7) / one) / 6;
    lemma_product_bound(b6, y, 2 * one, one);
    assert(y * b6 == b6 * y) by (nonlinear_arith);
    let b5 = one + ((y * b6) / one) / 5;
    lemma_product_bound(b5, y, 2 * one, one);
    assert(y * b5 == b5 * y) by (nonlinear_arith);
    let b4 = one + ((y * b5) / one) / 4;
    lemma_product_bound(b4, y, 2 * one, one);
    assert(y * b4 == b4 * y) by (nonlinear_arith);
    let b3 = one + ((y * b4) / one) / 3;
    lemma_product_bound(b3, y, 2 * one, one);
    assert(y * b3 == b3 * y) by (nonlinear_arith);
    let b2 = one + ((y * b3) / one) / 2;
    lemma_product_bound(b2, y, 2 * one, one);
    assert(y * b2 == b2 * y) by (nonlinear_arith);
}

/// Below a whole exponent `k` of at most 31, two to the power `x` is at most
/// three times two to the power `k`; from zero on it is at least 1.
pub proof fn lemma_exp2_range(x: int, k: nat)
    requires
        x < k * ONE,
        k <= 31,
    ensures
        0 <= spec_exp2(x) <= 3 * ONE * pow2(k),
        x >= 0 ==> spec_exp2(x) >= ONE,
{
    let one = ONE as int;
    let n = x / one;
    let f = x % one;
    lemma_exp2_fraction_bound(f);
    let p = spec_exp2_fraction(f);
    lemma_pow2_pos(k);
    assert(n < k) by (nonlinear_arith)
        requires
            x < k * one,
            n == x / one,
            one > 0,
    ;
    assert(3 * one * pow2(k) >= 3 * one) by (nonlinear_arith)
        requires
            pow2(k) >= 1,
            one > 0,
    ;
    if n >= 0 {
        lemma_pow2_pos(n as nat);
        if (n as nat) < k {
            lemma_pow2_strictly_increases(n as nat, k);
        }
        assert(one <= p * pow2(n as nat) <= 3 * one * pow2(k)) by (nonlinear_arith)
            requires
                one <= p <= 3 * one,
                1 <= pow2(n as nat) <= pow2(k),
        ;
    } else if n >= -63 {
        let d = pow2((-n) as nat) as int;
        lemma_pow2_pos((-n) as nat);
        assert(0 <= p / d <= p) by (nonlinear_arith)
            requires
                0 <= p,
                d >= 1,
        ;
        assert(x < 0) by (nonlinear_arith)
            requires
                n == x / one,
                n < 0,
                one > 0,
        ;
    } else {
        assert(x < 0) by (nonlinear_arith)
            requires
                n == x / one,
                n < 0,
                one > 0,
        ;
    }
}

/// Two to the power `f`, for a fraction `f` of `ONE`.
pub fn exp2_fraction(f: u64) -> (p: u64)
    requires
        f < ONE,
    ensures
        p == spec_exp2_fraction(f as int),
        ONE <= p <= 3 * ONE,
{
    proof {
        lemma_exp2_steps(f as int);
    }
    let y: u64 = f * LN2 / ONE;
    let b8: u64 = ONE + y / 8;
    let b7: u64 = ONE + y * b8 / ONE / 7;
    let b6: u64 = ONE + y * b7 / ONE / 6;
    let b5: u64 = ONE + y * b6 / ONE / 5;
    let b4: u64 = ONE + y * b5 / ONE / 4;
    let b3: u64 = ONE + y * b4 / ONE / 3;
    let b2: u64 = ONE + y * b3 / ONE / 2;
    ONE + y * b2 / ONE
}

/// At zero the exponential is exactly 1.
pub proof fn lemma_exp2_zero()
    ensures
        spec_exp2_fraction(0) == ONE,
        spec_exp2(0) == ONE,
{
    lemma2_to64();
    let one = ONE as int;
    assert((0int * LN2) / one == 0);
    let y = 0int;
    assert((y * one) / one == 0);
    assert(spec_exp2_fraction(0) == one);
    assert(0int / one == 0 && 0int % one == 0);
    assert(pow2(0) == 1);
    assert(one * pow2(0) == one) by (nonlinear_arith)
        requires
            pow2(0) == 1,
    ;
}

/// One whole step more doubles the value: the exponential is exact in the
/// whole part of its argument.
pub proof fn lemma_exp2_doubles(x: int)
    requires
        0 <= x < 31 * ONE,
    ensures
        spec_exp2(x + ONE) == 2 * spec_exp2(x),
{
    let one = ONE as int;
    let n = x / one;
    let f = x % one;
    lemma_fundamental_div_mod_converse(x + one, one, n + 1, f);
    assert(0 <= n < 31) by (nonlinear_arith)
        requires
            0 <= x < 31 * one,
            n == x / one,
            one > 0,
    ;
    lemma_pow2_unfold((n + 1) as nat);
    let p = spec_exp2_fraction(f);
    assert(p * (2 * pow2(n as nat)) == 2 * (p * pow2(n as nat))) by (nonlinear_arith);
}

/// Two to the power `x`, in fixed point.
pub fn exp2(x: i64) -> (value: u64)
    ensures
        value == spec_exp2(x as int),
{
    let (n, f) = floor_split(x);
    let p: u64 = exp2_fraction(f);
    proof {
        lemma2_to64();
    }
    if n >= 0 {
        let m: u64 = if n > 31 {
            31
        } else {
            n as u64
        };
        let mut value: u64 = p;
        let mut i: u64 = 0;
        while i < m
            invariant
                i <= m <= 31,
                p <= 3 * ONE,
                value == p * pow2(i as nat),
                pow2(31) == 0x8000_0000,
            decreases m - i,
        {
            proof {
                lemma_pow2_unfold((i + 1) as nat);
                lemma_pow2_strictly_increases((i + 1) as nat, 32);
                lemma2_to64();
                assert(p * (2 * pow2(i as nat)) == 2 * (p * pow2(i as nat))) by (nonlinear_arith);
                assert(p * pow2((i + 1) as nat) <= (3 * ONE) * 0x1_0000_0000) by (nonlinear_arith)
                    requires
                        p <= 3 * ONE,
                        pow2((i + 1) as nat) <= 0x1_0000_0000,
                ;
            }
            value = value * 2;
            i += 1;
        }
        value
    } else if n >= -63 {
        let k: u64 = (-n) as u64;
        let mut value: u64 = p;
        let mut i: u64 = 0;
        while i < k
            invariant
                i <= k <= 63,
                value == (p as int) / (pow2(i as nat) as int),
                value <= p,
            decreases k - i,
        {
            proof {
                lemma_pow2_unfold((i + 1) as nat);
                lemma_pow2_pos(i as nat);
                lemma_div_denominator(p as int, pow2(i as nat) as int, 2);
                assert(pow2(i as nat) * 2 == 2 * pow2(i as nat)) by (nonlinear_arith);
            }
            value = value / 2;
            i += 1;
        }
        value
    } else {
        0
    }
}

} // verus!
