//! Enumerations whose members are numbered densely from zero.

use vstd::prelude::*;
use crate::fixed::ONE;

verus! {

/// An enumeration with a dense, zero-based numbering of its members.
///
/// The numbering is a bijection between the members and `0 .. count()`:
/// `to_index` and `from_index` are inverse to each other.
pub trait IndexedEnum: Sized {
    /// How many members the enumeration has.
    spec fn count() -> nat;

    /// The position of a member in declaration order.
    spec fn index(&self) -> nat;

    /// The member found at a position; meaningful below `count()`.
    spec fn member(index: nat) -> Self;

    /// Every member sits below `count()`, and `member` undoes `index`.
    proof fn index_is_dense(&self)
        ensures
            self.index() < Self::count(),
            Self::member(self.index()) == *self,
    ;

    /// `index` undoes `member` on every position below `count()`.
    proof fn member_is_indexed(index: nat)
        requires
            index < Self::count(),
        ensures
            Self::member(index).index() == index,
    ;

    /// The number of members: at least one, and few enough to be counted in
    /// an `i32`.
    fn num_items() -> (n: u32)
        ensures
            n == Self::count(),
            0 < n <= 0x7fff_ffff,
    ;

    /// The position of `self`.
    fn to_index(&self) -> (i: u32)
        ensures
            i == self.index(),
            i < Self::count(),
    ;

    /// The member at position `index`.
    fn from_index(index: u32) -> (m: Self)
        requires
            index < Self::count(),
        ensures
            m == Self::member(index as nat),
            m.index() == index as nat,
    ;

    /// The member selected by a control value: the range [0, 1) is cut into
    /// `count()` equal parts, one per member in order, and values from 1.0 on
    /// select the last member.
    fn from_param(value: u64) -> (m: Self)
        ensures
            m == Self::member(spec_param_index(value as int, Self::count())),
    {
        let n: u32 = Self::num_items();
        proof {
            lemma_param_index_in_range(value as int, n as nat);
        }
        if value >= ONE {
            Self::from_index(n - 1)
        } else {
            assert(value * n <= ONE * n) by (nonlinear_arith)
                requires
                    value <= ONE,
                    n >= 0,
            ;
            let scaled: u64 = value * (n as u64) / ONE;
            Self::from_index(scaled as u32)
        }
    }
}

/// The position that a control value selects among `count` members:
/// `floor(value * count)`, limited to the last position.
pub open spec fn spec_param_index(value: int, count: nat) -> nat {
    if value >= ONE {
        (count - 1) as nat
    } else {
        ((value * count) / (ONE as int)) as nat
    }
}

/// The selected position is always a valid one: no control value is rejected.
pub proof fn lemma_param_index_in_range(value: int, count: nat)
    requires
        0 <= value,
        count > 0,
    ensures
        spec_param_index(value, count) < count,
        value < ONE ==> spec_param_index(value, count) == (value * count) / (ONE as int),
{
    let one = ONE as int;
    if value < one {
        assert(0 <= value * count < one * count) by (nonlinear_arith)
            requires
                0 <= value < one,
                count > 0,
        ;
        let p = value * count;
        assert(0 <= p / one < count) by (nonlinear_arith)
            requires
                0 <= p < one * count,
                one > 0,
        ;
    }
}

/// A control value of zero selects the first member, and the largest value
/// below 1.0 selects the last one, as every value from 1.0 on does.
pub proof fn lemma_param_index_ends(count: nat, value: int)
    requires
        0 < count <= ONE,
    ensures
        spec_param_index(0, count) == 0,
        spec_param_index(ONE - 1, count) == count - 1,
        value >= ONE ==> spec_param_index(value, count) == count - 1,
{
    let one = ONE as int;
    let p = (one - 1) * count;
    assert((one - 1) * count == one * (count - 1) + (one - count)) by (nonlinear_arith);
    assert(p / one == count - 1) by (nonlinear_arith)
        requires
            p == one * (count - 1) + (one - count),
            0 <= one - count < one,
    ;
    assert((0int * count) / one == 0) by (nonlinear_arith)
        requires
            one > 0,
    ;
}

/// Larger control values never select an earlier member.
pub proof fn lemma_param_index_monotonic(low: int, high: int, count: nat)
    requires
        0 <= low <= high,
        count > 0,
    ensures
        spec_param_index(low, count) <= spec_param_index(high, count),
{
    let one = ONE as int;
    lemma_param_index_in_range(low, count);
    lemma_param_index_in_range(high, count);
    if high < one {
        assert(low * count <= high * count) by (nonlinear_arith)
            requires
                0 <= low <= high,
                count > 0,
        ;
        let a = low * count;
        let b = high * count;
        assert(a / one <= b / one) by (nonlinear_arith)
            requires
                a <= b,
                one > 0,
        ;
    }
}

} // verus!
