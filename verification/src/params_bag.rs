//! The fixed-size store of control values, one per parameter identifier.

use vstd::prelude::*;
use core::marker::PhantomData;
use crate::indexed::IndexedEnum;
use crate::fixed::ONE;

verus! {

/// One control value for every member of the parameter enumeration `P`, kept
/// in index order.
pub struct ParamsBag<P: IndexedEnum> {
    pub params: Vec<u64>,
    pub marker: PhantomData<P>,
}

/// A percentage as a fixed-point fraction.
pub open spec fn spec_percent(percent: int) -> int {
    (percent * ONE) / 100
}

/// The percentages as fixed-point fractions, in the same order.
pub open spec fn spec_percents(percents: Seq<u8>) -> Seq<u64> {
    Seq::new(percents.len(), |i: int| spec_percent(percents[i] as int) as u64)
}

/// A percentage of at most 100 as a fixed-point fraction.
pub fn percent(part: u8) -> (value: u64)
    requires
        part <= 100,
    ensures
        value == spec_percent(part as int),
        value <= ONE,
{
    assert(part * ONE <= 100 * ONE) by (nonlinear_arith)
        requires
            part <= 100,
    ;
    (part as u64) * ONE / 100
}

impl<P: IndexedEnum> ParamsBag<P> {
    /// The store holds exactly one value per parameter.
    pub open spec fn wf(&self) -> bool {
        self.params@.len() == P::count()
    }

    /// The value stored for `param`.
    pub open spec fn value(&self, param: P) -> u64 {
        self.params@[param.index() as int]
    }

    /// A store whose values are the given percentages, in index order.
    pub fn from_percent(defaults: &[u8]) -> (bag: Self)
        requires
            defaults@.len() == P::count(),
            forall|i: int| 0 <= i < defaults@.len() ==> defaults@[i] <= 100,
        ensures
            bag.wf(),
            bag.params@ == spec_percents(defaults@),
    {
        let mut params: Vec<u64> = Vec::new();
        let mut i: usize = 0;
        while i < defaults.len()
            invariant
                i <= defaults@.len(),
                params@.len() == i,
                forall|k: int| 0 <= k < defaults@.len() ==> defaults@[k] <= 100,
                forall|k: int|
                    0 <= k < i ==> params@[k] == spec_percent(#[trigger] defaults@[k] as int),
            decreases defaults@.len() - i,
        {
            params.push(percent(defaults[i]));
            i += 1;
        }
        assert(params@ =~= spec_percents(defaults@));
        ParamsBag { params, marker: PhantomData }
    }

    /// The value stored for `param`.
    pub fn get(&self, param: P) -> (value: u64)
        requires
            self.wf(),
        ensures
            value == self.value(param),
    {
        let i: u32 = param.to_index();
        self.params[i as usize]
    }

    /// Stores `value` for `param` and leaves every other value as it was.
    pub fn set(&mut self, param: P, value: u64)
        requires
            old(self).wf(),
        ensures
            final(self).wf(),
            final(self).params@ == old(self).params@.update(param.index() as int, value),
            final(self).value(param) == value,
    {
        let i: u32 = param.to_index();
        self.params.set(i as usize, value);
    }

    /// Every parameter with its value, in index order.
    pub fn for_each(&self) -> (all: Vec<(P, u64)>)
        requires
            self.wf(),
        ensures
            all@.len() == P::count(),
            forall|i: int|
                0 <= i < all@.len() ==> (#[trigger] all@[i]).0 == P::member(i as nat) && all@[i].1
                    == self.params@[i],
    {
        let n: u32 = P::num_items();
        let mut all: Vec<(P, u64)> = Vec::new();
        let mut x: u32 = 0;
        while x < n
            invariant
                self.wf(),
                n == P::count(),
                x <= n,
                all@.len() == x,
                forall|i: int|
                    0 <= i < all@.len() ==> (#[trigger] all@[i]).0 == P::member(i as nat)
                        && all@[i].1 == self.params@[i],
            decreases n - x,
        {
            let param = P::from_index(x);
            let value: u64 = self.params[x as usize];
            all.push((param, value));
            x += 1;
        }
        all
    }
}

} // verus!
