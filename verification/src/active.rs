//! The voices that take part in one block, kept in a vector that stores up to
//! eight indices inline, without touching the heap.

use vstd::prelude::*;
use smallvec::SmallVec;

verus! {

/// The indices of the voices to mix, in an inline vector of the `smallvec`
/// crate. The verifier does not look inside: what it knows of the contents it
/// knows from `active_items`.
#[verifier::external_body]
pub struct ActiveVoices {
    inner: SmallVec<[usize; 8]>,
}

/// The indices a vector of active voices holds, in order.
pub uninterp spec fn active_items(v: ActiveVoices) -> Seq<usize>;

/// `SmallVec::new`: a vector that holds nothing.
#[verifier::external_body]
pub(crate) fn active_new() -> (v: ActiveVoices)
    ensures
        active_items(v) == Seq::<usize>::empty(),
{
    ActiveVoices { inner: SmallVec::new() }
}

/// `SmallVec::push`: appends `index` behind the items already held. Called
/// only below the inline capacity of eight, where it does not allocate.
#[verifier::external_body]
pub(crate) fn active_push(v: &mut ActiveVoices, index: usize)
    requires
        active_items(*old(v)).len() < 8,
    ensures
        active_items(*final(v)) == active_items(*old(v)).push(index),
{
    v.inner.push(index)
}

/// `SmallVec::len`: the number of items held.
#[verifier::external_body]
pub(crate) fn active_len(v: &ActiveVoices) -> (n: usize)
    ensures
        n == active_items(*v).len(),
{
    v.inner.len()
}

/// `SmallVec::as_slice`, indexed: the item at position `i`.
#[verifier::external_body]
pub(crate) fn active_get(v: &ActiveVoices, i: usize) -> (index: usize)
    requires
        i < active_items(*v).len(),
    ensures
        index == active_items(*v)[i as int],
{
    v.inner.as_slice()[i]
}

impl ActiveVoices {
    /// The number of voices to mix.
    pub fn len(&self) -> (n: usize)
        ensures
            n == active_items(*self).len(),
    {
        active_len(self)
    }

    /// The index of the `i`-th voice to mix, if there are that many.
    pub fn get(&self, i: usize) -> (index: Option<usize>)
        ensures
            i < active_items(*self).len() ==> index == Some(active_items(*self)[i as int]),
            i >= active_items(*self).len() ==> index.is_none(),
    {
        if i < active_len(self) {
            Some(active_get(self, i))
        } else {
            None
        }
    }

    /// The indices of all voices to mix, in order.
    pub fn to_vec(&self) -> (all: Vec<usize>)
        ensures
            all@ == active_items(*self),
    {
        let n: usize = active_len(self);
        let mut all: Vec<usize> = Vec::new();
        let mut i: usize = 0;
        while i < n
            invariant
                n == active_items(*self).len(),
                i <= n,
                all@ == active_items(*self).subrange(0, i as int),
            decreases n - i,
        {
            all.push(active_get(self, i));
            assert(active_items(*self).subrange(0, i as int).push(active_items(*self)[i as int])
                =~= active_items(*self).subrange(0, i + 1));
            i += 1;
        }
        assert(active_items(*self).subrange(0, n as int) =~= active_items(*self));
        all
    }
}

} // verus!
