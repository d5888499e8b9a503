//! A growable container that separates logical length from physical storage,
//! so that elements (and any heap resources they own) can be recycled across
//! iterations of an outer loop instead of being dropped and reallocated.
//!
//! The container views exactly the first `logical length` elements of its
//! backing storage; the remaining slots form a reservoir of previously
//! written elements that `push_reuse` hands back one at a time.

use vstd::prelude::*;

verus! {

/// A vector with a logical length that may be smaller than the number of
/// elements physically present in its backing storage.
///
/// Elements at indices below the logical length are live and observable
/// through the views; elements at or above it are retained, unobservable
/// reservoir slots available for reuse.
pub struct ReusableVec<T> {
    vec: Vec<T>,
    len: usize,
}

impl<T> View for ReusableVec<T> {
    type V = Seq<T>;

    /// The live elements: the prefix of the backing storage of logical length.
    closed spec fn view(&self) -> Seq<T> {
        self.vec@.take(self.len as int)
    }
}

impl<T> ReusableVec<T> {
    /// The logical length: how many elements are currently live.
    pub closed spec fn spec_len(&self) -> nat {
        self.len as nat
    }

    /// Every element physically present in the backing storage, live
    /// elements first, reservoir slots after them.
    pub closed spec fn backing(&self) -> Seq<T> {
        self.vec@
    }

    /// The logical length never exceeds the number of elements physically
    /// present in the backing storage.
    pub closed spec fn well_formed(&self) -> bool {
        self.len <= self.vec@.len()
    }

    /// The live elements are exactly the prefix of the backing storage of
    /// logical length; in particular the views have exactly `spec_len()`
    /// elements.
    pub proof fn lemma_view_is_live_prefix(&self)
        requires
            self.well_formed(),
        ensures
            self@ == self.backing().take(self.spec_len() as int),
            self@.len() == self.spec_len(),
    {
    }

    /// An empty container: no live elements and no reservoir.
    pub fn new() -> (s: Self)
        ensures
            s.well_formed(),
            s.spec_len() == 0,
            s@ == Seq::<T>::empty(),
            s.backing() == Seq::<T>::empty(),
    {
        let s = Self { vec: Vec::new(), len: 0 };
        s
    }

    /// An empty container whose backing storage has room reserved for at
    /// least `capacity` elements. Capacity only affects allocation: the
    /// container still holds no element at all.
    pub fn with_capacity(capacity: usize) -> (s: Self)
        ensures
            s.well_formed(),
            s.spec_len() == 0,
            s@ == Seq::<T>::empty(),
            s.backing() == Seq::<T>::empty(),
    {
        let s = Self { vec: Vec::with_capacity(capacity), len: 0 };
        s
    }

    /// Attempts to extend the logical length by one by reusing a reservoir
    /// slot. On success the returned reference points at the slot now at
    /// the last live index, still holding its prior value untouched; the
    /// caller may overwrite it in place. When no reservoir slot exists the
    /// container is left unchanged and no reference is returned.
    pub fn push_reuse(&mut self) -> (r: Option<&mut T>)
        requires
            old(self).well_formed(),
        ensures
            final(self).well_formed(),
            r.is_none() <==> old(self).spec_len() == old(self).backing().len(),
            r.is_none() ==> *final(self) == *old(self),
            r.is_some() ==> {
                &&& *r.unwrap() == old(self).backing()[old(self).spec_len() as int]
                &&& final(self).spec_len() == old(self).spec_len() + 1
                &&& final(self).backing() == old(self).backing().update(
                    old(self).spec_len() as int,
                    *final(r.unwrap()),
                )
                &&& final(self)@ == old(self)@.push(*final(r.unwrap()))
            },
    {
        if self.len < self.vec.len() {
            self.len = self.len + 1;
            let i = self.len - 1;
            Some(&mut self.vec[i])
        } else {
            None
        }
    }

    /// Appends `value` as the new last live element. If a reservoir slot
    /// exists, the value overwrites it (dropping whatever the slot held);
    /// otherwise the backing storage physically grows by one element.
    pub fn push(&mut self, value: T)
        requires
            old(self).well_formed(),
            old(self).spec_len() < usize::MAX,
        ensures
            final(self).well_formed(),
            final(self).spec_len() == old(self).spec_len() + 1,
            final(self)@ == old(self)@.push(value),
            final(self).backing() == (if old(self).spec_len() < old(self).backing().len() {
                old(self).backing().update(old(self).spec_len() as int, value)
            } else {
                old(self).backing().push(value)
            }),
    {
        self.len = self.len + 1;
        let i = self.len - 1;
        if self.len <= self.vec.len() {
            self.vec[i] = value;
        } else {
            self.vec.push(value);
        }
    }

    /// A read-only contiguous view of exactly the live elements.
    pub fn as_slice(&self) -> (r: &[T])
        requires
            self.well_formed(),
        ensures
            r@ == self@,
            r@.len() == self.spec_len(),
    {
        vstd::slice::slice_subrange(self.vec.as_slice(), 0, self.len)
    }

    /// A mutable contiguous view of exactly the live elements: any live
    /// element may be overwritten in place, while the logical length and
    /// the reservoir slots behind it stay as they are.
    pub fn as_mut_slice(&mut self) -> (r: &mut [T])
        requires
            old(self).well_formed(),
        ensures
            r@ == old(self)@,
            r@.len() == old(self).spec_len(),
            final(self).spec_len() == old(self).spec_len(),
            final(self).backing() == final(r)@ + old(self).backing().skip(
                old(self).spec_len() as int,
            ),
            final(r)@.len() == old(self).spec_len() ==> final(self).well_formed() && final(self)@
                == final(r)@,
    {
        let len = self.len;
        let whole = self.vec.as_mut_slice();
        let (live, _rest) = whole.split_at_mut(len);
        live
    }

    /// Consumes the container, truncates the backing storage to the logical
    /// length (dropping every reservoir slot), and returns the live elements
    /// as a plain vector of exactly `spec_len()` elements.
    pub fn into_vec(self) -> (v: Vec<T>)
        requires
            self.well_formed(),
        ensures
            v@ == self@,
            v@.len() == self.spec_len(),
    {
        let mut vec = self.vec;
        let len = self.len;
        vec.truncate(len);
        vec
    }

    /// Resets the logical length to zero without touching the backing
    /// storage: every previously live element becomes a reservoir slot,
    /// retrievable unchanged through `push_reuse`. No element is dropped.
    pub fn clear_reuse(&mut self)
        ensures
            final(self).well_formed(),
            final(self).spec_len() == 0,
            final(self)@ == Seq::<T>::empty(),
            final(self).backing() == old(self).backing(),
    {
        self.len = 0;
    }

    /// Empties the backing storage entirely, dropping every element, live
    /// or reserved, and resets the logical length to zero. Afterwards no
    /// reservoir slot exists until `push` repopulates the storage.
    pub fn clear_drop(&mut self)
        ensures
            final(self).well_formed(),
            final(self).spec_len() == 0,
            final(self)@ == Seq::<T>::empty(),
            final(self).backing() == Seq::<T>::empty(),
    {
        self.vec.clear();
        self.len = 0;
    }

    /// Law: in a container all of whose physically present elements are
    /// live, the live view is the whole backing storage. Together with the
    /// contracts of the conversions this gives the round trip: a plain
    /// vector converted to a container has every element live, and
    /// converting back via `into_vec` returns exactly the original
    /// elements, count included.
    pub proof fn lemma_all_live_view_is_backing(s: Self)
        requires
            s.well_formed(),
            s.spec_len() == s.backing().len(),
        ensures
            s@ == s.backing(),
    {
    }

    /// Law: a reuse-preserving clear keeps every previously live element in
    /// place. For a state `cleared` produced by `clear_reuse` from `before`
    /// (same backing storage, logical length zero), the slot that the
    /// `i + 1`-th following `push_reuse` hands back — reservoir slot `i` —
    /// still holds the element that was live at index `i` before the clear.
    pub proof fn lemma_reuse_keeps_content(before: Self, cleared: Self, i: int)
        requires
            before.well_formed(),
            cleared.spec_len() == 0,
            cleared.backing() == before.backing(),
            0 <= i < before@.len(),
        ensures
            i < cleared.backing().len(),
            cleared.backing()[i] == before@[i],
    {
    }

    /// Law: after a dropping clear the reservoir is empty, so `push_reuse`
    /// reports the absence of a slot — by its contract it returns a
    /// reference exactly when the logical length is below the backing
    /// length — until an append repopulates the storage.
    pub proof fn lemma_empty_backing_has_no_slots(s: Self)
        requires
            s.well_formed(),
            s.backing().len() == 0,
        ensures
            s.spec_len() == s.backing().len(),
    {
    }

    /// Law: clearing an already-cleared container changes nothing
    /// observable. Applying the effect of `clear_reuse` (or `clear_drop`)
    /// to a state whose logical length is already zero yields an
    /// observably identical state, so repeated clears are harmless and
    /// leave the logical length at zero.
    pub proof fn lemma_clear_on_empty_is_identity(s: Self, c: Self)
        requires
            s.spec_len() == 0,
            c.spec_len() == 0,
            c.backing() == s.backing(),
        ensures
            c@ == s@,
            c.spec_len() == s.spec_len(),
            c.backing() == s.backing(),
    {
    }
}

impl<T> From<Vec<T>> for ReusableVec<T> {
    /// Converts a plain vector into a container in which every element
    /// starts live: the logical length equals the vector's element count
    /// and there is no reservoir.
    fn from(vec: Vec<T>) -> (r: ReusableVec<T>)
        ensures
            r.well_formed(),
            r.spec_len() == vec@.len(),
            r.backing() == vec@,
            r@ == vec@,
    {
        let len = vec.len();
        let r = ReusableVec { vec, len };
        r
    }
}

impl<T> vstd::std_specs::convert::FromSpecImpl<Vec<T>> for ReusableVec<T> {
    open spec fn obeys_from_spec() -> bool {
        true
    }

    closed spec fn from_spec(vec: Vec<T>) -> ReusableVec<T> {
        ReusableVec { vec, len: vec@.len() as usize }
    }
}

impl<T> From<ReusableVec<T>> for Vec<T> {
    /// Converts the container back into a plain vector exactly as
    /// `into_vec` does: the reservoir is dropped and only the live
    /// elements remain.
    fn from(r: ReusableVec<T>) -> (v: Vec<T>)
        ensures
            r.well_formed() ==> v@ == r@ && v@.len() == r.spec_len(),
    {
        let mut vec = r.vec;
        let len = r.len;
        vec.truncate(len);
        vec
    }
}

impl<T> vstd::std_specs::convert::FromSpecImpl<ReusableVec<T>> for Vec<T> {
    // A `Vec` spec value cannot be written down from a sequence alone, so the
    // conversion's contract lives on the `From` impl above instead of here.
    open spec fn obeys_from_spec() -> bool {
        false
    }

    open spec fn from_spec(r: ReusableVec<T>) -> Vec<T> {
        arbitrary()
    }
}

} // verus!
