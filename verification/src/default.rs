//! Constructors of vectors whose container can be made empty.

use crate::error::FullError;
use crate::generic::GenericVec;
use crate::model::{appended_clones, spec_room};
use crate::traits::{DefaultContainer, Length};
use vstd::prelude::*;
use vstd::std_specs::iter::IteratorSpec;

verus! {

impl<C: DefaultContainer, L: Length> GenericVec<C, L> {
    /// The capacity of a vector that is made with a new container.
    pub open spec fn default_capacity() -> nat {
        if C::default_len() <= L::max_nat() {
            C::default_len()
        } else {
            L::max_nat()
        }
    }

    /// Create a new empty vector.
    pub fn new() -> (vec: Self)
        ensures
            vec.wf(),
            vec@ == Seq::<C::Item>::empty(),
            vec.spec_capacity() == Self::default_capacity(),
    {
        Self::from_empty(C::default())
    }

    /// Creates a vector of the items of the iterator, as many of them as the
    /// vector can hold. What the iterator would have handed out after that
    /// is left out.
    pub fn from_iter_until_full<I: Iterator<Item = C::Item>>(iter: I) -> (vec: Self)
        ensures
            vec.wf(),
            vec.spec_capacity() == Self::default_capacity(),
            iter.obeys_prophetic_iter_laws() ==> vec@ == iter.remaining().take(
                spec_room(0, Self::default_capacity(), iter.remaining().len()) as int,
            ),
    {
        let mut vec = Self::new();
        vec.extend_until_full(iter);
        vec
    }

    /// Creates a vector of the items of the iterator, as many of them as the
    /// vector can hold.
    pub fn from_iter<I: Iterator<Item = C::Item>>(iter: I) -> (vec: Self)
        ensures
            vec.wf(),
            vec.spec_capacity() == Self::default_capacity(),
            iter.obeys_prophetic_iter_laws() ==> vec@ == iter.remaining().take(
                spec_room(0, Self::default_capacity(), iter.remaining().len()) as int,
            ),
    {
        let mut vec = Self::new();
        let _ = vec.extend_from_iter(iter);
        vec
    }

    /// Creates a vector of all the items of the iterator.
    ///
    /// If the iterator has more items than the vector can hold, the first
    /// item that found no room is returned as `Err`.
    pub fn try_from_iter<I: Iterator<Item = C::Item>>(iter: I) -> (result: Result<Self, C::Item>)
        ensures
            result matches Ok(vec) ==> vec.wf() && vec.spec_capacity() == Self::default_capacity(),
            iter.obeys_prophetic_iter_laws() ==> match result {
                Ok(vec) => iter.remaining().len() <= Self::default_capacity() && vec@
                    == iter.remaining(),
                Err(item) => iter.remaining().len() > Self::default_capacity() && item
                    == iter.remaining()[Self::default_capacity() as int],
            },
    {
        let mut vec = Self::new();
        match vec.try_extend(iter) {
            Ok(()) => {
                Ok(vec)
            },
            Err(item) => Err(item),
        }
    }

    /// Creates a new vector with cloned elements from slice.
    ///
    /// If slice length is greater than the vector capacity then error is
    /// returned.
    pub fn try_from_slice(slice: &[C::Item]) -> (result: Result<Self, FullError>) where
        C::Item: Clone,

        ensures
            result is Ok <==> slice@.len() <= Self::default_capacity(),
            result matches Ok(vec) ==> vec.wf() && vec.spec_capacity() == Self::default_capacity()
                && appended_clones(Seq::<C::Item>::empty(), slice@, slice@.len(), vec@),
    {
        let mut vec = Self::new();
        match vec.push_slice(slice) {
            Ok(()) => Ok(vec),
            Err(error) => Err(error),
        }
    }

    /// Creates a new vector with cloned elements from slice.
    ///
    /// If slice length is greater than the vector capacity then excess
    /// elements are simply ignored.
    pub fn from_slice(slice: &[C::Item]) -> (vec: Self) where C::Item: Clone
        ensures
            vec.wf(),
            vec.spec_capacity() == Self::default_capacity(),
            appended_clones(
                Seq::<C::Item>::empty(),
                slice@,
                spec_room(0, Self::default_capacity(), slice@.len()),
                vec@,
            ),
    {
        let mut vec = Self::new();
        let _ = vec.extend_from_slice(slice);
        vec
    }

    /// A vector in a new container that holds clones of the items of this
    /// one, as many of them as it can hold.
    pub fn clone(&self) -> (vec: Self) where C::Item: Clone
        requires
            self.wf(),
        ensures
            vec.wf(),
            vec.spec_capacity() == Self::default_capacity(),
            vec@.len() == spec_room(0, Self::default_capacity(), self@.len()),
            forall|i: int| 0 <= i < vec@.len() ==> cloned(self@[i], #[trigger] vec@[i]),
    {
        let mut vec = Self::new();
        let items = self.as_slice();
        let room = vec.remaining();
        let count = if room < items.len() {
            room
        } else {
            items.len()
        };
        let mut i: usize = 0;
        while i < count
            invariant
                vec.wf(),
                vec.spec_capacity() == Self::default_capacity(),
                i <= count <= items@.len(),
                count <= Self::default_capacity(),
                vec@.len() == i,
                items@.len() == self@.len(),
                forall|j: int| 0 <= j < items@.len() ==> *(#[trigger] items@[j]) == self@[j],
                forall|j: int| 0 <= j < i ==> cloned(self@[j], #[trigger] vec@[j]),
            decreases count - i,
        {
            vec.push_unchecked(items[i].clone());
            i = i + 1;
        }
        vec
    }
}

impl<C: DefaultContainer, L: Length> Default for GenericVec<C, L> {
    fn default() -> (vec: Self)
        ensures
            vec.wf(),
            vec@ == Seq::<C::Item>::empty(),
            vec.spec_capacity() == Self::default_capacity(),
    {
        Self::new()
    }
}

} // verus!
