//! Views of the items of a vector, and of its free slots.

use crate::generic::GenericVec;
use crate::traits::{Container, Length, Slot};
use crate::utils::{slice_assume_init_mut, slice_assume_init_ref};
use core::ops::Index;
use vstd::prelude::*;
use vstd::std_specs::iter::IteratorSpec;

verus! {

impl<C: Container, L: Length> GenericVec<C, L> {
    /// The items of the vector, in order, by reference. The occupied slots
    /// are unwrapped one by one; the references stand in a new `Vec`.
    pub fn as_slice(&self) -> (items: Vec<&C::Item>)
        requires
            self.wf(),
        ensures
            items@.len() == self@.len(),
            forall|i: int| 0 <= i < items@.len() ==> *(#[trigger] items@[i]) == self@[i],
    {
        let len = self.len();
        let slots = self.data.as_slots();
        slice_assume_init_ref(&slots[0..len])
    }

    /// The items of the vector, in order, by mutable reference. The occupied
    /// slots are unwrapped one by one; the references stand in a new `Vec`.
    /// The vector holds afterwards what the caller leaves behind them.
    pub fn as_mut_slice(&mut self) -> (items: Vec<&mut C::Item>)
        requires
            old(self).wf(),
        ensures
            items@.len() == old(self)@.len(),
            forall|i: int| 0 <= i < items@.len() ==> *(#[trigger] items@[i]) == old(self)@[i],
            final(self).wf(),
            final(self).spec_capacity() == old(self).spec_capacity(),
            final(self)@.len() == old(self)@.len(),
            forall|i: int|
                0 <= i < items@.len() ==> (#[trigger] final(self)@[i]) == *final(items@[i]),
    {
        let len = self.len();
        let slots = self.data.as_mut_slots();
        let (occupied, _) = slots.split_at_mut(len);
        slice_assume_init_mut(occupied)
    }

    /// Slice of remaining free space in vector. All slots are empty.
    pub fn free_space_as_slice(&self) -> (free: &[C::Slot])
        requires
            self.wf(),
        ensures
            free@ == self.slots().subrange(self@.len() as int, self.spec_capacity() as int),
            forall|i: int| 0 <= i < free@.len() ==> (#[trigger] free@[i]).is_empty(),
    {
        let len = self.len();
        let capacity = self.capacity();
        let slots = self.data.as_slots();
        &slots[len..capacity]
    }

    /// Mutable slice of remaining free space in vector. All slots are empty.
    ///
    /// The vector holds afterwards what the caller leaves in the slice, under
    /// the same length: the slots of it have to be empty again before the
    /// vector is used.
    pub fn free_space_as_mut_slice(&mut self) -> (free: &mut [C::Slot])
        requires
            old(self).wf(),
        ensures
            free@ == old(self).slots().subrange(
                old(self)@.len() as int,
                old(self).spec_capacity() as int,
            ),
            forall|i: int| 0 <= i < free@.len() ==> (#[trigger] free@[i]).is_empty(),
            final(self).spec_len() == old(self).spec_len(),
            final(self).slots() == old(self).slots().take(old(self)@.len() as int) + final(free)@
                + old(self).slots().skip(old(self).spec_capacity() as int),
    {
        let len = self.len();
        let capacity = self.capacity();
        let slots = self.data.as_mut_slots();
        let (_, rest) = slots.split_at_mut(len);
        let (free, _) = rest.split_at_mut(capacity - len);
        free
    }

    /// The items of the vector, in order, as an iterator over references.
    pub fn iter(&self) -> (iter: std::vec::IntoIter<&C::Item>)
        requires
            self.wf(),
        ensures
            iter.remaining().len() == self@.len(),
            forall|i: int| 0 <= i < self@.len() ==> *(#[trigger] iter.remaining()[i]) == self@[i],
    {
        self.as_slice().into_iter()
    }

    /// The items of the vector, in order, as an iterator over references
    /// that are open to change. The vector holds afterwards what the caller
    /// leaves behind the references.
    pub fn iter_mut(&mut self) -> (iter: std::vec::IntoIter<&mut C::Item>)
        requires
            old(self).wf(),
        ensures
            iter.remaining().len() == old(self)@.len(),
            forall|i: int|
                0 <= i < old(self)@.len() ==> *(#[trigger] iter.remaining()[i]) == old(self)@[i],
            final(self).wf(),
            final(self).spec_capacity() == old(self).spec_capacity(),
            final(self)@.len() == old(self)@.len(),
            forall|i: int|
                0 <= i < old(self)@.len() ==> (#[trigger] final(self)@[i]) == *final(
                    iter.remaining()[i]
                ),
    {
        self.as_mut_slice().into_iter()
    }
}

impl<C: Container, L: Length> vstd::std_specs::core::IndexSpecImpl<usize> for GenericVec<C, L> {
    open spec fn index_req(&self, index: &usize) -> bool {
        self.wf() && *index < self@.len()
    }
}

impl<C: Container, L: Length> Index<usize> for GenericVec<C, L> {
    type Output = C::Item;

    /// The item at the position `index`.
    fn index(&self, index: usize) -> (item: &C::Item)
        ensures
            *item == self@[index as int],
    {
        self.data.as_slots()[index].assume_init_ref()
    }
}

} // verus!
