//! The fixed-capacity vector and the operations that keep its occupied
//! prefix and its empty suffix apart.

use crate::iter::IntoIter;
use crate::model::{items_of, spec_pop, spec_push};
use crate::traits::{Container, Length, Slot};
use vstd::prelude::*;

verus! {

/// `num_traits::clamp_max` on two `usize`: `max` where `input` is greater
/// than it, `input` otherwise.
#[verifier::external_body]
fn clamp_max(input: usize, max: usize) -> (clamped: usize)
    ensures
        clamped == if input > max {
            max
        } else {
            input
        },
{
    num_traits::clamp_max(input, max)
}

/// Fixed-capacity vector.
///
/// The type is parametrized by:
/// + `C` - type of the underlying container,
/// + `L` - type of the length of the vector, `usize` by default. A narrow
///   type makes a small vector smaller; the capacity is then limited by the
///   largest value of `L`.
pub struct GenericVec<C: Container, L: Length = usize> {
    pub(crate) len: L,
    pub(crate) data: C,
}

impl<C: Container, L: Length> View for GenericVec<C, L> {
    type V = Seq<C::Item>;

    /// The items of the vector, in order.
    open spec fn view(&self) -> Seq<C::Item> {
        items_of(self.slots(), 0, self.spec_len() as int)
    }
}

impl<C: Container, L: Length> GenericVec<C, L> {
    /// The underlying container.
    pub open(crate) spec fn spec_data(&self) -> C {
        self.data
    }

    /// The slots of the underlying container.
    pub open spec fn slots(&self) -> Seq<C::Slot> {
        self.spec_data().slots()
    }

    /// The number that the length counter holds.
    pub open(crate) spec fn spec_len(&self) -> nat {
        self.len.as_nat()
    }

    /// The number of items that the vector can hold: the number of slots,
    /// or the largest value of `L` where that is less.
    pub open spec fn spec_capacity(&self) -> nat {
        if self.slots().len() <= L::max_nat() {
            self.slots().len()
        } else {
            L::max_nat()
        }
    }

    /// The invariant of the vector: the length is within the capacity, the
    /// slots below the length are occupied, and those from the length up to
    /// the capacity are empty.
    pub open spec fn wf(&self) -> bool {
        &&& self.spec_len() <= self.spec_capacity()
        &&& forall|i: int| 0 <= i < self.spec_len() ==> (#[trigger] self.slots()[i]).is_occupied()
        &&& forall|i: int|
            self.spec_len() <= i < self.spec_capacity() ==> (#[trigger] self.slots()[i]).is_empty()
    }

    /// Provides an access to underlying container.
    pub fn data(&self) -> (data: &C)
        ensures
            *data == self.spec_data(),
    {
        &self.data
    }

    /// Provides a mutable access to underlying container.
    ///
    /// The vector is what the caller leaves in the container, under the same
    /// length: whoever writes to it has to leave the slots below the length
    /// occupied and the other ones empty.
    pub fn data_mut(&mut self) -> (data: &mut C)
        ensures
            *data == old(self).spec_data(),
            final(self).spec_data() == *final(data),
            final(self).spec_len() == old(self).spec_len(),
    {
        &mut self.data
    }

    /// The number of items that the vector can hold.
    pub fn capacity(&self) -> (capacity: usize)
        ensures
            capacity == self.spec_capacity(),
    {
        let total = self.data.as_slots().len();
        match L::max_value().to_usize() {
            Some(max) => clamp_max(total, max),
            None => total,
        }
    }

    /// The number of items in the vector. It is less or equal to
    /// [`capacity()`](`Self::capacity`).
    pub fn len(&self) -> (len: usize)
        requires
            self.wf(),
        ensures
            len == self.spec_len(),
            len == self@.len(),
    {
        proof {
            self.data.lemma_slots_len();
        }
        self.len.to_usize().unwrap()
    }

    /// Number of remaining free places in the vector.
    pub fn remaining(&self) -> (remaining: usize)
        requires
            self.wf(),
        ensures
            remaining == self.spec_capacity() - self@.len(),
    {
        self.capacity() - self.len()
    }

    /// Checks whether the vector is empty.
    pub fn is_empty(&self) -> (empty: bool)
        ensures
            empty == (self@.len() == 0),
    {
        self.len.is_zero()
    }

    /// Checks whether the vector is full.
    pub fn is_full(&self) -> (full: bool)
        requires
            self.wf(),
        ensures
            full == (self@.len() == self.spec_capacity()),
    {
        self.len() == self.capacity()
    }

    /// Appends a new item to the end of the vector *without checking whether
    /// the vector is already full*.
    pub fn push_unchecked(&mut self, value: C::Item)
        requires
            old(self).wf(),
            old(self)@.len() < old(self).spec_capacity(),
        ensures
            final(self).wf(),
            final(self)@ == old(self)@.push(value),
            final(self).spec_capacity() == old(self).spec_capacity(),
    {
        let len = self.len();
        let slots = self.data.as_mut_slots();
        slots[len] = C::Slot::new(value);
        self.len = self.len.plus(L::one());
    }

    /// Appends a new item to the end of the vector.
    ///
    /// If the vector is already full then the item is returned, and the
    /// vector stays as it is.
    pub fn push(&mut self, value: C::Item) -> (result: Result<(), C::Item>)
        requires
            old(self).wf(),
        ensures
            final(self).wf(),
            final(self).spec_capacity() == old(self).spec_capacity(),
            final(self)@ == spec_push(old(self)@, old(self).spec_capacity(), value),
            old(self)@.len() < old(self).spec_capacity() ==> result == Ok::<(), C::Item>(()),
            old(self)@.len() == old(self).spec_capacity() ==> result == Err::<(), C::Item>(value)
                && *final(self) == *old(self),
    {
        if self.is_full() {
            Err(value)
        } else {
            self.push_unchecked(value);
            Ok(())
        }
    }

    /// Takes the last item of the vector *without checking whether the
    /// vector is empty*.
    pub fn pop_unchecked(&mut self) -> (item: C::Item)
        requires
            old(self).wf(),
            old(self)@.len() > 0,
        ensures
            final(self).wf(),
            item == old(self)@.last(),
            final(self)@ == old(self)@.drop_last(),
            final(self).spec_capacity() == old(self).spec_capacity(),
    {
        let len = self.len();
        let slots = self.data.as_mut_slots();
        let item = slots[len - 1].assume_init_read();
        self.len = self.len.minus(L::one());
        item
    }

    /// Removes and returns the last item of the vector.
    ///
    /// If the vector is empty then `None` is returned, and the vector stays
    /// as it is.
    pub fn pop(&mut self) -> (item: Option<C::Item>)
        requires
            old(self).wf(),
        ensures
            final(self).wf(),
            final(self).spec_capacity() == old(self).spec_capacity(),
            (item, final(self)@) == spec_pop(old(self)@),
            old(self)@.len() == 0 ==> *final(self) == *old(self),
    {
        if self.is_empty() {
            None
        } else {
            Some(self.pop_unchecked())
        }
    }

    /// Truncates the vector. Excess items are simply dropped.
    ///
    /// If `new_len` is greater then vector length the method simply does
    /// nothing.
    pub fn truncate(&mut self, new_len: usize)
        requires
            old(self).wf(),
        ensures
            final(self).wf(),
            final(self).spec_capacity() == old(self).spec_capacity(),
            new_len < old(self)@.len() ==> final(self)@ == old(self)@.take(new_len as int),
            new_len >= old(self)@.len() ==> *final(self) == *old(self),
    {
        while self.len() > new_len
            invariant
                self.wf(),
                self.spec_capacity() == old(self).spec_capacity(),
                new_len < old(self)@.len() ==> new_len <= self@.len() <= old(self)@.len() && self@
                    == old(self)@.take(self@.len() as int),
                new_len >= old(self)@.len() ==> *self == *old(self),
            decreases self@.len(),
        {
            let _ = self.pop_unchecked();
        }
    }

    /// Drop all items in the vector and set its length to zero.
    pub fn clear(&mut self)
        requires
            old(self).wf(),
        ensures
            final(self).wf(),
            final(self).spec_capacity() == old(self).spec_capacity(),
            final(self)@ == Seq::<C::Item>::empty(),
    {
        self.truncate(0);
    }

    /// Removes and returns an item at the position `index` within the vector,
    /// shifting all items after it to the left.
    ///
    /// Note: Because this shifts over the remaining items, it has a
    /// worst-case performance of *O*(*n*).
    pub fn remove(&mut self, index: usize) -> (item: C::Item)
        requires
            old(self).wf(),
            index < old(self)@.len(),
        ensures
            final(self).wf(),
            final(self).spec_capacity() == old(self).spec_capacity(),
            item == old(self)@[index as int],
            final(self)@ == old(self)@.remove(index as int),
            final(self)@.len() == old(self)@.len() - 1,
            forall|i: int| 0 <= i < index ==> (#[trigger] final(self)@[i]) == old(self)@[i],
            forall|i: int|
                index <= i < final(self)@.len() ==> (#[trigger] final(self)@[i]) == old(self)@[i
                    + 1],
    {
        let len = self.len();
        let ghost before = self.slots();
        let slots = self.data.as_mut_slots();
        let item = slots[index].assume_init_read();
        let mut i: usize = index;
        while i + 1 < len
            invariant
                index <= i < len <= before.len(),
                slots@.len() == before.len(),
                forall|j: int| 0 <= j < len ==> (#[trigger] before[j]).is_occupied(),
                forall|j: int| 0 <= j < index ==> (#[trigger] slots@[j]) == before[j],
                forall|j: int|
                    index <= j < i ==> (#[trigger] slots@[j]).is_occupied() && slots@[j].item()
                        == before[j + 1].item(),
                slots@[i as int].is_empty(),
                forall|j: int| i < j < before.len() ==> (#[trigger] slots@[j]) == before[j],
            decreases len - i,
        {
            let next = slots[i + 1].assume_init_read();
            slots[i] = C::Slot::new(next);
            i = i + 1;
        }
        self.len = self.len.minus(L::one());
        item
    }

    /// Removes an item from the vector and returns it.
    ///
    /// The removed item is replaced by the last item of the vector.
    ///
    /// This does not preserve ordering, but is *O*(1).
    /// If you need to preserve the item order, use `remove` instead.
    pub fn swap_remove(&mut self, index: usize) -> (item: C::Item)
        requires
            old(self).wf(),
            index < old(self)@.len(),
        ensures
            final(self).wf(),
            final(self).spec_capacity() == old(self).spec_capacity(),
            item == old(self)@[index as int],
            index == old(self)@.len() - 1 ==> final(self)@ == old(self)@.drop_last(),
            index < old(self)@.len() - 1 ==> final(self)@ == old(self)@.update(
                index as int,
                old(self)@.last(),
            ).drop_last(),
            final(self)@.len() == old(self)@.len() - 1,
            forall|i: int|
                0 <= i < final(self)@.len() && i != index ==> (#[trigger] final(self)@[i])
                    == old(self)@[i],
            index < final(self)@.len() ==> final(self)@[index as int] == old(self)@.last(),
    {
        let len = self.len();
        let slots = self.data.as_mut_slots();
        let item = slots[index].assume_init_read();
        if index != len - 1 {
            let last = slots[len - 1].assume_init_read();
            slots[index] = C::Slot::new(last);
        }
        self.len = self.len.minus(L::one());
        item
    }

    /// Makes a vector of a container whose slots are all empty.
    pub fn from_empty(data: C) -> (vec: Self)
        requires
            forall|i: int| 0 <= i < data.slots().len() ==> (#[trigger] data.slots()[i]).is_empty(),
        ensures
            vec.wf(),
            vec.spec_data() == data,
            vec@ == Seq::<C::Item>::empty(),
    {
        let vec = Self::from_raw_parts(data, L::zero());
        vec
    }

    /// Construct a vector from container and length.
    ///
    /// The slots of `data` below `len` must be occupied, and those from
    /// `len` up to the capacity must be empty.
    pub fn from_raw_parts(data: C, len: L) -> (vec: Self)
        requires
            len.as_nat() <= data.slots().len(),
            forall|i: int| 0 <= i < len.as_nat() ==> (#[trigger] data.slots()[i]).is_occupied(),
            forall|i: int|
                len.as_nat() <= i < data.slots().len() && i < L::max_nat() ==> (
                #[trigger] data.slots()[i]).is_empty(),
        ensures
            vec.wf(),
            vec.spec_data() == data,
            vec.spec_len() == len.as_nat(),
    {
        proof {
            len.lemma_bounds();
        }
        Self { len, data }
    }

    /// Deconstruct the vector into underlying container and length.
    ///
    /// The items of the vector are then the items of the slots of the
    /// container below the length.
    pub fn into_raw_parts(self) -> (parts: (C, L))
        ensures
            parts.0 == self.spec_data(),
            parts.1.as_nat() == self.spec_len(),
    {
        (self.data, self.len)
    }

    /// Turns the vector into an iterator that hands out its items by value,
    /// first to last.
    pub fn into_iter(self) -> (iter: IntoIter<C, L>)
        requires
            self.wf(),
        ensures
            iter.wf(),
            iter@ == self@,
    {
        let (data, len) = self.into_raw_parts();
        let iter = IntoIter::new(data, L::zero()..len);
        iter
    }
}

} // verus!
