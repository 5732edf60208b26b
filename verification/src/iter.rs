//! Iteration by value over the items of a vector.

use crate::model::items_of;
use crate::traits::{Container, Length, Slot};
use core::ops::Range;
use vstd::prelude::*;

verus! {

/// Iterator by values of a fixed-capacity vector.
///
/// It owns the container of the vector. The slots within its range are
/// occupied by the items that are still to come; the slots before the range,
/// whose items it has handed out, and those behind it are empty.
pub struct IntoIter<C: Container, L: Length> {
    range: Range<L>,
    data: C,
}

impl<C: Container, L: Length> View for IntoIter<C, L> {
    type V = Seq<C::Item>;

    /// The items that are still to come, in order.
    open spec fn view(&self) -> Seq<C::Item> {
        items_of(self.slots(), self.start() as int, self.end() as int)
    }
}

impl<C: Container, L: Length> IntoIter<C, L> {
    /// The owned container.
    pub closed spec fn spec_data(&self) -> C {
        self.data
    }

    /// The slots of the owned container.
    pub open spec fn slots(&self) -> Seq<C::Slot> {
        self.spec_data().slots()
    }

    /// The index of the next item.
    pub closed spec fn start(&self) -> nat {
        self.range.start.as_nat()
    }

    /// The index behind the last item.
    pub closed spec fn end(&self) -> nat {
        self.range.end.as_nat()
    }

    /// The invariant of the iterator.
    pub open spec fn wf(&self) -> bool {
        valid_range(self.slots(), self.start(), self.end(), L::max_nat())
    }

    /// Makes the iterator over the items in the slots `range` of `data`.
    pub fn new(data: C, range: Range<L>) -> (iter: Self)
        requires
            valid_range(data.slots(), range.start.as_nat(), range.end.as_nat(), L::max_nat()),
        ensures
            iter.wf(),
            iter.spec_data() == data,
            iter.start() == range.start.as_nat(),
            iter.end() == range.end.as_nat(),
    {
        Self { data, range }
    }

    /// The number of items that are still to come.
    pub fn len(&self) -> (len: usize)
        requires
            self.wf(),
        ensures
            len == self@.len(),
    {
        proof {
            self.data.lemma_slots_len();
        }
        self.range.end.minus(self.range.start).to_usize().unwrap()
    }

    /// Checks whether no item is left.
    pub fn is_empty(&self) -> (empty: bool)
        requires
            self.wf(),
        ensures
            empty == (self@.len() == 0),
    {
        self.len() == 0
    }

    /// The bounds on the number of items that are still to come: both are
    /// that number.
    pub fn size_hint(&self) -> (hint: (usize, Option<usize>))
        requires
            self.wf(),
        ensures
            hint.0 == self@.len(),
            hint.1 == Some(hint.0),
    {
        (self.len(), Some(self.len()))
    }

    /// Hands out the next item and leaves its slot empty, or returns `None`
    /// where no item is left.
    pub fn next(&mut self) -> (item: Option<C::Item>)
        requires
            old(self).wf(),
        ensures
            final(self).wf(),
            final(self).end() == old(self).end(),
            old(self)@.len() > 0 ==> {
                &&& item == Some(old(self)@[0])
                &&& final(self)@ == old(self)@.drop_first()
                &&& final(self).start() == old(self).start() + 1
            },
            old(self)@.len() == 0 ==> item is None && *final(self) == *old(self),
    {
        if self.range.start.less_than(&self.range.end) {
            proof {
                self.data.lemma_slots_len();
            }
            let start = self.range.start.to_usize().unwrap();
            let slots = self.data.as_mut_slots();
            let item = slots[start].assume_init_read();
            self.range.start = self.range.start.plus(L::one());
            Some(item)
        } else {
            None
        }
    }
}

/// The slots `start..end` are occupied, and the other ones, as far as a
/// length counter with the largest value `max` can reach, are empty.
pub open spec fn valid_range<S: Slot>(slots: Seq<S>, start: nat, end: nat, max: nat) -> bool {
    &&& start <= end <= slots.len()
    &&& end <= max
    &&& forall|i: int| start <= i < end ==> (#[trigger] slots[i]).is_occupied()
    &&& forall|i: int| 0 <= i < start ==> (#[trigger] slots[i]).is_empty()
    &&& forall|i: int| end <= i < slots.len() && i < max ==> (#[trigger] slots[i]).is_empty()
}

} // verus!
