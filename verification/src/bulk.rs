//! Operations that append many items at once, to the capacity and no
//! further. Those that take a slice clone its items; of those, `push_slice`
//! appends all or nothing, and `extend_from_slice` as many as fit. Of
//! those that take an iterator, `try_extend` hands back the first item that
//! found no room, and the other ones leave it with the iterator.

use crate::error::FullError;
use crate::generic::GenericVec;
use crate::model::{appended_clones, spec_room};
use crate::traits::{Container, Length};
use crate::utils::uninit_write_slice_cloned;
use vstd::prelude::*;
use vstd::std_specs::iter::IteratorSpec;

verus! {

impl<C: Container, L: Length> GenericVec<C, L> {
    /// Appends items from the iterator until it ends or the vector is full,
    /// and returns how many were appended. The iterator is asked for no more
    /// items than the vector has room for.
    pub fn extend_by_ref<I: Iterator<Item = C::Item>>(&mut self, iter: &mut I) -> (count: usize)
        requires
            old(self).wf(),
        ensures
            final(self).wf(),
            final(self).spec_capacity() == old(self).spec_capacity(),
            final(self)@.len() == old(self)@.len() + count,
            final(self)@.take(old(self)@.len() as int) == old(self)@,
            <I as IteratorSpec>::obeys_prophetic_iter_laws(old(iter)) ==> {
                let items = <I as IteratorSpec>::remaining(old(iter));
                &&& <I as IteratorSpec>::obeys_prophetic_iter_laws(final(iter))
                &&& count == spec_room(old(self)@.len(), old(self).spec_capacity(), items.len())
                &&& final(self)@ == old(self)@ + items.take(count as int)
                &&& <I as IteratorSpec>::remaining(final(iter)) == items.skip(count as int)
            },
    {
        let room = self.remaining();
        let ghost items = <I as IteratorSpec>::remaining(iter);
        let ghost lawful = <I as IteratorSpec>::obeys_prophetic_iter_laws(iter);
        let mut count: usize = 0;
        let mut more = true;
        while more && count < room
            invariant
                self.wf(),
                self.spec_capacity() == old(self).spec_capacity(),
                room == old(self).spec_capacity() - old(self)@.len(),
                count <= room,
                self@.len() == old(self)@.len() + count,
                self@.take(old(self)@.len() as int) == old(self)@,
                lawful == <I as IteratorSpec>::obeys_prophetic_iter_laws(iter),
                lawful ==> count <= items.len(),
                lawful ==> self@ == old(self)@ + items.take(count as int),
                lawful ==> <I as IteratorSpec>::remaining(iter) == items.skip(count as int),
                lawful && !more ==> count == items.len(),
            decreases (if more { 1int } else { 0int }) + room - count,
        {
            match iter.next() {
                Some(item) => {
                    self.push_unchecked(item);
                    count = count + 1;
                },
                None => {
                    more = false;
                },
            }
        }
        count
    }

    /// Appends items from iterator to the vector until iterator ends.
    ///
    /// To avoid silencing situation when vector cannot store all iterator
    /// items, the iterator is asked once more after the vector is full, and
    /// if it hands out an item, that item is returned as `Err`.
    pub fn try_extend<I: Iterator<Item = C::Item>>(&mut self, iter: I) -> (result: Result<
        (),
        C::Item,
    >)
        requires
            old(self).wf(),
        ensures
            final(self).wf(),
            final(self).spec_capacity() == old(self).spec_capacity(),
            final(self)@.take(old(self)@.len() as int) == old(self)@,
            iter.obeys_prophetic_iter_laws() ==> {
                let items = iter.remaining();
                let room = old(self).spec_capacity() - old(self)@.len();
                &&& items.len() <= room ==> {
                    &&& result == Ok::<(), C::Item>(())
                    &&& final(self)@ == old(self)@ + items
                }
                &&& items.len() > room ==> {
                    &&& result == Err::<(), C::Item>(items[room])
                    &&& final(self)@ == old(self)@ + items.take(room)
                }
            },
    {
        let mut iter = iter;
        let count = self.extend_by_ref(&mut iter);
        match iter.next() {
            Some(item) => Err(item),
            None => Ok(()),
        }
    }

    /// Appends items from iterator to the vector until iterator ends or the
    /// vector is full. What the iterator would have handed out after that is
    /// left out.
    pub fn extend_until_full<I: Iterator<Item = C::Item>>(&mut self, iter: I)
        requires
            old(self).wf(),
        ensures
            final(self).wf(),
            final(self).spec_capacity() == old(self).spec_capacity(),
            final(self)@.take(old(self)@.len() as int) == old(self)@,
            iter.obeys_prophetic_iter_laws() ==> {
                let items = iter.remaining();
                let count = spec_room(old(self)@.len(), old(self).spec_capacity(), items.len());
                final(self)@ == old(self)@ + items.take(count as int)
            },
    {
        let mut iter = iter;
        let _ = self.extend_by_ref(&mut iter);
    }

    /// Appends items from iterator to the vector until iterator ends or the
    /// vector is full.
    ///
    /// Returns the number of items that were appended.
    pub fn extend_from_iter<I: Iterator<Item = C::Item>>(&mut self, iter: I) -> (count: usize)
        requires
            old(self).wf(),
        ensures
            final(self).wf(),
            final(self).spec_capacity() == old(self).spec_capacity(),
            final(self)@.len() == old(self)@.len() + count,
            final(self)@.take(old(self)@.len() as int) == old(self)@,
            iter.obeys_prophetic_iter_laws() ==> count == spec_room(
                old(self)@.len(),
                old(self).spec_capacity(),
                iter.remaining().len(),
            ) && final(self)@ == old(self)@ + iter.remaining().take(count as int),
    {
        let mut iter = iter;
        self.extend_by_ref(&mut iter)
    }

    /// Clones and appends all items in a slice to this vector.
    ///
    /// Returns `Err` if the slice is longer than the room that is left in
    /// the vector, which then stays as it is.
    pub fn push_slice(&mut self, slice: &[C::Item]) -> (result: Result<(), FullError>) where
        C::Item: Clone,

        requires
            old(self).wf(),
        ensures
            final(self).wf(),
            final(self).spec_capacity() == old(self).spec_capacity(),
            result is Ok <==> old(self)@.len() + slice@.len() <= old(self).spec_capacity(),
            result is Ok ==> appended_clones(old(self)@, slice@, slice@.len(), final(self)@),
            result is Err ==> *final(self) == *old(self),
    {
        if slice.len() > self.remaining() {
            Err(FullError)
        } else {
            let _ = self.append_clones(slice, slice.len());
            Ok(())
        }
    }

    /// Clones the first `count` items of `slice` into the first free slots
    /// and counts them in.
    fn append_clones(&mut self, slice: &[C::Item], count: usize) -> (appended: usize) where
        C::Item: Clone,

        requires
            old(self).wf(),
            count <= slice@.len(),
            old(self)@.len() + count <= old(self).spec_capacity(),
        ensures
            final(self).wf(),
            final(self).spec_capacity() == old(self).spec_capacity(),
            appended == count,
            appended_clones(old(self)@, slice@, count as nat, final(self)@),
    {
        let ghost len = self@.len() as int;
        let free_space = self.free_space_as_mut_slice();
        let (target, _) = free_space.split_at_mut(count);
        let _ = uninit_write_slice_cloned(target, &slice[0..count]);
        self.len = self.len.plus(L::from_usize(count).unwrap());
        assert(self@.take(len) =~= old(self)@);
        count
    }

    /// Clones and appends items in a slice to this vector until slice ends
    /// or vector capacity reached.
    ///
    /// If slice length is greater than free space in the vector then excess
    /// items are simply ignored.
    ///
    /// Returns the number of items that were appended.
    pub fn extend_from_slice(&mut self, slice: &[C::Item]) -> (count: usize) where C::Item: Clone
        requires
            old(self).wf(),
        ensures
            final(self).wf(),
            final(self).spec_capacity() == old(self).spec_capacity(),
            count == spec_room(old(self)@.len(), old(self).spec_capacity(), slice@.len()),
            appended_clones(old(self)@, slice@, count as nat, final(self)@),
    {
        let room = self.remaining();
        let count = if room < slice.len() {
            room
        } else {
            slice.len()
        };
        self.append_clones(slice, count)
    }

    /// Resizes the vector to the specified length.
    ///
    /// If `new_len` is less than vector length the the vector is truncated.
    ///
    /// If `new_len` is greater than the vector length then vector is filled
    /// with clones of `value` up to `new_len` length.
    pub fn resize(&mut self, new_len: usize, value: C::Item) where C::Item: Clone
        requires
            old(self).wf(),
            new_len <= old(self).spec_capacity(),
        ensures
            final(self).wf(),
            final(self).spec_capacity() == old(self).spec_capacity(),
            final(self)@.len() == new_len,
            new_len <= old(self)@.len() ==> final(self)@ == old(self)@.take(new_len as int),
            new_len > old(self)@.len() ==> final(self)@.take(old(self)@.len() as int) == old(self)@
                && forall|i: int|
                old(self)@.len() <= i < new_len ==> cloned(value, #[trigger] final(self)@[i]),
    {
        if new_len <= self.len() {
            self.truncate(new_len);
        } else {
            while self.len() < new_len
                invariant
                    self.wf(),
                    self.spec_capacity() == old(self).spec_capacity(),
                    new_len <= self.spec_capacity(),
                    old(self)@.len() <= self@.len() <= new_len,
                    self@.take(old(self)@.len() as int) == old(self)@,
                    forall|i: int|
                        old(self)@.len() <= i < self@.len() ==> cloned(value, #[trigger] self@[i]),
                decreases new_len - self@.len(),
            {
                self.push_unchecked(value.clone());
            }
        }
    }
}

} // verus!
