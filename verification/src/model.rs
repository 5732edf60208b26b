//! The vector as a run of items under a capacity: what its operations do to
//! that run, and what follows for several operations in a row.

use crate::traits::Slot;
use vstd::prelude::*;

verus! {

/// The items held by the slots `start..end` of `slots`.
pub open spec fn items_of<S: Slot>(slots: Seq<S>, start: int, end: int) -> Seq<S::Item> {
    Seq::new((end - start) as nat, |i: int| slots[start + i].item())
}

/// The items of a vector that held `items` and can hold `capacity` of them,
/// after `value` was pushed: `value` comes last where there was room, and
/// nothing has changed where there was none.
pub open spec fn spec_push<T>(items: Seq<T>, capacity: nat, value: T) -> Seq<T> {
    if items.len() < capacity {
        items.push(value)
    } else {
        items
    }
}

/// The items of such a vector after `values` were pushed, one after another.
pub open spec fn spec_push_all<T>(items: Seq<T>, capacity: nat, values: Seq<T>) -> Seq<T>
    decreases values.len(),
{
    if values.len() == 0 {
        items
    } else {
        spec_push_all(spec_push(items, capacity, values[0]), capacity, values.drop_first())
    }
}

/// Pushing values for which there is room appends them, in their order, and
/// keeps what was there.
pub proof fn lemma_push_all_appends<T>(items: Seq<T>, capacity: nat, values: Seq<T>)
    requires
        items.len() + values.len() <= capacity,
    ensures
        spec_push_all(items, capacity, values) == items + values,
    decreases values.len(),
{
    if values.len() > 0 {
        lemma_push_all_appends(items.push(values[0]), capacity, values.drop_first());
    }
}

/// After as many values as the capacity or fewer were pushed onto an empty
/// vector, the vector holds exactly these values, in the order in which they
/// were pushed, and it is full if and only if they are as many as the
/// capacity.
pub proof fn lemma_push_all_onto_empty<T>(capacity: nat, values: Seq<T>)
    requires
        values.len() <= capacity,
    ensures
        spec_push_all(Seq::<T>::empty(), capacity, values) == values,
        spec_push_all(Seq::<T>::empty(), capacity, values).len() == values.len(),
        (spec_push_all(Seq::<T>::empty(), capacity, values).len() == capacity) == (values.len()
            == capacity),
{
    lemma_push_all_appends(Seq::<T>::empty(), capacity, values);
}

/// How many of `offered` items are appended to a vector of `len` items that
/// can hold `capacity`: all of them, or as many as there is room for.
pub open spec fn spec_room(len: nat, capacity: nat, offered: nat) -> nat {
    if len + offered <= capacity {
        offered
    } else {
        (capacity - len) as nat
    }
}

/// `after` is `before` with clones of the first `count` items of `source`
/// behind it.
pub open spec fn appended_clones<T: Clone>(
    before: Seq<T>,
    source: Seq<T>,
    count: nat,
    after: Seq<T>,
) -> bool {
    &&& after.len() == before.len() + count
    &&& after.take(before.len() as int) == before
    &&& forall|i: int|
        before.len() <= i < after.len() ==> cloned(source[i - before.len()], #[trigger] after[i])
}

/// What `pop` hands out of a vector that holds `items`, and the items that
/// it leaves: the last item and the other ones, or nothing and no change
/// where there is no item.
pub open spec fn spec_pop<T>(items: Seq<T>) -> (Option<T>, Seq<T>) {
    if items.len() > 0 {
        (Some(items.last()), items.drop_last())
    } else {
        (None, items)
    }
}

/// A pop that follows a push for which there was room hands out the pushed
/// value and leaves the items as they were before the push.
pub proof fn lemma_pop_after_push<T>(items: Seq<T>, capacity: nat, value: T)
    requires
        items.len() < capacity,
    ensures
        spec_pop(spec_push(items, capacity, value)) == (Some(value), items),
{
}

/// Reading back a vector that was made of a slice gives the slice again, as
/// far as the capacity goes: `read` is what `as_slice` returns for the items
/// `vec` that `from_slice` made of `slice` in a vector that can hold
/// `capacity`. It is as long as the slice, or as the capacity where that is
/// less, and each item of it is a clone of the item of the slice in the same
/// place.
pub proof fn lemma_from_slice_round_trip<T: Clone>(
    slice: Seq<T>,
    capacity: nat,
    vec: Seq<T>,
    read: Seq<&T>,
)
    requires
        appended_clones(Seq::<T>::empty(), slice, spec_room(0, capacity, slice.len()), vec),
        read.len() == vec.len(),
        forall|i: int| 0 <= i < read.len() ==> *(#[trigger] read[i]) == vec[i],
    ensures
        slice.len() <= capacity ==> read.len() == slice.len(),
        slice.len() > capacity ==> read.len() == capacity,
        forall|i: int| 0 <= i < read.len() ==> cloned(slice[i], *(#[trigger] read[i])),
{
}

} // verus!
