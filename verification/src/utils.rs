//! Helpers that turn runs of slots into items and items into slots.

use crate::traits::Slot;
use vstd::prelude::*;

verus! {

/// The items of a run of occupied slots, by reference.
pub(crate) fn slice_assume_init_ref<S: Slot>(slice: &[S]) -> (items: Vec<&S::Item>)
    requires
        forall|i: int| 0 <= i < slice@.len() ==> (#[trigger] slice@[i]).is_occupied(),
    ensures
        items@.len() == slice@.len(),
        forall|i: int| 0 <= i < items@.len() ==> *(#[trigger] items@[i]) == slice@[i].item(),
{
    let mut items: Vec<&S::Item> = Vec::new();
    let mut i: usize = 0;
    while i < slice.len()
        invariant
            i <= slice@.len(),
            items@.len() == i,
            forall|j: int| 0 <= j < slice@.len() ==> (#[trigger] slice@[j]).is_occupied(),
            forall|j: int| 0 <= j < i ==> *(#[trigger] items@[j]) == slice@[j].item(),
        decreases slice@.len() - i,
    {
        items.push(slice[i].assume_init_ref());
        i = i + 1;
    }
    items
}

/// The items of a run of occupied slots, by mutable reference. Each slot
/// stays occupied, by what the caller leaves behind the reference to its
/// item.
pub(crate) fn slice_assume_init_mut<S: Slot>(slice: &mut [S]) -> (items: Vec<&mut S::Item>)
    requires
        forall|i: int| 0 <= i < old(slice)@.len() ==> (#[trigger] old(slice)@[i]).is_occupied(),
    ensures
        items@.len() == old(slice)@.len(),
        forall|i: int| 0 <= i < items@.len() ==> *(#[trigger] items@[i]) == old(slice)@[i].item(),
        final(slice)@.len() == old(slice)@.len(),
        forall|i: int|
            0 <= i < items@.len() ==> (#[trigger] final(slice)@[i]).is_occupied()
                && final(slice)@[i].item() == *final(items@[i]),
{
    let mut items: Vec<&mut S::Item> = Vec::new();
    let ghost before = slice@;
    let ghost after = final(slice)@;
    let mut rest = slice;
    while rest.len() > 0
        invariant
            items@.len() + rest@.len() == before.len(),
            rest@ == before.skip(items@.len() as int),
            forall|i: int| 0 <= i < before.len() ==> (#[trigger] before[i]).is_occupied(),
            forall|i: int| 0 <= i < items@.len() ==> *(#[trigger] items@[i]) == before[i].item(),
            after.len() >= items@.len(),
            after.skip(items@.len() as int) == final(rest)@,
            forall|i: int|
                0 <= i < items@.len() ==> (#[trigger] after[i]).is_occupied() && after[i].item()
                    == *final(items@[i]),
        decreases rest@.len(),
    {
        let ghost n = items@.len() as int;
        let (head, tail) = rest.split_at_mut(1);
        let item = head[0].assume_init_mut();
        items.push(item);
        rest = tail;
        proof {
            assert(after.skip(n + 1) =~= after.skip(n).skip(1));
            assert(after[n] == after.skip(n)[0]);
        }
    }
    items
}

/// Clones the items of `slice` into the slots of `this`, which are all
/// occupied afterwards, and returns mutable references to the items that
/// they hold now. What the slots held before is dropped.
pub fn uninit_write_slice_cloned<'a, S: Slot>(this: &'a mut [S], slice: &[S::Item]) -> (items: Vec<
    &'a mut S::Item,
>) where S::Item: Clone
    requires
        old(this)@.len() == slice@.len(),
    ensures
        items@.len() == slice@.len(),
        forall|i: int| 0 <= i < slice@.len() ==> cloned(slice@[i], *(#[trigger] items@[i])),
        final(this)@.len() == slice@.len(),
        forall|i: int|
            0 <= i < slice@.len() ==> (#[trigger] final(this)@[i]).is_occupied()
                && final(this)@[i].item() == *final(items@[i]),
{
    let mut i: usize = 0;
    while i < slice.len()
        invariant
            i <= slice@.len(),
            this@.len() == slice@.len(),
            forall|j: int|
                0 <= j < i ==> (#[trigger] this@[j]).is_occupied() && cloned(
                    slice@[j],
                    this@[j].item(),
                ),
        decreases slice@.len() - i,
    {
        this[i] = S::new(slice[i].clone());
        i = i + 1;
    }
    slice_assume_init_mut(this)
}

} // verus!
