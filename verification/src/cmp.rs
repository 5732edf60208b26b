//! Equality and order of vectors: those of their items, taken in order.

use crate::generic::GenericVec;
use crate::traits::{Container, Length};
use core::cmp::Ordering;
use vstd::prelude::*;
use vstd::std_specs::cmp::{OrdSpec, PartialEqSpec, PartialOrdSpec};

verus! {

/// The two runs are equally long and equal item by item, by the `==` of the
/// items.
pub open spec fn spec_eq_items<T: PartialEq>(left: Seq<T>, right: Seq<T>) -> bool {
    &&& left.len() == right.len()
    &&& forall|i: int| 0 <= i < left.len() ==> (#[trigger] left[i]).eq_spec(&right[i])
}

/// The order of two runs by their first pair of items that do not compare
/// as equal, or by their lengths where one run is the start of the other; by
/// the `partial_cmp` of the items.
pub open spec fn lexical_partial_order<T: PartialOrd>(left: Seq<T>, right: Seq<T>) -> Option<
    Ordering,
>
    decreases left.len(),
{
    if left.len() == 0 {
        if right.len() == 0 {
            Some(Ordering::Equal)
        } else {
            Some(Ordering::Less)
        }
    } else if right.len() == 0 {
        Some(Ordering::Greater)
    } else {
        match left[0].partial_cmp_spec(&right[0]) {
            Some(Ordering::Equal) => lexical_partial_order(left.drop_first(), right.drop_first()),
            other => other,
        }
    }
}

/// The order of two runs by their first pair of items that do not compare
/// as equal, or by their lengths where one run is the start of the other; by
/// the `cmp` of the items.
pub open spec fn lexical_order<T: Ord>(left: Seq<T>, right: Seq<T>) -> Ordering
    decreases left.len(),
{
    if left.len() == 0 {
        if right.len() == 0 {
            Ordering::Equal
        } else {
            Ordering::Less
        }
    } else if right.len() == 0 {
        Ordering::Greater
    } else {
        match left[0].cmp_spec(&right[0]) {
            Ordering::Equal => lexical_order(left.drop_first(), right.drop_first()),
            other => other,
        }
    }
}

/// The order of two lengths.
fn order_of_lengths(left: usize, right: usize) -> (order: Ordering)
    ensures
        order == (if left < right {
            Ordering::Less
        } else if left == right {
            Ordering::Equal
        } else {
            Ordering::Greater
        }),
{
    if left < right {
        Ordering::Less
    } else if left == right {
        Ordering::Equal
    } else {
        Ordering::Greater
    }
}

impl<C: Container, L: Length> GenericVec<C, L> {
    /// Whether the two vectors hold equal items in the same order.
    pub fn eq(&self, other: &Self) -> (equal: bool) where C::Item: PartialEq
        requires
            self.wf(),
            other.wf(),
        ensures
            C::Item::obeys_eq_spec() ==> equal == spec_eq_items(self@, other@),
    {
        let len = self.len();
        if len != other.len() {
            return false;
        }
        let mut i: usize = 0;
        let ghost mut k: int = 0;
        while i < len
            invariant
                self.wf(),
                other.wf(),
                k == i,
                i <= len,
                len == self@.len(),
                len == other@.len(),
                C::Item::obeys_eq_spec() ==> forall|j: int|
                    0 <= j < k ==> (#[trigger] self@[j]).eq_spec(&other@[j]),
            decreases len - i,
        {
            if !(self[i] == other[i]) {
                return false;
            }
            i = i + 1;
            proof {
                k = k + 1;
            }
        }
        true
    }

    /// Whether the vector holds items equal to those of the slice, in the
    /// same order.
    pub fn eq_slice(&self, other: &[C::Item]) -> (equal: bool) where C::Item: PartialEq
        requires
            self.wf(),
        ensures
            C::Item::obeys_eq_spec() ==> equal == spec_eq_items(self@, other@),
    {
        let len = self.len();
        if len != other.len() {
            return false;
        }
        let mut i: usize = 0;
        let ghost mut k: int = 0;
        while i < len
            invariant
                self.wf(),
                k == i,
                i <= len,
                len == self@.len(),
                len == other@.len(),
                C::Item::obeys_eq_spec() ==> forall|j: int|
                    0 <= j < k ==> (#[trigger] self@[j]).eq_spec(&other@[j]),
            decreases len - i,
        {
            if !(self[i] == other[i]) {
                return false;
            }
            i = i + 1;
            proof {
                k = k + 1;
            }
        }
        true
    }

    /// The order of the two vectors, which is that of their items taken in
    /// order, where the items have one.
    pub fn partial_cmp(&self, other: &Self) -> (order: Option<Ordering>) where
        C::Item: PartialOrd,

        requires
            self.wf(),
            other.wf(),
        ensures
            C::Item::obeys_partial_cmp_spec() ==> order == lexical_partial_order(self@, other@),
    {
        let left = self.len();
        let right = other.len();
        let mut i: usize = 0;
        let ghost mut k: int = 0;
        assert(self@.skip(0) =~= self@);
        assert(other@.skip(0) =~= other@);
        while i < left && i < right
            invariant
                self.wf(),
                other.wf(),
                k == i,
                i <= left,
                i <= right,
                left == self@.len(),
                right == other@.len(),
                C::Item::obeys_partial_cmp_spec() ==> lexical_partial_order(self@, other@)
                    == lexical_partial_order(self@.skip(k), other@.skip(k)),
            decreases left - i,
        {
            proof {
                assert(self@.skip(k).drop_first() =~= self@.skip(k + 1));
                assert(other@.skip(k).drop_first() =~= other@.skip(k + 1));
            }
            match self[i].partial_cmp(&other[i]) {
                Some(Ordering::Equal) => {},
                order => {
                    return order;
                },
            }
            i = i + 1;
            proof {
                k = k + 1;
            }
        }
        Some(order_of_lengths(left, right))
    }

    /// The order of the two vectors, which is that of their items taken in
    /// order.
    pub fn cmp(&self, other: &Self) -> (order: Ordering) where C::Item: Ord
        requires
            self.wf(),
            other.wf(),
        ensures
            C::Item::obeys_cmp_spec() ==> order == lexical_order(self@, other@),
    {
        let left = self.len();
        let right = other.len();
        let mut i: usize = 0;
        let ghost mut k: int = 0;
        assert(self@.skip(0) =~= self@);
        assert(other@.skip(0) =~= other@);
        while i < left && i < right
            invariant
                self.wf(),
                other.wf(),
                k == i,
                i <= left,
                i <= right,
                left == self@.len(),
                right == other@.len(),
                C::Item::obeys_cmp_spec() ==> lexical_order(self@, other@) == lexical_order(
                    self@.skip(k),
                    other@.skip(k),
                ),
            decreases left - i,
        {
            proof {
                assert(self@.skip(k).drop_first() =~= self@.skip(k + 1));
                assert(other@.skip(k).drop_first() =~= other@.skip(k + 1));
            }
            match self[i].cmp(&other[i]) {
                Ordering::Equal => {},
                order => {
                    return order;
                },
            }
            i = i + 1;
            proof {
                k = k + 1;
            }
        }
        order_of_lengths(left, right)
    }
}

} // verus!
