//! The vector whose container is an array of optional items.

use crate::generic::GenericVec;
use crate::traits::Slot;
use vstd::prelude::*;

verus! {

/// Stack-allocated vector with static capacity.
pub type StaticVec<T, const N: usize> = GenericVec<[Option<T>; N]>;

/// `Vec::from` on an array: the vector holds the items of the array, in their
/// order.
#[verifier::external_body]
fn array_into_vec<T, const M: usize>(array: [T; M]) -> (items: Vec<T>)
    ensures
        items@ == array@,
{
    Vec::from(array)
}

/// `map` on an array of occupied slots, with a closure that hands out the
/// item of its slot: the array of the items, each in the place of its slot.
#[verifier::external_body]
fn array_assume_init<T, const N: usize>(slots: [Option<T>; N]) -> (items: [T; N])
    requires
        forall|i: int| 0 <= i < N ==> (#[trigger] slots@[i]).is_occupied(),
    ensures
        forall|i: int| 0 <= i < N ==> (#[trigger] items@[i]) == slots@[i].item(),
{
    slots.map(|slot| slot.assume_init())
}

impl<T, const N: usize> StaticVec<T, N> {
    /// Creates the vector filling it with the value returned from closure up
    /// to specified length.
    ///
    /// The vector is filled sequentially by subsequent closure calls.
    pub fn fill_with<F: Fn() -> T>(len: usize, func: F) -> (vec: Self)
        requires
            len <= N,
            func.requires(()),
        ensures
            vec.wf(),
            vec.spec_capacity() == N,
            vec@.len() == len,
            forall|i: int| 0 <= i < len ==> func.ensures((), #[trigger] vec@[i]),
    {
        let mut vec = Self::new();
        let mut i: usize = 0;
        while i < len
            invariant
                vec.wf(),
                vec.spec_capacity() == N,
                i <= len <= N,
                vec@.len() == i,
                func.requires(()),
                forall|j: int| 0 <= j < i ==> func.ensures((), #[trigger] vec@[j]),
            decreases len - i,
        {
            vec.push_unchecked(func());
            i = i + 1;
        }
        vec
    }

    /// Constructs a new vector from array of values.
    pub fn from_array<const M: usize>(array: [T; M]) -> (vec: Self)
        requires
            M <= N,
        ensures
            vec.wf(),
            vec.spec_capacity() == N,
            vec@ == array@,
    {
        let items = array_into_vec(array);
        Self::try_from_iter(items.into_iter()).ok().unwrap()
    }

    /// Converts the vector into an array of its items.
    ///
    /// This only succeeds if the vector is full and thus holds `N` items.
    pub fn try_into_array(self) -> (result: Result<[T; N], ()>)
        requires
            self.wf(),
        ensures
            result is Ok <==> self@.len() == N,
            result matches Ok(array) ==> array@ == self@,
    {
        if self.is_full() {
            let (slots, _) = self.into_raw_parts();
            Ok(array_assume_init(slots))
        } else {
            Err(())
        }
    }

    /// Creates the vector filling it with the cloned value up to specified
    /// length.
    pub fn fill(len: usize, value: T) -> (vec: Self) where T: Clone
        requires
            len <= N,
        ensures
            vec.wf(),
            vec.spec_capacity() == N,
            vec@.len() == len,
            forall|i: int| 0 <= i < len ==> cloned(value, #[trigger] vec@[i]),
    {
        let mut vec = Self::new();
        let mut i: usize = 0;
        while i < len
            invariant
                vec.wf(),
                vec.spec_capacity() == N,
                i <= len <= N,
                vec@.len() == i,
                forall|j: int| 0 <= j < i ==> cloned(value, #[trigger] vec@[j]),
            decreases len - i,
        {
            vec.push_unchecked(value.clone());
            i = i + 1;
        }
        vec
    }
}

} // verus!
