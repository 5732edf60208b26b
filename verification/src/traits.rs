//! Traits for the parameters of a fixed-capacity vector: the slot that holds
//! one item, the container that holds the slots, and the integer that counts
//! the items.

use vstd::prelude::*;

verus! {

/// One storage cell: it is empty, or occupied by exactly one item.
///
/// A slot type may have no way to tell the two states apart (a plain byte is
/// both an empty cell and an occupied one); the vector never asks a slot which
/// state it is in, it only relies on what these contracts promise.
pub trait Slot: Sized {
    type Item;

    /// The slot holds an item.
    spec fn is_occupied(&self) -> bool;

    /// The slot holds no item that is still owed to anyone.
    spec fn is_empty(&self) -> bool;

    /// The item held by an occupied slot.
    spec fn item(&self) -> Self::Item;

    /// An occupied slot that holds `item`.
    fn new(item: Self::Item) -> (slot: Self)
        ensures
            slot.is_occupied(),
            slot.item() == item,
    ;

    /// Consumes an occupied slot and hands out its item.
    fn assume_init(self) -> (item: Self::Item)
        requires
            self.is_occupied(),
        ensures
            item == self.item(),
    ;

    /// Moves the item out of an occupied slot, which is empty afterwards.
    fn assume_init_read(&mut self) -> (item: Self::Item)
        requires
            old(self).is_occupied(),
        ensures
            item == old(self).item(),
            final(self).is_empty(),
    ;

    /// The item of an occupied slot, by reference.
    fn assume_init_ref(&self) -> (item: &Self::Item)
        requires
            self.is_occupied(),
        ensures
            *item == self.item(),
    ;

    /// The item of an occupied slot, by mutable reference. The slot stays
    /// occupied, by whatever the caller leaves behind the reference.
    fn assume_init_mut(&mut self) -> (item: &mut Self::Item)
        requires
            old(self).is_occupied(),
        ensures
            *item == old(self).item(),
            final(self).is_occupied(),
            final(self).item() == *final(item),
    ;
}

/// A slot type of which an empty value can be made.
pub trait UninitSlot: Slot {
    /// An empty slot.
    fn uninit() -> (slot: Self)
        ensures
            slot.is_empty(),
    ;
}

impl<T> Slot for Option<T> {
    type Item = T;

    open spec fn is_occupied(&self) -> bool {
        self is Some
    }

    open spec fn is_empty(&self) -> bool {
        self is None
    }

    open spec fn item(&self) -> T {
        self->0
    }

    fn new(item: T) -> (slot: Self) {
        Some(item)
    }

    fn assume_init(self) -> (item: T) {
        self.unwrap()
    }

    fn assume_init_read(&mut self) -> (item: T) {
        self.take().unwrap()
    }

    fn assume_init_ref(&self) -> (item: &T) {
        self.as_ref().unwrap()
    }

    fn assume_init_mut(&mut self) -> (item: &mut T) {
        self.as_mut().unwrap()
    }
}

impl<T> UninitSlot for Option<T> {
    fn uninit() -> (slot: Self) {
        None
    }
}

/// A byte is its own slot: every byte is an item, and none needs to be given
/// back, so every byte also counts as empty.
impl Slot for u8 {
    type Item = u8;

    open spec fn is_occupied(&self) -> bool {
        true
    }

    open spec fn is_empty(&self) -> bool {
        true
    }

    open spec fn item(&self) -> u8 {
        *self
    }

    fn new(byte: u8) -> (slot: Self) {
        byte
    }

    fn assume_init(self) -> (item: u8) {
        self
    }

    fn assume_init_read(&mut self) -> (item: u8) {
        *self
    }

    fn assume_init_ref(&self) -> (item: &u8) {
        self
    }

    fn assume_init_mut(&mut self) -> (item: &mut u8) {
        self
    }
}

impl UninitSlot for u8 {
    fn uninit() -> (slot: Self)
        ensures
            slot == 0,
    {
        0
    }
}

/// A fixed-length run of slots, seen through a readable and a writable slice
/// over the same store.
pub trait Container {
    type Item;

    type Slot: Slot<Item = Self::Item>;

    /// The slots of the store, in order.
    spec fn slots(&self) -> Seq<Self::Slot>;

    /// The number of slots fits a `usize`.
    proof fn lemma_slots_len(&self)
        ensures
            self.slots().len() <= usize::MAX,
    ;

    /// The readable view.
    fn as_slots(&self) -> (slots: &[Self::Slot])
        ensures
            slots@ == self.slots(),
    ;

    /// The writable view: what the caller leaves in the slice is what the
    /// store holds afterwards.
    fn as_mut_slots(&mut self) -> (slots: &mut [Self::Slot])
        ensures
            slots@ == old(self).slots(),
            final(self).slots() == final(slots)@,
    ;
}

/// A container that can be made with every slot empty.
pub trait DefaultContainer: Container + Sized {
    /// The number of slots of a container made by `default`.
    spec fn default_len() -> nat;

    /// A container whose slots are all empty.
    fn default() -> (data: Self)
        ensures
            data.slots().len() == Self::default_len(),
            forall|i: int| 0 <= i < data.slots().len() ==> (#[trigger] data.slots()[i]).is_empty(),
    ;
}

impl<S: Slot, const N: usize> Container for [S; N] {
    type Item = S::Item;

    type Slot = S;

    open spec fn slots(&self) -> Seq<S> {
        self@
    }

    proof fn lemma_slots_len(&self) {
    }

    fn as_slots(&self) -> (slots: &[S]) {
        self.as_slice()
    }

    fn as_mut_slots(&mut self) -> (slots: &mut [S]) {
        self
    }
}

/// `core::array::from_fn` with a closure that ignores the index and returns
/// `S::uninit()`: the array holds `N` results of that call, so each of them is
/// an empty slot.
#[verifier::external_body]
fn array_of_uninit<S: UninitSlot, const N: usize>() -> (data: [S; N])
    ensures
        forall|i: int| 0 <= i < N ==> (#[trigger] data@[i]).is_empty(),
{
    core::array::from_fn(|_| S::uninit())
}

impl<S: UninitSlot, const N: usize> DefaultContainer for [S; N] {
    open spec fn default_len() -> nat {
        N as nat
    }

    fn default() -> (data: Self) {
        array_of_uninit()
    }
}

impl<'a, S: Slot> Container for &'a mut [S] {
    type Item = S::Item;

    type Slot = S;

    open spec fn slots(&self) -> Seq<S> {
        (**self)@
    }

    proof fn lemma_slots_len(&self) {
        assert((**self).len() == (**self)@.len());
    }

    fn as_slots(&self) -> (slots: &[S]) {
        &**self
    }

    fn as_mut_slots(&mut self) -> (slots: &mut [S]) {
        &mut **self
    }
}

/// An unsigned integer type that can count the items of a vector.
pub trait Length: Copy + Sized {
    /// The number that the value stands for.
    spec fn as_nat(self) -> nat;

    /// The largest number that the type can hold.
    spec fn max_nat() -> nat;

    /// No value exceeds the largest, and the largest is at least one.
    proof fn lemma_bounds(self)
        ensures
            self.as_nat() <= Self::max_nat(),
            Self::max_nat() >= 1,
    ;

    /// The value that stands for zero.
    fn zero() -> (n: Self)
        ensures
            n.as_nat() == 0,
    ;

    /// The value that stands for one.
    fn one() -> (n: Self)
        ensures
            n.as_nat() == 1,
    ;

    /// The largest value of the type.
    fn max_value() -> (n: Self)
        ensures
            n.as_nat() == Self::max_nat(),
    ;

    /// Whether the value stands for zero.
    fn is_zero(&self) -> (b: bool)
        ensures
            b == (self.as_nat() == 0),
    ;

    /// The value as a `usize`, if it fits.
    fn to_usize(&self) -> (n: Option<usize>)
        ensures
            n == (if self.as_nat() <= usize::MAX {
                Some(self.as_nat() as usize)
            } else {
                None
            }),
    ;

    /// The value that stands for `n`, if the type can hold it.
    fn from_usize(n: usize) -> (len: Option<Self>)
        ensures
            len is Some <==> n <= Self::max_nat(),
            len matches Some(l) ==> l.as_nat() == n,
    ;

    /// The sum of two values that the type can hold.
    fn plus(self, other: Self) -> (sum: Self)
        requires
            self.as_nat() + other.as_nat() <= Self::max_nat(),
        ensures
            sum.as_nat() == self.as_nat() + other.as_nat(),
    ;

    /// The difference of two values, the second being no greater than the
    /// first.
    fn minus(self, other: Self) -> (difference: Self)
        requires
            other.as_nat() <= self.as_nat(),
        ensures
            difference.as_nat() == self.as_nat() - other.as_nat(),
    ;

    /// Whether the first value is less than the second.
    fn less_than(&self, other: &Self) -> (b: bool)
        ensures
            b == (self.as_nat() < other.as_nat()),
    ;
}

impl Length for usize {
    open spec fn as_nat(self) -> nat {
        self as nat
    }

    open spec fn max_nat() -> nat {
        usize::MAX as nat
    }

    proof fn lemma_bounds(self) {
    }

    fn zero() -> (n: Self) {
        0
    }

    fn one() -> (n: Self) {
        1
    }

    fn max_value() -> (n: Self) {
        usize::MAX
    }

    fn is_zero(&self) -> (b: bool) {
        *self == 0
    }

    fn to_usize(&self) -> (n: Option<usize>) {
        Some(*self)
    }

    fn from_usize(n: usize) -> (len: Option<Self>) {
        Some(n)
    }

    fn plus(self, other: Self) -> (sum: Self) {
        self + other
    }

    fn minus(self, other: Self) -> (difference: Self) {
        self - other
    }

    fn less_than(&self, other: &Self) -> (b: bool) {
        *self < *other
    }
}

impl Length for u8 {
    open spec fn as_nat(self) -> nat {
        self as nat
    }

    open spec fn max_nat() -> nat {
        u8::MAX as nat
    }

    proof fn lemma_bounds(self) {
    }

    fn zero() -> (n: Self) {
        0
    }

    fn one() -> (n: Self) {
        1
    }

    fn max_value() -> (n: Self) {
        u8::MAX
    }

    fn is_zero(&self) -> (b: bool) {
        *self == 0
    }

    fn to_usize(&self) -> (n: Option<usize>) {
        Some(*self as usize)
    }

    fn from_usize(n: usize) -> (len: Option<Self>) {
        if n <= u8::MAX as usize {
            Some(n as u8)
        } else {
            None
        }
    }

    fn plus(self, other: Self) -> (sum: Self) {
        self + other
    }

    fn minus(self, other: Self) -> (difference: Self) {
        self - other
    }

    fn less_than(&self, other: &Self) -> (b: bool) {
        *self < *other
    }
}

impl Length for u16 {
    open spec fn as_nat(self) -> nat {
        self as nat
    }

    open spec fn max_nat() -> nat {
        u16::MAX as nat
    }

    proof fn lemma_bounds(self) {
    }

    fn zero() -> (n: Self) {
        0
    }

    fn one() -> (n: Self) {
        1
    }

    fn max_value() -> (n: Self) {
        u16::MAX
    }

    fn is_zero(&self) -> (b: bool) {
        *self == 0
    }

    fn to_usize(&self) -> (n: Option<usize>) {
        Some(*self as usize)
    }

    fn from_usize(n: usize) -> (len: Option<Self>) {
        if n <= u16::MAX as usize {
            Some(n as u16)
        } else {
            None
        }
    }

    fn plus(self, other: Self) -> (sum: Self) {
        self + other
    }

    fn minus(self, other: Self) -> (difference: Self) {
        self - other
    }

    fn less_than(&self, other: &Self) -> (b: bool) {
        *self < *other
    }
}

impl Length for u32 {
    open spec fn as_nat(self) -> nat {
        self as nat
    }

    open spec fn max_nat() -> nat {
        u32::MAX as nat
    }

    proof fn lemma_bounds(self) {
    }

    fn zero() -> (n: Self) {
        0
    }

    fn one() -> (n: Self) {
        1
    }

    fn max_value() -> (n: Self) {
        u32::MAX
    }

    fn is_zero(&self) -> (b: bool) {
        *self == 0
    }

    fn to_usize(&self) -> (n: Option<usize>) {
        Some(*self as usize)
    }

    fn from_usize(n: usize) -> (len: Option<Self>) {
        if n <= u32::MAX as usize {
            Some(n as u32)
        } else {
            None
        }
    }

    fn plus(self, other: Self) -> (sum: Self) {
        self + other
    }

    fn minus(self, other: Self) -> (difference: Self) {
        self - other
    }

    fn less_than(&self, other: &Self) -> (b: bool) {
        *self < *other
    }
}

impl Length for u64 {
    open spec fn as_nat(self) -> nat {
        self as nat
    }

    open spec fn max_nat() -> nat {
        u64::MAX as nat
    }

    proof fn lemma_bounds(self) {
    }

    fn zero() -> (n: Self) {
        0
    }

    fn one() -> (n: Self) {
        1
    }

    fn max_value() -> (n: Self) {
        u64::MAX
    }

    fn is_zero(&self) -> (b: bool) {
        *self == 0
    }

    fn to_usize(&self) -> (n: Option<usize>) {
        if *self <= usize::MAX as u64 {
            Some(*self as usize)
        } else {
            None
        }
    }

    fn from_usize(n: usize) -> (len: Option<Self>) {
        Some(n as u64)
    }

    fn plus(self, other: Self) -> (sum: Self) {
        self + other
    }

    fn minus(self, other: Self) -> (difference: Self) {
        self - other
    }

    fn less_than(&self, other: &Self) -> (b: bool) {
        *self < *other
    }
}

} // verus!
