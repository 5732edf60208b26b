//! A string in a fixed-capacity vector of bytes.

use crate::error::FullError;
use crate::generic::GenericVec;
use crate::traits::{Container, DefaultContainer, Length};
use vstd::prelude::*;
use vstd::string::StringSliceAdditionalSpecFns;
use vstd::utf8::{
    decode_utf8, decode_utf8_encode_utf8, encode_scalar, encode_utf8, encode_utf8_decode_utf8,
    encode_utf8_valid_utf8, valid_utf8, valid_utf8_concat,
};

verus! {

/// The error of `core::str::from_utf8`.
#[verifier::external_type_specification]
#[verifier::external_body]
pub struct ExUtf8Error(core::str::Utf8Error);

/// `core::str::from_utf8`: the bytes as a string slice where they are valid
/// UTF-8, an error where they are not. The string slice is made of these
/// very bytes.
#[verifier::external_body]
fn from_utf8(bytes: &[u8]) -> (result: Result<&str, core::str::Utf8Error>)
    ensures
        result is Ok <==> valid_utf8(bytes@),
        result matches Ok(s) ==> s.spec_bytes() == bytes@,
{
    core::str::from_utf8(bytes)
}

/// `char::len_utf8`: the number of bytes of the character's UTF-8 encoding.
#[verifier::external_body]
fn len_utf8(c: char) -> (len: usize)
    ensures
        len == encode_scalar(c as u32).len(),
{
    c.len_utf8()
}

/// `char::encode_utf8` on a buffer of four bytes: the buffer starts with the
/// character's UTF-8 encoding afterwards.
#[verifier::external_body]
fn write_utf8(c: char, buffer: &mut [u8; 4])
    ensures
        final(buffer)@.take(encode_scalar(c as u32).len() as int) == encode_scalar(c as u32),
{
    c.encode_utf8(buffer);
}

/// The encoding of two runs of characters, one after the other, is the
/// encoding of the first followed by that of the second.
pub proof fn lemma_encode_utf8_concat(first: Seq<char>, second: Seq<char>)
    ensures
        encode_utf8(first + second) == encode_utf8(first) + encode_utf8(second),
    decreases first.len(),
{
    if first.len() > 0 {
        lemma_encode_utf8_concat(first.drop_first(), second);
        assert((first + second).drop_first() =~= first.drop_first() + second);
    }
}

/// Valid UTF-8 followed by valid UTF-8 decodes to the characters of the
/// first followed by those of the second.
pub proof fn lemma_decode_utf8_concat(first: Seq<u8>, second: Seq<u8>)
    requires
        valid_utf8(first),
        valid_utf8(second),
    ensures
        valid_utf8(first + second),
        decode_utf8(first + second) == decode_utf8(first) + decode_utf8(second),
{
    valid_utf8_concat(first, second);
    decode_utf8_encode_utf8(first);
    decode_utf8_encode_utf8(second);
    lemma_encode_utf8_concat(decode_utf8(first), decode_utf8(second));
    encode_utf8_decode_utf8(decode_utf8(first) + decode_utf8(second));
}

/// Fixed-capacity string: a vector of bytes that form valid UTF-8.
pub struct GenericString<C: Container<Item = u8, Slot = u8>, L: Length = usize> {
    bytes: GenericVec<C, L>,
}

impl<C: Container<Item = u8, Slot = u8>, L: Length> View for GenericString<C, L> {
    type V = Seq<char>;

    /// The characters of the string.
    open spec fn view(&self) -> Seq<char> {
        decode_utf8(self.spec_bytes())
    }
}

impl<C: DefaultContainer<Item = u8, Slot = u8>, L: Length> Default for GenericString<C, L> {
    fn default() -> (string: Self)
        ensures
            string.wf(),
            string.spec_bytes() == Seq::<u8>::empty(),
            string.spec_vec().spec_capacity() == GenericVec::<C, L>::default_capacity(),
    {
        Self { bytes: GenericVec::default() }
    }
}

impl<C: DefaultContainer<Item = u8, Slot = u8>, L: Length> GenericString<C, L> {
    /// A string in a new container that holds the bytes of this one, which
    /// have to fit its capacity.
    pub fn clone(&self) -> (string: Self)
        requires
            self.wf(),
            self.spec_bytes().len() <= GenericVec::<C, L>::default_capacity(),
        ensures
            string.wf(),
            string.spec_bytes() == self.spec_bytes(),
            string.spec_vec().spec_capacity() == GenericVec::<C, L>::default_capacity(),
    {
        let bytes = self.bytes.clone();
        assert(bytes@ =~= self.bytes@);
        Self { bytes }
    }

    /// Creates a new string that holds `s`.
    ///
    /// If `s` is longer than the capacity then error is returned.
    pub fn try_from_str(s: &str) -> (result: Result<Self, FullError>)
        ensures
            result is Ok <==> s.spec_bytes().len() <= GenericVec::<C, L>::default_capacity(),
            result matches Ok(string) ==> {
                &&& string.wf()
                &&& string.spec_bytes() == s.spec_bytes()
                &&& string@ == s@
                &&& string.spec_vec().spec_capacity() == GenericVec::<C, L>::default_capacity()
            },
    {
        let mut string = Self::default();
        match string.push_str(s) {
            Ok(()) => Ok(string),
            Err(error) => Err(error),
        }
    }

    /// Makes a string of a vector of bytes, where they are valid UTF-8.
    pub fn try_from_vec(vec: GenericVec<C, L>) -> (result: Result<Self, core::str::Utf8Error>)
        requires
            vec.wf(),
        ensures
            result is Ok <==> valid_utf8(vec@),
            result matches Ok(string) ==> string.wf() && string.spec_vec() == vec,
    {
        match from_utf8(occupied_bytes(&vec)) {
            Ok(_) => Ok(Self { bytes: vec }),
            Err(error) => Err(error),
        }
    }
}

/// The bytes of the vector, as one slice.
fn occupied_bytes<C: Container<Item = u8, Slot = u8>, L: Length>(vec: &GenericVec<C, L>) -> (bytes:
    &[u8])
    requires
        vec.wf(),
    ensures
        bytes@ == vec@,
{
    let len = vec.len();
    let slots = vec.data().as_slots();
    &slots[0..len]
}

impl<C: Container<Item = u8, Slot = u8>, L: Length> GenericString<C, L> {
    /// The underlying vector.
    pub closed spec fn spec_vec(&self) -> GenericVec<C, L> {
        self.bytes
    }

    /// The bytes of the string.
    pub open spec fn spec_bytes(&self) -> Seq<u8> {
        self.spec_vec()@
    }

    /// The invariant of the string: the vector is well formed, and its bytes
    /// are valid UTF-8.
    pub open spec fn wf(&self) -> bool {
        self.spec_vec().wf() && valid_utf8(self.spec_bytes())
    }

    /// The number of bytes that the string can hold.
    pub fn capacity(&self) -> (capacity: usize)
        ensures
            capacity == self.spec_vec().spec_capacity(),
    {
        self.bytes.capacity()
    }

    /// The number of bytes of the string.
    pub fn len(&self) -> (len: usize)
        requires
            self.wf(),
        ensures
            len == self.spec_bytes().len(),
    {
        self.bytes.len()
    }

    /// The number of bytes that still fit.
    pub fn remaining(&self) -> (remaining: usize)
        requires
            self.wf(),
        ensures
            remaining == self.spec_vec().spec_capacity() - self.spec_bytes().len(),
    {
        self.bytes.remaining()
    }

    /// Checks whether the string is empty.
    pub fn is_empty(&self) -> (empty: bool)
        ensures
            empty == (self.spec_bytes().len() == 0),
    {
        self.bytes.is_empty()
    }

    /// Checks whether the string is full.
    pub fn is_full(&self) -> (full: bool)
        requires
            self.wf(),
        ensures
            full == (self.spec_bytes().len() == self.spec_vec().spec_capacity()),
    {
        self.bytes.is_full()
    }

    /// Provides an access to underlying vector.
    pub fn as_vec(&self) -> (vec: &GenericVec<C, L>)
        ensures
            *vec == self.spec_vec(),
    {
        &self.bytes
    }

    /// Provides a mutable access to underlying vector.
    ///
    /// The string is what the caller leaves in the vector: it has to be well
    /// formed, and its bytes valid UTF-8.
    pub fn as_vec_mut(&mut self) -> (vec: &mut GenericVec<C, L>)
        ensures
            *vec == old(self).spec_vec(),
            final(self).spec_vec() == *final(vec),
    {
        &mut self.bytes
    }

    /// String slice.
    pub fn as_str(&self) -> (s: &str)
        requires
            self.wf(),
        ensures
            s.spec_bytes() == self.spec_bytes(),
            s@ == self@,
    {
        let s = from_utf8(occupied_bytes(&self.bytes)).ok().unwrap();
        proof {
            encode_utf8_decode_utf8(s@);
        }
        s
    }

    /// Removes all bytes from the string.
    pub fn clear(&mut self)
        requires
            old(self).wf(),
        ensures
            final(self).wf(),
            final(self).spec_bytes() == Seq::<u8>::empty(),
            final(self).spec_vec().spec_capacity() == old(self).spec_vec().spec_capacity(),
    {
        self.bytes.clear();
    }

    /// Appends a character.
    ///
    /// Returns `Err` if its UTF-8 encoding is longer than the room that is
    /// left in the string, which then stays as it is.
    pub fn push(&mut self, c: char) -> (result: Result<(), FullError>)
        requires
            old(self).wf(),
        ensures
            final(self).wf(),
            final(self).spec_vec().spec_capacity() == old(self).spec_vec().spec_capacity(),
            result is Ok <==> old(self).spec_bytes().len() + encode_scalar(c as u32).len()
                <= old(self).spec_vec().spec_capacity(),
            result is Ok ==> final(self).spec_bytes() == old(self).spec_bytes() + encode_scalar(
                c as u32,
            ) && final(self)@ == old(self)@.push(c),
            result is Err ==> *final(self) == *old(self),
    {
        let mut buffer = [0u8;4];
        write_utf8(c, &mut buffer);
        let len = len_utf8(c);
        let encoded = &buffer.as_slice()[0..len];
        proof {
            assert(encode_utf8(seq![c]) =~= encode_scalar(c as u32)) by {
                reveal_with_fuel(encode_utf8, 2);
            }
            encode_utf8_valid_utf8(seq![c]);
            encode_utf8_decode_utf8(seq![c]);
        }
        self.append(encoded)
    }

    /// Appends a string slice.
    ///
    /// Returns `Err` if the slice is longer than the room that is left in
    /// the string, which then stays as it is.
    pub fn push_str(&mut self, s: &str) -> (result: Result<(), FullError>)
        requires
            old(self).wf(),
        ensures
            final(self).wf(),
            final(self).spec_vec().spec_capacity() == old(self).spec_vec().spec_capacity(),
            result is Ok <==> old(self).spec_bytes().len() + s.spec_bytes().len()
                <= old(self).spec_vec().spec_capacity(),
            result is Ok ==> final(self).spec_bytes() == old(self).spec_bytes() + s.spec_bytes()
                && final(self)@ == old(self)@ + s@,
            result is Err ==> *final(self) == *old(self),
    {
        proof {
            encode_utf8_valid_utf8(s@);
            encode_utf8_decode_utf8(s@);
        }
        self.append(s.as_bytes())
    }

    /// Appends bytes that are valid UTF-8, all of them or none.
    fn append(&mut self, bytes: &[u8]) -> (result: Result<(), FullError>)
        requires
            old(self).wf(),
            valid_utf8(bytes@),
        ensures
            final(self).wf(),
            final(self).spec_vec().spec_capacity() == old(self).spec_vec().spec_capacity(),
            result is Ok <==> old(self).spec_bytes().len() + bytes@.len()
                <= old(self).spec_vec().spec_capacity(),
            result is Ok ==> final(self).spec_bytes() == old(self).spec_bytes() + bytes@
                && final(self)@ == old(self)@ + decode_utf8(bytes@),
            result is Err ==> *final(self) == *old(self),
    {
        let result = self.bytes.push_slice(bytes);
        proof {
            if result is Ok {
                assert(self.spec_bytes() =~= old(self).spec_bytes() + bytes@);
                lemma_decode_utf8_concat(old(self).spec_bytes(), bytes@);
            }
        }
        result
    }
}

} // verus!
