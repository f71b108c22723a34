//! Value-to-bytes dispatch: which bytes, in which order, each value shape
//! feeds into a `Hasher`.
//!
//! Integers are written in the target's native byte order, so digests of
//! values holding integers wider than a byte differ between little-endian and
//! big-endian targets. Each contract therefore speaks of the bytes under one
//! byte order (`little`), and the native-order entry points use the target's
//! order, `native_little()`.
use vstd::prelude::*;

use vstd::layout::size_of;
use vstd::string::StringSliceAdditionalSpecFns;

use crate::bytes::{be_bytes, le_bytes, native_is_little, native_little, ordered_bytes, u16_bytes, u32_bytes, u64_bytes};
use crate::hasher::Hasher;

verus! {

/// The bytes of each element of `s` under `Hash`, in order.
pub open spec fn concat_hash_bytes<T: Hash>(s: Seq<T>, little: bool) -> Seq<u8> {
    s.map_values(|x: T| x.hash_bytes(little)).flatten_alt()
}

/// The bytes of a slice under `Hash`: its length as a `usize`, then each
/// element's bytes in order.
pub open spec fn slice_hash_bytes<T: Hash>(s: Seq<T>, little: bool) -> Seq<u8> {
    ordered_bytes(s.len(), size_of::<usize>(), little) + concat_hash_bytes(s, little)
}

/// A value that can be fed into a `Hasher`.
pub trait Hash {
    /// The bytes this value feeds into a hasher, with integers laid out
    /// little-endian when `little` holds and big-endian otherwise.
    spec fn hash_bytes(&self, little: bool) -> Seq<u8>;

    /// Feeds this value into `state`, integers in the given byte order.
    fn hash_ordered<H: Hasher>(&self, state: &mut H, little: bool)
        requires
            old(state).inv(),
        ensures
            final(state).inv(),
            final(state).config() == old(state).config(),
            final(state).written() == old(state).written() + self.hash_bytes(little),
    ;

    /// Feeds each element of `data` into `state` in order, integers in the
    /// given byte order.
    fn hash_slice_ordered<H: Hasher>(data: &[Self], state: &mut H, little: bool) where Self: Sized
        requires
            old(state).inv(),
        ensures
            final(state).inv(),
            final(state).config() == old(state).config(),
            final(state).written() == old(state).written() + data@.map_values(
                |x: Self| x.hash_bytes(little),
            ).flatten_alt(),
    {
        let mut i: usize = 0;
        while i < data.len()
            invariant
                i <= data@.len(),
                state.inv(),
                state.config() == old(state).config(),
                state.written() == old(state).written() + data@.take(i as int).map_values(
                    |x: Self| x.hash_bytes(little),
                ).flatten_alt(),
            decreases data@.len() - i,
        {
            data[i].hash_ordered(state, little);
            proof {
                let f = |x: Self| x.hash_bytes(little);
                let m = data@.take(i + 1).map_values(f);
                assert(m.drop_last() =~= data@.take(i as int).map_values(f));
                assert(m.last() == data@[i as int].hash_bytes(little));
                assert(old(state).written() + data@.take(i as int).map_values(f).flatten_alt()
                    + data@[i as int].hash_bytes(little) == old(state).written() + m.flatten_alt());
            }
            i = i + 1;
        }
        assert(data@.take(i as int) == data@);
    }

    /// Feeds this value into `state`, integers in the target's byte order.
    fn hash<H: Hasher>(&self, state: &mut H)
        requires
            old(state).inv(),
        ensures
            final(state).inv(),
            final(state).config() == old(state).config(),
            final(state).written() == old(state).written() + self.hash_bytes(native_little()),
    {
        let little = native_is_little();
        self.hash_ordered(state, little);
    }

    /// Feeds each element of `data` into `state` in order, integers in the
    /// target's byte order.
    fn hash_slice<H: Hasher>(data: &[Self], state: &mut H) where Self: Sized
        requires
            old(state).inv(),
        ensures
            final(state).inv(),
            final(state).config() == old(state).config(),
            final(state).written() == old(state).written() + data@.map_values(
                |x: Self| x.hash_bytes(native_little()),
            ).flatten_alt(),
    {
        let little = native_is_little();
        Self::hash_slice_ordered(data, state, little);
    }
}

/// A fixed-size array feeds a hasher exactly the bytes of a slice over the
/// same elements, in either byte order.
pub proof fn lemma_array_hashes_as_slice<T: Hash, const N: usize>(a: [T; N], s: &[T], little: bool)
    requires
        s@ == a@,
    ensures
        a.hash_bytes(little) == s.hash_bytes(little),
{
}

/// `x + [0xff] + rx` and `y + [0xff] + ry` differ when `x` and `y` differ
/// and neither holds the byte 0xff.
proof fn lemma_framed_differ(x: Seq<u8>, rx: Seq<u8>, y: Seq<u8>, ry: Seq<u8>)
    requires
        x != y,
        forall|i: int| 0 <= i < x.len() ==> x[i] != 0xff,
        forall|i: int| 0 <= i < y.len() ==> y[i] != 0xff,
    ensures
        x + seq![0xffu8] + rx != y + seq![0xffu8] + ry,
{
    let fx = x + seq![0xffu8] + rx;
    let fy = y + seq![0xffu8] + ry;
    if x.len() < y.len() {
        assert(fx[x.len() as int] == 0xff);
        assert(fy[x.len() as int] == y[x.len() as int]);
    } else if y.len() < x.len() {
        assert(fy[y.len() as int] == 0xff);
        assert(fx[y.len() as int] == x[y.len() as int]);
    } else {
        let i = choose|i: int| 0 <= i < x.len() && x[i] != y[i];
        assert(exists|i: int| 0 <= i < x.len() && x[i] != y[i]) by {
            if !(exists|i: int| 0 <= i < x.len() && x[i] != y[i]) {
                assert(x =~= y);
            }
        }
        assert(fx[i] == x[i]);
        assert(fy[i] == y[i]);
    }
}

/// The 0xff sentinel after each string keeps field boundaries apart: two
/// strings hashed one after the other feed different bytes than another pair
/// whose texts differ, for instance `("ab", "c")` against `("a", "bc")`.
/// (UTF-8 text never holds the byte 0xff.)
pub proof fn lemma_string_framing(a1: &str, b1: &str, a2: &str, b2: &str, little: bool)
    requires
        forall|i: int| 0 <= i < a1.spec_bytes().len() ==> a1.spec_bytes()[i] != 0xff,
        forall|i: int| 0 <= i < b1.spec_bytes().len() ==> b1.spec_bytes()[i] != 0xff,
        forall|i: int| 0 <= i < a2.spec_bytes().len() ==> a2.spec_bytes()[i] != 0xff,
        forall|i: int| 0 <= i < b2.spec_bytes().len() ==> b2.spec_bytes()[i] != 0xff,
        a1.spec_bytes() != a2.spec_bytes() || b1.spec_bytes() != b2.spec_bytes(),
    ensures
        a1.hash_bytes(little) + b1.hash_bytes(little) != a2.hash_bytes(little) + b2.hash_bytes(
            little,
        ),
{
    let (x1, y1, x2, y2) = (a1.spec_bytes(), b1.spec_bytes(), a2.spec_bytes(), b2.spec_bytes());
    let ff = seq![0xffu8];
    assert(a1.hash_bytes(little) + b1.hash_bytes(little) == x1 + ff + (y1 + ff));
    assert(a2.hash_bytes(little) + b2.hash_bytes(little) == x2 + ff + (y2 + ff));
    if x1 != x2 {
        lemma_framed_differ(x1, y1 + ff, x2, y2 + ff);
    } else {
        lemma_framed_differ(y1, Seq::empty(), y2, Seq::empty());
        let n = x1.len() + 1 as int;
        let s1 = x1 + ff + (y1 + ff);
        let s2 = x2 + ff + (y2 + ff);
        if s1 == s2 {
            assert(s1.skip(n) =~= y1 + ff + Seq::<u8>::empty());
            assert(s2.skip(n) =~= y2 + ff + Seq::<u8>::empty());
        }
    }
}

impl Hash for u8 {
    open spec fn hash_bytes(&self, little: bool) -> Seq<u8> {
        ordered_bytes(*self as nat, 1, little)
    }

    fn hash_ordered<H: Hasher>(&self, state: &mut H, little: bool) {
        let b: [u8; 1] = [*self];
        proof {
            let x = *self as nat;
            assert(le_bytes(x / 256, 0) == Seq::<u8>::empty());
            assert(be_bytes(x / 256, 0) == Seq::<u8>::empty());
            assert(b@ =~= le_bytes(x, 1));
            assert(b@ =~= be_bytes(x, 1));
        }
        state.write(b.as_slice());
    }
}

impl Hash for u16 {
    open spec fn hash_bytes(&self, little: bool) -> Seq<u8> {
        ordered_bytes(*self as nat, 2, little)
    }

    fn hash_ordered<H: Hasher>(&self, state: &mut H, little: bool) {
        state.write(u16_bytes(*self, little).as_slice());
    }
}

impl Hash for u32 {
    open spec fn hash_bytes(&self, little: bool) -> Seq<u8> {
        ordered_bytes(*self as nat, 4, little)
    }

    fn hash_ordered<H: Hasher>(&self, state: &mut H, little: bool) {
        state.write(u32_bytes(*self, little).as_slice());
    }
}

impl Hash for u64 {
    open spec fn hash_bytes(&self, little: bool) -> Seq<u8> {
        ordered_bytes(*self as nat, 8, little)
    }

    fn hash_ordered<H: Hasher>(&self, state: &mut H, little: bool) {
        state.write(u64_bytes(*self, little).as_slice());
    }
}

impl Hash for usize {
    open spec fn hash_bytes(&self, little: bool) -> Seq<u8> {
        ordered_bytes(*self as nat, size_of::<usize>(), little)
    }

    fn hash_ordered<H: Hasher>(&self, state: &mut H, little: bool) {
        broadcast use vstd::layout::layout_of_primitives;

        if core::mem::size_of::<usize>() == 4 {
            state.write(u32_bytes(*self as u32, little).as_slice());
        } else {
            state.write(u64_bytes(*self as u64, little).as_slice());
        }
    }
}

impl Hash for i8 {
    open spec fn hash_bytes(&self, little: bool) -> Seq<u8> {
        (*self as u8).hash_bytes(little)
    }

    fn hash_ordered<H: Hasher>(&self, state: &mut H, little: bool) {
        (*self as u8).hash_ordered(state, little);
    }
}

impl Hash for i16 {
    open spec fn hash_bytes(&self, little: bool) -> Seq<u8> {
        (*self as u16).hash_bytes(little)
    }

    fn hash_ordered<H: Hasher>(&self, state: &mut H, little: bool) {
        (*self as u16).hash_ordered(state, little);
    }
}

impl Hash for i32 {
    open spec fn hash_bytes(&self, little: bool) -> Seq<u8> {
        (*self as u32).hash_bytes(little)
    }

    fn hash_ordered<H: Hasher>(&self, state: &mut H, little: bool) {
        (*self as u32).hash_ordered(state, little);
    }
}

impl Hash for i64 {
    open spec fn hash_bytes(&self, little: bool) -> Seq<u8> {
        (*self as u64).hash_bytes(little)
    }

    fn hash_ordered<H: Hasher>(&self, state: &mut H, little: bool) {
        (*self as u64).hash_ordered(state, little);
    }
}

impl Hash for isize {
    open spec fn hash_bytes(&self, little: bool) -> Seq<u8> {
        (*self as usize).hash_bytes(little)
    }

    fn hash_ordered<H: Hasher>(&self, state: &mut H, little: bool) {
        (*self as usize).hash_ordered(state, little);
    }
}

impl Hash for bool {
    open spec fn hash_bytes(&self, little: bool) -> Seq<u8> {
        (*self as u8).hash_bytes(little)
    }

    fn hash_ordered<H: Hasher>(&self, state: &mut H, little: bool) {
        (*self as u8).hash_ordered(state, little);
    }
}

impl Hash for char {
    open spec fn hash_bytes(&self, little: bool) -> Seq<u8> {
        (*self as u32).hash_bytes(little)
    }

    fn hash_ordered<H: Hasher>(&self, state: &mut H, little: bool) {
        (*self as u32).hash_ordered(state, little);
    }
}

impl Hash for str {
    open spec fn hash_bytes(&self, little: bool) -> Seq<u8> {
        self.spec_bytes() + seq![0xffu8]
    }

    fn hash_ordered<H: Hasher>(&self, state: &mut H, little: bool) {
        state.write(self.as_bytes());
        state.write([0xffu8].as_slice());
    }
}

impl<T: Hash> Hash for [T] {
    open spec fn hash_bytes(&self, little: bool) -> Seq<u8> {
        slice_hash_bytes(self@, little)
    }

    fn hash_ordered<H: Hasher>(&self, state: &mut H, little: bool) {
        self.len().hash_ordered(state, little);
        T::hash_slice_ordered(self, state, little);
    }
}

impl<T: Hash, const N: usize> Hash for [T; N] {
    open spec fn hash_bytes(&self, little: bool) -> Seq<u8> {
        slice_hash_bytes(self@, little)
    }

    fn hash_ordered<H: Hasher>(&self, state: &mut H, little: bool) {
        self.as_slice().hash_ordered(state, little);
    }
}

impl<'a, T: ?Sized + Hash> Hash for &'a T {
    open spec fn hash_bytes(&self, little: bool) -> Seq<u8> {
        (**self).hash_bytes(little)
    }

    fn hash_ordered<H: Hasher>(&self, state: &mut H, little: bool) {
        (**self).hash_ordered(state, little);
    }
}

impl<'a, T: ?Sized + Hash> Hash for &'a mut T {
    open spec fn hash_bytes(&self, little: bool) -> Seq<u8> {
        (**self).hash_bytes(little)
    }

    fn hash_ordered<H: Hasher>(&self, state: &mut H, little: bool) {
        (**self).hash_ordered(state, little);
    }
}

} // verus!
