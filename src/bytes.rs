//! Byte-level encodings of integers, and the outside reads that produce them.
use vstd::prelude::*;

verus! {

/// The first four bytes of `b` read as a little-endian integer.
pub open spec fn le32(b: Seq<u8>) -> u32
    recommends
        b.len() >= 4,
{
    (b[0] as int + b[1] as int * 0x100 + b[2] as int * 0x1_0000 + b[3] as int * 0x100_0000) as u32
}

/// Relies on byteorder's `LittleEndian::read_u32`: the first four bytes of
/// `buf` as a little-endian integer (it panics on fewer than four bytes).
#[verifier::external_body]
pub(crate) fn read_le_u32(buf: &[u8]) -> (r: u32)
    requires
        buf@.len() >= 4,
    ensures
        r == le32(buf@),
{
    <byteorder::LittleEndian as byteorder::ByteOrder>::read_u32(buf)
}

/// The low `n` bytes of `x`, least significant first.
pub open spec fn le_bytes(x: nat, n: nat) -> Seq<u8>
    decreases n,
{
    if n == 0 {
        Seq::empty()
    } else {
        seq![(x % 256) as u8] + le_bytes(x / 256, (n - 1) as nat)
    }
}

/// The low `n` bytes of `x`, most significant first.
pub open spec fn be_bytes(x: nat, n: nat) -> Seq<u8>
    decreases n,
{
    if n == 0 {
        Seq::empty()
    } else {
        be_bytes(x / 256, (n - 1) as nat) + seq![(x % 256) as u8]
    }
}

/// The low `n` bytes of `x` in little-endian (`little`) or big-endian order.
pub open spec fn ordered_bytes(x: nat, n: nat, little: bool) -> Seq<u8> {
    if little {
        le_bytes(x, n)
    } else {
        be_bytes(x, n)
    }
}

/// Relies on byteorder's `LittleEndian::write_u16`: it stores `x` in 2 bytes,
/// least significant first.
#[verifier::external_body]
fn le_u16(x: u16) -> (r: [u8; 2])
    ensures
        r@ == le_bytes(x as nat, 2),
{
    let mut buf = [0u8; 2];
    <byteorder::LittleEndian as byteorder::ByteOrder>::write_u16(&mut buf, x);
    buf
}

/// Relies on byteorder's `BigEndian::write_u16`: it stores `x` in 2 bytes,
/// most significant first.
#[verifier::external_body]
fn be_u16(x: u16) -> (r: [u8; 2])
    ensures
        r@ == be_bytes(x as nat, 2),
{
    let mut buf = [0u8; 2];
    <byteorder::BigEndian as byteorder::ByteOrder>::write_u16(&mut buf, x);
    buf
}

/// The 2 bytes of `x` in the requested byte order.
pub fn u16_bytes(x: u16, little: bool) -> (r: [u8; 2])
    ensures
        r@ == ordered_bytes(x as nat, 2, little),
{
    if little {
        le_u16(x)
    } else {
        be_u16(x)
    }
}

/// Relies on byteorder's `LittleEndian::write_u32`: it stores `x` in 4 bytes,
/// least significant first.
#[verifier::external_body]
fn le_u32(x: u32) -> (r: [u8; 4])
    ensures
        r@ == le_bytes(x as nat, 4),
{
    let mut buf = [0u8; 4];
    <byteorder::LittleEndian as byteorder::ByteOrder>::write_u32(&mut buf, x);
    buf
}

/// Relies on byteorder's `BigEndian::write_u32`: it stores `x` in 4 bytes,
/// most significant first.
#[verifier::external_body]
fn be_u32(x: u32) -> (r: [u8; 4])
    ensures
        r@ == be_bytes(x as nat, 4),
{
    let mut buf = [0u8; 4];
    <byteorder::BigEndian as byteorder::ByteOrder>::write_u32(&mut buf, x);
    buf
}

/// The 4 bytes of `x` in the requested byte order.
pub fn u32_bytes(x: u32, little: bool) -> (r: [u8; 4])
    ensures
        r@ == ordered_bytes(x as nat, 4, little),
{
    if little {
        le_u32(x)
    } else {
        be_u32(x)
    }
}

/// Relies on byteorder's `LittleEndian::write_u64`: it stores `x` in 8 bytes,
/// least significant first.
#[verifier::external_body]
fn le_u64(x: u64) -> (r: [u8; 8])
    ensures
        r@ == le_bytes(x as nat, 8),
{
    let mut buf = [0u8; 8];
    <byteorder::LittleEndian as byteorder::ByteOrder>::write_u64(&mut buf, x);
    buf
}

/// Relies on byteorder's `BigEndian::write_u64`: it stores `x` in 8 bytes,
/// most significant first.
#[verifier::external_body]
fn be_u64(x: u64) -> (r: [u8; 8])
    ensures
        r@ == be_bytes(x as nat, 8),
{
    let mut buf = [0u8; 8];
    <byteorder::BigEndian as byteorder::ByteOrder>::write_u64(&mut buf, x);
    buf
}

/// The 8 bytes of `x` in the requested byte order.
pub fn u64_bytes(x: u64, little: bool) -> (r: [u8; 8])
    ensures
        r@ == ordered_bytes(x as nat, 8, little),
{
    if little {
        le_u64(x)
    } else {
        be_u64(x)
    }
}

/// Whether the target stores integers least significant byte first.
pub open spec fn native_little() -> bool {
    vstd::endian::endianness() == vstd::endian::Endian::Little
}

/// Relies on byteorder's `NativeEndian::write_u16`: it stores `x` in the
/// target's byte order (`NativeEndian` is `LittleEndian` on little-endian
/// targets and `BigEndian` on big-endian ones).
#[verifier::external_body]
fn native_u16(x: u16) -> (r: [u8; 2])
    ensures
        r@ == ordered_bytes(x as nat, 2, native_little()),
{
    let mut buf = [0u8; 2];
    <byteorder::NativeEndian as byteorder::ByteOrder>::write_u16(&mut buf, x);
    buf
}

/// Whether the target stores integers least significant byte first: the
/// first stored byte of the integer 1 tells.
pub fn native_is_little() -> (r: bool)
    ensures
        r == native_little(),
{
    let probe = native_u16(1);
    proof {
        assert(le_bytes(0, 0) == Seq::<u8>::empty());
        assert(be_bytes(0, 0) == Seq::<u8>::empty());
        assert(le_bytes(0, 1) =~= seq![0u8]);
        assert(be_bytes(0, 1) =~= seq![0u8]);
        assert(le_bytes(1, 2) =~= seq![1u8, 0u8]);
        assert(be_bytes(1, 2) =~= seq![0u8, 1u8]);
    }
    probe[0] == 1
}

} // verus!
