//! The MurmurHash3 x86 32 engine, computed with 32-bit arithmetic only.
use vstd::prelude::*;

use crate::bytes::{le32, read_le_u32};
use crate::hasher::Hasher;

verus! {

/// First block multiplier.
pub const C1: u32 = 0xcc9e_2d51;

/// Second block multiplier.
pub const C2: u32 = 0x1b87_3593;

/// Added to the running hash after each block.
pub const BLOCK_INCREMENT: u32 = 0xe654_6b64;

/// First avalanche multiplier.
pub const FMIX1: u32 = 0x85eb_ca6b;

/// Second avalanche multiplier.
pub const FMIX2: u32 = 0xc2b2_ae35;

/// The block scramble: `k * C1`, rotate left by 15, `* C2`, all modulo 2^32.
pub open spec fn scramble_spec(k: u32) -> u32 {
    let a = k.wrapping_mul(C1);
    ((a << 15u32) | (a >> 17u32)).wrapping_mul(C2)
}

/// Folds one block into the running hash: xor the scrambled block, rotate
/// left by 13, then `* 5 + BLOCK_INCREMENT` modulo 2^32.
pub open spec fn mix_spec(h: u32, k: u32) -> u32 {
    let x = h ^ scramble_spec(k);
    ((x << 13u32) | (x >> 19u32)).wrapping_mul(5).wrapping_add(BLOCK_INCREMENT)
}

/// The final avalanche.
pub open spec fn fmix_spec(h: u32) -> u32 {
    let a = h ^ (h >> 16u32);
    let b = a.wrapping_mul(FMIX1);
    let c = b ^ (b >> 13u32);
    let d = c.wrapping_mul(FMIX2);
    d ^ (d >> 16u32)
}

/// The `i`-th complete 4-byte block of `bytes`, little-endian.
pub open spec fn block_at(bytes: Seq<u8>, i: nat) -> u32 {
    le32(bytes.subrange((4 * i) as int, (4 * i + 4) as int))
}

/// The running hash after the first `n` complete blocks of `bytes`.
pub open spec fn blocks_hash(seed: u32, bytes: Seq<u8>, n: nat) -> u32
    decreases n,
{
    if n == 0 {
        seed
    } else {
        mix_spec(blocks_hash(seed, bytes, (n - 1) as nat), block_at(bytes, (n - 1) as nat))
    }
}

/// The bytes after the last complete block (0 to 3 of them).
pub open spec fn tail_of(bytes: Seq<u8>) -> Seq<u8> {
    bytes.skip((4 * (bytes.len() / 4)) as int)
}

/// `t` extended with zero bytes to length 4.
pub open spec fn pad4(t: Seq<u8>) -> Seq<u8> {
    t + Seq::new((4 - t.len()) as nat, |i: int| 0u8)
}

/// A byte count modulo 2^32, as MurmurHash3 mixes it into the digest.
#[verifier::opaque]
pub open spec fn len32(n: nat) -> u32 {
    (n % 0x1_0000_0000) as u32
}

/// Counting `k` more bytes modulo 2^32.
proof fn lemma_len32_add(n: nat, k: nat)
    requires
        k < 0x1_0000_0000,
    ensures
        len32(n + k) == len32(n).wrapping_add(k as u32),
{
    reveal(len32);
    let r = n % 0x1_0000_0000;
    assert(n == 0x1_0000_0000 * (n / 0x1_0000_0000) + r);
    if r + k < 0x1_0000_0000 {
        assert((n + k) % 0x1_0000_0000 == r + k);
    } else {
        assert((n + k) % 0x1_0000_0000 == r + k - 0x1_0000_0000);
    }
}

/// The MurmurHash3 x86 32 digest of `bytes` under `seed`.
pub open spec fn murmur3(seed: u32, bytes: Seq<u8>) -> u32 {
    let h = blocks_hash(seed, bytes, bytes.len() / 4);
    let t = tail_of(bytes);
    let h = if t.len() > 0 { h ^ scramble_spec(le32(pad4(t))) } else { h };
    fmix_spec(h ^ len32(bytes.len()))
}

fn scramble(k: u32) -> (r: u32)
    ensures
        r == scramble_spec(k),
{
    let a = k.wrapping_mul(C1);
    ((a << 15u32) | (a >> 17u32)).wrapping_mul(C2)
}

fn mix(h: u32, k: u32) -> (r: u32)
    ensures
        r == mix_spec(h, k),
{
    let x = h ^ scramble(k);
    ((x << 13u32) | (x >> 19u32)).wrapping_mul(5).wrapping_add(BLOCK_INCREMENT)
}

fn fmix(h: u32) -> (r: u32)
    ensures
        r == fmix_spec(h),
{
    let a = h ^ (h >> 16u32);
    let b = a.wrapping_mul(FMIX1);
    let c = b ^ (b >> 13u32);
    let d = c.wrapping_mul(FMIX2);
    d ^ (d >> 16u32)
}

/// The blocks of a prefix hash the same as in any extension of it.
proof fn lemma_blocks_prefix(seed: u32, a: Seq<u8>, b: Seq<u8>, n: nat)
    requires
        4 * n <= a.len() <= b.len(),
        b.take(a.len() as int) == a,
    ensures
        blocks_hash(seed, a, n) == blocks_hash(seed, b, n),
    decreases n,
{
    if n > 0 {
        lemma_blocks_prefix(seed, a, b, (n - 1) as nat);
        let i = (n - 1) as nat;
        let lo = (4 * i) as int;
        assert forall|j: int| lo <= j < lo + 4 implies a[j] == b[j] by {
            assert(b.take(a.len() as int)[j] == b[j]);
        }
        assert(a.subrange(lo, lo + 4) =~= b.subrange(lo, lo + 4));
    }
}

/// What appending one byte does to the complete blocks, the tail and the
/// length count.
proof fn lemma_push_byte(seed: u32, prev: Seq<u8>, b: u8)
    ensures
        ({
            let next = prev.push(b);
            let q = prev.len() / 4;
            let t = tail_of(prev).push(b);
                        &&& t.len() == 4 ==> {
                &&& tail_of(next) == Seq::<u8>::empty()
                &&& blocks_hash(seed, next, next.len() / 4) == mix_spec(
                    blocks_hash(seed, prev, q),
                    le32(t),
                )
            }
            &&& t.len() < 4 ==> {
                &&& tail_of(next) == t
                &&& blocks_hash(seed, next, next.len() / 4) == blocks_hash(seed, prev, q)
            }
        }),
{
    let next = prev.push(b);
    let q = prev.len() / 4;
    let t = tail_of(prev).push(b);
    assert(next.take(prev.len() as int) == prev);
    lemma_blocks_prefix(seed, prev, next, q);
    if t.len() == 4 {
        assert(next.len() / 4 == q + 1);
        assert(tail_of(next) =~= Seq::<u8>::empty());
        assert(next.subrange((4 * q) as int, (4 * q + 4) as int) =~= t);
    } else {
        assert(next.len() / 4 == q);
        assert(tail_of(next) =~= t);
    }
}

/// What appending one whole block to block-aligned input does.
proof fn lemma_push_block(seed: u32, prev: Seq<u8>, blk: Seq<u8>)
    requires
        prev.len() % 4 == 0,
        blk.len() == 4,
    ensures
        ({
            let next = prev + blk;
            &&& tail_of(next) == Seq::<u8>::empty()
            &&& blocks_hash(seed, next, next.len() / 4) == mix_spec(
                blocks_hash(seed, prev, prev.len() / 4),
                le32(blk),
            )
        }),
{
    let next = prev + blk;
    let q = prev.len() / 4;
    assert(next.take(prev.len() as int) =~= prev);
    lemma_blocks_prefix(seed, prev, next, q);
    assert(next.len() / 4 == q + 1);
    assert(tail_of(next) =~= Seq::<u8>::empty());
    assert(next.subrange((4 * q) as int, (4 * q + 4) as int) =~= blk);
}

/// The MurmurHash3 x86 32 engine.
pub struct Murmur3Hasher {
    hash: u32,
    count: u32,
    tail: Vec<u8>,
    seed: Ghost<u32>,
    stream: Ghost<Seq<u8>>,
}

impl Murmur3Hasher {
    /// A fresh engine with seed 0.
    pub fn new() -> (r: Murmur3Hasher)
        ensures
            r.inv(),
            r.config() == 0,
            r.written() == Seq::<u8>::empty(),
    {
        Murmur3Hasher::with_seed(0)
    }

    /// A fresh engine with the given seed.
    pub fn with_seed(seed: u32) -> (r: Murmur3Hasher)
        ensures
            r.inv(),
            r.config() == seed,
            r.written() == Seq::<u8>::empty(),
    {
        assert(tail_of(Seq::<u8>::empty()) =~= Seq::<u8>::empty());
        reveal(len32);
        Murmur3Hasher {
            hash: seed,
            count: 0,
            tail: Vec::new(),
            seed: Ghost(seed),
            stream: Ghost(Seq::empty()),
        }
    }
}

impl Default for Murmur3Hasher {
    fn default() -> (r: Murmur3Hasher)
        ensures
            r.inv(),
            r.config() == 0,
            r.written() == Seq::<u8>::empty(),
    {
        Murmur3Hasher::new()
    }
}

impl Hasher for Murmur3Hasher {
    closed spec fn inv(&self) -> bool {
        let s = self.stream@;
        &&& self.hash == blocks_hash(self.seed@, s, s.len() / 4)
        &&& self.tail@ == tail_of(s)
        &&& self.count == len32(s.len())
    }

    closed spec fn written(&self) -> Seq<u8> {
        self.stream@
    }

    /// The seed this engine was created with.
    closed spec fn config(&self) -> u32 {
        self.seed@
    }

    open spec fn digest_of(config: u32, bytes: Seq<u8>) -> u32 {
        murmur3(config, bytes)
    }

    fn finish(&self) -> (r: u32) {
        let mut h = self.hash;
        let n = self.tail.len();
        if n > 0 {
            let mut buf: Vec<u8> = Vec::new();
            let mut j: usize = 0;
            while j < 4
                invariant
                    n == self.tail@.len(),
                    0 < n < 4,
                    j <= 4,
                    buf@.len() == j,
                    forall|m: int| 0 <= m < j ==> buf@[m] == pad4(self.tail@)[m],
                decreases 4 - j,
            {
                if j < n {
                    buf.push(self.tail[j]);
                } else {
                    buf.push(0u8);
                }
                j = j + 1;
            }
            assert(buf@ == pad4(self.tail@));
            h = h ^ scramble(read_le_u32(buf.as_slice()));
        }
        fmix(h ^ self.count)
    }

    fn write(&mut self, bytes: &[u8]) {
        let ghost start = self.stream@;
        let mut i: usize = 0;
        // Top up a pending partial block.
        while self.tail.len() > 0 && i < bytes.len()
            invariant
                i <= bytes@.len(),
                self.stream@ == start + bytes@.take(i as int),
                self.seed@ == old(self).seed@,
                self.inv(),
            decreases bytes@.len() - i,
        {
            self.push_byte(bytes[i]);
            assert(start + bytes@.take(i + 1) =~= self.stream@);
            i = i + 1;
        }
        // Whole blocks straight from the input.
        while self.tail.len() == 0 && bytes.len() - i >= 4
            invariant
                i <= bytes@.len(),
                self.stream@ == start + bytes@.take(i as int),
                self.seed@ == old(self).seed@,
                self.inv(),
            decreases bytes@.len() - i,
        {
            let block = vstd::slice::slice_subrange(bytes, i, i + 4);
            let k = read_le_u32(block);
            let ghost prev = self.stream@;
            proof {
                lemma_push_block(self.seed@, prev, block@);
                lemma_len32_add(prev.len(), 4);
                assert(start + bytes@.take(i + 4) =~= prev + block@);
            }
            self.hash = mix(self.hash, k);
            self.count = self.count.wrapping_add(4);
            self.stream = Ghost(prev + block@);
            assert(self.stream@.len() == prev.len() + 4);
            assert(self.count == len32(self.stream@.len()));
            assert(self.tail@ == tail_of(self.stream@));
            assert(self.hash == blocks_hash(self.seed@, self.stream@, self.stream@.len() / 4));
            i = i + 4;
        }
        // Buffer the rest.
        while i < bytes.len()
            invariant
                i <= bytes@.len(),
                self.stream@ == start + bytes@.take(i as int),
                self.seed@ == old(self).seed@,
                self.inv(),
            decreases bytes@.len() - i,
        {
            self.push_byte(bytes[i]);
            assert(start + bytes@.take(i + 1) =~= self.stream@);
            i = i + 1;
        }
        assert(bytes@.take(i as int) == bytes@);
    }
}

impl Murmur3Hasher {
    /// Appends one byte, mixing the buffered block once it is complete.
    fn push_byte(&mut self, b: u8)
        requires
            old(self).inv(),
        ensures
            final(self).inv(),
            final(self).seed@ == old(self).seed@,
            final(self).stream@ == old(self).stream@.push(b),
    {
        let ghost prev = self.stream@;
        proof {
            lemma_push_byte(self.seed@, prev, b);
            lemma_len32_add(prev.len(), 1);
        }
        self.tail.push(b);
        self.count = self.count.wrapping_add(1);
        self.stream = Ghost(prev.push(b));
        if self.tail.len() == 4 {
            let k = read_le_u32(self.tail.as_slice());
            self.hash = mix(self.hash, k);
            self.tail.clear();
        }
    }
}

} // verus!
