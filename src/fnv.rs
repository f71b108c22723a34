//! The FNV-1a 32 engine: one xor-multiply step per byte.
use vstd::prelude::*;

use crate::hasher::Hasher;

verus! {

/// The FNV-1a 32-bit offset basis.
pub const OFFSET_BASIS: u32 = 0x811c9dc5;

/// The FNV 32-bit prime.
pub const PRIME: u32 = 0x0100_0193;

/// One FNV-1a step: xor in the byte, then multiply modulo 2^32.
pub open spec fn fnv_step(h: u32, b: u8) -> u32 {
    (h ^ (b as u32)).wrapping_mul(PRIME)
}

/// The running FNV-1a value after folding `bytes` into `h`, first byte first.
pub open spec fn fnv_fold(h: u32, bytes: Seq<u8>) -> u32
    decreases bytes.len(),
{
    if bytes.len() == 0 {
        h
    } else {
        fnv_step(fnv_fold(h, bytes.drop_last()), bytes.last())
    }
}

/// The FNV-1a 32 digest of `bytes`.
pub open spec fn fnv1a(bytes: Seq<u8>) -> u32 {
    fnv_fold(OFFSET_BASIS, bytes)
}

/// The FNV-1a 32 engine.
pub struct FnvHasher {
    hash: u32,
    stream: Ghost<Seq<u8>>,
}

impl FnvHasher {
    /// A fresh engine, holding the offset basis and no input.
    pub fn new() -> (r: FnvHasher)
        ensures
            r.inv(),
            r.written() == Seq::<u8>::empty(),
    {
        FnvHasher { hash: OFFSET_BASIS, stream: Ghost(Seq::empty()) }
    }
}

impl Default for FnvHasher {
    fn default() -> (r: FnvHasher)
        ensures
            r.inv(),
            r.written() == Seq::<u8>::empty(),
    {
        FnvHasher::new()
    }
}

impl Hasher for FnvHasher {
    closed spec fn inv(&self) -> bool {
        self.hash == fnv1a(self.stream@)
    }

    closed spec fn written(&self) -> Seq<u8> {
        self.stream@
    }

    /// FNV-1a has no setting of its own: every engine starts from the
    /// offset basis.
    open spec fn config(&self) -> u32 {
        OFFSET_BASIS
    }

    open spec fn digest_of(config: u32, bytes: Seq<u8>) -> u32 {
        fnv1a(bytes)
    }

    fn finish(&self) -> (r: u32) {
        self.hash
    }

    fn write(&mut self, bytes: &[u8]) {
        let ghost start = self.stream@;
        let mut i: usize = 0;
        while i < bytes.len()
            invariant
                i <= bytes@.len(),
                self.stream@ == start + bytes@.take(i as int),
                self.hash == fnv1a(self.stream@),
            decreases bytes@.len() - i,
        {
            let ghost prev = self.stream@;
            self.hash = (self.hash ^ (bytes[i] as u32)).wrapping_mul(PRIME);
            self.stream = Ghost(prev.push(bytes@[i as int]));
            assert(self.stream@.drop_last() == prev);
            assert(start + bytes@.take(i + 1) == prev.push(bytes@[i as int]));
            i = i + 1;
        }
        assert(bytes@.take(i as int) == bytes@);
    }
}

} // verus!
