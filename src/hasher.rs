//! The byte-sink contract shared by every hashing engine.
use vstd::prelude::*;

verus! {

/// An accumulator that takes bytes incrementally and yields a 32-bit digest.
///
/// Its model is the sequence of every byte written so far, in order, and a
/// fixed configuration; the digest is determined by the two.
///
/// Implementers must not use arithmetic on operands wider than 32 bits while
/// computing the hash.
pub trait Hasher: Sized {
    /// Well-formedness of the internal state.
    spec fn inv(&self) -> bool;

    /// Every byte written so far, in order.
    spec fn written(&self) -> Seq<u8>;

    /// The engine's fixed configuration (such as a seed), set when it is
    /// created and kept by every write.
    spec fn config(&self) -> u32;

    /// The digest of the input `bytes` under configuration `config`.
    spec fn digest_of(config: u32, bytes: Seq<u8>) -> u32;

    /// Returns the digest of all bytes written so far, without changing the
    /// state (reading twice gives the same value).
    fn finish(&self) -> (r: u32)
        requires
            self.inv(),
        ensures
            r == Self::digest_of(self.config(), self.written()),
    ;

    /// Appends `bytes` to the input stream.
    fn write(&mut self, bytes: &[u8])
        requires
            old(self).inv(),
        ensures
            final(self).inv(),
            final(self).config() == old(self).config(),
            final(self).written() == old(self).written() + bytes@,
    ;
}

} // verus!
