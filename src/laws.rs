//! Properties of hashers that relate several calls.
use vstd::prelude::*;

use crate::fnv::{fnv1a, fnv_fold};
use crate::hasher::Hasher;

verus! {

/// Two hashers of one kind with the same configuration that were fed the
/// same bytes give the same digest.
pub proof fn lemma_deterministic<H: Hasher>(x: H, y: H)
    requires
        x.config() == y.config(),
        x.written() == y.written(),
    ensures
        H::digest_of(x.config(), x.written()) == H::digest_of(y.config(), y.written()),
{
}

/// Splitting input across writes does not change the digest: from the same
/// starting state, writing `b1` then `b2` (giving `split`) and writing
/// `b1 + b2` at once (giving `whole`) end with the same digest.
pub proof fn lemma_split_writes<H: Hasher>(start: H, split: H, whole: H, b1: Seq<u8>, b2: Seq<u8>)
    requires
        split.config() == start.config(),
        whole.config() == start.config(),
        split.written() == start.written() + b1 + b2,
        whole.written() == start.written() + (b1 + b2),
    ensures
        H::digest_of(split.config(), split.written()) == H::digest_of(
            whole.config(),
            whole.written(),
        ),
{
    assert(start.written() + b1 + b2 == start.written() + (b1 + b2));
}

/// FNV-1a streams: the digest of `b1 + b2` is the digest of `b1` carried on
/// through the bytes of `b2`, so an engine's digest is all the state it needs.
pub proof fn lemma_fnv_resumes(b1: Seq<u8>, b2: Seq<u8>)
    ensures
        fnv1a(b1 + b2) == fnv_fold(fnv1a(b1), b2),
    decreases b2.len(),
{
    if b2.len() == 0 {
        assert(b1 + b2 =~= b1);
    } else {
        lemma_fnv_resumes(b1, b2.drop_last());
        assert((b1 + b2).drop_last() =~= b1 + b2.drop_last());
        assert((b1 + b2).last() == b2.last());
    }
}

} // verus!
