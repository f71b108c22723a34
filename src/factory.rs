//! Factories that mint a fresh `Hasher` per use.
use vstd::prelude::*;

use core::marker::PhantomData;

use crate::hasher::Hasher;

verus! {

/// A factory of hashers.
pub trait BuildHasher {
    /// The kind of hasher this factory makes.
    type Hasher: Hasher;

    /// Whether `h` is a hasher this factory may hand out.
    spec fn builds(&self, h: Self::Hasher) -> bool;

    /// Makes a hasher.
    fn build_hasher(&self) -> (r: Self::Hasher)
        ensures
            self.builds(r),
    ;
}

/// The stateless factory that makes each hasher by `H::default()`.
pub struct BuildHasherDefault<H> where H: Default + Hasher {
    _marker: PhantomData<H>,
}

impl<H> BuildHasherDefault<H> where H: Default + Hasher {
    /// The factory for `H`.
    pub fn new() -> (r: Self)
        ensures
            forall|h: H| #[trigger] r.builds(h) <==> call_ensures(H::default, (), h),
    {
        BuildHasherDefault { _marker: PhantomData }
    }
}

impl<H> Default for BuildHasherDefault<H> where H: Default + Hasher {
    fn default() -> (r: Self)
        ensures
            forall|h: H| #[trigger] r.builds(h) <==> call_ensures(H::default, (), h),
    {
        BuildHasherDefault::new()
    }
}

impl<H> BuildHasher for BuildHasherDefault<H> where H: Default + Hasher {
    type Hasher = H;

    open spec fn builds(&self, h: H) -> bool {
        call_ensures(H::default, (), h)
    }

    fn build_hasher(&self) -> (r: H) {
        H::default()
    }
}

} // verus!
