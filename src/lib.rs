//! 32-bit-only hashing: a `Hash` / `Hasher` / `BuildHasher` framework and two
//! engines, FNV-1a 32 and MurmurHash3 x86 32, whose arithmetic never exceeds
//! 32 bits.
pub mod bytes;
pub mod factory;
pub mod fnv;
pub mod hash;
pub mod hasher;
pub mod laws;
pub mod murmur3;

pub use factory::{BuildHasher, BuildHasherDefault};
pub use fnv::FnvHasher;
pub use hasher::Hasher;
pub use murmur3::Murmur3Hasher;
