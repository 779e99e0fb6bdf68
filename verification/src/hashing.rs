//! Deterministic fixed-seed hashing of observed content.
//!
//! Feedback and deduplication logic uses the hash of an observer's current
//! value as an equivalence key, so the hash must be a pure function of
//! content: equal values must hash equally, across repeated calls, runs and
//! processes. The computation is `ahash` with the four hard-coded 64-bit
//! seeds `1, 2, 3, 4`; a hasher built by `ahash::RandomState::with_seeds`
//! draws no process entropy, so its output depends on the written bytes
//! alone. The result of each monomorphic hash is given a name
//! (`stable_hash_of_*`): the contracts of this crate speak of that name,
//! and never of concrete hash values.

use vstd::prelude::*;

verus! {

/// The fixed-seed `ahash` hash of a `u64`.
pub uninterp spec fn stable_hash_of_u64(x: u64) -> u64;

/// The fixed-seed `ahash` hash of an `i32`.
pub uninterp spec fn stable_hash_of_i32(x: i32) -> u64;

/// The fixed-seed `ahash` hash of a byte sequence, as `Vec<u8>` hashes it
/// (length first, then the bytes).
pub uninterp spec fn stable_hash_of_bytes(s: Seq<u8>) -> u64;

/// Relies on `ahash::RandomState::with_seeds(1, 2, 3, 4)`: per its
/// documentation the seeds are "Fixed" (no process entropy), so states
/// built from the same seeds produce identical hashers and the hash of a
/// `u64` is a function of the value alone.
#[verifier::external_body]
fn hash_u64(x: &u64) -> (r: u64)
    ensures
        r == stable_hash_of_u64(*x),
{
    let mut s = core::hash::BuildHasher::build_hasher(&ahash::RandomState::with_seeds(1, 2, 3, 4));
    core::hash::Hash::hash(x, &mut s);
    core::hash::Hasher::finish(&s)
}

/// Relies on `ahash::RandomState::with_seeds(1, 2, 3, 4)`: fixed seeds, so
/// the hash of an `i32` is a function of the value alone.
#[verifier::external_body]
fn hash_i32(x: &i32) -> (r: u64)
    ensures
        r == stable_hash_of_i32(*x),
{
    let mut s = core::hash::BuildHasher::build_hasher(&ahash::RandomState::with_seeds(1, 2, 3, 4));
    core::hash::Hash::hash(x, &mut s);
    core::hash::Hasher::finish(&s)
}

/// Relies on `ahash::RandomState::with_seeds(1, 2, 3, 4)`: fixed seeds, so
/// the hash of a byte vector is a function of its contents alone.
#[verifier::external_body]
fn hash_bytes(x: &Vec<u8>) -> (r: u64)
    ensures
        r == stable_hash_of_bytes(x@),
{
    let mut s = core::hash::BuildHasher::build_hasher(&ahash::RandomState::with_seeds(1, 2, 3, 4));
    core::hash::Hash::hash(x, &mut s);
    core::hash::Hasher::finish(&s)
}

/// Content with a deterministic fixed-seed hash.
///
/// `stable_hash` must return exactly `stable_hash_spec(self)`, a function
/// of the value alone; so for any implementor, equal content gives equal
/// hashes, on every call, in every run and in every process.
pub trait StableHash {
    /// The hash of this content, as a mathematical function of the value.
    spec fn stable_hash_spec(&self) -> u64;

    /// Computes the deterministic fixed-seed hash of this content.
    fn stable_hash(&self) -> (r: u64)
        ensures
            r == self.stable_hash_spec(),
    ;
}

impl StableHash for u64 {
    open spec fn stable_hash_spec(&self) -> u64 {
        stable_hash_of_u64(*self)
    }

    fn stable_hash(&self) -> (r: u64)
        ensures
            r == self.stable_hash_spec(),
    {
        hash_u64(self)
    }
}

impl StableHash for i32 {
    open spec fn stable_hash_spec(&self) -> u64 {
        stable_hash_of_i32(*self)
    }

    fn stable_hash(&self) -> (r: u64)
        ensures
            r == self.stable_hash_spec(),
    {
        hash_i32(self)
    }
}

impl StableHash for Vec<u8> {
    open spec fn stable_hash_spec(&self) -> u64 {
        stable_hash_of_bytes(self@)
    }

    fn stable_hash(&self) -> (r: u64)
        ensures
            r == self.stable_hash_spec(),
    {
        hash_bytes(self)
    }
}

} // verus!
