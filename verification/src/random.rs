//! A hasher factory with randomized state initialization: one unpredictable
//! seed is drawn from process entropy when the factory is built, and every
//! hasher it produces uses that same seed — so a single associative container
//! stays internally consistent while independent containers hash differently.

use crate::engine::derived_secret;
use crate::hasher::CustomXxh3Hasher;
use std::collections::hash_map::{DefaultHasher, RandomState};
use std::hash::{BuildHasher, Hasher};
use vstd::prelude::*;

verus! {

/// Relies on `std::hash::RandomState::new`: a hasher factory keyed from
/// process-level entropy. Nothing is promised of the keys it draws.
#[verifier::external_body]
fn new_random_state() -> RandomState {
    RandomState::new()
}

/// Relies on `RandomState::build_hasher`: returns a fresh `DefaultHasher`
/// keyed by this factory. Nothing is promised of it.
#[verifier::external_body]
fn build_random_hasher(rs: &RandomState) -> DefaultHasher {
    rs.build_hasher()
}

/// Derive a 64-bit seed by hashing a fixed 64-byte buffer with a hasher keyed
/// from process entropy. Every outcome is possible; nothing is promised of it.
fn random_seed() -> u64 {
    let rs = new_random_state();
    let mut h = build_random_hasher(&rs);
    let mut buf: Vec<u8> = Vec::new();
    let mut i: usize = 0;
    while i < 64
        decreases 64 - i,
    {
        buf.push(0u8);
        i = i + 1;
    }
    h.write(buf.as_slice());
    h.finish()
}

/// A factory for [`CustomXxh3Hasher`] instances with randomized seeding,
/// similar to how SipHash-backed maps are seeded.
pub struct RandomXxh3Builder {
    seed: u64,
}

impl RandomXxh3Builder {
    /// The seed this builder gives to every hasher it produces.
    pub closed spec fn seed_val(&self) -> u64 {
        self.seed
    }

    /// Draw one unpredictable seed from process entropy and store it for all
    /// hashers this builder will produce.
    pub fn new() -> Self {
        RandomXxh3Builder { seed: random_seed() }
    }

    /// Build a hasher in seed-only keying mode with this builder's stored
    /// seed: within one builder, equal inputs give equal digests.
    pub fn build_hasher(&self) -> (r: CustomXxh3Hasher)
        ensures
            r.wf(),
            r.seed_val() == self.seed_val(),
            r.custom() is None,
            r.secret_view() == derived_secret(self.seed_val()),
            r.written() == Seq::<u8>::empty(),
    {
        CustomXxh3Hasher::new(self.seed)
    }
}

impl Default for RandomXxh3Builder {
    /// A freshly seeded builder, as [`RandomXxh3Builder::new`] gives.
    fn default() -> Self {
        RandomXxh3Builder::new()
    }
}

} // verus!
