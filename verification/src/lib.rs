//! A configurable non-cryptographic hashing utility built on xxHash3.
//!
//! The central type is [`CustomXxh3Hasher`]: a streaming 64-bit hasher with an
//! explicit seed, an optional caller-supplied 192-byte secret, and
//! reset/reseed/combine/batch operations. Deterministic by default, it can
//! also be produced by [`RandomXxh3Builder`] for per-instance unpredictable
//! seeding, and oneshot helpers hash a complete buffer in one call.

mod engine;
mod hashable;
mod hasher;
mod laws;
mod random;

pub use engine::{
    derived_secret, engine_seed, engine_secret, engine_written, oneshot_digest,
    oneshot_secret_digest, stream_digest,
};
pub use hashable::{
    batch_bytes, hash_bytes, hash_bytes_default, hash_item, Xxh3Hashable, Xxh3OptimizedHash,
    Xxh3Wrapper,
};
pub use hasher::{
    build_xxh3_with_custom_secret, CustomXxh3Hasher, Xxh3Error, XXH3_SECRET_SEED,
    XXH3_SECRET_SIZE,
};
pub use laws::{
    lemma_builder_consistency, lemma_concat_invariance, lemma_determinism, lemma_reset_replay,
    lemma_seed_change_isolation,
};
pub use random::RandomXxh3Builder;
