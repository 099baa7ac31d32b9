//! The configurable hasher: a streaming xxHash3 engine together with the seed
//! and optional custom secret that produced it.

use crate::engine::{
    build_xxh3_defaults, build_xxh3_with_secret, build_xxh3_with_secret_and_seed,
    build_xxh3_with_seed, derive_secret, derived_secret, engine_digest, engine_reset,
    engine_seed, engine_secret, engine_update, engine_written, stream_digest,
};
use vstd::prelude::*;
use xxhash_rust::xxh3::Xxh3;

verus! {

/// Number of bytes a caller-supplied secret must have.
pub const XXH3_SECRET_SIZE: usize = 192;

/// Seed from which the built-in secret table is derived.
pub const XXH3_SECRET_SEED: u64 = 0xDEAD_BEEF_FEED_F00D;

#[derive(Debug, PartialEq, Eq, Structural)]
pub enum Xxh3Error {
    /// A caller-supplied secret did not have exactly [`XXH3_SECRET_SIZE`]
    /// bytes; carries the length that was given.
    InvalidSecretSize(usize),
}

/// A configurable xxHash3 hasher.
///
/// It wraps one exclusively owned streaming engine and records the seed, and
/// the custom secret if one was given, that produced the current engine
/// instance. Reconfiguration (`reset`, `change_seed`) replaces the engine and
/// the metadata together, never independently.
#[derive(Clone)]
pub struct CustomXxh3Hasher {
    xxh: Xxh3,
    seed: u64,
    custom_secret: Option<Vec<u8>>,
}

impl CustomXxh3Hasher {
    /// The seed recorded for the current engine instance.
    pub closed spec fn seed_val(&self) -> u64 {
        self.seed
    }

    /// The caller-supplied secret, if one was used to build this hasher.
    pub closed spec fn custom(&self) -> Option<Seq<u8>> {
        match self.custom_secret {
            Some(s) => Some(s@),
            None => None,
        }
    }

    /// The keying material the engine actually uses.
    pub closed spec fn secret_view(&self) -> Seq<u8> {
        engine_secret(self.xxh)
    }

    /// The bytes written since construction or the last reset.
    pub closed spec fn written(&self) -> Seq<u8> {
        engine_written(self.xxh)
    }

    /// The digest the hasher shows for its current state.
    pub closed spec fn digest(&self) -> u64 {
        stream_digest(engine_seed(self.xxh), engine_secret(self.xxh), engine_written(self.xxh))
    }

    /// The recorded metadata reflects the configuration that produced the
    /// current engine instance.
    pub closed spec fn wf(&self) -> bool {
        &&& engine_seed(self.xxh) == self.seed
        &&& match self.custom_secret {
            Some(s) => s@.len() == XXH3_SECRET_SIZE && engine_secret(self.xxh) == s@,
            None => true,
        }
    }

    /// For a well-formed hasher, the digest is the streaming digest of the
    /// recorded seed, the engine's keying material and the written bytes.
    pub proof fn lemma_digest_characterization(&self)
        requires
            self.wf(),
        ensures
            self.digest() == stream_digest(self.seed_val(), self.secret_view(), self.written()),
    {
    }

    /// Build a hasher in seed-only keying mode with the given seed.
    pub fn new(seed: u64) -> (r: Self)
        ensures
            r.wf(),
            r.seed_val() == seed,
            r.custom() is None,
            r.secret_view() == derived_secret(seed),
            r.written() == Seq::<u8>::empty(),
    {
        CustomXxh3Hasher { xxh: build_xxh3_with_seed(seed), seed, custom_secret: None }
    }

    /// Build a hasher with the algorithm's built-in default keying and seed 0.
    pub fn new_xxh3_defaults() -> (r: Self)
        ensures
            r.wf(),
            r.seed_val() == 0,
            r.custom() is None,
            r.secret_view() == derived_secret(0),
            r.written() == Seq::<u8>::empty(),
    {
        CustomXxh3Hasher { xxh: build_xxh3_defaults(), seed: 0, custom_secret: None }
    }

    /// Build a hasher keyed by `secret` and seed 0. Fails with
    /// [`Xxh3Error::InvalidSecretSize`] exactly when the secret does not have
    /// [`XXH3_SECRET_SIZE`] bytes; the secret is copied into the hasher's
    /// metadata so reconfiguration can reuse it.
    pub fn with_secret(secret: &[u8]) -> (r: Result<Self, Xxh3Error>)
        ensures
            match r {
                Ok(h) => {
                    &&& secret@.len() == XXH3_SECRET_SIZE
                    &&& h.wf()
                    &&& h.seed_val() == 0
                    &&& h.custom() == Some(secret@)
                    &&& h.secret_view() == secret@
                    &&& h.written() == Seq::<u8>::empty()
                },
                Err(e) => {
                    &&& secret@.len() != XXH3_SECRET_SIZE
                    &&& e == Xxh3Error::InvalidSecretSize(secret@.len() as usize)
                },
            },
    {
        if let Some(e) = validate_secret_size(secret) {
            return Err(e);
        }
        let copy = vstd::slice::slice_to_vec(secret);
        Ok(
            CustomXxh3Hasher {
                xxh: build_xxh3_with_secret(secret),
                seed: 0,
                custom_secret: Some(copy),
            },
        )
    }

    /// Build a hasher keyed by both `secret` and an explicit seed, with the
    /// same validation as [`CustomXxh3Hasher::with_secret`].
    pub fn with_secret_and_seed(secret: &[u8], seed: u64) -> (r: Result<Self, Xxh3Error>)
        ensures
            match r {
                Ok(h) => {
                    &&& secret@.len() == XXH3_SECRET_SIZE
                    &&& h.wf()
                    &&& h.seed_val() == seed
                    &&& h.custom() == Some(secret@)
                    &&& h.secret_view() == secret@
                    &&& h.written() == Seq::<u8>::empty()
                },
                Err(e) => {
                    &&& secret@.len() != XXH3_SECRET_SIZE
                    &&& e == Xxh3Error::InvalidSecretSize(secret@.len() as usize)
                },
            },
    {
        if let Some(e) = validate_secret_size(secret) {
            return Err(e);
        }
        let copy = vstd::slice::slice_to_vec(secret);
        Ok(
            CustomXxh3Hasher {
                xxh: build_xxh3_with_secret_and_seed(secret, seed),
                seed,
                custom_secret: Some(copy),
            },
        )
    }

    /// The seed value used by this hasher.
    pub fn seed(&self) -> (r: u64)
        ensures
            r == self.seed_val(),
    {
        self.seed
    }

    /// Feed bytes into the streaming engine; the keying is untouched and the
    /// accumulated stream grows by exactly those bytes.
    pub fn write(&mut self, bytes: &[u8])
        requires
            old(self).wf(),
        ensures
            final(self).wf(),
            final(self).seed_val() == old(self).seed_val(),
            final(self).custom() == old(self).custom(),
            final(self).secret_view() == old(self).secret_view(),
            final(self).written() == old(self).written() + bytes@,
    {
        engine_update(&mut self.xxh, bytes);
    }

    /// The digest of all bytes written so far. The state is not mutated:
    /// further writes continue from the current value.
    pub fn finish(&self) -> (r: u64)
        ensures
            r == self.digest(),
            self.wf() ==> r == stream_digest(self.seed_val(), self.secret_view(), self.written()),
    {
        engine_digest(&self.xxh)
    }

    /// Return the current digest, then clear the accumulated stream back to a
    /// freshly constructed engine with the same seed and secret.
    pub fn reset(&mut self) -> (r: u64)
        requires
            old(self).wf(),
        ensures
            final(self).wf(),
            r == old(self).digest(),
            r == stream_digest(old(self).seed_val(), old(self).secret_view(), old(self).written()),
            final(self).seed_val() == old(self).seed_val(),
            final(self).custom() == old(self).custom(),
            final(self).secret_view() == old(self).secret_view(),
            final(self).written() == Seq::<u8>::empty(),
    {
        let state: u64 = self.finish();
        engine_reset(&mut self.xxh);
        state
    }

    /// Discard all accumulated state and rebuild the hasher with the same
    /// secret provenance but the new seed: a custom secret is kept, while a
    /// hasher without one moves to seed-only keying under `seed`.
    pub fn change_seed(&mut self, seed: u64)
        requires
            old(self).wf(),
        ensures
            final(self).wf(),
            final(self).seed_val() == seed,
            final(self).custom() == old(self).custom(),
            final(self).written() == Seq::<u8>::empty(),
            match old(self).custom() {
                Some(s) => final(self).secret_view() == s,
                None => final(self).secret_view() == derived_secret(seed),
            },
    {
        let eng = match &self.custom_secret {
            Some(s) => build_xxh3_with_secret_and_seed(s.as_slice(), seed),
            None => build_xxh3_with_seed(seed),
        };
        self.xxh = eng;
        self.seed = seed;
    }

    /// Mix a previously computed 64-bit digest into the running state by
    /// feeding its little-endian byte representation into the stream.
    pub fn combine(&mut self, other: u64)
        requires
            old(self).wf(),
        ensures
            final(self).wf(),
            final(self).seed_val() == old(self).seed_val(),
            final(self).custom() == old(self).custom(),
            final(self).secret_view() == old(self).secret_view(),
            final(self).written() == old(self).written() + vstd::bytes::spec_u64_to_le_bytes(other),
    {
        let bytes = vstd::bytes::u64_to_le_bytes(other);
        self.write(bytes.as_slice());
    }
}

impl Default for CustomXxh3Hasher {
    /// A hasher keyed by the built-in secret table (derived once from
    /// [`XXH3_SECRET_SEED`]) with seed 0 and no custom secret recorded.
    fn default() -> (r: Self)
        ensures
            r.wf(),
            r.seed_val() == 0,
            r.custom() is None,
            r.secret_view() == derived_secret(XXH3_SECRET_SEED),
            r.written() == Seq::<u8>::empty(),
    {
        let table = derive_secret(XXH3_SECRET_SEED);
        CustomXxh3Hasher {
            xxh: build_xxh3_with_secret(table.as_slice()),
            seed: 0,
            custom_secret: None,
        }
    }
}

/// Build a raw streaming engine keyed by the built-in secret table, for
/// callers that want the engine itself rather than the configurable hasher.
pub fn build_xxh3_with_custom_secret() -> (r: Xxh3)
    ensures
        engine_seed(r) == 0,
        engine_secret(r) == derived_secret(XXH3_SECRET_SEED),
        engine_written(r) == Seq::<u8>::empty(),
{
    let table = derive_secret(XXH3_SECRET_SEED);
    build_xxh3_with_secret(table.as_slice())
}

/// Check a caller-supplied secret's length, returning the error to report if
/// it is not exactly [`XXH3_SECRET_SIZE`] bytes.
fn validate_secret_size(secret: &[u8]) -> (r: Option<Xxh3Error>)
    ensures
        match r {
            Some(e) => secret@.len() != XXH3_SECRET_SIZE && e == Xxh3Error::InvalidSecretSize(
                secret@.len() as usize,
            ),
            None => secret@.len() == XXH3_SECRET_SIZE,
        },
{
    if secret.len() != XXH3_SECRET_SIZE {
        return Some(Xxh3Error::InvalidSecretSize(secret.len()));
    }
    None
}

} // verus!
