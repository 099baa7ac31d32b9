//! Trusted boundary around the xxHash3 streaming engine.
//!
//! The engine (`xxhash_rust::xxh3::Xxh3`) is opaque to the verifier. Its
//! abstract state is described by three names: the seed and the secret it was
//! configured with, and the bytes fed to it since construction or the last
//! reset. The digests the engine and the oneshot entry points compute are
//! likewise named, as functions of that abstract state alone.

use vstd::prelude::*;
use xxhash_rust::const_xxh3::const_custom_default_secret;
use xxhash_rust::xxh3::{xxh3_64, xxh3_64_with_secret, Xxh3, Xxh3Builder};

verus! {

/// Declares the engine type so it can stand in fields and signatures; a value
/// of it is reached only through the names and wrappers below.
#[verifier::external_type_specification]
#[verifier::external_body]
pub struct ExXxh3(Xxh3);

/// The 192-byte secret that `const_custom_default_secret` derives from a seed.
/// For seed 0 this is the algorithm's built-in default secret.
pub uninterp spec fn derived_secret(seed: u64) -> Seq<u8>;

/// The seed an engine was configured with.
pub uninterp spec fn engine_seed(x: Xxh3) -> u64;

/// The keying material an engine was configured with.
pub uninterp spec fn engine_secret(x: Xxh3) -> Seq<u8>;

/// The bytes fed to an engine since construction or the last reset.
pub uninterp spec fn engine_written(x: Xxh3) -> Seq<u8>;

/// The streaming digest: a function of the engine's seed, secret and
/// accumulated bytes, and of nothing else.
pub uninterp spec fn stream_digest(seed: u64, secret: Seq<u8>, written: Seq<u8>) -> u64;

/// The oneshot digest of a buffer under the algorithm's built-in keying.
pub uninterp spec fn oneshot_digest(bytes: Seq<u8>) -> u64;

/// The oneshot digest of a buffer under a caller-supplied secret.
pub uninterp spec fn oneshot_secret_digest(secret: Seq<u8>, bytes: Seq<u8>) -> u64;

/// Relies on `const_xxh3::const_custom_default_secret`: derives a 192-byte
/// secret from the given seed, depending on the seed alone.
#[verifier::external_body]
pub(crate) fn derive_secret(seed: u64) -> (r: Vec<u8>)
    ensures
        r@ == derived_secret(seed),
        r@.len() == 192,
{
    const_custom_default_secret(seed).to_vec()
}

/// Relies on `Xxh3Builder`: `new().with_seed(seed).build()` constructs an
/// engine whose seed is `seed` and whose secret is
/// `const_custom_default_secret(seed)`, with nothing written yet.
#[verifier::external_body]
pub(crate) fn build_xxh3_with_seed(seed: u64) -> (r: Xxh3)
    ensures
        engine_seed(r) == seed,
        engine_secret(r) == derived_secret(seed),
        engine_written(r) == Seq::<u8>::empty(),
{
    Xxh3Builder::new().with_seed(seed).build()
}

/// Relies on `Xxh3Builder`: `new().build()` constructs an engine with seed 0
/// and the algorithm's built-in default secret, which is the secret
/// `const_custom_default_secret` returns for seed 0.
#[verifier::external_body]
pub(crate) fn build_xxh3_defaults() -> (r: Xxh3)
    ensures
        engine_seed(r) == 0,
        engine_secret(r) == derived_secret(0),
        engine_written(r) == Seq::<u8>::empty(),
{
    Xxh3Builder::new().build()
}

/// Relies on `Xxh3Builder`: `new().with_secret(secret).build()` constructs an
/// engine with seed 0 and the given 192-byte secret, with nothing written yet.
#[verifier::external_body]
pub(crate) fn build_xxh3_with_secret(secret: &[u8]) -> (r: Xxh3)
    requires
        secret@.len() == 192,
    ensures
        engine_seed(r) == 0,
        engine_secret(r) == secret@,
        engine_written(r) == Seq::<u8>::empty(),
{
    let mut arr = [0u8; 192];
    arr.copy_from_slice(secret);
    Xxh3Builder::new().with_secret(arr).build()
}

/// Relies on `Xxh3Builder`: `new().with_secret(secret).with_seed(seed).build()`
/// constructs an engine with the given seed and 192-byte secret.
#[verifier::external_body]
pub(crate) fn build_xxh3_with_secret_and_seed(secret: &[u8], seed: u64) -> (r: Xxh3)
    requires
        secret@.len() == 192,
    ensures
        engine_seed(r) == seed,
        engine_secret(r) == secret@,
        engine_written(r) == Seq::<u8>::empty(),
{
    let mut arr = [0u8; 192];
    arr.copy_from_slice(secret);
    Xxh3Builder::new().with_secret(arr).with_seed(seed).build()
}

/// Relies on `Xxh3::update`: feeds bytes into the engine, leaving its keying
/// untouched; the accumulated stream grows by exactly those bytes.
#[verifier::external_body]
pub(crate) fn engine_update(x: &mut Xxh3, bytes: &[u8])
    ensures
        engine_seed(*final(x)) == engine_seed(*old(x)),
        engine_secret(*final(x)) == engine_secret(*old(x)),
        engine_written(*final(x)) == engine_written(*old(x)) + bytes@,
{
    x.update(bytes);
}

/// Relies on `Xxh3::digest`: computes the 64-bit digest of the accumulated
/// stream under the engine's keying, without mutating the engine.
#[verifier::external_body]
pub(crate) fn engine_digest(x: &Xxh3) -> (r: u64)
    ensures
        r == stream_digest(engine_seed(*x), engine_secret(*x), engine_written(*x)),
{
    x.digest()
}

/// Relies on `Xxh3::reset`: discards the accumulated stream while keeping the
/// engine's seed and secret.
#[verifier::external_body]
pub(crate) fn engine_reset(x: &mut Xxh3)
    ensures
        engine_seed(*final(x)) == engine_seed(*old(x)),
        engine_secret(*final(x)) == engine_secret(*old(x)),
        engine_written(*final(x)) == Seq::<u8>::empty(),
{
    x.reset();
}

/// Relies on `xxh3::xxh3_64`: the oneshot digest of a buffer under the
/// algorithm's built-in keying, a function of the buffer alone.
#[verifier::external_body]
pub(crate) fn oneshot(bytes: &[u8]) -> (r: u64)
    ensures
        r == oneshot_digest(bytes@),
{
    xxh3_64(bytes)
}

/// Relies on `xxh3::xxh3_64_with_secret`: the oneshot digest of a buffer under
/// a caller-supplied secret, a function of the two buffers alone. The callee
/// panics on secrets shorter than its minimum, so only full-size secrets are
/// admitted.
#[verifier::external_body]
pub(crate) fn oneshot_with_secret(bytes: &[u8], secret: &[u8]) -> (r: u64)
    requires
        secret@.len() == 192,
    ensures
        r == oneshot_secret_digest(secret@, bytes@),
{
    xxh3_64_with_secret(bytes, secret)
}

/// Relies on the derived `Clone` for `Xxh3`: a field-by-field copy, carrying
/// the same seed, secret and accumulated stream as the value it copies.
pub assume_specification[ <Xxh3 as Clone>::clone ](x: &Xxh3) -> (r: Xxh3)
    ensures
        engine_seed(r) == engine_seed(*x),
        engine_secret(r) == engine_secret(*x),
        engine_written(r) == engine_written(*x),
;

} // verus!
