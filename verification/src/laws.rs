//! The behavioural laws of the hasher, stated over the abstract model that
//! the public contracts use and proved from it.

use crate::engine::{derived_secret, stream_digest};
use crate::hasher::CustomXxh3Hasher;
use crate::random::RandomXxh3Builder;
use vstd::prelude::*;

verus! {

/// Determinism: two hashers with the same keying configuration that have been
/// fed the same byte stream show the same digest, however each of them was
/// constructed.
pub proof fn lemma_determinism(a: CustomXxh3Hasher, b: CustomXxh3Hasher)
    requires
        a.wf(),
        b.wf(),
        a.seed_val() == b.seed_val(),
        a.secret_view() == b.secret_view(),
        a.written() == b.written(),
    ensures
        a.digest() == b.digest(),
{
    a.lemma_digest_characterization();
    b.lemma_digest_characterization();
}

/// Concatenation invariance: writing `a` and then `b` leads to the same
/// digest as writing their concatenation in one call, whatever bytes `pre`
/// the hasher held before.
pub proof fn lemma_concat_invariance(
    seed: u64,
    secret: Seq<u8>,
    pre: Seq<u8>,
    a: Seq<u8>,
    b: Seq<u8>,
)
    ensures
        stream_digest(seed, secret, (pre + a) + b) == stream_digest(seed, secret, pre + (a + b)),
{
    assert((pre + a) + b =~= pre + (a + b));
}

/// Reset correctness: after writing `b` to a fresh hasher, the digest that
/// `reset` hands back equals the digest shown once `b` is written again to
/// the emptied hasher the reset left behind.
pub proof fn lemma_reset_replay(seed: u64, secret: Seq<u8>, b: Seq<u8>)
    ensures
        stream_digest(seed, secret, Seq::<u8>::empty() + b) == stream_digest(seed, secret, b),
{
    assert(Seq::<u8>::empty() + b =~= b);
}

/// Seed change isolation: a hasher that changed its seed and then wrote `w`
/// shows the same digest as a hasher freshly constructed with that seed that
/// wrote `w` — whatever the first hasher had accumulated before the change.
/// `changed` is any hasher satisfying what `change_seed` ensures for a hasher
/// without a custom secret, then fed `w`; `fresh` is any hasher satisfying
/// what `new` ensures for the same seed, then fed `w`.
pub proof fn lemma_seed_change_isolation(
    changed: CustomXxh3Hasher,
    fresh: CustomXxh3Hasher,
    w: Seq<u8>,
)
    requires
        changed.wf(),
        fresh.wf(),
        changed.custom() is None,
        fresh.custom() is None,
        changed.seed_val() == fresh.seed_val(),
        changed.secret_view() == derived_secret(changed.seed_val()),
        fresh.secret_view() == derived_secret(fresh.seed_val()),
        changed.written() == w,
        fresh.written() == w,
    ensures
        changed.digest() == fresh.digest(),
{
    lemma_determinism(changed, fresh);
}

/// Randomized-builder consistency: any two hashers produced by one randomized
/// builder that have been fed the same byte stream show the same digest, so a
/// container using the builder can insert and look up consistently.
pub proof fn lemma_builder_consistency(
    bld: RandomXxh3Builder,
    a: CustomXxh3Hasher,
    b: CustomXxh3Hasher,
    w: Seq<u8>,
)
    requires
        a.wf(),
        b.wf(),
        a.seed_val() == bld.seed_val(),
        b.seed_val() == bld.seed_val(),
        a.secret_view() == derived_secret(bld.seed_val()),
        b.secret_view() == derived_secret(bld.seed_val()),
        a.written() == w,
        b.written() == w,
    ensures
        a.digest() == b.digest(),
{
    lemma_determinism(a, b);
}

} // verus!
