//! Capability traits for self-describing hashable values, the batch and
//! fast-path operations built on them, and the oneshot hash helpers.

use crate::engine::{
    derive_secret, derived_secret, oneshot, oneshot_digest, oneshot_secret_digest,
    oneshot_with_secret, stream_digest,
};
use crate::hasher::{CustomXxh3Hasher, XXH3_SECRET_SEED};
use vstd::prelude::*;

verus! {

/// A type that can hash itself with the xxHash3 algorithm.
///
/// Complex types would typically feed themselves field by field into the
/// provided hasher; flat types can be represented as one byte slice and use
/// [`hash_bytes`] for their own digest.
pub trait Xxh3Hashable {
    /// The bytes this item feeds into a hasher's stream.
    spec fn xxh3_bytes(&self) -> Seq<u8>;

    /// Feed this item's byte representation into the provided hasher, leaving
    /// the hasher's keying untouched.
    fn xxh3(&self, state: &mut CustomXxh3Hasher)
        requires
            old(state).wf(),
        ensures
            final(state).wf(),
            final(state).seed_val() == old(state).seed_val(),
            final(state).custom() == old(state).custom(),
            final(state).secret_view() == old(state).secret_view(),
            final(state).written() == old(state).written() + self.xxh3_bytes(),
    ;

    /// The item's own digest, computed in whichever way the implementation
    /// chooses.
    fn xxh3_digest(&self) -> u64;
}

impl Xxh3Hashable for Vec<u8> {
    open spec fn xxh3_bytes(&self) -> Seq<u8> {
        self@
    }

    fn xxh3(&self, state: &mut CustomXxh3Hasher) {
        state.write(self.as_slice());
    }

    fn xxh3_digest(&self) -> u64 {
        hash_bytes(self.as_slice())
    }
}

/// A transparent single-field adapter: a value that knows how to hash itself
/// can stand wherever the generic hashing contract is expected, every
/// operation delegating to the wrapped value.
pub struct Xxh3Wrapper<T>(pub T);

impl<T: Xxh3Hashable> Xxh3Hashable for Xxh3Wrapper<T> {
    open spec fn xxh3_bytes(&self) -> Seq<u8> {
        self.0.xxh3_bytes()
    }

    fn xxh3(&self, state: &mut CustomXxh3Hasher) {
        self.0.xxh3(state);
    }

    fn xxh3_digest(&self) -> u64 {
        self.0.xxh3_digest()
    }
}

/// A type with a materially faster hashing path than the generic incremental
/// one, such as a fixed-width value hashed via a single bulk write.
pub trait Xxh3OptimizedHash {
    /// The bytes the specialized path feeds into a hasher's stream.
    spec fn optimized_bytes(&self) -> Seq<u8>;

    /// Feed this item into the provided hasher along the specialized path,
    /// leaving the hasher's keying untouched.
    fn hash_optimized(&self, state: &mut CustomXxh3Hasher)
        requires
            old(state).wf(),
        ensures
            final(state).wf(),
            final(state).seed_val() == old(state).seed_val(),
            final(state).custom() == old(state).custom(),
            final(state).secret_view() == old(state).secret_view(),
            final(state).written() == old(state).written() + self.optimized_bytes(),
    ;
}

impl Xxh3OptimizedHash for Vec<u8> {
    open spec fn optimized_bytes(&self) -> Seq<u8> {
        self@
    }

    fn hash_optimized(&self, state: &mut CustomXxh3Hasher) {
        state.write(self.as_slice());
    }
}

/// The concatenation of the byte contributions of a sequence of items, in
/// sequence order.
pub open spec fn batch_bytes<T: Xxh3Hashable>(items: Seq<T>) -> Seq<u8>
    decreases items.len(),
{
    if items.len() == 0 {
        Seq::empty()
    } else {
        items[0].xxh3_bytes() + batch_bytes(items.drop_first())
    }
}

proof fn lemma_batch_bytes_snoc<T: Xxh3Hashable>(items: Seq<T>, i: int)
    requires
        0 <= i < items.len(),
    ensures
        batch_bytes(items.take(i + 1)) == batch_bytes(items.take(i)) + items[i].xxh3_bytes(),
    decreases i,
{
    if i == 0 {
        assert(items.take(1).drop_first() =~= Seq::<T>::empty());
        assert(items.take(0) =~= Seq::<T>::empty());
        assert(batch_bytes(items.take(1)) =~= batch_bytes(items.take(0)) + items[0].xxh3_bytes());
    } else {
        let rest = items.drop_first();
        lemma_batch_bytes_snoc(rest, i - 1);
        assert(items.take(i + 1).drop_first() =~= rest.take(i));
        assert(items.take(i).drop_first() =~= rest.take(i - 1));
        assert((items[0].xxh3_bytes() + batch_bytes(rest.take(i - 1))) + items[i].xxh3_bytes()
            =~= items[0].xxh3_bytes() + (batch_bytes(rest.take(i - 1)) + items[i].xxh3_bytes()));
    }
}

impl CustomXxh3Hasher {
    /// Feed each item's hash contribution into the stream in sequence order,
    /// then return the digest of everything written so far. Order-sensitive:
    /// permuting the items generally changes the result.
    pub fn hash_batch<T: Xxh3Hashable>(&mut self, items: &[T]) -> (r: u64)
        requires
            old(self).wf(),
        ensures
            final(self).wf(),
            final(self).seed_val() == old(self).seed_val(),
            final(self).custom() == old(self).custom(),
            final(self).secret_view() == old(self).secret_view(),
            final(self).written() == old(self).written() + batch_bytes(items@),
            r == final(self).digest(),
            r == stream_digest(
                old(self).seed_val(),
                old(self).secret_view(),
                old(self).written() + batch_bytes(items@),
            ),
    {
        proof {
            assert(items@.take(0) =~= Seq::<T>::empty());
            assert(old(self).written() + batch_bytes(items@.take(0)) =~= old(self).written());
        }
        let mut i: usize = 0;
        while i < items.len()
            invariant
                i <= items@.len(),
                self.wf(),
                self.seed_val() == old(self).seed_val(),
                self.custom() == old(self).custom(),
                self.secret_view() == old(self).secret_view(),
                self.written() == old(self).written() + batch_bytes(items@.take(i as int)),
            decreases items@.len() - i,
        {
            proof {
                lemma_batch_bytes_snoc(items@, i as int);
            }
            let item = &items[i];
            item.xxh3(self);
            proof {
                assert((old(self).written() + batch_bytes(items@.take(i as int)))
                    + items@[i as int].xxh3_bytes() =~= old(self).written() + batch_bytes(
                    items@.take(i as int + 1),
                ));
            }
            i = i + 1;
        }
        proof {
            assert(items@.take(items@.len() as int) =~= items@);
        }
        self.finish()
    }

    /// Fast path for types with a specialized hashing implementation.
    pub fn hash_optimized<T: Xxh3OptimizedHash>(&mut self, value: &T)
        requires
            old(self).wf(),
        ensures
            final(self).wf(),
            final(self).seed_val() == old(self).seed_val(),
            final(self).custom() == old(self).custom(),
            final(self).secret_view() == old(self).secret_view(),
            final(self).written() == old(self).written() + value.optimized_bytes(),
    {
        value.hash_optimized(self)
    }
}

/// Hash a byte slice in one call, keyed by the built-in secret table.
/// Deterministic across processes.
pub fn hash_bytes(bytes: &[u8]) -> (r: u64)
    ensures
        r == oneshot_secret_digest(derived_secret(XXH3_SECRET_SEED), bytes@),
{
    let table = derive_secret(XXH3_SECRET_SEED);
    oneshot_with_secret(bytes, table.as_slice())
}

/// Hash a byte slice in one call under the algorithm's built-in default
/// keying. Deterministic, but keyed differently than [`hash_bytes`].
pub fn hash_bytes_default(bytes: &[u8]) -> (r: u64)
    ensures
        r == oneshot_digest(bytes@),
{
    oneshot(bytes)
}

/// Hash one item with a hasher built from library defaults. Convenient, but
/// it creates a fresh hasher per call: prefer one [`CustomXxh3Hasher`] for
/// repeated hashing, or [`hash_bytes`] for items that are byte slices.
pub fn hash_item<T: Xxh3Hashable>(item: &T) -> (r: u64)
    ensures
        r == stream_digest(0, derived_secret(XXH3_SECRET_SEED), item.xxh3_bytes()),
{
    let mut hasher: CustomXxh3Hasher = CustomXxh3Hasher::default();
    item.xxh3(&mut hasher);
    proof {
        assert(Seq::<u8>::empty() + item.xxh3_bytes() =~= item.xxh3_bytes());
    }
    hasher.finish()
}

} // verus!
