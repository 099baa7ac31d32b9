use xxh3_hasher::{
    hash_bytes, hash_bytes_default, hash_item, CustomXxh3Hasher, RandomXxh3Builder, Xxh3Error,
    Xxh3Hashable, Xxh3Wrapper, XXH3_SECRET_SIZE,
};

const TEST_DATA: &[u8] = b"Hello, world!";

#[test]
fn test_default_hash_stability() {
    let mut hasher1 = CustomXxh3Hasher::new_xxh3_defaults();
    let mut hasher2 = CustomXxh3Hasher::new_xxh3_defaults();

    hasher1.write(&TEST_DATA);
    hasher2.write(&TEST_DATA);

    assert_eq!(
        hasher1.finish(),
        hasher2.finish(),
        "Default XXH3 hashes should match"
    );
}

#[test]
fn test_custom_hash_stability() {
    let mut hasher1 = CustomXxh3Hasher::default();
    let mut hasher2 = CustomXxh3Hasher::default();

    hasher1.write(&TEST_DATA);
    hasher2.write(&TEST_DATA);

    assert_eq!(
        hasher1.finish(),
        hasher2.finish(),
        "Custom XXH3 hashes should match"
    );
}

#[test]
fn test_random_hashes() {
    let mut hasher1 = RandomXxh3Builder::new().build_hasher();
    let mut hasher2 = RandomXxh3Builder::new().build_hasher();

    hasher1.write(&TEST_DATA);
    hasher2.write(&TEST_DATA);

    assert_ne!(
        hasher1.finish(),
        hasher2.finish(),
        "Random hashes should differ"
    );
}

#[test]
fn test_seeded_determinism() {
    let mut hasher1 = CustomXxh3Hasher::new(42);
    let mut hasher2 = CustomXxh3Hasher::new(42);

    hasher1.write(TEST_DATA);
    hasher2.write(TEST_DATA);

    assert_eq!(hasher1.finish(), hasher2.finish());
}

#[test]
fn test_secret_determinism() {
    let secret = [7u8; 192];
    let mut hasher1 = CustomXxh3Hasher::with_secret(&secret).unwrap();
    let mut hasher2 = CustomXxh3Hasher::with_secret(&secret).unwrap();

    hasher1.write(TEST_DATA);
    hasher2.write(TEST_DATA);

    assert_eq!(hasher1.finish(), hasher2.finish());
}

#[test]
fn test_keying_separation() {
    assert_ne!(hash_bytes(TEST_DATA), hash_bytes_default(TEST_DATA));
}

#[test]
fn test_known_empty_digest() {
    // The well-known xxh3 64-bit digest of the empty buffer under default keying.
    assert_eq!(hash_bytes_default(b""), 0x2D06_8005_38D3_94C2);
}

#[test]
fn test_reset_round_trip() {
    let mut hasher = CustomXxh3Hasher::new(5);
    hasher.write(TEST_DATA);
    let d1 = hasher.reset();
    hasher.write(TEST_DATA);
    let d2 = hasher.finish();
    assert_eq!(d1, d2);
}

#[test]
fn test_reset_forgets_previous_input() {
    let mut hasher = CustomXxh3Hasher::new(5);
    hasher.write(TEST_DATA);
    hasher.reset();
    hasher.write(b"something else");
    let after_reset = hasher.finish();

    let mut fresh = CustomXxh3Hasher::new(5);
    fresh.write(b"something else");
    assert_eq!(after_reset, fresh.finish());
}

#[test]
fn test_concat_invariance() {
    let a = b"split ";
    let b = b"buffer";
    let mut piecewise = CustomXxh3Hasher::new(11);
    piecewise.write(a);
    piecewise.write(b);

    let mut whole = CustomXxh3Hasher::new(11);
    whole.write(b"split buffer");

    assert_eq!(piecewise.finish(), whole.finish());
}

#[test]
fn test_finish_is_idempotent_and_resumable() {
    let mut hasher = CustomXxh3Hasher::new(3);
    hasher.write(b"first");
    let d1 = hasher.finish();
    assert_eq!(d1, hasher.finish());

    hasher.write(b"second");
    let resumed = hasher.finish();

    let mut whole = CustomXxh3Hasher::new(3);
    whole.write(b"firstsecond");
    assert_eq!(resumed, whole.finish());
    assert_ne!(resumed, d1);
}

#[test]
fn test_seed_change_isolation() {
    let mut hasher = CustomXxh3Hasher::new(1);
    hasher.write(b"stale bytes that must be forgotten");
    hasher.change_seed(7);
    hasher.write(TEST_DATA);

    let mut fresh = CustomXxh3Hasher::new(7);
    fresh.write(TEST_DATA);

    assert_eq!(hasher.finish(), fresh.finish());
    assert_eq!(hasher.seed(), 7);
}

#[test]
fn test_seed_change_keeps_custom_secret() {
    let secret = [42u8; 192];
    let mut hasher = CustomXxh3Hasher::with_secret_and_seed(&secret, 3).unwrap();
    hasher.write(b"stale");
    hasher.change_seed(9);
    hasher.write(TEST_DATA);

    let mut fresh = CustomXxh3Hasher::with_secret_and_seed(&secret, 9).unwrap();
    fresh.write(TEST_DATA);

    assert_eq!(hasher.finish(), fresh.finish());
    assert_eq!(hasher.seed(), 9);
}

#[test]
fn test_validation_boundary() {
    for len in [0usize, 191, 193] {
        let secret = vec![1u8; len];
        match CustomXxh3Hasher::with_secret(&secret) {
            Err(e) => assert_eq!(e, Xxh3Error::InvalidSecretSize(len)),
            Ok(_) => panic!("secret of {} bytes must be rejected", len),
        }
        match CustomXxh3Hasher::with_secret_and_seed(&secret, 4) {
            Err(e) => assert_eq!(e, Xxh3Error::InvalidSecretSize(len)),
            Ok(_) => panic!("secret of {} bytes must be rejected", len),
        }
    }
    let good = vec![1u8; XXH3_SECRET_SIZE];
    assert!(CustomXxh3Hasher::with_secret(&good).is_ok());
    assert!(CustomXxh3Hasher::with_secret_and_seed(&good, 4).is_ok());
}

#[test]
fn test_batch_order_sensitivity() {
    // Concrete counterexample pair: the one-byte buffers [1] and [2].
    let x: Vec<u8> = vec![1];
    let y: Vec<u8> = vec![2];

    let mut forward = CustomXxh3Hasher::new(0);
    let d_xy = forward.hash_batch(&[x.clone(), y.clone()]);

    let mut backward = CustomXxh3Hasher::new(0);
    let d_yx = backward.hash_batch(&[y, x]);

    assert_ne!(d_xy, d_yx);
}

#[test]
fn test_batch_matches_sequential_writes() {
    let items: Vec<Vec<u8>> = vec![b"alpha".to_vec(), b"beta".to_vec()];
    let mut batched = CustomXxh3Hasher::new(8);
    let d_batch = batched.hash_batch(&items);

    let mut sequential = CustomXxh3Hasher::new(8);
    sequential.write(b"alpha");
    sequential.write(b"beta");

    assert_eq!(d_batch, sequential.finish());
}

#[test]
fn test_combine_feeds_le_bytes() {
    let value: u64 = 0x0123_4567_89AB_CDEF;
    let mut combined = CustomXxh3Hasher::new(2);
    combined.combine(value);

    let mut written = CustomXxh3Hasher::new(2);
    written.write(&value.to_le_bytes());

    assert_eq!(combined.finish(), written.finish());
}

#[test]
fn test_hash_item_uses_library_defaults() {
    let item: Vec<u8> = TEST_DATA.to_vec();
    let mut reference = CustomXxh3Hasher::default();
    reference.write(TEST_DATA);
    assert_eq!(hash_item(&item), reference.finish());
}

#[test]
fn test_wrapper_delegates() {
    let inner: Vec<u8> = TEST_DATA.to_vec();
    let wrapped = Xxh3Wrapper(inner.clone());
    assert_eq!(hash_item(&wrapped), hash_item(&inner));
    assert_eq!(wrapped.xxh3_digest(), inner.xxh3_digest());
    assert_eq!(inner.xxh3_digest(), hash_bytes(TEST_DATA));
}

#[test]
fn test_hash_optimized_matches_write() {
    let value: Vec<u8> = TEST_DATA.to_vec();
    let mut fast = CustomXxh3Hasher::new(6);
    fast.hash_optimized(&value);

    let mut plain = CustomXxh3Hasher::new(6);
    plain.write(TEST_DATA);

    assert_eq!(fast.finish(), plain.finish());
}

#[test]
fn test_seed_accessor() {
    assert_eq!(CustomXxh3Hasher::new(123).seed(), 123);
    assert_eq!(CustomXxh3Hasher::new_xxh3_defaults().seed(), 0);
    assert_eq!(CustomXxh3Hasher::default().seed(), 0);
    let secret = [9u8; 192];
    let hasher = CustomXxh3Hasher::with_secret_and_seed(&secret, 77).unwrap();
    assert_eq!(hasher.seed(), 77);
}

#[test]
fn test_builder_consistency() {
    let builder = RandomXxh3Builder::new();
    let mut hasher1 = builder.build_hasher();
    let mut hasher2 = builder.build_hasher();

    hasher1.write(TEST_DATA);
    hasher2.write(TEST_DATA);

    assert_eq!(hasher1.seed(), hasher2.seed());
    assert_eq!(hasher1.finish(), hasher2.finish());
}

#[test]
fn test_builder_default_is_fresh() {
    let builder = RandomXxh3Builder::default();
    let mut hasher1 = builder.build_hasher();
    let mut hasher2 = builder.build_hasher();
    hasher1.write(TEST_DATA);
    hasher2.write(TEST_DATA);
    assert_eq!(hasher1.finish(), hasher2.finish());
}

#[test]
fn test_oneshot_matches_streaming() {
    // The streaming engine keyed by the secret table and the oneshot helper
    // over the same table agree, as do the default-keyed pair.
    let mut streaming = CustomXxh3Hasher::default();
    streaming.write(TEST_DATA);
    assert_eq!(hash_bytes(TEST_DATA), streaming.finish());

    let mut plain = CustomXxh3Hasher::new_xxh3_defaults();
    plain.write(TEST_DATA);
    assert_eq!(hash_bytes_default(TEST_DATA), plain.finish());
}

#[test]
fn test_raw_engine_uses_secret_table() {
    let mut engine = xxh3_hasher::build_xxh3_with_custom_secret();
    engine.update(TEST_DATA);

    let mut hasher = CustomXxh3Hasher::default();
    hasher.write(TEST_DATA);

    assert_eq!(engine.digest(), hasher.finish());
}
