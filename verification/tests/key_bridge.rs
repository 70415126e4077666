use cs_core::crypto::key_bridge::{
    derive_archive_epoch, derive_archive_epoch_key, derive_archive_manifest_key, derive_archive_root,
    derive_archive_segment, derive_archive_segment_key, derive_b2b_archive_epoch, derive_b2b_tenant_root,
    derive_backup_root, derive_bloom_index_shard, derive_conversation_hash_key, derive_fuzzy_index_shard,
    derive_fuzzy_index_shard_for_bucket, derive_local_db_key, derive_media_index_shard, derive_search_root,
    derive_text_index_shard, derive_text_index_shard_for_bucket, derive_vector_index_shard, unwrap_epoch_key,
    wrap_epoch_key, EpochRotator, DEFAULT_EPOCH_CADENCE_MS,
};
use cs_core::crypto::CryptoError;

#[test]
fn test_root_derivations_are_distinct() {
    let domain_key = [0x42u8; 32];
    let archive = derive_archive_root(&domain_key);
    let backup = derive_backup_root(&domain_key);
    let search = derive_search_root(&domain_key);
    let local = derive_local_db_key(&domain_key);

    assert_ne!(archive, backup);
    assert_ne!(archive, search);
    assert_ne!(archive, local);
    assert_ne!(backup, search);
    assert_ne!(backup, local);
    assert_ne!(search, local);
}

#[test]
fn test_epoch_derivation_is_deterministic() {
    let archive_root = derive_archive_root(&[0x42u8; 32]);
    let epoch1 = derive_archive_epoch(&archive_root, 1);
    let epoch1_again = derive_archive_epoch(&archive_root, 1);
    let epoch2 = derive_archive_epoch(&archive_root, 2);

    assert_eq!(epoch1, epoch1_again);
    assert_ne!(epoch1, epoch2);
}

#[test]
fn test_segment_derivation_is_deterministic() {
    let archive_root = derive_archive_root(&[0x42u8; 32]);
    let epoch = derive_archive_epoch(&archive_root, 1);
    let seg1 = derive_archive_segment(&epoch, &[1, 2, 3, 4]);
    let seg1_again = derive_archive_segment(&epoch, &[1, 2, 3, 4]);
    let seg2 = derive_archive_segment(&epoch, &[5, 6, 7, 8]);

    assert_eq!(seg1, seg1_again);
    assert_ne!(seg1, seg2);
}

#[test]
fn test_search_shard_derivation() {
    let search_root = derive_search_root(&[0x42u8; 32]);
    let text = derive_text_index_shard(&search_root, &[0xAA]);
    let vector = derive_vector_index_shard(&search_root, &[0xAA]);
    let media = derive_media_index_shard(&search_root, &[0xAA]);
    let fuzzy = derive_fuzzy_index_shard(&search_root, &[0xAA]);
    let bloom = derive_bloom_index_shard(&search_root, &[0xAA]);

    assert_ne!(text, vector);
    assert_ne!(text, media);
    assert_ne!(text, fuzzy);
    assert_ne!(text, bloom);
    assert_ne!(vector, media);
    assert_ne!(vector, fuzzy);
    assert_ne!(vector, bloom);
    assert_ne!(media, fuzzy);
    assert_ne!(media, bloom);
    assert_ne!(fuzzy, bloom);
}

#[test]
fn test_conversation_hash_key() {
    let search_root = derive_search_root(&[0x42u8; 32]);
    let k = derive_conversation_hash_key(&search_root);
    let k2 = derive_conversation_hash_key(&search_root);
    assert_eq!(k, k2);
    assert_ne!(k, search_root);
}

#[test]
fn test_bucket_keyed_shards() {
    let search_root = derive_search_root(&[0x42u8; 32]);
    let text = derive_text_index_shard_for_bucket(&search_root, "conv-1", "2026-04");
    let text2 = derive_text_index_shard_for_bucket(&search_root, "conv-1", "2026-04");
    let text_other = derive_text_index_shard_for_bucket(&search_root, "conv-2", "2026-04");
    let fuzzy = derive_fuzzy_index_shard_for_bucket(&search_root, "conv-1", "2026-04");

    assert_eq!(text, text2, "same bucket must produce same key");
    assert_ne!(text, text_other, "different conv must produce different key");
    assert_ne!(text, fuzzy, "text and fuzzy must be in disjoint key spaces");
}

#[test]
fn test_b2b_tenant_isolation() {
    let wrapping_key = [0x42u8; 32];
    let tenant_a = derive_b2b_tenant_root(&wrapping_key, "tenant-a");
    let tenant_b = derive_b2b_tenant_root(&wrapping_key, "tenant-b");
    assert_ne!(tenant_a, tenant_b);

    let epoch_a = derive_b2b_archive_epoch(&tenant_a, "tenant-a", "epoch-0");
    let epoch_b = derive_b2b_archive_epoch(&tenant_b, "tenant-b", "epoch-0");
    assert_ne!(epoch_a, epoch_b);
}

#[test]
fn test_string_based_epoch_keys() {
    let archive_root = derive_archive_root(&[0x42u8; 32]);
    let epoch = derive_archive_epoch_key(&archive_root, "epoch-0");
    let epoch2 = derive_archive_epoch_key(&archive_root, "epoch-0");
    let epoch1 = derive_archive_epoch_key(&archive_root, "epoch-1");
    assert_eq!(epoch, epoch2);
    assert_ne!(epoch, epoch1);

    let seg = derive_archive_segment_key(&epoch, "seg-1");
    let man = derive_archive_manifest_key(&epoch, "id-1");
    assert_ne!(seg, man);
}

#[test]
fn test_epoch_key_wrap_unwrap() {
    let archive_root = derive_archive_root(&[0x42u8; 32]);
    let epoch = derive_archive_epoch_key(&archive_root, "epoch-0");
    let wrapped = wrap_epoch_key(&archive_root, &epoch).unwrap();
    let unwrapped = unwrap_epoch_key(&archive_root, &wrapped).unwrap();
    assert_eq!(unwrapped, epoch);
}

#[test]
fn test_epoch_rotator() {
    let archive_root = derive_archive_root(&[0x42u8; 32]);
    let mut rotator = EpochRotator::new(EpochRotator::INITIAL_EPOCH_ID, 0, 1000);
    assert_eq!(rotator.current_epoch_id(), "epoch-0");
    assert!(!rotator.is_due(500));
    assert!(rotator.is_due(1000));
    assert!(rotator.is_due(1001));

    let (next_id, _key) = rotator.rotate(&archive_root, 1000).unwrap();
    assert_eq!(next_id, "epoch-1");
    assert_eq!(rotator.current_epoch_id(), "epoch-1");
    assert_eq!(rotator.last_rotation_ms(), 1000);
}

#[test]
fn test_epoch_rotator_try_new_rejects_bad_id() {
    assert!(EpochRotator::try_new("bad-id", 0, 1000).is_err());
    assert!(EpochRotator::try_new("epoch-0", 0, 1000).is_ok());
}

#[test]
fn test_epoch_rotator_rotate_epoch() {
    assert_eq!(EpochRotator::rotate_epoch("epoch-0").unwrap(), "epoch-1");
    assert_eq!(EpochRotator::rotate_epoch("epoch-42").unwrap(), "epoch-43");
    assert!(EpochRotator::rotate_epoch("bad").is_err());
}

#[test]
fn rotate_epoch_error_messages() {
    assert!(matches!(
        EpochRotator::rotate_epoch("epoch-18446744073709551615"),
        Err(CryptoError::InvalidInput(m)) if m == "epoch counter overflow"
    ));
    assert!(matches!(
        EpochRotator::rotate_epoch("bad"),
        Err(CryptoError::InvalidInput(m)) if m == "epoch id must be of the form 'epoch-<u64>'"
    ));
}

#[test]
fn rotate_epoch_rejects_counter_overflow_and_accepts_plus_sign() {
    assert!(EpochRotator::rotate_epoch("epoch-18446744073709551615").is_err());
    assert_eq!(EpochRotator::rotate_epoch("epoch-18446744073709551614").unwrap(), "epoch-18446744073709551615");
    assert_eq!(EpochRotator::rotate_epoch("epoch-+5").unwrap(), "epoch-6");
    assert!(EpochRotator::rotate_epoch("epoch-").is_err());
    assert!(EpochRotator::rotate_epoch("epoch--1").is_err());
}

#[test]
fn rotator_cadence_is_at_least_one_and_saturates() {
    let r = EpochRotator::new("epoch-3", 10, 0);
    assert_eq!(r.cadence_ms(), 1);
    assert!(!r.is_due(10));
    assert!(r.is_due(11));
    assert!(EpochRotator::should_rotate(i64::MIN, i64::MAX, i64::MAX));
    assert!(!EpochRotator::should_rotate(i64::MAX, i64::MIN, 1));
    let m = EpochRotator::with_monthly_cadence("epoch-0", 0);
    assert_eq!(m.cadence_ms(), DEFAULT_EPOCH_CADENCE_MS);
    assert_eq!(DEFAULT_EPOCH_CADENCE_MS, 2_592_000_000);
}

#[test]
fn rotate_failure_leaves_rotator_unchanged() {
    let archive_root = derive_archive_root(&[0x42u8; 32]);
    let mut r = EpochRotator::new("bad", 7, 100);
    assert!(r.rotate(&archive_root, 500).is_err());
    assert_eq!(r.current_epoch_id(), "bad");
    assert_eq!(r.last_rotation_ms(), 7);
}

#[test]
fn rotated_key_is_the_key_of_the_new_epoch() {
    let archive_root = derive_archive_root(&[0x42u8; 32]);
    let mut r = EpochRotator::new("epoch-41", 0, 100);
    let (id, key) = r.rotate(&archive_root, 100).unwrap();
    assert_eq!(id, "epoch-42");
    assert_eq!(key, derive_archive_epoch_key(&archive_root, "epoch-42"));
    assert_eq!(r.current_epoch_key(&archive_root), key);
    assert!(EpochRotator::try_with_monthly_cadence("epoch-9", 0).is_ok());
}

#[test]
fn unwrap_rejects_wrong_length() {
    let archive_root = derive_archive_root(&[0x42u8; 32]);
    assert!(unwrap_epoch_key(&archive_root, &[0u8; 39]).is_err());
}
