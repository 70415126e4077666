use cs_core::archive::epoch_keys::{epoch_id_at, EpochKeyManager};
use cs_core::archive::event_journal::{ArchiveEvent, ArchiveEventJournal};
use cs_core::archive::plan_compaction;
use cs_core::archive::prefetch::plan_batch_prefetch;
use cs_core::archive::privacy::generate_dummy_requests;
use cs_core::archive::routing::resolve_backend;
use cs_core::archive::types::{compress, decompress};
use cs_core::backup::coordinator::{BackupCoordinator, BackupPayload};
use cs_core::backup::dedup::compute_dedup_key;
use cs_core::backup::event_journal::BackupEvent;
use cs_core::backup::manifest_builder::build_manifest;
use cs_core::backup::segment_builder::{build_segment, open_segment};
use cs_core::backup::snapshot::{BatchCursor, BatchDecision};
use cs_core::config::ArchiveBackend;
use cs_core::crypto::content_hash::content_hash;
use cs_core::crypto::key_bridge::{derive_archive_epoch, derive_archive_root};
use cs_core::local_store::StorageError;
use cs_core::formats::media_descriptor::MediaDescriptor;
use cs_core::Error;

#[test]
fn test_epoch_key_manager() {
    let mgr = EpochKeyManager::new(&[0x42u8; 32]).unwrap();
    let key1 = mgr.current_epoch_key().unwrap();
    assert!(!key1.iter().all(|&b| b == 0));
}

#[test]
fn rotated_epochs_stay_readable() {
    let root = derive_archive_root(&[0x42u8; 32]);
    let mut mgr = EpochKeyManager::with_root(root, 7);
    let k7 = mgr.current_epoch_key().unwrap();
    mgr.rotate().unwrap();
    mgr.rotate().unwrap();
    assert_eq!(mgr.current_epoch(), 9);
    assert_eq!(mgr.epoch_key(7), Some(k7));
    assert_eq!(mgr.epoch_key(8), Some(derive_archive_epoch(&root, 8)));
    assert_eq!(mgr.epoch_key(9), Some(derive_archive_epoch(&root, 9)));
    assert_eq!(mgr.epoch_key(6), None);
    assert_eq!(mgr.wrapped_prior_epochs().len(), 2);
    assert_eq!(mgr.wrapped_prior_epochs()[0].0, 7);
    mgr.prune_old_epochs(0);
    assert_eq!(mgr.wrapped_prior_epochs().len(), 1);
    assert_eq!(mgr.epoch_key(7), None);
    assert_eq!(mgr.epoch_key(8), Some(derive_archive_epoch(&root, 8)));
    mgr.prune_old_epochs_default();
    assert_eq!(mgr.wrapped_prior_epochs().len(), 1);
}

#[test]
fn monthly_epoch_formula() {
    assert_eq!(epoch_id_at(0), 0);
    assert_eq!(epoch_id_at(31_536_000), 12);
    assert_eq!(epoch_id_at(31_536_000 + 2_592_000 * 3 + 5), 15);
    assert_eq!(epoch_id_at(2_592_000 * 12 + 10), 12);
}

#[test]
fn archive_helpers() {
    let segs = vec![("a".to_string(), 10u64), ("b".to_string(), 500), ("c".to_string(), 99)];
    assert_eq!(plan_compaction(&segs, 100), vec!["a".to_string(), "c".to_string()]);
    assert_eq!(plan_batch_prefetch("c1", "2026-04"), vec![("c1".to_string(), "2026-04".to_string())]);
    assert_eq!(generate_dummy_requests(3), vec!["dummy-segment-0", "dummy-segment-1", "dummy-segment-2"]);
    assert_eq!(resolve_backend(&ArchiveBackend::Zkof), ArchiveBackend::Zkof);
    let mut j = ArchiveEventJournal::new();
    j.record(ArchiveEvent::EpochRotated { old_epoch: 3 });
    assert_eq!(j.events.len(), 1);
}

#[test]
fn zstd_round_trip() {
    let data = b"aaaaaaaaaaaaaaaaaaaaaaaaaaaaaaaaaaaaaaaaaaaaaaaaaaaaaaaaaaaaaaaaaaaaaaaaaaaaaaaaaaaaaaaaaaa".to_vec();
    let c = compress(&data).unwrap();
    assert_ne!(c, data);
    assert_eq!(decompress(&c).unwrap(), data);
    assert!(matches!(decompress(b"not zstd"), Err(Error::Storage(_))));
}

#[test]
fn backup_segment_round_trip() {
    let key = [0x24u8; 32];
    let data = b"backup payload bytes".to_vec();
    let (frame, nonce, hash) = build_segment(&data, &key).unwrap();
    assert_eq!(&frame[..24], &nonce[..]);
    assert_eq!(hash, content_hash(&data));
    assert_eq!(open_segment(&frame, &key).unwrap(), data);
    assert!(open_segment(&frame, &[0x25u8; 32]).is_err());
    assert!(matches!(open_segment(&frame[..10], &key), Err(Error::Storage(_))));
    assert!(matches!(
        open_segment(&frame[..10], &key),
        Err(Error::Storage(StorageError::Custom(m))) if m == "backup segment too short to contain nonce"
    ));
}

#[test]
fn coordinator_prepares_and_finalizes_generations() {
    let mut c = BackupCoordinator::new();
    assert!(c.prepare_backup(b"", &[1u8; 32]).unwrap().is_none());
    let p = c.prepare_backup(b"rows", &[1u8; 32]).unwrap().unwrap();
    assert_eq!(p.manifest.generation, 0);
    assert_eq!(p.manifest.segments.len(), 1);
    assert_eq!(p.manifest.segments[0].size, p.ciphertext.len() as u64);
    assert_eq!(open_segment(&p.ciphertext, &[1u8; 32]).unwrap(), b"rows");
    let payload = BackupPayload {
        segment_id: p.segment_id.clone(),
        ciphertext: p.ciphertext.clone(),
        manifest_bytes: vec![1, 2, 3],
        plaintext_hash: p.plaintext_hash,
        manifest_hash: [7u8; 32],
        generation: 0,
    };
    assert_eq!(c.finalize_backup("uploaded".to_string(), payload), 1);
    assert_eq!(c.saved_state(), (1, [7u8; 32]));
    assert_eq!(c.event_journal.events.len(), 2);
    assert!(matches!(c.event_journal.events[1], BackupEvent::ManifestPublished { generation: 0 }));
    assert_eq!(c.next_generation(), 2);
    let restored = BackupCoordinator::from_saved_state(Some((5, [3u8; 32])));
    assert_eq!(restored.saved_state(), (5, [3u8; 32]));
    assert_eq!(BackupCoordinator::from_saved_state(None).saved_state(), (0, [0u8; 32]));
}

#[test]
fn manifest_builder_and_dedup() {
    let m = build_manifest(4, [9u8; 32], Vec::new(), Vec::new()).unwrap();
    assert_eq!(m.generation, 4);
    assert!(m.has_valid_header());
    assert_eq!(compute_dedup_key(b"x"), content_hash(b"x"));
    assert!(matches!(cs_core::backup::compaction::plan_compaction(&[], 0), Err(Error::NotImplemented(_))));
}

#[test]
fn batch_cursor_follows_the_streaming_rules() {
    let mut c = BatchCursor::start();
    assert_eq!(c.step(200, 50), BatchDecision::Emit { more: true, first: true });
    assert_eq!((c.skeleton_offset, c.body_offset, c.total_batches), (200, 200, 1));
    assert_eq!(c.step(10, 0), BatchDecision::Emit { more: false, first: false });
    assert_eq!((c.skeleton_offset, c.body_offset, c.total_batches), (400, 200, 2));
    assert_eq!(c.step(0, 0), BatchDecision::Stop);
    assert!(!c.finish());
    let mut e = BatchCursor::start();
    assert_eq!(e.step(0, 0), BatchDecision::Stop);
    assert!(e.finish());
    assert_eq!(e.total_batches, 1);
}

use cs_core::archive::coordinator::{ArchiveCoordinator, MAX_PENDING_SEGMENTS};
use cs_core::archive::segment_builder::{build_segment_payload, open_segment_bytes, seal_segment, ArchiveMessage};
use cs_core::archive::types::EntryKind;
use cs_core::crypto::aead::open;

#[test]
fn archive_segment_payload_seals_each_body() {
    let key = [0x31u8; 32];
    let msgs = vec![
        ArchiveMessage { message_id: "m1".to_string(), created_at_ms: 10, text_content: Some("hi".to_string()), media_descriptors: Vec::new() },
        ArchiveMessage { message_id: "m2".to_string(), created_at_ms: 11, text_content: None, media_descriptors: Vec::new() },
    ];
    let p = build_segment_payload(&msgs, "c1", "2026-04", 3, &key).unwrap();
    assert_eq!(p.conversation_id, "c1");
    assert_eq!(p.epoch_id, 3);
    assert_eq!(p.entries.len(), 2);
    assert_eq!(p.entries[0].kind, EntryKind::Text);
    let body = open(&key, &p.entries[0].body_nonce, &p.entries[0].body_ciphertext, b"chat-storage/archive-body/v1").unwrap();
    assert_eq!(body, b"hi");
    let body = open(&key, &p.entries[1].body_nonce, &p.entries[1].body_ciphertext, b"chat-storage/archive-body/v1").unwrap();
    assert!(body.is_empty());
}

#[test]
fn archive_segment_round_trip() {
    let key = [0x32u8; 32];
    let frame = seal_segment(b"{\"entries\":[]}", &key).unwrap();
    assert_eq!(frame.plaintext_size, 14);
    assert_eq!(frame.plaintext_hash, content_hash(b"{\"entries\":[]}"));
    assert_eq!(open_segment_bytes(&frame, &key).unwrap(), b"{\"entries\":[]}");
    assert!(open_segment_bytes(&frame, &[0u8; 32]).is_err());
}

#[test]
fn archive_coordinator_queues_and_finalizes() {
    let mut c = ArchiveCoordinator::new(&[5u8; 32]).unwrap();
    assert!(c.prepare_epoch_manifest().is_none());
    let frame = seal_segment(b"payload", &[1u8; 32]).unwrap();
    let id = c.record_uploaded_segment("seg-1".to_string(), frame.clone(), 4, 2).unwrap();
    assert_eq!(id, "seg-1");
    assert_eq!(c.pending_count(), 1);
    let m = c.prepare_epoch_manifest().unwrap();
    assert_eq!(m.generation, 0);
    assert_eq!(m.segments.len(), 1);
    assert_eq!(m.segments[0].size, frame.ciphertext.len() as u64);
    assert_eq!(c.complete_epoch([9u8; 32]), 1);
    assert_eq!(c.pending_count(), 0);
    assert_eq!(c.current_generation(), 1);
    assert_eq!(c.event_journal.events.len(), 2);
    let before = c.epoch_manager.current_epoch();
    assert!(!c.rotate_if_behind(before).unwrap());
    assert!(c.rotate_if_behind(before + 5).unwrap());
    assert_eq!(c.epoch_manager.current_epoch(), before + 1);
    let m = {
        c.record_uploaded_segment("seg-2".to_string(), frame.clone(), 5, 1).unwrap();
        c.prepare_epoch_manifest().unwrap()
    };
    assert_eq!(m.wrapped_epoch_keys.len(), 1);
    assert_eq!(m.wrapped_epoch_keys[0].epoch_id, before.to_string());
    assert_eq!(m.previous_manifest_hash, [9u8; 32]);
}

#[test]
fn archive_coordinator_refuses_past_the_cap() {
    let mut c = ArchiveCoordinator::new(&[6u8; 32]).unwrap();
    let frame = seal_segment(b"x", &[1u8; 32]).unwrap();
    for i in 0..MAX_PENDING_SEGMENTS {
        c.record_uploaded_segment(format!("s{i}"), frame.clone(), 0, 1).unwrap();
    }
    assert!(c.record_uploaded_segment("over".to_string(), frame, 0, 1).is_err());
    assert_eq!(c.pending_count(), MAX_PENDING_SEGMENTS);
    assert_eq!(c.event_journal.events.len(), MAX_PENDING_SEGMENTS + 1);
}

#[test]
fn manifest_segment_ids_name_the_uploaded_segments() {
    let mut c = ArchiveCoordinator::new(&[6u8; 32]).unwrap();
    let frame = seal_segment(b"payload", &[1u8; 32]).unwrap();
    let named = "67e55044-10b1-426f-9247-bb680e5fe0c8";
    c.record_uploaded_segment(named.to_string(), frame.clone(), 0, 1).unwrap();
    c.record_uploaded_segment("not-a-uuid".to_string(), frame, 0, 1).unwrap();
    let m = c.prepare_epoch_manifest().unwrap();
    assert_eq!(m.segments.len(), 2);
    assert_eq!(m.segments[0].segment_id, *uuid::Uuid::parse_str(named).unwrap().as_bytes());
    assert_ne!(m.segments[1].segment_id, m.segments[0].segment_id);

    let b = BackupCoordinator::new();
    let p = b.prepare_backup(b"rows", &[2u8; 32]).unwrap().unwrap();
    assert_eq!(p.segment_id, uuid::Uuid::from_bytes(p.manifest.segments[0].segment_id).to_string());
    assert_eq!(p.segment_id.len(), 36);
}

#[test]
fn archived_media_refs_carry_the_asset_id_text() {
    let asset = [0x67, 0xe5, 0x50, 0x44, 0x10, 0xb1, 0x42, 0x6f, 0x92, 0x47, 0xbb, 0x68, 0x0e, 0x5f, 0xe0, 0xc8];
    let d = MediaDescriptor {
        asset_id: asset,
        mime_type: "image/png".to_string(),
        bytes_total: 9,
        chunk_count: 1,
        merkle_root: [0; 32],
        blob_id: uuid::Uuid::nil(),
        wrapped_k_asset: vec![0; 40],
        storage_sink: None,
        width: 1,
        height: 1,
        duration_ms: 0,
        thumbnail_ref: None,
        node_id: "n".to_string(),
        version_id: "v".to_string(),
    };
    let msgs = vec![ArchiveMessage { message_id: "m".to_string(), created_at_ms: 1, text_content: None, media_descriptors: vec![d] }];
    let p = build_segment_payload(&msgs, "c", "b", 0, &[3u8; 32]).unwrap();
    assert_eq!(p.entries[0].kind, EntryKind::Media);
    assert_eq!(p.entries[0].media_refs[0].asset_id, "67e55044-10b1-426f-9247-bb680e5fe0c8");
    assert_eq!(p.segment_id.len(), 36);
    assert!(uuid::Uuid::parse_str(&p.segment_id).is_ok());
}
