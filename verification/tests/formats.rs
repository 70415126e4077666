use cs_core::formats::manifest::{
    ArchiveManifest, BackupManifest, Manifest, ManifestMediaRef, ManifestSegmentRef, ManifestShardRef, Tombstone,
    WrappedEpochKeyRef, ARCHIVE_MANIFEST_MAGIC,
    BACKUP_MANIFEST_MAGIC, GENESIS_PREVIOUS_HASH, MANIFEST_VERSION,
};
use cs_core::formats::media_descriptor::{mime_from_extension, MediaDescriptor, MediaKind};
use cs_core::formats::search_shard::{
    IndexType, SearchIndexShard, ShardId, ShardType, SHARD_COMPRESSION, SHARD_ENCRYPTION, SHARD_MAGIC, SHARD_VERSION,
};
use cs_core::formats::{
    ArchiveSegmentFrame, BackupSegmentFrame, SegmentType, ARCHIVE_SEGMENT_MAGIC, BACKUP_SEGMENT_MAGIC, FRAME_VERSION,
};
use uuid::Uuid;

fn sample_backup_segment() -> BackupSegmentFrame {
    BackupSegmentFrame {
        magic: BACKUP_SEGMENT_MAGIC,
        version: FRAME_VERSION,
        segment_id: Uuid::now_v7(),
        segment_type: SegmentType::Events,
        event_seq_from: 0,
        event_seq_to: 1023,
        nonce: [0x11; 24],
        aad_hash: [0x22; 32],
        ciphertext: b"sealed-zstd-cbor-events".to_vec(),
        ciphertext_sha256: [0x33; 32],
    }
}

fn sample_archive_segment(segment_type: SegmentType) -> ArchiveSegmentFrame {
    ArchiveSegmentFrame {
        magic: ARCHIVE_SEGMENT_MAGIC,
        version: FRAME_VERSION,
        segment_id: Uuid::now_v7(),
        segment_type,
        event_seq_from: 1024,
        event_seq_to: 2047,
        nonce: [0x44; 24],
        aad_hash: [0x55; 32],
        ciphertext: b"sealed-zstd-cbor-archive-payload".to_vec(),
        ciphertext_sha256: [0x66; 32],
    }
}

#[test]
fn backup_segment_frame_magic_is_kchat_bak_v1() {
    let frame = sample_backup_segment();
    assert_eq!(&frame.magic, b"KCHAT_BAK_V1");
    assert!(frame.has_valid_header());
}

#[test]
fn backup_segment_frame_rejects_wrong_magic() {
    let mut frame = sample_backup_segment();
    frame.magic = *b"NOT_KCHAT_AA";
    assert!(!frame.has_valid_header());
}

#[test]
fn archive_segment_frame_magic_is_kchat_arc_v1() {
    let frame = sample_archive_segment(SegmentType::MessageDelta);
    assert_eq!(&frame.magic, b"KCHAT_ARC_V1");
    assert!(frame.has_valid_header());
}

#[test]
fn frame_with_other_version_is_rejected() {
    let mut frame = sample_archive_segment(SegmentType::Checkpoint);
    frame.version = 2;
    assert!(!frame.has_valid_header());
    let mut b = sample_backup_segment();
    b.magic = ARCHIVE_SEGMENT_MAGIC;
    assert!(!b.has_valid_header());
}

#[test]
fn segment_type_split_matches_proposal() {
    assert!(SegmentType::Events.is_backup_segment());
    assert!(!SegmentType::Events.is_archive_segment());
    for st in [
        SegmentType::MessageDelta,
        SegmentType::TimelineSkeleton,
        SegmentType::MediaKeyDelta,
        SegmentType::SearchTextIndex,
        SegmentType::SearchVectorIndex,
        SegmentType::MediaIndex,
        SegmentType::Checkpoint,
    ] {
        assert!(st.is_archive_segment(), "{st:?}");
        assert!(!st.is_backup_segment(), "{st:?}");
    }
}

fn sample_shard(index_type: IndexType) -> SearchIndexShard {
    let seed = match index_type {
        IndexType::Bloom => 0x05,
        IndexType::Text => 0x10,
        IndexType::Fuzzy => 0x20,
        IndexType::Vector => 0x30,
        IndexType::Media => 0x40,
    };
    SearchIndexShard {
        magic: SHARD_MAGIC.to_string(),
        version: SHARD_VERSION,
        shard_id: Uuid::now_v7(),
        index_type,
        conversation_id_hash: vec![seed ^ 0xA5; 32],
        time_bucket: "2026-04".to_string(),
        doc_count: 12_000,
        compression: SHARD_COMPRESSION.to_string(),
        encryption: SHARD_ENCRYPTION.to_string(),
        nonce: [seed; 24],
        aad_hash: [seed.wrapping_add(1); 32],
        ciphertext: vec![seed.wrapping_add(2); 256],
        ciphertext_sha256: [seed.wrapping_add(3); 32],
    }
}

#[test]
fn shard_magic_and_version_are_v1() {
    let shard = sample_shard(IndexType::Text);
    assert_eq!(shard.magic, "KCHAT_INDEX_SHARD_V1");
    assert_eq!(shard.version, 1);
    assert!(shard.has_valid_header());
}

#[test]
fn shard_rejects_wrong_magic() {
    let mut shard = sample_shard(IndexType::Vector);
    shard.magic = "NOT_KCHAT".to_string();
    assert!(!shard.has_valid_header());
}

#[test]
fn shard_rejects_wrong_compression() {
    let mut shard = sample_shard(IndexType::Vector);
    shard.compression = "gzip".to_string();
    assert!(!shard.has_valid_header());
}

#[test]
fn shard_rejects_wrong_encryption_and_version() {
    let mut shard = sample_shard(IndexType::Media);
    shard.encryption = "aes".to_string();
    assert!(!shard.has_valid_header());
    let mut shard = sample_shard(IndexType::Bloom);
    shard.version = 2;
    assert!(!shard.has_valid_header());
}

#[test]
fn shard_type_names_round_trip() {
    for it in IndexType::all() {
        assert_eq!(ShardType::parse(it.as_str()), Some(it));
    }
    assert_eq!(IndexType::all().len(), 5);
    assert_eq!(IndexType::all()[0], IndexType::Bloom);
    assert_eq!(ShardType::parse("Text"), None);
    assert_eq!(ShardType::Fuzzy.as_str(), "fuzzy");
}

#[test]
fn shard_id_key_joins_with_double_underscores() {
    let id = ShardId { conversation_hash: "abc".to_string(), bucket: "2026-04".to_string(), shard_type: ShardType::Text };
    assert_eq!(id.to_key(), "abc__2026-04__text");
}

fn media(mime: &str) -> MediaDescriptor {
    MediaDescriptor {
        asset_id: *Uuid::now_v7().as_bytes(),
        mime_type: mime.to_string(),
        bytes_total: 1,
        chunk_count: 1,
        merkle_root: [0; 32],
        blob_id: Uuid::now_v7(),
        wrapped_k_asset: vec![0; 40],
        storage_sink: None,
        width: 0,
        height: 0,
        duration_ms: 0,
        thumbnail_ref: None,
        node_id: String::new(),
        version_id: String::new(),
    }
}

#[test]
fn media_kind_follows_the_mime_type() {
    assert_eq!(media("image/jpeg").kind(), MediaKind::Image);
    assert_eq!(media("image/gif").kind(), MediaKind::Gif);
    assert_eq!(media("video/mp4").kind(), MediaKind::Video);
    assert_eq!(media("audio/ogg").kind(), MediaKind::Audio);
    assert_eq!(media("application/pdf").kind(), MediaKind::Document);
    assert_eq!(media("image").kind(), MediaKind::Image);
    assert_eq!(media("").kind(), MediaKind::Document);
}

fn backup_manifest(generation: u64, prev: [u8; 32]) -> BackupManifest {
    BackupManifest {
        magic: BACKUP_MANIFEST_MAGIC.to_string(),
        version: MANIFEST_VERSION,
        manifest_id: Uuid::now_v7(),
        generation,
        previous_manifest_hash: prev,
        segments: Vec::new(),
        search_index_shards: Vec::new(),
        media_references: Vec::new(),
        tombstones: vec![Tombstone { kind: "message".to_string(), id: "m1".to_string(), deleted_at_ms: 5 }],
        merkle_root: [0; 32],
        manifest_signature: Vec::new(),
        pqc_signature: Vec::new(),
    }
}

#[test]
fn manifest_header_checks_magic_version_and_genesis_chain() {
    assert!(backup_manifest(0, GENESIS_PREVIOUS_HASH).has_valid_header());
    assert!(!backup_manifest(0, [1; 32]).has_valid_header());
    assert!(backup_manifest(3, [1; 32]).has_valid_header());
    assert!(backup_manifest(3, GENESIS_PREVIOUS_HASH).has_valid_header());
    let mut m = backup_manifest(1, [2; 32]);
    m.version = 1;
    assert!(!m.has_valid_header());
    let mut m = backup_manifest(1, [2; 32]);
    m.magic = ARCHIVE_MANIFEST_MAGIC.to_string();
    assert!(!m.has_valid_header());
}

#[test]
fn archive_manifest_header_and_signature_fields() {
    let mut m = ArchiveManifest {
        magic: ARCHIVE_MANIFEST_MAGIC.to_string(),
        version: MANIFEST_VERSION,
        manifest_id: Uuid::now_v7(),
        generation: 0,
        previous_manifest_hash: GENESIS_PREVIOUS_HASH,
        segments: Vec::new(),
        search_index_shards: Vec::new(),
        media_references: Vec::new(),
        tombstones: Vec::new(),
        wrapped_prior_epoch_keys: vec![WrappedEpochKeyRef { epoch_id: "epoch-0".to_string(), wrapped_key: vec![1; 40] }],
        merkle_root: [0; 32],
        manifest_signature: Vec::new(),
        pqc_signature: Vec::new(),
    };
    assert!(m.has_valid_header());
    m.set_signature(vec![9; 64]);
    m.set_pqc_signature(vec![8; 3]);
    assert_eq!(m.signature(), &[9u8; 64][..]);
    assert_eq!(m.pqc_signature(), &[8u8; 3][..]);
    m.previous_manifest_hash = [1; 32];
    assert!(!m.has_valid_header());
}

#[test]
fn mime_types_by_extension() {
    assert_eq!(mime_from_extension(Some("jpeg")), "image/jpeg");
    assert_eq!(mime_from_extension(Some("jpg")), "image/jpeg");
    assert_eq!(mime_from_extension(Some("wav")), "audio/wav");
    assert_eq!(mime_from_extension(Some("JPG")), "application/octet-stream");
    assert_eq!(mime_from_extension(None), "application/octet-stream");
}

fn sample_segment_ref() -> ManifestSegmentRef {
    ManifestSegmentRef { segment_id: *Uuid::now_v7().as_bytes(), segment_type: SegmentType::Events, ciphertext_sha256: [0xCC; 32], size: 4096 }
}

fn sample_shard_ref() -> ManifestShardRef {
    ManifestShardRef {
        shard_id: Uuid::now_v7(),
        index_type: IndexType::Text,
        ciphertext_sha256: [0xDD; 32],
        time_bucket: "2026-04".to_string(),
    }
}

fn sample_media_ref() -> ManifestMediaRef {
    ManifestMediaRef { asset_id: Uuid::now_v7(), blob_id: Uuid::now_v7(), merkle_root: [0xEE; 32], wrapped_k_asset: vec![0xFF; 40] }
}

fn sample_tombstone() -> Tombstone {
    Tombstone { kind: "message".to_string(), id: "msg_0001".to_string(), deleted_at_ms: 1_714_651_200_000 }
}

fn fresh_genesis_backup() -> BackupManifest {
    BackupManifest {
        magic: BACKUP_MANIFEST_MAGIC.to_string(),
        version: MANIFEST_VERSION,
        manifest_id: Uuid::now_v7(),
        generation: 0,
        previous_manifest_hash: GENESIS_PREVIOUS_HASH,
        segments: vec![sample_segment_ref()],
        search_index_shards: vec![sample_shard_ref()],
        media_references: vec![sample_media_ref()],
        tombstones: vec![sample_tombstone()],
        merkle_root: [0x11; 32],
        manifest_signature: Vec::new(),
        pqc_signature: Vec::new(),
    }
}

fn fresh_genesis_archive() -> ArchiveManifest {
    ArchiveManifest {
        magic: ARCHIVE_MANIFEST_MAGIC.to_string(),
        version: MANIFEST_VERSION,
        manifest_id: Uuid::now_v7(),
        generation: 0,
        previous_manifest_hash: GENESIS_PREVIOUS_HASH,
        segments: vec![ManifestSegmentRef {
            segment_id: *Uuid::now_v7().as_bytes(),
            segment_type: SegmentType::MessageDelta,
            ciphertext_sha256: [0xAA; 32],
            size: 8192,
        }],
        search_index_shards: vec![sample_shard_ref()],
        media_references: vec![sample_media_ref()],
        tombstones: vec![sample_tombstone()],
        wrapped_prior_epoch_keys: vec![],
        merkle_root: [0x22; 32],
        manifest_signature: Vec::new(),
        pqc_signature: Vec::new(),
    }
}

#[test]
fn genesis_manifest_has_zero_previous_hash() {
    let m = fresh_genesis_backup();
    assert_eq!(m.generation, 0);
    assert_eq!(m.previous_manifest_hash, GENESIS_PREVIOUS_HASH);
    assert!(m.has_valid_header());
}

#[test]
fn genesis_archive_manifest_has_zero_previous_hash() {
    let m = fresh_genesis_archive();
    assert_eq!(m.generation, 0);
    assert_eq!(m.previous_manifest_hash, GENESIS_PREVIOUS_HASH);
    assert!(m.has_valid_header());
}

#[test]
fn header_validation_rejects_non_genesis_with_zero_prev_hash() {
    let mut m = fresh_genesis_backup();
    m.generation = 7;
    m.previous_manifest_hash = GENESIS_PREVIOUS_HASH;
    assert!(m.has_valid_header());

    m.magic = "WRONG".to_string();
    assert!(!m.has_valid_header());
}
