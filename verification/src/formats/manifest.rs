//! Backup and archive manifests: segment, shard and media references,
//! tombstones, wrapped epoch keys and the header check.

use vstd::prelude::*;

use super::search_shard::IndexType;
use super::{bytes_eq, SegmentType};
use crate::text::str_eq;

verus! {

/// Magic string of a backup manifest.
pub const BACKUP_MANIFEST_MAGIC: &'static str = "KCHAT_BAK_MANIFEST_V2";

/// Magic string of an archive manifest.
pub const ARCHIVE_MANIFEST_MAGIC: &'static str = "KCHAT_ARC_MANIFEST_V2";

/// Current manifest version.
pub const MANIFEST_VERSION: u32 = 2;

/// `previous_manifest_hash` of the first manifest of a chain.
pub const GENESIS_PREVIOUS_HASH: [u8; 32] = [
    0, 0, 0, 0, 0, 0, 0, 0, 0, 0, 0, 0, 0, 0, 0, 0, 0, 0, 0, 0, 0, 0, 0, 0, 0, 0, 0, 0, 0, 0, 0, 0,
];

/// A sealed segment referenced by a manifest.
#[derive(Debug, Clone)]
pub struct ManifestSegmentRef {
    /// The segment's UUID, as its 16 bytes.
    pub segment_id: [u8; 16],
    pub segment_type: SegmentType,
    pub ciphertext_sha256: [u8; 32],
    pub size: u64,
}

/// A search shard referenced by a manifest.
#[derive(Debug, Clone)]
pub struct ManifestShardRef {
    pub shard_id: uuid::Uuid,
    pub index_type: IndexType,
    pub ciphertext_sha256: [u8; 32],
    pub time_bucket: String,
}

/// A media asset referenced by a manifest.
#[derive(Debug, Clone)]
pub struct ManifestMediaRef {
    pub asset_id: uuid::Uuid,
    pub blob_id: uuid::Uuid,
    pub merkle_root: [u8; 32],
    pub wrapped_k_asset: Vec<u8>,
}

/// Record of a deleted item.
#[derive(Debug, Clone, PartialEq, Eq)]
pub struct Tombstone {
    pub kind: String,
    pub id: String,
    pub deleted_at_ms: i64,
}

/// A prior epoch key wrapped under the archive root.
#[derive(Debug, Clone, PartialEq, Eq)]
pub struct WrappedEpochKeyRef {
    pub epoch_id: String,
    pub wrapped_key: Vec<u8>,
}

/// A segment reference in a backup manifest.
pub type SegmentRef = ManifestSegmentRef;

/// A wrapped epoch key in a backup manifest.
pub type WrappedEpochKey = WrappedEpochKeyRef;

/// The manifest payload of an archive epoch: the generation, the hash it
/// chains to, the segments of the epoch and the wrapped prior epoch keys.
#[derive(Debug, Clone)]
pub struct BackupManifestPayload {
    pub generation: u64,
    pub previous_manifest_hash: [u8; 32],
    pub segments: Vec<SegmentRef>,
    pub wrapped_epoch_keys: Vec<WrappedEpochKey>,
    pub created_at_ms: i64,
}

/// Backup manifest.
#[derive(Debug, Clone)]
pub struct BackupManifest {
    pub magic: String,
    pub version: u32,
    pub manifest_id: uuid::Uuid,
    pub generation: u64,
    pub previous_manifest_hash: [u8; 32],
    pub segments: Vec<ManifestSegmentRef>,
    pub search_index_shards: Vec<ManifestShardRef>,
    pub media_references: Vec<ManifestMediaRef>,
    pub tombstones: Vec<Tombstone>,
    pub merkle_root: [u8; 32],
    pub manifest_signature: Vec<u8>,
    pub pqc_signature: Vec<u8>,
}

/// The header rule shared by both manifests: the expected magic and version,
/// and a genesis manifest (generation 0) chained to the all-zero hash.
pub open spec fn manifest_header_ok(
    magic: Seq<char>,
    expected_magic: Seq<char>,
    version: u32,
    generation: u64,
    previous: Seq<u8>,
) -> bool {
    &&& magic == expected_magic
    &&& version == MANIFEST_VERSION
    &&& generation == 0 ==> previous == GENESIS_PREVIOUS_HASH@
}

impl BackupManifest {
    /// The manifest carries the backup magic and the current version, and a
    /// genesis manifest chains to the all-zero hash.
    pub fn has_valid_header(&self) -> (r: bool)
        ensures
            r == manifest_header_ok(
                self.magic@,
                BACKUP_MANIFEST_MAGIC@,
                self.version,
                self.generation,
                self.previous_manifest_hash@,
            ),
    {
        if !str_eq(self.magic.as_str(), BACKUP_MANIFEST_MAGIC) || self.version != MANIFEST_VERSION {
            return false;
        }
        let genesis = GENESIS_PREVIOUS_HASH;
        if self.generation == 0 && !bytes_eq(&self.previous_manifest_hash, &genesis) {
            return false;
        }
        true
    }
}

/// Archive manifest.
#[derive(Debug, Clone)]
pub struct ArchiveManifest {
    pub magic: String,
    pub version: u32,
    pub manifest_id: uuid::Uuid,
    pub generation: u64,
    pub previous_manifest_hash: [u8; 32],
    pub segments: Vec<ManifestSegmentRef>,
    pub search_index_shards: Vec<ManifestShardRef>,
    pub media_references: Vec<ManifestMediaRef>,
    pub tombstones: Vec<Tombstone>,
    pub wrapped_prior_epoch_keys: Vec<WrappedEpochKeyRef>,
    pub merkle_root: [u8; 32],
    pub manifest_signature: Vec<u8>,
    pub pqc_signature: Vec<u8>,
}

impl ArchiveManifest {
    /// The manifest carries the archive magic and the current version, and a
    /// genesis manifest chains to the all-zero hash.
    pub fn has_valid_header(&self) -> (r: bool)
        ensures
            r == manifest_header_ok(
                self.magic@,
                ARCHIVE_MANIFEST_MAGIC@,
                self.version,
                self.generation,
                self.previous_manifest_hash@,
            ),
    {
        if !str_eq(self.magic.as_str(), ARCHIVE_MANIFEST_MAGIC) || self.version != MANIFEST_VERSION {
            return false;
        }
        let genesis = GENESIS_PREVIOUS_HASH;
        if self.generation == 0 && !bytes_eq(&self.previous_manifest_hash, &genesis) {
            return false;
        }
        true
    }
}

/// Access to the two signature fields of a manifest.
pub trait Manifest {
    /// Replace the Ed25519 signature.
    fn set_signature(&mut self, sig: Vec<u8>);

    /// The Ed25519 signature.
    fn signature(&self) -> &[u8];

    /// Replace the post-quantum signature.
    fn set_pqc_signature(&mut self, sig: Vec<u8>);

    /// The post-quantum signature.
    fn pqc_signature(&self) -> &[u8];
}

impl Manifest for BackupManifest {
    fn set_signature(&mut self, sig: Vec<u8>)
        ensures
            final(self).manifest_signature == sig,
            final(self).pqc_signature == old(self).pqc_signature,
            final(self).generation == old(self).generation,
    {
        self.manifest_signature = sig;
    }

    fn signature(&self) -> (r: &[u8])
        ensures
            r@ == self.manifest_signature@,
    {
        self.manifest_signature.as_slice()
    }

    fn set_pqc_signature(&mut self, sig: Vec<u8>)
        ensures
            final(self).pqc_signature == sig,
            final(self).manifest_signature == old(self).manifest_signature,
            final(self).generation == old(self).generation,
    {
        self.pqc_signature = sig;
    }

    fn pqc_signature(&self) -> (r: &[u8])
        ensures
            r@ == self.pqc_signature@,
    {
        self.pqc_signature.as_slice()
    }
}

impl Manifest for ArchiveManifest {
    fn set_signature(&mut self, sig: Vec<u8>)
        ensures
            final(self).manifest_signature == sig,
            final(self).pqc_signature == old(self).pqc_signature,
            final(self).generation == old(self).generation,
    {
        self.manifest_signature = sig;
    }

    fn signature(&self) -> (r: &[u8])
        ensures
            r@ == self.manifest_signature@,
    {
        self.manifest_signature.as_slice()
    }

    fn set_pqc_signature(&mut self, sig: Vec<u8>)
        ensures
            final(self).pqc_signature == sig,
            final(self).manifest_signature == old(self).manifest_signature,
            final(self).generation == old(self).generation,
    {
        self.pqc_signature = sig;
    }

    fn pqc_signature(&self) -> (r: &[u8])
        ensures
            r@ == self.pqc_signature@,
    {
        self.pqc_signature.as_slice()
    }
}

} // verus!
