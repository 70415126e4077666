//! Wire formats: segment frames, manifests, search index shards and media
//! descriptors, with their header checks.

pub mod manifest;
pub mod media_descriptor;
pub mod search_shard;

use vstd::prelude::*;

verus! {

/// Magic bytes of a backup segment frame: `KCHAT_BAK_V1`.
pub const BACKUP_SEGMENT_MAGIC: [u8; 12] = [75, 67, 72, 65, 84, 95, 66, 65, 75, 95, 86, 49];

/// Magic bytes of an archive segment frame: `KCHAT_ARC_V1`.
pub const ARCHIVE_SEGMENT_MAGIC: [u8; 12] = [75, 67, 72, 65, 84, 95, 65, 82, 67, 95, 86, 49];

/// Current frame version.
pub const FRAME_VERSION: u16 = 1;

/// Whether two byte strings are equal.
pub(crate) fn bytes_eq(a: &[u8], b: &[u8]) -> (r: bool)
    ensures
        r == (a@ == b@),
{
    if a.len() != b.len() {
        return false;
    }
    let mut i: usize = 0;
    while i < a.len()
        invariant
            a@.len() == b@.len(),
            0 <= i <= a@.len(),
            forall|k: int| 0 <= k < i ==> a@[k] == b@[k],
        decreases a@.len() - i,
    {
        if a[i] != b[i] {
            return false;
        }
        i = i + 1;
    }
    assert(a@ =~= b@);
    true
}

/// Kind of a segment.
#[derive(Debug, Clone, Copy, PartialEq, Eq, Structural, Hash)]
pub enum SegmentType {
    Events,
    MessageDelta,
    TimelineSkeleton,
    MediaKeyDelta,
    SearchTextIndex,
    SearchVectorIndex,
    MediaIndex,
    Checkpoint,
}

impl SegmentType {
    /// Event segments belong to backups.
    pub fn is_backup_segment(self) -> (r: bool)
        ensures
            r == (self is Events),
    {
        match self {
            SegmentType::Events => true,
            _ => false,
        }
    }

    /// Every other kind belongs to the archive.
    pub fn is_archive_segment(self) -> (r: bool)
        ensures
            r == !(self is Events),
    {
        !self.is_backup_segment()
    }
}

/// Framed, sealed backup segment.
#[derive(Debug, Clone)]
pub struct BackupSegmentFrame {
    pub magic: [u8; 12],
    pub version: u16,
    pub segment_id: uuid::Uuid,
    pub segment_type: SegmentType,
    pub event_seq_from: u64,
    pub event_seq_to: u64,
    pub nonce: [u8; 24],
    pub aad_hash: [u8; 32],
    pub ciphertext: Vec<u8>,
    pub ciphertext_sha256: [u8; 32],
}

impl BackupSegmentFrame {
    /// The frame carries the backup magic and the current version.
    pub fn has_valid_header(&self) -> (r: bool)
        ensures
            r == (self.magic@ == BACKUP_SEGMENT_MAGIC@ && self.version == FRAME_VERSION),
    {
        let magic = BACKUP_SEGMENT_MAGIC;
        bytes_eq(&self.magic, &magic) && self.version == FRAME_VERSION
    }
}

/// Framed, sealed archive segment.
#[derive(Debug, Clone)]
pub struct ArchiveSegmentFrame {
    pub magic: [u8; 12],
    pub version: u16,
    pub segment_id: uuid::Uuid,
    pub segment_type: SegmentType,
    pub event_seq_from: u64,
    pub event_seq_to: u64,
    pub nonce: [u8; 24],
    pub aad_hash: [u8; 32],
    pub ciphertext: Vec<u8>,
    pub ciphertext_sha256: [u8; 32],
}

impl ArchiveSegmentFrame {
    /// The frame carries the archive magic and the current version.
    pub fn has_valid_header(&self) -> (r: bool)
        ensures
            r == (self.magic@ == ARCHIVE_SEGMENT_MAGIC@ && self.version == FRAME_VERSION),
    {
        let magic = ARCHIVE_SEGMENT_MAGIC;
        bytes_eq(&self.magic, &magic) && self.version == FRAME_VERSION
    }
}

} // verus!
