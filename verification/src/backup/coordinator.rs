//! The backup coordinator's state: the manifest generation, the hash the
//! next manifest chains to, and the event journal. Preparing a backup is
//! pure computation; the uploads between preparing and finalizing happen
//! outside the library.

use vstd::prelude::*;

use super::event_journal::{BackupEvent, BackupEventJournal};
use super::manifest_builder::{build_manifest, new_v7_uuid, uuid_hyphenated, uuid_text};
use super::segment_builder::{backup_frame, build_segment};
use crate::archive::types::zstd_compressed;
use crate::crypto::aead::xchacha_len_ok;
use crate::crypto::content_hash::blake3_digest;
use crate::crypto::Key32;
use crate::formats::manifest::{BackupManifest, ManifestSegmentRef, BACKUP_MANIFEST_MAGIC, MANIFEST_VERSION};
use crate::formats::SegmentType;
use crate::Error;

verus! {

/// The backup coordinator.
#[derive(Debug)]
pub struct BackupCoordinator {
    pub event_journal: BackupEventJournal,
    pub current_generation: u64,
    prev_manifest_hash: [u8; 32],
}

/// Payloads prepared for upload, and what finalizing needs of them.
#[derive(Debug)]
pub struct BackupPayload {
    pub segment_id: String,
    pub ciphertext: Vec<u8>,
    pub manifest_bytes: Vec<u8>,
    pub plaintext_hash: [u8; 32],
    pub manifest_hash: [u8; 32],
    pub generation: u64,
}

/// A sealed segment and the manifest that references it, before the
/// manifest is encoded.
#[derive(Debug)]
pub struct PreparedBackup {
    pub segment_id: String,
    pub ciphertext: Vec<u8>,
    pub plaintext_hash: [u8; 32],
    pub manifest: BackupManifest,
}

impl BackupCoordinator {
    /// The hash the next manifest chains to.
    pub closed spec fn prev_hash(&self) -> Seq<u8> {
        self.prev_manifest_hash@
    }

    /// The current manifest generation.
    pub closed spec fn generation(&self) -> u64 {
        self.current_generation
    }

    /// The recorded events.
    pub closed spec fn events(&self) -> Seq<BackupEvent> {
        self.event_journal.events@
    }

    /// A fresh coordinator: generation 0, chained to the all-zero hash.
    pub fn new() -> (r: Self)
        ensures
            r.generation() == 0,
            r.prev_hash() == seq![0u8; 32],
            r.events().len() == 0,
    {
        let r = BackupCoordinator { event_journal: BackupEventJournal::new(), current_generation: 0, prev_manifest_hash: [0u8; 32] };
        assert(r.prev_manifest_hash@ =~= seq![0u8; 32]);
        r
    }

    /// The coordinator for a persisted state `(generation, previous manifest
    /// hash)`, or a fresh one when nothing was saved.
    pub fn from_saved_state(saved: Option<(u64, [u8; 32])>) -> (r: Self)
        ensures
            r.events().len() == 0,
            saved matches Some((g, h)) ==> r.generation() == g && r.prev_hash() == h@,
            saved is None ==> r.generation() == 0 && r.prev_hash() == seq![0u8; 32],
    {
        match saved {
            Some((generation, hash)) => BackupCoordinator {
                event_journal: BackupEventJournal::new(),
                current_generation: generation,
                prev_manifest_hash: hash,
            },
            None => Self::new(),
        }
    }

    /// The state to persist: `(generation, previous manifest hash)`.
    pub fn saved_state(&self) -> (r: (u64, [u8; 32]))
        ensures
            r.0 == self.generation(),
            r.1@ == self.prev_hash(),
    {
        (self.current_generation, self.prev_manifest_hash)
    }

    /// Seal `data` as one event segment and build the manifest of the
    /// current generation referencing it; `None` when there is no data.
    pub fn prepare_backup(&self, data: &[u8], backup_key: &Key32) -> (r: Result<Option<PreparedBackup>, Error>)
        ensures
            data@.len() == 0 ==> r matches Ok(None),
            data@.len() > 0 ==> !(r matches Ok(None)),
            data@.len() > 0 ==> (r is Ok <==> xchacha_len_ok(zstd_compressed(data@).len())),
            r matches Err(e) ==> e is Crypto && !xchacha_len_ok(zstd_compressed(data@).len()),
            r matches Ok(Some(p)) ==> {
                &&& xchacha_len_ok(zstd_compressed(data@).len())
                &&& exists|n: Seq<u8>| n.len() == 24 && p.ciphertext@ == #[trigger] backup_frame(backup_key@, n, data@)
                &&& p.plaintext_hash@ == blake3_digest(data@)
                &&& p.manifest.magic@ == BACKUP_MANIFEST_MAGIC@
                &&& p.manifest.version == MANIFEST_VERSION
                &&& p.manifest.generation == self.generation()
                &&& p.manifest.previous_manifest_hash@ == self.prev_hash()
                &&& p.manifest.segments@.len() == 1
                &&& p.segment_id@ == uuid_hyphenated(p.manifest.segments@[0].segment_id@)
                &&& p.manifest.segments@[0].segment_type == SegmentType::Events
                &&& p.manifest.segments@[0].ciphertext_sha256 == p.plaintext_hash
                &&& p.manifest.segments@[0].size == p.ciphertext@.len()
            },
    {
        if data.len() == 0 {
            return Ok(None);
        }
        let id = new_v7_uuid();
        let segment_id = uuid_text(&id);
        let (ciphertext, nonce, plaintext_hash) = match build_segment(data, backup_key) {
            Ok(t) => t,
            Err(e) => return Err(e),
        };
        let segment_ref = ManifestSegmentRef {
            segment_id: id,
            segment_type: SegmentType::Events,
            ciphertext_sha256: plaintext_hash,
            size: ciphertext.len() as u64,
        };
        let mut segments: Vec<ManifestSegmentRef> = Vec::new();
        segments.push(segment_ref);
        let manifest = match build_manifest(self.current_generation, self.prev_manifest_hash, segments, Vec::new()) {
            Ok(m) => m,
            Err(e) => return Err(e),
        };
        Ok(Some(PreparedBackup { segment_id, ciphertext, plaintext_hash, manifest }))
    }

    /// Finalize a backup after its uploads succeeded: record the upload and
    /// the published manifest, chain to the manifest's hash, and advance the
    /// generation, which is returned.
    pub fn finalize_backup(&mut self, uploaded_id: String, payload: BackupPayload) -> (r: u64)
        requires
            old(self).generation() < u64::MAX,
        ensures
            r == old(self).generation() + 1,
            final(self).generation() == r,
            final(self).prev_hash() == payload.manifest_hash@,
            final(self).events() == old(self).events().push(
                BackupEvent::SegmentUploaded { segment_id: uploaded_id, size: payload.ciphertext@.len() as usize },
            ).push(BackupEvent::ManifestPublished { generation: payload.generation }),
    {
        let size = payload.ciphertext.len();
        self.event_journal.record(BackupEvent::SegmentUploaded { segment_id: uploaded_id, size });
        self.prev_manifest_hash = payload.manifest_hash;
        self.event_journal.record(BackupEvent::ManifestPublished { generation: payload.generation });
        self.current_generation = self.current_generation + 1;
        self.current_generation
    }

    /// Advance to the next generation and return it.
    pub fn next_generation(&mut self) -> (r: u64)
        requires
            old(self).generation() < u64::MAX,
        ensures
            r == old(self).generation() + 1,
            final(self).generation() == r,
            final(self).prev_hash() == old(self).prev_hash(),
            final(self).events() == old(self).events(),
    {
        self.current_generation = self.current_generation + 1;
        self.current_generation
    }
}

impl Default for BackupCoordinator {
    fn default() -> (r: Self)
        ensures
            r.generation() == 0,
            r.prev_hash() == seq![0u8; 32],
            r.events().len() == 0,
    {
        Self::new()
    }
}

} // verus!
