//! The archive coordinator's state: the epoch keys, segments sealed in the
//! current epoch and not yet in a manifest, the manifest generation and the
//! hash the next manifest chains to. Uploads happen outside the library,
//! between the steps below.

use vstd::prelude::*;

use super::epoch_keys::{current_epoch_id, epoch_for_secs, EpochKeyManager};
use super::event_journal::{ArchiveEvent, ArchiveEventJournal};
use super::types::ArchiveSegmentFrame;
use crate::backup::manifest_builder::{new_v7_uuid, parse_uuid, uuid_parse};
use crate::crypto::Key32;
use crate::formats::manifest::{BackupManifestPayload, ManifestSegmentRef, WrappedEpochKeyRef};
use crate::formats::SegmentType;
use crate::local_store::StorageError;
use crate::text::{decimal, string_views, u64_to_decimal};
use crate::Error;

verus! {

/// Most segments held before a manifest must be finalized.
pub const MAX_PENDING_SEGMENTS: usize = 100;

/// The identifier an uploaded segment id names, or a fresh time-ordered one
/// when the id is not a UUID.
fn segment_uuid(id: &str) -> (r: [u8; 16])
    ensures
        uuid_parse(id@) matches Some(b) ==> r@ == b,
{
    match parse_uuid(id) {
        Some(u) => u,
        None => new_v7_uuid(),
    }
}

/// Milliseconds since the Unix epoch, from the system clock (0 when the
/// clock is before the epoch). Nothing is claimed of the value.
#[verifier::external_body]
fn now_ms() -> (r: i64) {
    std::time::SystemTime::now().duration_since(std::time::UNIX_EPOCH).unwrap_or_default().as_millis() as i64
}

/// The archive coordinator.
#[derive(Debug)]
pub struct ArchiveCoordinator {
    pub epoch_manager: EpochKeyManager,
    pub event_journal: ArchiveEventJournal,
    pending_segments: Vec<(String, ArchiveSegmentFrame)>,
    current_generation: u64,
    prev_manifest_hash: [u8; 32],
}

impl ArchiveCoordinator {
    /// Segments sealed in this epoch and not yet in a manifest, with their
    /// uploaded ids.
    pub closed spec fn pending(&self) -> Seq<(String, ArchiveSegmentFrame)> {
        self.pending_segments@
    }

    /// The current manifest generation.
    pub closed spec fn generation(&self) -> u64 {
        self.current_generation
    }

    /// The hash the next manifest chains to.
    pub closed spec fn prev_hash(&self) -> Seq<u8> {
        self.prev_manifest_hash@
    }

    /// The recorded events.
    pub closed spec fn events(&self) -> Seq<ArchiveEvent> {
        self.event_journal.events@
    }

    /// The epoch keys.
    pub closed spec fn keys(&self) -> EpochKeyManager {
        self.epoch_manager
    }

    /// A coordinator for the archive root derived from `wrapping_key`:
    /// generation 0, chained to the all-zero hash, nothing pending.
    pub fn new(wrapping_key: &Key32) -> (r: Result<Self, Error>)
        ensures
            r matches Ok(c) && c.generation() == 0 && c.prev_hash() == seq![0u8; 32] && c.pending().len() == 0
                && c.events().len() == 0,
    {
        let epoch_manager = match EpochKeyManager::new(wrapping_key) {
            Ok(m) => m,
            Err(e) => return Err(Error::Crypto(e)),
        };
        let c = ArchiveCoordinator {
            epoch_manager,
            event_journal: ArchiveEventJournal::new(),
            pending_segments: Vec::new(),
            current_generation: 0,
            prev_manifest_hash: [0u8; 32],
        };
        assert(c.prev_manifest_hash@ =~= seq![0u8; 32]);
        Ok(c)
    }

    /// The current manifest generation.
    pub fn current_generation(&self) -> (r: u64)
        ensures
            r == self.generation(),
    {
        self.current_generation
    }

    /// Number of segments waiting for a manifest.
    pub fn pending_count(&self) -> (r: usize)
        ensures
            r == self.pending().len(),
    {
        self.pending_segments.len()
    }

    /// Record a segment of `message_count` messages, sealed in `epoch` and
    /// uploaded as `uploaded_id`, and queue it for the next manifest. The
    /// upload is recorded first; the segment is refused when the queue is
    /// full.
    pub fn record_uploaded_segment(
        &mut self,
        uploaded_id: String,
        frame: ArchiveSegmentFrame,
        epoch: u64,
        message_count: usize,
    ) -> (r: Result<String, Error>)
        ensures
            final(self).events() == old(self).events().push(
                ArchiveEvent::SegmentUploaded { segment_id: uploaded_id, epoch, message_count },
            ),
            final(self).generation() == old(self).generation(),
            final(self).prev_hash() == old(self).prev_hash(),
            final(self).keys() == old(self).keys(),
            old(self).pending().len() >= MAX_PENDING_SEGMENTS ==> (final(self).pending() == old(self).pending()
                && (r matches Err(Error::Storage(StorageError::Custom(_))))),
            old(self).pending().len() < MAX_PENDING_SEGMENTS ==> (final(self).pending() == old(self).pending().push(
                (uploaded_id, frame),
            ) && (r matches Ok(id) && id@ == uploaded_id@)),
    {
        let recorded = uploaded_id.clone();
        self.event_journal.record(ArchiveEvent::SegmentUploaded { segment_id: recorded, epoch, message_count });
        if self.pending_segments.len() >= MAX_PENDING_SEGMENTS {
            return Err(Error::Storage(StorageError::Custom(
                "pending segment cap reached (100) \u{2014} call finalize_epoch first".to_owned(),
            )));
        }
        let returned = uploaded_id.clone();
        self.pending_segments.push((uploaded_id, frame));
        Ok(returned)
    }

    /// The manifest payload finalizing this epoch: one message-delta
    /// reference per pending segment (its plaintext digest and ciphertext
    /// size), every wrapped prior epoch key with its epoch as decimal text,
    /// the current generation and the hash it chains to. `None` when nothing
    /// is pending.
    pub fn prepare_epoch_manifest(&self) -> (r: Option<BackupManifestPayload>)
        ensures
            r is None <==> self.pending().len() == 0,
            r matches Some(m) ==> {
                &&& m.generation == self.generation()
                &&& m.previous_manifest_hash@ == self.prev_hash()
                &&& m.segments@.len() == self.pending().len()
                &&& forall|i: int|
                    0 <= i < m.segments@.len() ==> {
                        let s = #[trigger] m.segments@[i];
                        let f = self.pending()[i].1;
                        &&& s.segment_type == SegmentType::MessageDelta
                        &&& s.ciphertext_sha256 == f.plaintext_hash
                        &&& s.size == f.ciphertext@.len()
                        &&& uuid_parse(self.pending()[i].0@) matches Some(b) ==> s.segment_id@ == b
                    }
                &&& m.wrapped_epoch_keys@.len() == self.keys().prior().len()
                &&& forall|i: int|
                    0 <= i < m.wrapped_epoch_keys@.len() ==> {
                        let w = #[trigger] m.wrapped_epoch_keys@[i];
                        &&& w.epoch_id@ == decimal(self.keys().prior()[i].0 as nat)
                        &&& w.wrapped_key@ == self.keys().prior()[i].1@
                    }
            },
    {
        if self.pending_segments.len() == 0 {
            return None;
        }
        let mut segments: Vec<ManifestSegmentRef> = Vec::new();
        let mut i: usize = 0;
        while i < self.pending_segments.len()
            invariant
                0 <= i <= self.pending().len(),
                segments@.len() == i,
                forall|q: int|
                    0 <= q < i ==> {
                        let s = #[trigger] segments@[q];
                        let f = self.pending()[q].1;
                        &&& s.segment_type == SegmentType::MessageDelta
                        &&& s.ciphertext_sha256 == f.plaintext_hash
                        &&& s.size == f.ciphertext@.len()
                        &&& uuid_parse(self.pending()[q].0@) matches Some(b) ==> s.segment_id@ == b
                    },
            decreases self.pending().len() - i,
        {
            let (id, frame) = &self.pending_segments[i];
            segments.push(ManifestSegmentRef {
                segment_id: segment_uuid(id.as_str()),
                segment_type: SegmentType::MessageDelta,
                ciphertext_sha256: frame.plaintext_hash,
                size: frame.ciphertext.len() as u64,
            });
            i = i + 1;
        }
        let prior = self.epoch_manager.wrapped_prior_epochs();
        let mut wrapped_epoch_keys: Vec<WrappedEpochKeyRef> = Vec::new();
        let mut k: usize = 0;
        while k < prior.len()
            invariant
                0 <= k <= prior@.len(),
                prior@ == self.keys().prior(),
                wrapped_epoch_keys@.len() == k,
                forall|q: int|
                    0 <= q < k ==> {
                        let w = #[trigger] wrapped_epoch_keys@[q];
                        &&& w.epoch_id@ == decimal(prior@[q].0 as nat)
                        &&& w.wrapped_key@ == prior@[q].1@
                    },
            decreases prior@.len() - k,
        {
            let (epoch, wrapped) = &prior[k];
            wrapped_epoch_keys.push(WrappedEpochKeyRef { epoch_id: u64_to_decimal(*epoch), wrapped_key: wrapped.clone() });
            k = k + 1;
        }
        Some(BackupManifestPayload {
            generation: self.current_generation,
            previous_manifest_hash: self.prev_manifest_hash,
            segments,
            wrapped_epoch_keys,
            created_at_ms: now_ms(),
        })
    }

    /// Complete the epoch after its manifest was uploaded: record it with
    /// the number of segments it covers, chain to its hash, clear the queue
    /// and advance the generation, which is returned.
    pub fn complete_epoch(&mut self, manifest_hash: [u8; 32]) -> (r: u64)
        requires
            old(self).generation() < u64::MAX,
        ensures
            r == old(self).generation() + 1,
            final(self).generation() == r,
            final(self).prev_hash() == manifest_hash@,
            final(self).pending().len() == 0,
            final(self).keys() == old(self).keys(),
            final(self).events() == old(self).events().push(
                ArchiveEvent::ManifestUploaded { generation: old(self).generation(), segment_count: old(self).pending().len() as usize },
            ),
    {
        self.prev_manifest_hash = manifest_hash;
        let segment_count = self.pending_segments.len();
        self.event_journal.record(ArchiveEvent::ManifestUploaded { generation: self.current_generation, segment_count });
        self.pending_segments.clear();
        self.current_generation = self.current_generation + 1;
        self.current_generation
    }

    /// Rotate the epoch keys when the clock's epoch `now_epoch` is ahead of
    /// the current one, recording the rotation; report whether it rotated.
    pub fn rotate_if_behind(&mut self, now_epoch: u64) -> (r: Result<bool, Error>)
        ensures
            r matches Ok(rotated) && rotated == (now_epoch > old(self).keys().epoch()),
            now_epoch > old(self).keys().epoch() ==> {
                &&& final(self).keys().epoch() == old(self).keys().epoch() + 1
                &&& final(self).keys().root() == old(self).keys().root()
                &&& forall|e: u64| old(self).keys().has_key(e) ==> #[trigger] final(self).keys().has_key(e)
                &&& final(self).events() == old(self).events().push(ArchiveEvent::EpochRotated { old_epoch: old(self).keys().epoch() })
            },
            now_epoch <= old(self).keys().epoch() ==> final(self).keys() == old(self).keys() && final(self).events() == old(self).events(),
            final(self).pending() == old(self).pending(),
            final(self).generation() == old(self).generation(),
            final(self).prev_hash() == old(self).prev_hash(),
    {
        let current = self.epoch_manager.current_epoch();
        if now_epoch > current {
            match self.epoch_manager.rotate() {
                Ok(()) => {},
                Err(e) => return Err(e),
            }
            self.event_journal.record(ArchiveEvent::EpochRotated { old_epoch: current });
            Ok(true)
        } else {
            Ok(false)
        }
    }

    /// Rotate the epoch keys when the clock has moved to a later epoch; the
    /// clock decides whether it does.
    pub fn maybe_rotate(&mut self) -> (r: Result<bool, Error>)
        ensures
            r matches Ok(rotated) && exists|now: u64| rotated == (epoch_for_secs(now) > old(self).keys().epoch()),
            r matches Ok(rotated) && rotated ==> {
                &&& final(self).keys().epoch() == old(self).keys().epoch() + 1
                &&& final(self).keys().root() == old(self).keys().root()
                &&& final(self).events() == old(self).events().push(ArchiveEvent::EpochRotated { old_epoch: old(self).keys().epoch() })
            },
            r matches Ok(rotated) && !rotated ==> final(self).keys() == old(self).keys() && final(self).events() == old(self).events(),
            final(self).pending() == old(self).pending(),
            final(self).generation() == old(self).generation(),
            final(self).prev_hash() == old(self).prev_hash(),
            forall|e: u64| old(self).keys().has_key(e) ==> #[trigger] final(self).keys().has_key(e),
    {
        let now_epoch = current_epoch_id();
        self.rotate_if_behind(now_epoch)
    }
}

} // verus!
