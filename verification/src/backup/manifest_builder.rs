//! Building backup manifest generations.

use vstd::prelude::*;

use crate::formats::manifest::{BackupManifest, ManifestSegmentRef, WrappedEpochKeyRef, BACKUP_MANIFEST_MAGIC, MANIFEST_VERSION, GENESIS_PREVIOUS_HASH};
use crate::crypto::content_hash::hex_lower;
use crate::Error;

verus! {

/// The hyphenated lowercase text of a 16-byte identifier: its bytes as hex,
/// grouped 4-2-2-2-6 and joined by `-`.
pub open spec fn uuid_hyphenated(b: Seq<u8>) -> Seq<char> {
    hex_lower(b.subrange(0, 4)) + "-"@ + hex_lower(b.subrange(4, 6)) + "-"@ + hex_lower(b.subrange(6, 8)) + "-"@
        + hex_lower(b.subrange(8, 10)) + "-"@ + hex_lower(b.subrange(10, 16))
}

/// What `Uuid::parse_str(text)` gives: the identifier's 16 bytes, or `None`
/// when the text is not a UUID in one of the forms the crate reads.
pub uninterp spec fn uuid_parse(text: Seq<char>) -> Option<Seq<u8>>;

/// `Uuid::now_v7()`, as its 16 bytes: a fresh time-ordered identifier.
/// Nothing is claimed of its value.
#[verifier::external_body]
pub(crate) fn new_v7_uuid() -> (r: [u8; 16]) {
    *uuid::Uuid::now_v7().as_bytes()
}

/// `Uuid::from_bytes(bytes)`: the identifier with these bytes. `Uuid` is
/// opaque here, so nothing is claimed of the value.
#[verifier::external_body]
pub(crate) fn uuid_from_bytes(bytes: [u8; 16]) -> (r: uuid::Uuid) {
    uuid::Uuid::from_bytes(bytes)
}

/// `Uuid::to_string` on the identifier with these bytes. Claimed, as the
/// crate's `Display` writes it: the hyphenated lowercase text
/// `uuid_hyphenated(bytes)`.
#[verifier::external_body]
pub(crate) fn uuid_text(bytes: &[u8; 16]) -> (r: String)
    ensures
        r@ == uuid_hyphenated(bytes@),
{
    uuid::Uuid::from_bytes(*bytes).to_string()
}

/// `Uuid::parse_str(text)`, the identifier taken as its 16 bytes. Claimed:
/// the result is `uuid_parse(text)`.
#[verifier::external_body]
pub(crate) fn parse_uuid(text: &str) -> (r: Option<[u8; 16]>)
    ensures
        match r {
            Some(b) => uuid_parse(text@) == Some(b@),
            None => uuid_parse(text@) is None,
        },
{
    match uuid::Uuid::parse_str(text) {
        Ok(u) => Some(*u.as_bytes()),
        Err(_) => None,
    }
}

/// Build a new backup manifest generation over `segments`, chained to
/// `previous_manifest_hash`, with a fresh manifest id, no shards, media
/// references or tombstones, an all-zero Merkle root and no signatures yet.
/// The wrapped epoch keys are not carried by backup manifests.
pub fn build_manifest(
    generation: u64,
    previous_manifest_hash: [u8; 32],
    segments: Vec<ManifestSegmentRef>,
    wrapped_epoch_keys: Vec<WrappedEpochKeyRef>,
) -> (r: Result<BackupManifest, Error>)
    ensures
        r matches Ok(m) && m.magic@ == BACKUP_MANIFEST_MAGIC@ && m.version == MANIFEST_VERSION && m.generation
            == generation && m.previous_manifest_hash == previous_manifest_hash && m.segments@ == segments@
            && m.search_index_shards@.len() == 0 && m.media_references@.len() == 0 && m.tombstones@.len() == 0
            && m.merkle_root@ == GENESIS_PREVIOUS_HASH@ && m.manifest_signature@.len() == 0
            && m.pqc_signature@.len() == 0,
{
    Ok(BackupManifest {
        magic: BACKUP_MANIFEST_MAGIC.to_owned(),
        version: MANIFEST_VERSION,
        manifest_id: uuid_from_bytes(new_v7_uuid()),
        generation,
        previous_manifest_hash,
        segments,
        search_index_shards: Vec::new(),
        media_references: Vec::new(),
        tombstones: Vec::new(),
        merkle_root: GENESIS_PREVIOUS_HASH,
        manifest_signature: Vec::new(),
        pqc_signature: Vec::new(),
    })
}

} // verus!
