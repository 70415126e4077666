//! Archive segment types (payload, entry, internal frame) and zstd
//! compression.

use vstd::prelude::*;

use crate::local_store::StorageError;
use crate::Error;

verus! {

/// One message entry inside an archive segment.
#[derive(Debug, Clone)]
pub struct ArchiveEntry {
    pub message_id: String,
    pub created_at_ms: i64,
    pub kind: EntryKind,
    pub body_ciphertext: Vec<u8>,
    pub body_nonce: [u8; 24],
    pub media_refs: Vec<MediaRef>,
}

/// Kind of message entry.
#[derive(Debug, Clone, Copy, PartialEq, Eq, Structural)]
pub enum EntryKind {
    Text,
    Media,
    System,
    Deleted,
}

/// Reference to a media asset within an archive entry.
#[derive(Debug, Clone)]
pub struct MediaRef {
    pub asset_id: String,
    pub mime_type: String,
    pub node_id: String,
    pub version_id: String,
    pub bytes_total: u64,
}

/// Archive segment payload, before compression and encryption.
#[derive(Debug, Clone)]
pub struct ArchiveSegmentPayload {
    pub segment_id: String,
    pub conversation_id: String,
    pub time_bucket: String,
    pub epoch_id: u64,
    pub entries: Vec<ArchiveEntry>,
}

/// Archive segment after compression and encryption.
#[derive(Debug, Clone)]
pub struct ArchiveSegmentFrame {
    pub nonce: [u8; 24],
    pub ciphertext: Vec<u8>,
    pub plaintext_hash: [u8; 32],
    pub plaintext_size: u64,
}

/// The zstd frame `zstd::encode_all(data, 3)` produces.
pub uninterp spec fn zstd_compressed(data: Seq<u8>) -> Seq<u8>;

/// What `zstd::decode_all(data)` produces when it succeeds.
pub uninterp spec fn zstd_decoded(data: Seq<u8>) -> Seq<u8>;

/// `zstd::encode_all(data, 3)`. Claimed: it succeeds, and its output is
/// `zstd_compressed(data)`. Reading from a slice and writing into a `Vec`
/// cannot fail, and level 3 is always accepted, so the call fails only when
/// zstd cannot allocate its compression context; that case is left out of
/// this contract, as an allocation failure elsewhere in the library is.
#[verifier::external_body]
fn zstd_encode(data: &[u8]) -> (r: Result<Vec<u8>, String>)
    ensures
        r is Ok,
        r matches Ok(out) ==> out@ == zstd_compressed(data@),
{
    zstd::encode_all(data, 3).map_err(|e| e.to_string())
}

/// `zstd::decode_all(data)`. Claimed: on success its output is
/// `zstd_decoded(data)`, and compression is lossless: the frame that
/// `zstd::encode_all` made of `x` decodes, and to `x`.
#[verifier::external_body]
fn zstd_decode(data: &[u8]) -> (r: Result<Vec<u8>, String>)
    ensures
        r matches Ok(out) ==> out@ == zstd_decoded(data@),
        forall|x: Seq<u8>| #[trigger] zstd_compressed(x) == data@ ==> (r is Ok && r->Ok_0@ == x),
{
    zstd::decode_all(data).map_err(|e| e.to_string())
}

/// Compress `data` with zstd at level 3.
pub fn compress(data: &[u8]) -> (r: Result<Vec<u8>, Error>)
    ensures
        r is Ok,
        r matches Ok(out) ==> out@ == zstd_compressed(data@),
{
    match zstd_encode(data) {
        Ok(out) => Ok(out),
        Err(msg) => Err(Error::Storage(StorageError::Custom(msg))),
    }
}

/// Decompress zstd data.
pub fn decompress(data: &[u8]) -> (r: Result<Vec<u8>, Error>)
    ensures
        r matches Ok(out) ==> out@ == zstd_decoded(data@),
        r matches Err(e) ==> e is Storage,
        forall|x: Seq<u8>| #[trigger] zstd_compressed(x) == data@ ==> (r is Ok && r->Ok_0@ == x),
{
    match zstd_decode(data) {
        Ok(out) => Ok(out),
        Err(msg) => Err(Error::Storage(StorageError::Custom(msg))),
    }
}

} // verus!
