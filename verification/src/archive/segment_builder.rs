//! Sealed archive segments. Each message body is sealed on its own under
//! the segment key; the encoded payload is then compressed and sealed as a
//! whole.

use vstd::prelude::*;

use super::types::{compress, decompress, zstd_compressed, ArchiveEntry, ArchiveSegmentFrame, ArchiveSegmentPayload, EntryKind, MediaRef};
use crate::backup::manifest_builder::{new_v7_uuid, uuid_hyphenated, uuid_text};
use crate::crypto::aead::{open, random_nonce_24, seal, xchacha20poly1305_seal, xchacha_len_ok};
use crate::crypto::content_hash::{blake3_digest, content_hash};
use crate::crypto::Key32;
use crate::formats::media_descriptor::MediaDescriptor;
use crate::Error;
use vstd::string::StringSliceAdditionalSpecFns;
use vstd::utf8::encode_utf8;

verus! {

/// What the archive reads of a message.
#[derive(Debug, Clone)]
pub struct ArchiveMessage {
    pub message_id: String,
    pub created_at_ms: i64,
    pub text_content: Option<String>,
    pub media_descriptors: Vec<MediaDescriptor>,
}

/// The associated data of a sealed message body.
pub open spec fn body_aad() -> Seq<u8> {
    "chat-storage/archive-body/v1".spec_bytes()
}

/// The associated data of a sealed segment.
pub open spec fn archive_segment_aad() -> Seq<u8> {
    "chat-storage/archive-segment/v1".spec_bytes()
}

/// The plaintext of a message body: its text as UTF-8, or nothing.
pub open spec fn body_bytes(m: ArchiveMessage) -> Seq<u8> {
    match m.text_content {
        Some(s) => encode_utf8(s@),
        None => Seq::empty(),
    }
}

/// Every message body is short enough for XChaCha20-Poly1305 to seal.
pub open spec fn bodies_sealable(messages: Seq<ArchiveMessage>) -> bool {
    forall|i: int| 0 <= i < messages.len() ==> xchacha_len_ok(#[trigger] body_bytes(messages[i]).len())
}

/// `entry` archives `msg` under `key`: same id and time, text kind unless
/// the message carries media, the body sealed under the entry's nonce, and
/// one media reference per descriptor with the hyphenated text of its asset
/// id, its MIME type, node, version and size.
pub open spec fn entry_archives(entry: ArchiveEntry, msg: ArchiveMessage, key: Seq<u8>) -> bool {
    &&& entry.message_id@ == msg.message_id@
    &&& entry.created_at_ms == msg.created_at_ms
    &&& entry.kind == (if msg.media_descriptors@.len() == 0 { EntryKind::Text } else { EntryKind::Media })
    &&& entry.body_ciphertext@ == xchacha20poly1305_seal(key, entry.body_nonce@, body_bytes(msg), body_aad())
    &&& entry.media_refs@.len() == msg.media_descriptors@.len()
    &&& forall|j: int|
        0 <= j < entry.media_refs@.len() ==> {
            let r = #[trigger] entry.media_refs@[j];
            let d = msg.media_descriptors@[j];
            &&& r.asset_id@ == uuid_hyphenated(d.asset_id@)
            &&& r.mime_type@ == d.mime_type@
            &&& r.node_id@ == d.node_id@
            &&& r.version_id@ == d.version_id@
            &&& r.bytes_total == d.bytes_total
        }
}

fn media_refs_of(descriptors: &Vec<MediaDescriptor>) -> (r: Vec<MediaRef>)
    ensures
        r@.len() == descriptors@.len(),
        forall|j: int|
            0 <= j < r@.len() ==> {
                let m = #[trigger] r@[j];
                let d = descriptors@[j];
                &&& m.asset_id@ == uuid_hyphenated(d.asset_id@)
                &&& m.mime_type@ == d.mime_type@
                &&& m.node_id@ == d.node_id@
                &&& m.version_id@ == d.version_id@
                &&& m.bytes_total == d.bytes_total
            },
{
    let mut r: Vec<MediaRef> = Vec::new();
    let mut j: usize = 0;
    while j < descriptors.len()
        invariant
            0 <= j <= descriptors@.len(),
            r@.len() == j,
            forall|q: int|
                0 <= q < j ==> {
                    let m = #[trigger] r@[q];
                    let d = descriptors@[q];
                    &&& m.asset_id@ == uuid_hyphenated(d.asset_id@)
                    &&& m.mime_type@ == d.mime_type@
                    &&& m.node_id@ == d.node_id@
                    &&& m.version_id@ == d.version_id@
                    &&& m.bytes_total == d.bytes_total
                },
        decreases descriptors@.len() - j,
    {
        let d = &descriptors[j];
        r.push(MediaRef {
            asset_id: uuid_text(&d.asset_id),
            mime_type: d.mime_type.clone(),
            node_id: d.node_id.clone(),
            version_id: d.version_id.clone(),
            bytes_total: d.bytes_total,
        });
        j = j + 1;
    }
    r
}

/// Seal each message body under `segment_key` with a fresh nonce and build
/// the segment's entries, one per message in order.
pub fn build_entries(messages: &[ArchiveMessage], segment_key: &Key32) -> (r: Result<Vec<ArchiveEntry>, Error>)
    ensures
        r is Ok <==> bodies_sealable(messages@),
        r matches Ok(entries) ==> entries@.len() == messages@.len() && forall|i: int|
            0 <= i < entries@.len() ==> entry_archives(#[trigger] entries@[i], messages@[i], segment_key@),
        r matches Err(e) ==> e is Crypto,
{
    let mut entries: Vec<ArchiveEntry> = Vec::new();
    let mut i: usize = 0;
    while i < messages.len()
        invariant
            0 <= i <= messages@.len(),
            entries@.len() == i,
            forall|q: int| 0 <= q < i ==> entry_archives(#[trigger] entries@[q], messages@[q], segment_key@),
            forall|q: int| 0 <= q < i ==> xchacha_len_ok(#[trigger] body_bytes(messages@[q]).len()),
        decreases messages@.len() - i,
    {
        let msg = &messages[i];
        let body_nonce = random_nonce_24();
        let body: &str = match &msg.text_content {
            Some(s) => s.as_str(),
            None => "",
        };
        proof {
            reveal_strlit("");
            assert(body.spec_bytes() == body_bytes(messages@[i as int]));
        }
        let body_ciphertext = match seal(segment_key, &body_nonce, body.as_bytes(), "chat-storage/archive-body/v1".as_bytes()) {
            Ok(ct) => ct,
            Err(e) => {
                assert(!xchacha_len_ok(body_bytes(messages@[i as int]).len()));
                return Err(Error::Crypto(e));
            },
        };
        let kind = if msg.media_descriptors.len() == 0 {
            EntryKind::Text
        } else {
            EntryKind::Media
        };
        let media_refs = media_refs_of(&msg.media_descriptors);
        entries.push(ArchiveEntry {
            message_id: msg.message_id.clone(),
            created_at_ms: msg.created_at_ms,
            kind,
            body_ciphertext,
            body_nonce,
            media_refs,
        });
        i = i + 1;
    }
    Ok(entries)
}

/// Build the payload of a new archive segment: a fresh segment id, the
/// conversation, bucket and epoch, and one sealed entry per message.
pub fn build_segment_payload(
    messages: &[ArchiveMessage],
    conversation_id: &str,
    time_bucket: &str,
    epoch_id: u64,
    segment_key: &Key32,
) -> (r: Result<ArchiveSegmentPayload, Error>)
    ensures
        r matches Ok(p) ==> {
            &&& exists|b: Seq<u8>| b.len() == 16 && p.segment_id@ == #[trigger] uuid_hyphenated(b)
            &&& p.conversation_id@ == conversation_id@
            &&& p.time_bucket@ == time_bucket@
            &&& p.epoch_id == epoch_id
            &&& p.entries@.len() == messages@.len()
            &&& forall|i: int| 0 <= i < p.entries@.len() ==> entry_archives(#[trigger] p.entries@[i], messages@[i], segment_key@)
        },
        r is Ok <==> bodies_sealable(messages@),
        r matches Err(e) ==> e is Crypto,
{
    let id = new_v7_uuid();
    let segment_id = uuid_text(&id);
    let entries = match build_entries(messages, segment_key) {
        Ok(e) => e,
        Err(e) => return Err(e),
    };
    Ok(ArchiveSegmentPayload {
        segment_id,
        conversation_id: conversation_id.to_owned(),
        time_bucket: time_bucket.to_owned(),
        epoch_id,
        entries,
    })
}

/// Seal an encoded segment payload: its BLAKE3 digest and size are kept, and
/// it is compressed and sealed under `segment_key` with a fresh nonce.
pub fn seal_segment(plaintext: &[u8], segment_key: &Key32) -> (r: Result<ArchiveSegmentFrame, Error>)
    ensures
        r matches Ok(f) ==> {
            &&& f.ciphertext@ == xchacha20poly1305_seal(segment_key@, f.nonce@, zstd_compressed(plaintext@), archive_segment_aad())
            &&& xchacha_len_ok(zstd_compressed(plaintext@).len())
            &&& f.plaintext_hash@ == blake3_digest(plaintext@)
            &&& f.plaintext_size == plaintext@.len()
        },
        r is Ok <==> xchacha_len_ok(zstd_compressed(plaintext@).len()),
        r matches Err(e) ==> e is Crypto,
{
    let plaintext_hash = content_hash(plaintext);
    let plaintext_size = plaintext.len() as u64;
    let compressed = match compress(plaintext) {
        Ok(c) => c,
        Err(e) => return Err(e),
    };
    let nonce = random_nonce_24();
    let ciphertext = match seal(segment_key, &nonce, compressed.as_slice(), "chat-storage/archive-segment/v1".as_bytes()) {
        Ok(ct) => ct,
        Err(e) => return Err(Error::Crypto(e)),
    };
    Ok(ArchiveSegmentFrame { nonce, ciphertext, plaintext_hash, plaintext_size })
}

/// Decrypt and decompress a sealed segment back to the encoded payload.
/// Every frame that [`seal_segment`] made of `p` under `segment_key` opens to
/// `p`.
pub fn open_segment_bytes(frame: &ArchiveSegmentFrame, segment_key: &Key32) -> (r: Result<Vec<u8>, Error>)
    ensures
        r matches Err(e) ==> (e is Storage || e is Crypto),
        forall|p: Seq<u8>|
            xchacha_len_ok(zstd_compressed(p).len()) && #[trigger] xchacha20poly1305_seal(
                segment_key@,
                frame.nonce@,
                zstd_compressed(p),
                archive_segment_aad(),
            ) == frame.ciphertext@ ==> (r is Ok && r->Ok_0@ == p),
{
    let compressed = match open(segment_key, &frame.nonce, frame.ciphertext.as_slice(), "chat-storage/archive-segment/v1".as_bytes()) {
        Ok(c) => c,
        Err(e) => return Err(Error::Crypto(e)),
    };
    decompress(compressed.as_slice())
}

} // verus!
