//! Key derivation tree: purpose-specific keys derived from the drive's
//! wrapping key with HKDF-SHA256.
//!
//! ```text
//! wrapping key
//!   ├── K_archive_root  ── K_archive_epoch ── K_archive_segment / K_archive_manifest
//!   ├── K_backup_root   ── K_backup_segment / K_backup_manifest
//!   ├── K_search_root   ── text / vector / media / fuzzy / bloom index shard keys
//!   ├── K_local_db
//!   └── K_media_root    ── K_media_blob
//! ```

use hkdf::Hkdf;
use sha2::Sha256;
use vstd::prelude::*;

use super::key_wrap::{aes256_kw_wrap, unwrap_key, wrap_key, WRAPPED_KEY_LEN};
use super::{CryptoError, Key32};
use crate::text::{
    chars_of, decimal, lemma_parse_decimal, occurs_at, occurs_at_exec, parse_u64, parse_u64_from,
    push_decimal,
};
use vstd::string::StringSliceAdditionalSpecFns;
use vstd::utf8::encode_utf8;

verus! {

/// HKDF-SHA256 with no salt: extract from `ikm`, then expand `info` to
/// 32 bytes of output keying material.
pub uninterp spec fn hkdf_sha256_okm(ikm: Seq<u8>, info: Seq<u8>) -> Seq<u8>;

/// HKDF-SHA256 expand step alone: `prk` used directly as the pseudorandom
/// key, `info` expanded to 32 bytes.
pub uninterp spec fn hkdf_sha256_expand_okm(prk: Seq<u8>, info: Seq<u8>) -> Seq<u8>;

/// Calls `Hkdf::<Sha256>::new(None, ikm)` and `Hkdf::expand` into a 32-byte
/// buffer. Claimed: the bytes written are `hkdf_sha256_okm(ikm, info)`; the
/// expand step cannot fail for a 32-byte output (the crate refuses only
/// outputs longer than 255 * 32 bytes).
#[verifier::external_body]
fn hkdf_derive(ikm: &Key32, info: &[u8]) -> (okm: Key32)
    ensures
        okm@ == hkdf_sha256_okm(ikm@, info@),
{
    let hk = Hkdf::<Sha256>::new(None, ikm);
    let mut okm = [0u8; 32];
    hk.expand(info, &mut okm).expect("HKDF-SHA256 expand to 32 bytes cannot fail");
    okm
}

/// Calls `Hkdf::<Sha256>::from_prk(prk)` and `Hkdf::expand` into a 32-byte
/// buffer. Claimed: the bytes written are `hkdf_sha256_expand_okm(prk, info)`;
/// `from_prk` accepts any key of at least 32 bytes and the expand step cannot
/// fail for a 32-byte output.
#[verifier::external_body]
fn hkdf_expand(prk: &Key32, info: &[u8]) -> (okm: Key32)
    ensures
        okm@ == hkdf_sha256_expand_okm(prk@, info@),
{
    let hk = Hkdf::<Sha256>::from_prk(prk).expect("PRK must be valid");
    let mut okm = [0u8; 32];
    hk.expand(info, &mut okm).expect("HKDF-SHA256 expand to 32 bytes cannot fail");
    okm
}

/// `label`'s UTF-8 bytes followed by `id`.
fn info_with(label: &str, id: &[u8]) -> (info: Vec<u8>)
    ensures
        info@ == label.spec_bytes() + id@,
{
    let mut info: Vec<u8> = Vec::new();
    info.extend_from_slice(label.as_bytes());
    info.extend_from_slice(id);
    assert(info@ =~= label.spec_bytes() + id@);
    info
}

/// The 8 big-endian bytes of `n`.
pub open spec fn u64_be(n: u64) -> Seq<u8> {
    seq![
        (n >> 56u64) as u8,
        (n >> 48u64) as u8,
        (n >> 40u64) as u8,
        (n >> 32u64) as u8,
        (n >> 24u64) as u8,
        (n >> 16u64) as u8,
        (n >> 8u64) as u8,
        n as u8,
    ]
}

/// The 4 big-endian bytes of `n`.
pub open spec fn u32_be(n: u32) -> Seq<u8> {
    seq![(n >> 24u32) as u8, (n >> 16u32) as u8, (n >> 8u32) as u8, n as u8]
}

/// The length prefix written before the first of two identifiers: its byte
/// length, saturated at `u32::MAX`.
pub open spec fn id_len_prefix(len: nat) -> u32 {
    if len <= u32::MAX {
        len as u32
    } else {
        u32::MAX
    }
}

/// The HKDF info for a derivation keyed by two identifiers:
/// `label || u32_be(len(a)) || a || b`.
pub open spec fn two_id_info(label: Seq<u8>, a: Seq<u8>, b: Seq<u8>) -> Seq<u8> {
    label + u32_be(id_len_prefix(a.len())) + a + b
}

fn u64_be_bytes(n: u64) -> (r: Vec<u8>)
    ensures
        r@ == u64_be(n),
{
    let mut r: Vec<u8> = Vec::new();
    r.push((n >> 56u64) as u8);
    r.push((n >> 48u64) as u8);
    r.push((n >> 40u64) as u8);
    r.push((n >> 32u64) as u8);
    r.push((n >> 24u64) as u8);
    r.push((n >> 16u64) as u8);
    r.push((n >> 8u64) as u8);
    r.push(n as u8);
    assert(r@ =~= u64_be(n));
    r
}

fn derive_with_two_ids(parent: &Key32, label: &str, id_a: &[u8], id_b: &[u8]) -> (k: Key32)
    ensures
        k@ == hkdf_sha256_expand_okm(parent@, two_id_info(label.spec_bytes(), id_a@, id_b@)),
{
    let id_a_len: u32 = if id_a.len() <= 4294967295usize {
        id_a.len() as u32
    } else {
        4294967295u32
    };
    let mut buf: Vec<u8> = Vec::new();
    buf.extend_from_slice(label.as_bytes());
    buf.push((id_a_len >> 24u32) as u8);
    buf.push((id_a_len >> 16u32) as u8);
    buf.push((id_a_len >> 8u32) as u8);
    buf.push(id_a_len as u8);
    buf.extend_from_slice(id_a);
    buf.extend_from_slice(id_b);
    assert(buf@ =~= two_id_info(label.spec_bytes(), id_a@, id_b@));
    hkdf_expand(parent, buf.as_slice())
}

// ---------------------------------------------------------------------------
// Root-level derivations (from the wrapping key)
// ---------------------------------------------------------------------------

/// Derive `K_archive_root` from the drive's wrapping key.
pub fn derive_archive_root(wrapping_key: &Key32) -> (k: Key32)
    ensures
        k@ == hkdf_sha256_okm(wrapping_key@, "chat-storage/archive-root/v1".spec_bytes()),
{
    hkdf_derive(wrapping_key, "chat-storage/archive-root/v1".as_bytes())
}

/// Derive `K_backup_root` from the drive's wrapping key.
pub fn derive_backup_root(wrapping_key: &Key32) -> (k: Key32)
    ensures
        k@ == hkdf_sha256_okm(wrapping_key@, "chat-storage/backup-root/v1".spec_bytes()),
{
    hkdf_derive(wrapping_key, "chat-storage/backup-root/v1".as_bytes())
}

/// Derive `K_search_root` from the drive's wrapping key.
pub fn derive_search_root(wrapping_key: &Key32) -> (k: Key32)
    ensures
        k@ == hkdf_sha256_okm(wrapping_key@, "chat-storage/search-root/v1".spec_bytes()),
{
    hkdf_derive(wrapping_key, "chat-storage/search-root/v1".as_bytes())
}

/// Derive `K_local_db` (the local database key) from the drive's wrapping key.
pub fn derive_local_db_key(wrapping_key: &Key32) -> (k: Key32)
    ensures
        k@ == hkdf_sha256_okm(wrapping_key@, "chat-storage/local-db/v1".spec_bytes()),
{
    hkdf_derive(wrapping_key, "chat-storage/local-db/v1".as_bytes())
}

/// Derive `K_media_root` from the drive's wrapping key: the root of the media
/// key hierarchy, kept apart from the archive hierarchy.
pub fn derive_media_root(wrapping_key: &Key32) -> (k: Key32)
    ensures
        k@ == hkdf_sha256_okm(wrapping_key@, "chat-storage/media-root/v1".spec_bytes()),
{
    hkdf_derive(wrapping_key, "chat-storage/media-root/v1".as_bytes())
}

// ---------------------------------------------------------------------------
// Child derivations (HKDF-Expand from a parent key)
// ---------------------------------------------------------------------------

/// Derive `K_archive_segment(segment_id)` from `K_archive_epoch`.
pub fn derive_archive_segment(epoch_key: &Key32, segment_id: &[u8]) -> (k: Key32)
    ensures
        k@ == hkdf_sha256_expand_okm(epoch_key@, "chat-storage/archive-segment/v1".spec_bytes() + segment_id@),
{
    let info = info_with("chat-storage/archive-segment/v1", segment_id);
    hkdf_expand(epoch_key, info.as_slice())
}

/// Derive `K_archive_manifest(manifest_id)` from `K_archive_epoch`.
pub fn derive_archive_manifest(epoch_key: &Key32, manifest_id: &[u8]) -> (k: Key32)
    ensures
        k@ == hkdf_sha256_expand_okm(epoch_key@, "chat-storage/archive-manifest/v1".spec_bytes() + manifest_id@),
{
    let info = info_with("chat-storage/archive-manifest/v1", manifest_id);
    hkdf_expand(epoch_key, info.as_slice())
}

/// Derive `K_backup_segment(segment_id)` from `K_backup_root`.
pub fn derive_backup_segment(backup_root: &Key32, segment_id: &[u8]) -> (k: Key32)
    ensures
        k@ == hkdf_sha256_expand_okm(backup_root@, "chat-storage/backup-segment/v1".spec_bytes() + segment_id@),
{
    let info = info_with("chat-storage/backup-segment/v1", segment_id);
    hkdf_expand(backup_root, info.as_slice())
}

/// Derive `K_backup_manifest(manifest_id)` from `K_backup_root`.
pub fn derive_backup_manifest(backup_root: &Key32, manifest_id: &[u8]) -> (k: Key32)
    ensures
        k@ == hkdf_sha256_expand_okm(backup_root@, "chat-storage/backup-manifest/v1".spec_bytes() + manifest_id@),
{
    let info = info_with("chat-storage/backup-manifest/v1", manifest_id);
    hkdf_expand(backup_root, info.as_slice())
}

/// Derive `K_text_index_shard(shard_id)` from `K_search_root`.
pub fn derive_text_index_shard(search_root: &Key32, shard_id: &[u8]) -> (k: Key32)
    ensures
        k@ == hkdf_sha256_expand_okm(search_root@, "chat-storage/text-index-shard/v1".spec_bytes() + shard_id@),
{
    let info = info_with("chat-storage/text-index-shard/v1", shard_id);
    hkdf_expand(search_root, info.as_slice())
}

/// Derive `K_vector_index_shard(shard_id)` from `K_search_root`.
pub fn derive_vector_index_shard(search_root: &Key32, shard_id: &[u8]) -> (k: Key32)
    ensures
        k@ == hkdf_sha256_expand_okm(search_root@, "chat-storage/vector-index-shard/v1".spec_bytes() + shard_id@),
{
    let info = info_with("chat-storage/vector-index-shard/v1", shard_id);
    hkdf_expand(search_root, info.as_slice())
}

/// Derive `K_media_index_shard(shard_id)` from `K_search_root`.
pub fn derive_media_index_shard(search_root: &Key32, shard_id: &[u8]) -> (k: Key32)
    ensures
        k@ == hkdf_sha256_expand_okm(search_root@, "chat-storage/media-index-shard/v1".spec_bytes() + shard_id@),
{
    let info = info_with("chat-storage/media-index-shard/v1", shard_id);
    hkdf_expand(search_root, info.as_slice())
}

/// Derive `K_fuzzy_index_shard(shard_id)` from `K_search_root`.
pub fn derive_fuzzy_index_shard(search_root: &Key32, shard_id: &[u8]) -> (k: Key32)
    ensures
        k@ == hkdf_sha256_expand_okm(search_root@, "chat-storage/fuzzy-index-shard/v1".spec_bytes() + shard_id@),
{
    let info = info_with("chat-storage/fuzzy-index-shard/v1", shard_id);
    hkdf_expand(search_root, info.as_slice())
}

/// Derive `K_bloom_index_shard(shard_id)` from `K_search_root`.
pub fn derive_bloom_index_shard(search_root: &Key32, shard_id: &[u8]) -> (k: Key32)
    ensures
        k@ == hkdf_sha256_expand_okm(search_root@, "chat-storage/bloom-index-shard/v1".spec_bytes() + shard_id@),
{
    let info = info_with("chat-storage/bloom-index-shard/v1", shard_id);
    hkdf_expand(search_root, info.as_slice())
}

/// Derive `K_media_blob(asset_id)` from `K_media_root`: the per-asset media key.
pub fn derive_media_blob(media_root: &Key32, asset_id: &[u8]) -> (k: Key32)
    ensures
        k@ == hkdf_sha256_expand_okm(media_root@, "chat-storage/media-blob/v1".spec_bytes() + asset_id@),
{
    let info = info_with("chat-storage/media-blob/v1", asset_id);
    hkdf_expand(media_root, info.as_slice())
}

/// Derive `K_archive_epoch(epoch_id)` from `K_archive_root`; the epoch
/// number enters the info as 8 big-endian bytes.
pub fn derive_archive_epoch(archive_root: &Key32, epoch_id: u64) -> (k: Key32)
    ensures
        k@ == hkdf_sha256_expand_okm(
            archive_root@,
            "chat-storage/archive-epoch/v1".spec_bytes() + u64_be(epoch_id),
        ),
{
    let be = u64_be_bytes(epoch_id);
    let info = info_with("chat-storage/archive-epoch/v1", be.as_slice());
    hkdf_expand(archive_root, info.as_slice())
}

/// Derive the per-account `K_conversation_hash` from `K_search_root`.
pub fn derive_conversation_hash_key(search_root: &Key32) -> (k: Key32)
    ensures
        k@ == hkdf_sha256_expand_okm(search_root@, "chat-storage/conversation-hash/v1".spec_bytes()),
{
    hkdf_expand(search_root, "chat-storage/conversation-hash/v1".as_bytes())
}

/// Derive `K_archive_epoch(epoch_id)` from `K_archive_root` with a textual
/// epoch id (for example `"epoch-0"`).
pub fn derive_archive_epoch_key(archive_root: &Key32, epoch_id: &str) -> (k: Key32)
    ensures
        k@ == hkdf_sha256_expand_okm(archive_root@, "chat-storage/archive-epoch/v1".spec_bytes() + epoch_id.spec_bytes()),
{
    let info = info_with("chat-storage/archive-epoch/v1", epoch_id.as_bytes());
    hkdf_expand(archive_root, info.as_slice())
}

/// Derive `K_archive_segment(segment_id)` from an epoch key with a textual
/// segment id.
pub fn derive_archive_segment_key(epoch_key: &Key32, segment_id: &str) -> (k: Key32)
    ensures
        k@ == hkdf_sha256_expand_okm(epoch_key@, "chat-storage/archive-segment/v1".spec_bytes() + segment_id.spec_bytes()),
{
    let info = info_with("chat-storage/archive-segment/v1", segment_id.as_bytes());
    hkdf_expand(epoch_key, info.as_slice())
}

/// Derive `K_archive_manifest(manifest_id)` from an epoch key with a textual
/// manifest id.
pub fn derive_archive_manifest_key(epoch_key: &Key32, manifest_id: &str) -> (k: Key32)
    ensures
        k@ == hkdf_sha256_expand_okm(epoch_key@, "chat-storage/archive-manifest/v1".spec_bytes() + manifest_id.spec_bytes()),
{
    let info = info_with("chat-storage/archive-manifest/v1", manifest_id.as_bytes());
    hkdf_expand(epoch_key, info.as_slice())
}

// ---------------------------------------------------------------------------
// Two-identifier derivations
// ---------------------------------------------------------------------------

/// Derive a stable per-`(conversation_id, time_bucket)` text-index shard key
/// from `K_search_root`.
pub fn derive_text_index_shard_for_bucket(search_root: &Key32, conversation_id: &str, time_bucket: &str) -> (k: Key32)
    ensures
        k@ == hkdf_sha256_expand_okm(
            search_root@,
            two_id_info("chat-storage/text-index-bucket/v1".spec_bytes(), conversation_id.spec_bytes(), time_bucket.spec_bytes()),
        ),
{
    derive_with_two_ids(search_root, "chat-storage/text-index-bucket/v1", conversation_id.as_bytes(), time_bucket.as_bytes())
}

/// Derive a stable per-`(conversation_id, time_bucket)` fuzzy-index shard key
/// from `K_search_root`.
pub fn derive_fuzzy_index_shard_for_bucket(search_root: &Key32, conversation_id: &str, time_bucket: &str) -> (k: Key32)
    ensures
        k@ == hkdf_sha256_expand_okm(
            search_root@,
            two_id_info("chat-storage/fuzzy-index-bucket/v1".spec_bytes(), conversation_id.spec_bytes(), time_bucket.spec_bytes()),
        ),
{
    derive_with_two_ids(search_root, "chat-storage/fuzzy-index-bucket/v1", conversation_id.as_bytes(), time_bucket.as_bytes())
}

/// Derive `K_b2b_archive_epoch(tenant_id, epoch_id)` from a per-tenant root.
pub fn derive_b2b_archive_epoch(k_tenant_root: &Key32, tenant_id: &str, epoch_id: &str) -> (k: Key32)
    ensures
        k@ == hkdf_sha256_expand_okm(
            k_tenant_root@,
            two_id_info("chat-storage/b2b-archive-epoch/v1".spec_bytes(), tenant_id.spec_bytes(), epoch_id.spec_bytes()),
        ),
{
    derive_with_two_ids(k_tenant_root, "chat-storage/b2b-archive-epoch/v1", tenant_id.as_bytes(), epoch_id.as_bytes())
}

/// Derive `K_b2b_text_index_shard(tenant_id, shard_id)` from `K_search_root`.
pub fn derive_b2b_text_index_shard(k_search_root: &Key32, tenant_id: &str, shard_id: &str) -> (k: Key32)
    ensures
        k@ == hkdf_sha256_expand_okm(
            k_search_root@,
            two_id_info("chat-storage/b2b-text-index-shard/v1".spec_bytes(), tenant_id.spec_bytes(), shard_id.spec_bytes()),
        ),
{
    derive_with_two_ids(k_search_root, "chat-storage/b2b-text-index-shard/v1", tenant_id.as_bytes(), shard_id.as_bytes())
}

/// Derive `K_b2b_tenant_root(tenant_id)` from the wrapping key.
pub fn derive_b2b_tenant_root(wrapping_key: &Key32, tenant_id: &str) -> (k: Key32)
    ensures
        k@ == hkdf_sha256_okm(
            wrapping_key@,
            "chat-storage/b2b-tenant-root/v1".spec_bytes() + tenant_id.spec_bytes(),
        ),
{
    let info = info_with("chat-storage/b2b-tenant-root/v1", tenant_id.as_bytes());
    hkdf_derive(wrapping_key, info.as_slice())
}

// ---------------------------------------------------------------------------
// Epoch keys under the archive root
// ---------------------------------------------------------------------------

/// `K_archive_epoch` for a textual epoch id, as [`derive_archive_epoch_key`]
/// derives it.
pub open spec fn archive_epoch_key(archive_root: Seq<u8>, epoch_id: Seq<char>) -> Seq<u8> {
    hkdf_sha256_expand_okm(archive_root, "chat-storage/archive-epoch/v1".spec_bytes() + encode_utf8(epoch_id))
}

/// Wrap an epoch key under `K_archive_root` using AES-256-KW.
pub fn wrap_epoch_key(archive_root: &Key32, epoch_key: &Key32) -> (r: Result<Vec<u8>, CryptoError>)
    ensures
        r is Ok,
        r matches Ok(w) ==> w@ == aes256_kw_wrap(archive_root@, epoch_key@) && w@.len() == WRAPPED_KEY_LEN,
{
    wrap_key(archive_root, epoch_key)
}

/// Unwrap a wrapped epoch key produced by [`wrap_epoch_key`].
pub fn unwrap_epoch_key(archive_root: &Key32, wrapped: &[u8]) -> (r: Result<Key32, CryptoError>)
    ensures
        wrapped@.len() != WRAPPED_KEY_LEN ==> r matches Err(CryptoError::InvalidInput(_)),
        r matches Ok(k) ==> aes256_kw_wrap(archive_root@, k@) == wrapped@,
        r matches Err(e) ==> (e is InvalidInput || e is KeyWrap),
        forall|k: Seq<u8>|
            k.len() == 32 && #[trigger] aes256_kw_wrap(archive_root@, k) == wrapped@
                && wrapped@.len() == WRAPPED_KEY_LEN ==> (r is Ok && r->Ok_0@ == k),
{
    unwrap_key(archive_root, wrapped)
}

// ---------------------------------------------------------------------------
// Epoch rotation
// ---------------------------------------------------------------------------

/// Canonical epoch-id prefix.
pub const EPOCH_ID_PREFIX: &'static str = "epoch-";

/// Default rotation cadence: 30 days, in milliseconds ("monthly").
pub const DEFAULT_EPOCH_CADENCE_MS: i64 = 30 * 24 * 60 * 60 * 1000;

/// The characters of [`EPOCH_ID_PREFIX`].
pub open spec fn epoch_prefix() -> Seq<char> {
    seq!['e', 'p', 'o', 'c', 'h', '-']
}

/// The counter of a well-formed epoch id `epoch-<u64>`: the text after the
/// prefix read as `u64::from_str` reads it.
pub open spec fn epoch_counter(epoch_id: Seq<char>) -> Option<u64> {
    if epoch_id.len() >= 6 && epoch_id.take(6) == epoch_prefix() {
        parse_u64(epoch_id.skip(6))
    } else {
        None
    }
}

/// The canonical epoch id for counter `n`.
pub open spec fn epoch_id_of(n: nat) -> Seq<char> {
    epoch_prefix() + decimal(n)
}

/// The counter of a canonical epoch id is the number it was made from.
pub proof fn lemma_epoch_id_round_trip(n: u64)
    ensures
        epoch_counter(epoch_id_of(n as nat)) == Some(n),
{
    lemma_parse_decimal(n);
    let id = epoch_id_of(n as nat);
    assert(id.take(6) =~= epoch_prefix());
    assert(id.skip(6) =~= decimal(n as nat));
}

/// `a - b` clamped to the `i64` range, as `i64::saturating_sub` computes it.
pub open spec fn saturating_sub_i64(a: i64, b: i64) -> int {
    let d = a - b;
    if d > i64::MAX {
        i64::MAX as int
    } else if d < i64::MIN {
        i64::MIN as int
    } else {
        d
    }
}

/// The rotation predicate: at least `max(cadence, 1)` ms have passed since
/// the last rotation.
pub open spec fn rotation_due(last_rotation_ms: i64, now_ms: i64, cadence_ms: i64) -> bool {
    saturating_sub_i64(now_ms, last_rotation_ms) >= (if cadence_ms >= 1 { cadence_ms as int } else { 1 })
}

fn parse_epoch_counter(epoch_id: &str) -> (r: Result<u64, CryptoError>)
    ensures
        r matches Ok(n) ==> epoch_counter(epoch_id@) == Some(n),
        r is Err ==> epoch_counter(epoch_id@) is None,
        r matches Err(e) ==> e matches CryptoError::InvalidInput(m) && m@ == "epoch id must be of the form 'epoch-<u64>'"@,
{
    let cs = chars_of(epoch_id);
    let prefix = chars_of(EPOCH_ID_PREFIX);
    proof {
        reveal_strlit("epoch-");
        assert(prefix@ =~= epoch_prefix());
    }
    if !occurs_at_exec(&cs, &prefix, 0) {
        return Err(CryptoError::InvalidInput("epoch id must be of the form 'epoch-<u64>'"));
    }
    match parse_u64_from(&cs, 6) {
        Some(n) => Ok(n),
        None => Err(CryptoError::InvalidInput("epoch id must be of the form 'epoch-<u64>'")),
    }
}

/// Tracks the current archive epoch and decides when to roll it forward.
#[derive(Debug, Clone)]
pub struct EpochRotator {
    current_epoch_id: String,
    last_rotation_ms: i64,
    cadence_ms: i64,
}

impl View for EpochRotator {
    /// `(current epoch id, last rotation ms, cadence ms)`.
    type V = (Seq<char>, i64, i64);

    closed spec fn view(&self) -> (Seq<char>, i64, i64) {
        (self.current_epoch_id@, self.last_rotation_ms, self.cadence_ms)
    }
}

impl EpochRotator {
    /// Epoch id a brand-new archive starts at.
    pub const INITIAL_EPOCH_ID: &'static str = "epoch-0";

    /// Build a rotator with an explicit cadence (at least 1 ms).
    pub fn new(current_epoch_id: &str, last_rotation_ms: i64, cadence_ms: i64) -> (r: Self)
        ensures
            r@ == (current_epoch_id@, last_rotation_ms, if cadence_ms >= 1 { cadence_ms } else { 1i64 }),
    {
        EpochRotator {
            current_epoch_id: current_epoch_id.to_owned(),
            last_rotation_ms,
            cadence_ms: if cadence_ms >= 1 { cadence_ms } else { 1 },
        }
    }

    /// Build a rotator with the default monthly cadence.
    pub fn with_monthly_cadence(current_epoch_id: &str, last_rotation_ms: i64) -> (r: Self)
        ensures
            r@ == (current_epoch_id@, last_rotation_ms, DEFAULT_EPOCH_CADENCE_MS),
    {
        Self::new(current_epoch_id, last_rotation_ms, DEFAULT_EPOCH_CADENCE_MS)
    }

    /// Build a rotator from a persisted or untrusted epoch id, which must be
    /// of the form `epoch-<u64>`.
    pub fn try_new(current_epoch_id: &str, last_rotation_ms: i64, cadence_ms: i64) -> (r: Result<Self, CryptoError>)
        ensures
            r is Ok <==> epoch_counter(current_epoch_id@) is Some,
            r matches Ok(v) ==> v@ == (current_epoch_id@, last_rotation_ms, if cadence_ms >= 1 { cadence_ms } else { 1i64 }),
            r matches Err(e) ==> e matches CryptoError::InvalidInput(m) && m@ == "epoch id must be of the form 'epoch-<u64>'"@,
    {
        match parse_epoch_counter(current_epoch_id) {
            Ok(_) => Ok(Self::new(current_epoch_id, last_rotation_ms, cadence_ms)),
            Err(e) => Err(e),
        }
    }

    /// Validating counterpart to [`EpochRotator::with_monthly_cadence`].
    pub fn try_with_monthly_cadence(current_epoch_id: &str, last_rotation_ms: i64) -> (r: Result<Self, CryptoError>)
        ensures
            r is Ok <==> epoch_counter(current_epoch_id@) is Some,
            r matches Ok(v) ==> v@ == (current_epoch_id@, last_rotation_ms, DEFAULT_EPOCH_CADENCE_MS),
            r matches Err(e) ==> e is InvalidInput,
    {
        Self::try_new(current_epoch_id, last_rotation_ms, DEFAULT_EPOCH_CADENCE_MS)
    }

    /// The current epoch id.
    pub fn current_epoch_id(&self) -> (r: &str)
        ensures
            r@ == self@.0,
    {
        self.current_epoch_id.as_str()
    }

    /// Wall-clock ms of the most recent rotation.
    pub fn last_rotation_ms(&self) -> (r: i64)
        ensures
            r == self@.1,
    {
        self.last_rotation_ms
    }

    /// Configured rotation cadence in ms.
    pub fn cadence_ms(&self) -> (r: i64)
        ensures
            r == self@.2,
    {
        self.cadence_ms
    }

    /// Pure cadence predicate: `now - last >= max(cadence, 1)`, the
    /// difference saturating at the `i64` bounds.
    pub fn should_rotate(last_rotation_ms: i64, now_ms: i64, cadence_ms: i64) -> (r: bool)
        ensures
            r == rotation_due(last_rotation_ms, now_ms, cadence_ms),
    {
        let d: i128 = now_ms as i128 - last_rotation_ms as i128;
        let elapsed: i64 = if d > 9223372036854775807i128 {
            9223372036854775807i64
        } else if d < -9223372036854775808i128 {
            -9223372036854775808i64
        } else {
            d as i64
        };
        let cadence: i64 = if cadence_ms >= 1 { cadence_ms } else { 1 };
        elapsed >= cadence
    }

    /// Whether this rotator is due to rotate as of `now_ms`.
    pub fn is_due(&self, now_ms: i64) -> (r: bool)
        ensures
            r == rotation_due(self@.1, now_ms, self@.2),
    {
        Self::should_rotate(self.last_rotation_ms, now_ms, self.cadence_ms)
    }

    /// Compute the next epoch id from `current_epoch_id`: `epoch-<n>` becomes
    /// `epoch-<n+1>`.
    pub fn rotate_epoch(current_epoch_id: &str) -> (r: Result<String, CryptoError>)
        ensures
            r is Ok <==> (epoch_counter(current_epoch_id@) matches Some(n) && n < u64::MAX),
            r matches Ok(s) ==> (epoch_counter(current_epoch_id@) matches Some(n) && s@ == epoch_id_of((n + 1) as nat)),
            r matches Err(e) ==> e is InvalidInput,
            epoch_counter(current_epoch_id@) is None ==> (r matches Err(CryptoError::InvalidInput(m))
                && m@ == "epoch id must be of the form 'epoch-<u64>'"@),
            epoch_counter(current_epoch_id@) == Some(u64::MAX) ==> (r matches Err(CryptoError::InvalidInput(m))
                && m@ == "epoch counter overflow"@),
    {
        let n = match parse_epoch_counter(current_epoch_id) {
            Ok(n) => n,
            Err(e) => return Err(e),
        };
        let next = match n.checked_add(1) {
            Some(v) => v,
            None => return Err(CryptoError::InvalidInput("epoch counter overflow")),
        };
        let mut out = EPOCH_ID_PREFIX.to_owned();
        proof {
            reveal_strlit("epoch-");
        }
        push_decimal(&mut out, next);
        assert(out@ =~= epoch_id_of(next as nat));
        Ok(out)
    }

    /// Roll forward to the next epoch: the id advances by one, the rotation
    /// time becomes `now_ms`, and the new epoch's key is returned.
    pub fn rotate(&mut self, k_archive_root: &Key32, now_ms: i64) -> (r: Result<(String, Key32), CryptoError>)
        ensures
            r is Ok <==> (epoch_counter(old(self)@.0) matches Some(n) && n < u64::MAX),
            r matches Ok((id, key)) ==> (epoch_counter(old(self)@.0) matches Some(n) && id@ == epoch_id_of((n + 1) as nat)
                && key@ == archive_epoch_key(k_archive_root@, id@)
                && final(self)@ == (id@, now_ms, old(self)@.2)),
            r is Err ==> final(self)@ == old(self)@,
            r matches Err(e) ==> e is InvalidInput,
            epoch_counter(old(self)@.0) is None ==> (r matches Err(CryptoError::InvalidInput(m))
                && m@ == "epoch id must be of the form 'epoch-<u64>'"@),
            epoch_counter(old(self)@.0) == Some(u64::MAX) ==> (r matches Err(CryptoError::InvalidInput(m))
                && m@ == "epoch counter overflow"@),
    {
        let next_id = match Self::rotate_epoch(self.current_epoch_id.as_str()) {
            Ok(id) => id,
            Err(e) => return Err(e),
        };
        let key = derive_archive_epoch_key(k_archive_root, next_id.as_str());
        self.current_epoch_id = next_id.clone();
        self.last_rotation_ms = now_ms;
        Ok((next_id, key))
    }

    /// Derive the key for the current epoch without rotating.
    pub fn current_epoch_key(&self, k_archive_root: &Key32) -> (k: Key32)
        ensures
            k@ == archive_epoch_key(k_archive_root@, self@.0),
    {
        derive_archive_epoch_key(k_archive_root, self.current_epoch_id.as_str())
    }
}

/// Rotating a canonical epoch id advances its counter by exactly one.
pub proof fn lemma_rotation_advances_counter(n: u64)
    requires
        n < u64::MAX,
    ensures
        epoch_counter(epoch_id_of((n + 1) as nat)) == Some((n + 1) as u64),
{
    lemma_epoch_id_round_trip((n + 1) as u64);
}

// ---------------------------------------------------------------------------
// Domain separation
// ---------------------------------------------------------------------------

/// Different texts have different UTF-8 encodings.
pub proof fn lemma_encode_utf8_injective(s1: Seq<char>, s2: Seq<char>)
    ensures
        encode_utf8(s1) == encode_utf8(s2) ==> s1 == s2,
{
    broadcast use vstd::utf8::encode_utf8_decode_utf8;
    if encode_utf8(s1) == encode_utf8(s2) {
        assert(vstd::utf8::decode_utf8(encode_utf8(s1)) == s1);
        assert(vstd::utf8::decode_utf8(encode_utf8(s2)) == s2);
    }
}

proof fn lemma_u32_be_injective(x: u32, y: u32)
    requires
        u32_be(x) == u32_be(y),
    ensures
        x == y,
{
    assert(u32_be(x)[0] == u32_be(y)[0]);
    assert(u32_be(x)[1] == u32_be(y)[1]);
    assert(u32_be(x)[2] == u32_be(y)[2]);
    assert(u32_be(x)[3] == u32_be(y)[3]);
    assert(x == y) by (bit_vector)
        requires
            (x >> 24u32) as u8 == (y >> 24u32) as u8,
            (x >> 16u32) as u8 == (y >> 16u32) as u8,
            (x >> 8u32) as u8 == (y >> 8u32) as u8,
            x as u8 == y as u8,
    ;
}

/// The info of a two-identifier derivation determines both identifiers:
/// the first identifier's length prefix keeps `(a, b)` pairs apart whose
/// concatenations agree (identifiers up to `u32::MAX` bytes).
pub proof fn lemma_two_id_info_injective(label: Seq<u8>, a1: Seq<u8>, b1: Seq<u8>, a2: Seq<u8>, b2: Seq<u8>)
    requires
        a1.len() <= u32::MAX,
        a2.len() <= u32::MAX,
        two_id_info(label, a1, b1) == two_id_info(label, a2, b2),
    ensures
        a1 == a2,
        b1 == b2,
{
    let i1 = two_id_info(label, a1, b1);
    let i2 = two_id_info(label, a2, b2);
    let n = label.len() as int;
    assert(i1.subrange(n, n + 4) =~= u32_be(a1.len() as u32));
    assert(i2.subrange(n, n + 4) =~= u32_be(a2.len() as u32));
    lemma_u32_be_injective(a1.len() as u32, a2.len() as u32);
    assert(a1 =~= i1.subrange(n + 4, n + 4 + a1.len()));
    assert(a2 =~= i2.subrange(n + 4, n + 4 + a2.len()));
    assert(b1 =~= i1.skip(n + 4 + a1.len()));
    assert(b2 =~= i2.skip(n + 4 + a2.len()));
}

/// Two infos that start with labels differing at a position inside both
/// labels differ, whatever follows the labels.
proof fn lemma_label_prefix_separates(l1: Seq<u8>, l2: Seq<u8>, r1: Seq<u8>, r2: Seq<u8>, i: int)
    requires
        0 <= i < l1.len(),
        i < l2.len(),
        l1[i] != l2[i],
    ensures
        l1 + r1 != l2 + r2,
{
    assert((l1 + r1)[i] == l1[i]);
    assert((l2 + r2)[i] == l2[i]);
}

/// The byte after the `chat-storage/` prefix of an ASCII label.
proof fn lemma_label_byte_13(label: &str, c: char)
    requires
        label@.len() > 13,
        vstd::string::is_ascii(label),
        label@[13] == c,
    ensures
        label.spec_bytes().len() == label@.len(),
        label.spec_bytes()[13] == c as u8,
{
    broadcast use vstd::string::is_ascii_spec_bytes;
}

/// The five root keys are derived from pairwise different HKDF infos.
pub proof fn lemma_root_infos_distinct()
    ensures
        "chat-storage/archive-root/v1".spec_bytes() != "chat-storage/backup-root/v1".spec_bytes(),
        "chat-storage/archive-root/v1".spec_bytes() != "chat-storage/search-root/v1".spec_bytes(),
        "chat-storage/archive-root/v1".spec_bytes() != "chat-storage/local-db/v1".spec_bytes(),
        "chat-storage/archive-root/v1".spec_bytes() != "chat-storage/media-root/v1".spec_bytes(),
        "chat-storage/backup-root/v1".spec_bytes() != "chat-storage/search-root/v1".spec_bytes(),
        "chat-storage/backup-root/v1".spec_bytes() != "chat-storage/local-db/v1".spec_bytes(),
        "chat-storage/backup-root/v1".spec_bytes() != "chat-storage/media-root/v1".spec_bytes(),
        "chat-storage/search-root/v1".spec_bytes() != "chat-storage/local-db/v1".spec_bytes(),
        "chat-storage/search-root/v1".spec_bytes() != "chat-storage/media-root/v1".spec_bytes(),
        "chat-storage/local-db/v1".spec_bytes() != "chat-storage/media-root/v1".spec_bytes(),
{
    reveal_strlit("chat-storage/archive-root/v1");
    reveal_strlit("chat-storage/backup-root/v1");
    reveal_strlit("chat-storage/search-root/v1");
    reveal_strlit("chat-storage/local-db/v1");
    reveal_strlit("chat-storage/media-root/v1");
    lemma_label_byte_13("chat-storage/archive-root/v1", 'a');
    lemma_label_byte_13("chat-storage/backup-root/v1", 'b');
    lemma_label_byte_13("chat-storage/search-root/v1", 's');
    lemma_label_byte_13("chat-storage/local-db/v1", 'l');
    lemma_label_byte_13("chat-storage/media-root/v1", 'm');
}

/// For any shard ids, the text, vector, media, fuzzy and bloom shard keys
/// under one search root are derived from pairwise different HKDF infos.
pub proof fn lemma_shard_infos_disjoint(a: Seq<u8>, b: Seq<u8>)
    ensures
        "chat-storage/text-index-shard/v1".spec_bytes() + a != "chat-storage/vector-index-shard/v1".spec_bytes() + b,
        "chat-storage/text-index-shard/v1".spec_bytes() + a != "chat-storage/media-index-shard/v1".spec_bytes() + b,
        "chat-storage/text-index-shard/v1".spec_bytes() + a != "chat-storage/fuzzy-index-shard/v1".spec_bytes() + b,
        "chat-storage/text-index-shard/v1".spec_bytes() + a != "chat-storage/bloom-index-shard/v1".spec_bytes() + b,
        "chat-storage/vector-index-shard/v1".spec_bytes() + a != "chat-storage/media-index-shard/v1".spec_bytes() + b,
        "chat-storage/vector-index-shard/v1".spec_bytes() + a != "chat-storage/fuzzy-index-shard/v1".spec_bytes() + b,
        "chat-storage/vector-index-shard/v1".spec_bytes() + a != "chat-storage/bloom-index-shard/v1".spec_bytes() + b,
        "chat-storage/media-index-shard/v1".spec_bytes() + a != "chat-storage/fuzzy-index-shard/v1".spec_bytes() + b,
        "chat-storage/media-index-shard/v1".spec_bytes() + a != "chat-storage/bloom-index-shard/v1".spec_bytes() + b,
        "chat-storage/fuzzy-index-shard/v1".spec_bytes() + a != "chat-storage/bloom-index-shard/v1".spec_bytes() + b,
{
    reveal_strlit("chat-storage/text-index-shard/v1");
    reveal_strlit("chat-storage/vector-index-shard/v1");
    reveal_strlit("chat-storage/media-index-shard/v1");
    reveal_strlit("chat-storage/fuzzy-index-shard/v1");
    reveal_strlit("chat-storage/bloom-index-shard/v1");
    let t = "chat-storage/text-index-shard/v1";
    let v = "chat-storage/vector-index-shard/v1";
    let m = "chat-storage/media-index-shard/v1";
    let f = "chat-storage/fuzzy-index-shard/v1";
    let bl = "chat-storage/bloom-index-shard/v1";
    lemma_label_byte_13(t, 't');
    lemma_label_byte_13(v, 'v');
    lemma_label_byte_13(m, 'm');
    lemma_label_byte_13(f, 'f');
    lemma_label_byte_13(bl, 'b');
    lemma_label_prefix_separates(t.spec_bytes(), v.spec_bytes(), a, b, 13);
    lemma_label_prefix_separates(t.spec_bytes(), m.spec_bytes(), a, b, 13);
    lemma_label_prefix_separates(t.spec_bytes(), f.spec_bytes(), a, b, 13);
    lemma_label_prefix_separates(t.spec_bytes(), bl.spec_bytes(), a, b, 13);
    lemma_label_prefix_separates(v.spec_bytes(), m.spec_bytes(), a, b, 13);
    lemma_label_prefix_separates(v.spec_bytes(), f.spec_bytes(), a, b, 13);
    lemma_label_prefix_separates(v.spec_bytes(), bl.spec_bytes(), a, b, 13);
    lemma_label_prefix_separates(m.spec_bytes(), f.spec_bytes(), a, b, 13);
    lemma_label_prefix_separates(m.spec_bytes(), bl.spec_bytes(), a, b, 13);
    lemma_label_prefix_separates(f.spec_bytes(), bl.spec_bytes(), a, b, 13);
}

/// For any bucket, the text and fuzzy bucket shard keys are derived from
/// different HKDF infos, and two buckets of one kind share an info only when
/// their conversation ids and time buckets are equal.
pub proof fn lemma_bucket_infos_separate(c1: Seq<char>, t1: Seq<char>, c2: Seq<char>, t2: Seq<char>)
    requires
        encode_utf8(c1).len() <= u32::MAX,
        encode_utf8(c2).len() <= u32::MAX,
    ensures
        two_id_info("chat-storage/text-index-bucket/v1".spec_bytes(), encode_utf8(c1), encode_utf8(t1))
            != two_id_info("chat-storage/fuzzy-index-bucket/v1".spec_bytes(), encode_utf8(c2), encode_utf8(t2)),
        two_id_info("chat-storage/text-index-bucket/v1".spec_bytes(), encode_utf8(c1), encode_utf8(t1))
            == two_id_info("chat-storage/text-index-bucket/v1".spec_bytes(), encode_utf8(c2), encode_utf8(t2))
            ==> c1 == c2 && t1 == t2,
{
    let tl = "chat-storage/text-index-bucket/v1";
    let fl = "chat-storage/fuzzy-index-bucket/v1";
    reveal_strlit("chat-storage/text-index-bucket/v1");
    reveal_strlit("chat-storage/fuzzy-index-bucket/v1");
    lemma_label_byte_13(tl, 't');
    lemma_label_byte_13(fl, 'f');
    let r1 = u32_be(id_len_prefix(encode_utf8(c1).len())) + encode_utf8(c1) + encode_utf8(t1);
    let r2 = u32_be(id_len_prefix(encode_utf8(c2).len())) + encode_utf8(c2) + encode_utf8(t2);
    assert(two_id_info(tl.spec_bytes(), encode_utf8(c1), encode_utf8(t1)) =~= tl.spec_bytes() + r1);
    assert(two_id_info(fl.spec_bytes(), encode_utf8(c2), encode_utf8(t2)) =~= fl.spec_bytes() + r2);
    lemma_label_prefix_separates(tl.spec_bytes(), fl.spec_bytes(), r1, r2, 13);
    if two_id_info(tl.spec_bytes(), encode_utf8(c1), encode_utf8(t1)) == two_id_info(tl.spec_bytes(), encode_utf8(c2), encode_utf8(t2)) {
        lemma_two_id_info_injective(tl.spec_bytes(), encode_utf8(c1), encode_utf8(t1), encode_utf8(c2), encode_utf8(t2));
        lemma_encode_utf8_injective(c1, c2);
        lemma_encode_utf8_injective(t1, t2);
    }
}

/// Distinct tenants get their roots from distinct HKDF infos.
pub proof fn lemma_tenant_infos_distinct(t1: Seq<char>, t2: Seq<char>)
    requires
        t1 != t2,
    ensures
        "chat-storage/b2b-tenant-root/v1".spec_bytes() + encode_utf8(t1) != "chat-storage/b2b-tenant-root/v1".spec_bytes() + encode_utf8(t2),
{
    let l = "chat-storage/b2b-tenant-root/v1".spec_bytes();
    lemma_encode_utf8_injective(t1, t2);
    if l + encode_utf8(t1) == l + encode_utf8(t2) {
        assert(encode_utf8(t1) =~= (l + encode_utf8(t1)).skip(l.len() as int));
        assert(encode_utf8(t2) =~= (l + encode_utf8(t2)).skip(l.len() as int));
    }
}

} // verus!
