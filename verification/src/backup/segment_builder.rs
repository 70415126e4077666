//! Sealed backup segments. A segment frame is `nonce (24 bytes) ||
//! ciphertext`, the ciphertext sealing the zstd-compressed plaintext under
//! the segment key with a fixed associated-data label.

use vstd::prelude::*;

use crate::archive::types::{compress, decompress, zstd_compressed};
use crate::crypto::aead::{open, random_nonce_24, seal, xchacha20poly1305_seal, xchacha_len_ok};
use crate::crypto::content_hash::{blake3_digest, content_hash};
use crate::crypto::Key32;
use crate::local_store::StorageError;
use crate::Error;
use vstd::string::StringSliceAdditionalSpecFns;

verus! {

/// Nonce size used by the AEAD.
pub const NONCE_SIZE: usize = 24;

/// The associated data every backup segment is sealed with.
pub open spec fn segment_aad() -> Seq<u8> {
    "chat-storage/backup-segment/v1".spec_bytes()
}

/// The frame of `plaintext` sealed under `key` with `nonce`.
pub open spec fn backup_frame(key: Seq<u8>, nonce: Seq<u8>, plaintext: Seq<u8>) -> Seq<u8> {
    nonce + xchacha20poly1305_seal(key, nonce, zstd_compressed(plaintext), segment_aad())
}

/// Build a sealed backup segment from plaintext: the compressed plaintext is
/// sealed under `segment_key` with a fresh random nonce. Returns the frame
/// `nonce || ciphertext`, the nonce, and the plaintext's BLAKE3 digest.
pub fn build_segment(plaintext: &[u8], segment_key: &Key32) -> (r: Result<(Vec<u8>, [u8; 24], [u8; 32]), Error>)
    ensures
        r matches Ok((frame, nonce, hash)) ==> frame@ == backup_frame(segment_key@, nonce@, plaintext@)
            && hash@ == blake3_digest(plaintext@) && xchacha_len_ok(zstd_compressed(plaintext@).len()),
        r is Ok <==> xchacha_len_ok(zstd_compressed(plaintext@).len()),
        r matches Err(e) ==> e is Crypto,
{
    let compressed = match compress(plaintext) {
        Ok(c) => c,
        Err(e) => return Err(e),
    };
    let nonce = random_nonce_24();
    let ciphertext = match seal(segment_key, &nonce, compressed.as_slice(), "chat-storage/backup-segment/v1".as_bytes()) {
        Ok(ct) => ct,
        Err(e) => return Err(Error::Crypto(e)),
    };
    let hash = content_hash(plaintext);
    let mut frame: Vec<u8> = Vec::new();
    frame.extend_from_slice(&nonce);
    frame.extend_from_slice(ciphertext.as_slice());
    assert(frame@ =~= nonce@ + ciphertext@);
    Ok((frame, nonce, hash))
}

/// The first 24 bytes of a frame as a nonce.
fn frame_nonce(frame: &[u8]) -> (n: [u8; 24])
    requires
        frame@.len() >= 24,
    ensures
        n@ == frame@.take(24),
{
    let mut n = [0u8; 24];
    let mut i: usize = 0;
    while i < 24
        invariant
            0 <= i <= 24,
            frame@.len() >= 24,
            n@.len() == 24,
            forall|k: int| 0 <= k < i ==> n@[k] == frame@[k],
        decreases 24 - i,
    {
        n.set(i, frame[i]);
        i = i + 1;
    }
    assert(n@ =~= frame@.take(24));
    n
}

/// The bytes of a frame after the nonce.
fn frame_body(frame: &[u8]) -> (b: Vec<u8>)
    requires
        frame@.len() >= 24,
    ensures
        b@ == frame@.skip(24),
{
    let mut b: Vec<u8> = Vec::new();
    let mut i: usize = 24;
    while i < frame.len()
        invariant
            24 <= i <= frame@.len(),
            b@ == frame@.subrange(24, i as int),
        decreases frame@.len() - i,
    {
        b.push(frame[i]);
        assert(b@ =~= frame@.subrange(24, i + 1));
        i = i + 1;
    }
    b
}

/// Open a sealed backup segment frame `nonce (24 bytes) || ciphertext`:
/// authenticate and decrypt, then decompress. Every frame that
/// [`build_segment`] produced from `p` under `segment_key` opens to `p`.
pub fn open_segment(frame: &[u8], segment_key: &Key32) -> (r: Result<Vec<u8>, Error>)
    ensures
        frame@.len() < NONCE_SIZE ==> (r matches Err(Error::Storage(StorageError::Custom(m)))
            && m@ == "backup segment too short to contain nonce"@),
        r matches Err(e) ==> (e is Storage || e is Crypto),
        forall|p: Seq<u8>, n: Seq<u8>|
            n.len() == 24 && xchacha_len_ok(zstd_compressed(p).len()) && #[trigger] backup_frame(segment_key@, n, p) == frame@
                ==> (r is Ok && r->Ok_0@ == p),
{
    if frame.len() < NONCE_SIZE {
        return Err(Error::Storage(StorageError::Custom("backup segment too short to contain nonce".to_owned())));
    }
    let nonce = frame_nonce(frame);
    let ciphertext = frame_body(frame);
    let compressed = match open(segment_key, &nonce, ciphertext.as_slice(), "chat-storage/backup-segment/v1".as_bytes()) {
        Ok(c) => c,
        Err(e) => {
            assert forall|p: Seq<u8>, n: Seq<u8>|
                n.len() == 24 && xchacha_len_ok(zstd_compressed(p).len()) && #[trigger] backup_frame(segment_key@, n, p) == frame@ implies false by {
                assert(frame@.take(24) =~= n);
                assert(frame@.skip(24) =~= xchacha20poly1305_seal(segment_key@, n, zstd_compressed(p), segment_aad()));
            }
            return Err(Error::Crypto(e));
        },
    };
    proof {
        assert forall|p: Seq<u8>, n: Seq<u8>|
            n.len() == 24 && xchacha_len_ok(zstd_compressed(p).len()) && #[trigger] backup_frame(segment_key@, n, p) == frame@ implies compressed@ == zstd_compressed(p) by {
            assert(frame@.take(24) =~= n);
            assert(frame@.skip(24) =~= xchacha20poly1305_seal(segment_key@, n, zstd_compressed(p), segment_aad()));
        }
    }
    decompress(compressed.as_slice())
}

} // verus!
