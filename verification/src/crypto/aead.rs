//! AEAD helpers: XChaCha20-Poly1305 for archive, backup and search data,
//! AES-256-GCM for hot paths.

use aes_gcm::{Aes256Gcm, Nonce as AesNonce};
use chacha20poly1305::{
    aead::{Aead, KeyInit, Payload},
    XChaCha20Poly1305, XNonce,
};
use rand::RngCore;
use vstd::prelude::*;

use super::{CryptoError, Key32, Nonce12, Nonce24};

verus! {

/// Length of the authentication tag appended to every ciphertext.
pub const TAG_LEN: usize = 16;

/// XChaCha20-Poly1305 encryption of `plaintext` with `aad`: the ciphertext
/// followed by the 16-byte tag.
pub uninterp spec fn xchacha20poly1305_seal(key: Seq<u8>, nonce: Seq<u8>, plaintext: Seq<u8>, aad: Seq<u8>) -> Seq<u8>;

/// AES-256-GCM encryption of `plaintext` with `aad`: the ciphertext followed
/// by the 16-byte tag.
pub uninterp spec fn aes256gcm_seal(key: Seq<u8>, nonce: Seq<u8>, plaintext: Seq<u8>, aad: Seq<u8>) -> Seq<u8>;

/// The message lengths XChaCha20-Poly1305 accepts: fewer than `u32::MAX`
/// 64-byte blocks.
pub open spec fn xchacha_len_ok(len: nat) -> bool {
    len / 64 < u32::MAX
}

/// The lengths AES-256-GCM accepts: at most 2^36 bytes of message and of
/// associated data.
pub open spec fn aes_gcm_len_ok(len: nat, aad_len: nat) -> bool {
    len <= 0x1_0000_0000_0 && aad_len <= 0x1_0000_0000_0
}

/// `XChaCha20Poly1305::new(key).encrypt(nonce, Payload { msg, aad })`.
/// Claimed: it fails exactly when the message has `u32::MAX` or more 64-byte
/// blocks (the cipher's only refusal), and otherwise returns
/// `xchacha20poly1305_seal(..)`, 16 bytes longer than the message. The error
/// is handed on as its display text.
#[verifier::external_body]
fn xchacha_encrypt(key: &Key32, nonce: &Nonce24, msg: &[u8], aad: &[u8]) -> (r: Result<Vec<u8>, String>)
    ensures
        r is Ok <==> xchacha_len_ok(msg@.len()),
        r matches Ok(ct) ==> ct@ == xchacha20poly1305_seal(key@, nonce@, msg@, aad@) && ct@.len() == msg@.len() + 16,
{
    let cipher = XChaCha20Poly1305::new(key.into());
    cipher.encrypt(XNonce::from_slice(nonce), Payload { msg, aad }).map_err(|e| e.to_string())
}

/// `XChaCha20Poly1305::new(key).decrypt(nonce, Payload { msg, aad })`.
/// Claimed: decryption inverts encryption. What it returns encrypts back to
/// the input under the same key, nonce and associated data; and an input
/// that is the encryption of an accepted message opens to that message.
#[verifier::external_body]
fn xchacha_decrypt(key: &Key32, nonce: &Nonce24, msg: &[u8], aad: &[u8]) -> (r: Result<Vec<u8>, String>)
    ensures
        r matches Ok(pt) ==> xchacha20poly1305_seal(key@, nonce@, pt@, aad@) == msg@,
        forall|pt: Seq<u8>| xchacha_len_ok(pt.len()) && #[trigger] xchacha20poly1305_seal(key@, nonce@, pt, aad@) == msg@ ==> (r is Ok && r->Ok_0@ == pt),
{
    let cipher = XChaCha20Poly1305::new(key.into());
    cipher.decrypt(XNonce::from_slice(nonce), Payload { msg, aad }).map_err(|e| e.to_string())
}

/// `Aes256Gcm::new(key).encrypt(nonce, Payload { msg, aad })`.
/// Claimed: it fails exactly when the message or the associated data is
/// longer than 2^36 bytes, and otherwise returns `aes256gcm_seal(..)`, 16
/// bytes longer than the message.
#[verifier::external_body]
fn aes_gcm_encrypt(key: &Key32, nonce: &Nonce12, msg: &[u8], aad: &[u8]) -> (r: Result<Vec<u8>, String>)
    ensures
        r is Ok <==> aes_gcm_len_ok(msg@.len(), aad@.len()),
        r matches Ok(ct) ==> ct@ == aes256gcm_seal(key@, nonce@, msg@, aad@) && ct@.len() == msg@.len() + 16,
{
    let cipher = Aes256Gcm::new(key.into());
    cipher.encrypt(AesNonce::from_slice(nonce), Payload { msg, aad }).map_err(|e| e.to_string())
}

/// `Aes256Gcm::new(key).decrypt(nonce, Payload { msg, aad })`.
/// Claimed: decryption inverts encryption, as for XChaCha20-Poly1305.
#[verifier::external_body]
fn aes_gcm_decrypt(key: &Key32, nonce: &Nonce12, msg: &[u8], aad: &[u8]) -> (r: Result<Vec<u8>, String>)
    ensures
        r matches Ok(pt) ==> aes256gcm_seal(key@, nonce@, pt@, aad@) == msg@,
        forall|pt: Seq<u8>| aes_gcm_len_ok(pt.len(), aad@.len()) && #[trigger] aes256gcm_seal(key@, nonce@, pt, aad@) == msg@ ==> (r is Ok && r->Ok_0@ == pt),
{
    let cipher = Aes256Gcm::new(key.into());
    cipher.decrypt(AesNonce::from_slice(nonce), Payload { msg, aad }).map_err(|e| e.to_string())
}

/// `OsRng.fill_bytes` on a 24-byte buffer. Nothing is claimed of the bytes.
#[verifier::external_body]
fn os_random_24() -> (r: [u8; 24]) {
    let mut nonce = [0u8; 24];
    rand::rngs::OsRng.fill_bytes(&mut nonce);
    nonce
}

/// `OsRng.fill_bytes` on a 12-byte buffer. Nothing is claimed of the bytes.
#[verifier::external_body]
fn os_random_12() -> (r: [u8; 12]) {
    let mut nonce = [0u8; 12];
    rand::rngs::OsRng.fill_bytes(&mut nonce);
    nonce
}

/// Seal `plaintext` with XChaCha20-Poly1305; the result is
/// `ciphertext || tag`.
pub fn seal(key: &Key32, nonce: &Nonce24, plaintext: &[u8], aad: &[u8]) -> (r: Result<Vec<u8>, CryptoError>)
    ensures
        r is Ok <==> xchacha_len_ok(plaintext@.len()),
        r matches Ok(ct) ==> ct@ == xchacha20poly1305_seal(key@, nonce@, plaintext@, aad@)
            && ct@.len() == plaintext@.len() + TAG_LEN,
        r matches Err(e) ==> e is Aead,
{
    match xchacha_encrypt(key, nonce, plaintext, aad) {
        Ok(ct) => Ok(ct),
        Err(msg) => Err(CryptoError::Aead(msg)),
    }
}

/// Open (decrypt and authenticate) XChaCha20-Poly1305 ciphertext.
pub fn open(key: &Key32, nonce: &Nonce24, ciphertext: &[u8], aad: &[u8]) -> (r: Result<Vec<u8>, CryptoError>)
    ensures
        r matches Ok(pt) ==> xchacha20poly1305_seal(key@, nonce@, pt@, aad@) == ciphertext@,
        r matches Err(e) ==> e is Aead,
        forall|pt: Seq<u8>| xchacha_len_ok(pt.len()) && #[trigger] xchacha20poly1305_seal(key@, nonce@, pt, aad@) == ciphertext@ ==> (r is Ok && r->Ok_0@ == pt),
{
    match xchacha_decrypt(key, nonce, ciphertext, aad) {
        Ok(pt) => Ok(pt),
        Err(msg) => Err(CryptoError::Aead(msg)),
    }
}

/// Seal `plaintext` with AES-256-GCM (hot path); the result is
/// `ciphertext || tag`.
pub fn seal_aes(key: &Key32, nonce: &Nonce12, plaintext: &[u8], aad: &[u8]) -> (r: Result<Vec<u8>, CryptoError>)
    ensures
        r is Ok <==> aes_gcm_len_ok(plaintext@.len(), aad@.len()),
        r matches Ok(ct) ==> ct@ == aes256gcm_seal(key@, nonce@, plaintext@, aad@)
            && ct@.len() == plaintext@.len() + TAG_LEN,
        r matches Err(e) ==> e is Aead,
{
    match aes_gcm_encrypt(key, nonce, plaintext, aad) {
        Ok(ct) => Ok(ct),
        Err(msg) => Err(CryptoError::Aead(msg)),
    }
}

/// Open (decrypt and authenticate) AES-256-GCM ciphertext.
pub fn open_aes(key: &Key32, nonce: &Nonce12, ciphertext: &[u8], aad: &[u8]) -> (r: Result<Vec<u8>, CryptoError>)
    ensures
        r matches Ok(pt) ==> aes256gcm_seal(key@, nonce@, pt@, aad@) == ciphertext@,
        r matches Err(e) ==> e is Aead,
        forall|pt: Seq<u8>| aes_gcm_len_ok(pt.len(), aad@.len()) && #[trigger] aes256gcm_seal(key@, nonce@, pt, aad@) == ciphertext@ ==> (r is Ok && r->Ok_0@ == pt),
{
    match aes_gcm_decrypt(key, nonce, ciphertext, aad) {
        Ok(pt) => Ok(pt),
        Err(msg) => Err(CryptoError::Aead(msg)),
    }
}

/// Seal taking ownership of the plaintext buffer.
pub fn seal_in_place(key: &Key32, nonce: &Nonce24, plaintext: Vec<u8>, aad: &[u8]) -> (r: Result<Vec<u8>, CryptoError>)
    ensures
        r is Ok <==> xchacha_len_ok(plaintext@.len()),
        r matches Ok(ct) ==> ct@ == xchacha20poly1305_seal(key@, nonce@, plaintext@, aad@)
            && ct@.len() == plaintext@.len() + TAG_LEN,
        r matches Err(e) ==> e is Aead,
{
    seal(key, nonce, plaintext.as_slice(), aad)
}

/// Open taking ownership of the ciphertext buffer.
pub fn open_in_place(key: &Key32, nonce: &Nonce24, ciphertext: Vec<u8>, aad: &[u8]) -> (r: Result<Vec<u8>, CryptoError>)
    ensures
        r matches Ok(pt) ==> xchacha20poly1305_seal(key@, nonce@, pt@, aad@) == ciphertext@,
        r matches Err(e) ==> e is Aead,
        forall|pt: Seq<u8>| xchacha_len_ok(pt.len()) && #[trigger] xchacha20poly1305_seal(key@, nonce@, pt, aad@) == ciphertext@ ==> (r is Ok && r->Ok_0@ == pt),
{
    open(key, nonce, ciphertext.as_slice(), aad)
}

/// A fresh random 24-byte nonce for XChaCha20-Poly1305.
pub fn random_nonce_24() -> (r: Nonce24) {
    os_random_24()
}

/// A fresh random 12-byte nonce for AES-256-GCM.
pub fn random_nonce_12() -> (r: Nonce12) {
    os_random_12()
}

} // verus!
