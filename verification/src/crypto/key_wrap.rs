//! AES-256-KW key wrapping (NIST 800-38F / RFC 3394).
//!
//! A 32-byte key wrapped under a 32-byte key-encryption key gives exactly
//! 40 bytes: the key plus an 8-byte integrity check value.

use aes_kw::KekAes256;
use vstd::prelude::*;

use super::{CryptoError, Key32, KEY_LEN};

verus! {

/// Length of a wrapped 32-byte key: the key plus the 8-byte integrity value.
pub const WRAPPED_KEY_LEN: usize = KEY_LEN + 8;

/// The RFC 3394 wrapping of `key` under the key-encryption key `kek`.
pub uninterp spec fn aes256_kw_wrap(kek: Seq<u8>, key: Seq<u8>) -> Seq<u8>;

/// `KekAes256::from(kek).wrap(key, out)` with a 40-byte `out`; an error is
/// handed on as its display text.
/// Claimed: the call succeeds (the crate refuses only inputs whose length is
/// not a multiple of 8 and outputs whose length is not the input's plus 8,
/// neither of which can happen here) and writes `aes256_kw_wrap(kek, key)`,
/// which is 40 bytes long.
#[verifier::external_body]
fn kw_wrap(kek: &Key32, key: &Key32) -> (r: Result<Vec<u8>, String>)
    ensures
        r is Ok,
        r matches Ok(out) ==> out@ == aes256_kw_wrap(kek@, key@) && out@.len() == 40,
{
    let mut out = vec![0u8; 40];
    match KekAes256::from(*kek).wrap(key, &mut out) {
        Ok(()) => Ok(out),
        Err(e) => Err(e.to_string()),
    }
}

/// `KekAes256::from(kek).unwrap(wrapped, out)` with a 32-byte `out`.
/// Claimed, for a 40-byte input: unwrapping is the inverse of wrapping. When
/// the integrity check passes, wrapping the result gives the input back; and
/// when the input is the wrapping of some 32-byte key under `kek`, the check
/// passes and that key comes out.
#[verifier::external_body]
fn kw_unwrap(kek: &Key32, wrapped: &[u8]) -> (r: Result<Key32, String>)
    requires
        wrapped@.len() == 40,
    ensures
        r matches Ok(k) ==> aes256_kw_wrap(kek@, k@) == wrapped@,
        forall|k: Seq<u8>| k.len() == 32 && #[trigger] aes256_kw_wrap(kek@, k) == wrapped@ ==> (r is Ok && r->Ok_0@ == k),
{
    let mut out = [0u8; 32];
    match KekAes256::from(*kek).unwrap(wrapped, &mut out) {
        Ok(()) => Ok(out),
        Err(e) => Err(e.to_string()),
    }
}

/// Wrap `key_to_wrap` under `wrapping_key` using AES-256-KW (RFC 3394).
/// The output is exactly [`WRAPPED_KEY_LEN`] bytes.
pub fn wrap_key(wrapping_key: &Key32, key_to_wrap: &Key32) -> (r: Result<Vec<u8>, CryptoError>)
    ensures
        r is Ok,
        r matches Ok(w) ==> w@ == aes256_kw_wrap(wrapping_key@, key_to_wrap@) && w@.len()
            == WRAPPED_KEY_LEN,
{
    match kw_wrap(wrapping_key, key_to_wrap) {
        Ok(out) => Ok(out),
        Err(_) => Err(CryptoError::KeyWrap("aes-kw wrap failed".to_string())),
    }
}

/// Unwrap a 32-byte key from `wrapped_key` using AES-256-KW. The wrapped
/// input must be exactly [`WRAPPED_KEY_LEN`] bytes.
pub fn unwrap_key(wrapping_key: &Key32, wrapped_key: &[u8]) -> (r: Result<Key32, CryptoError>)
    ensures
        wrapped_key@.len() != WRAPPED_KEY_LEN ==> r matches Err(CryptoError::InvalidInput(_)),
        r matches Ok(k) ==> wrapped_key@.len() == WRAPPED_KEY_LEN && aes256_kw_wrap(
            wrapping_key@,
            k@,
        ) == wrapped_key@,
        r matches Err(e) ==> (e is InvalidInput || e is KeyWrap),
        forall|k: Seq<u8>|
            k.len() == 32 && #[trigger] aes256_kw_wrap(wrapping_key@, k) == wrapped_key@
                && wrapped_key@.len() == WRAPPED_KEY_LEN ==> (r is Ok && r->Ok_0@ == k),
{
    if wrapped_key.len() != WRAPPED_KEY_LEN {
        return Err(CryptoError::InvalidInput("aes-kw unwrap: wrapped key must be 40 bytes"));
    }
    match kw_unwrap(wrapping_key, wrapped_key) {
        Ok(k) => Ok(k),
        Err(_) => Err(CryptoError::KeyWrap("aes-kw unwrap failed".to_string())),
    }
}

} // verus!
