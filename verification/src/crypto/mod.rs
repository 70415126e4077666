//! Key hierarchy, key wrapping, AEAD sealing and content hashing.

pub mod aead;
pub mod content_hash;
pub mod key_bridge;
pub mod key_wrap;

use vstd::prelude::*;

verus! {

/// Crypto errors.
#[allow(inconsistent_fields)]
#[derive(Debug)]
pub enum CryptoError {
    /// An AEAD seal or open failed.
    Aead(String),
    /// A key derivation failed.
    Kdf(String),
    /// A key wrap or unwrap failed.
    KeyWrap(String),
    /// A key had the wrong length.
    InvalidKeyLength { expected: usize, actual: usize },
    /// A digest did not match.
    HashMismatch { expected: String, actual: String },
    /// An input was rejected before any cryptographic work.
    InvalidInput(&'static str),
    /// A frame could not be built or read.
    Frame(String),
    /// A signature check failed.
    Signature(&'static str),
}

/// 32-byte key material.
pub type Key32 = [u8; 32];

/// 24-byte nonce for XChaCha20-Poly1305.
pub type Nonce24 = [u8; 24];

/// 12-byte nonce for AES-256-GCM.
pub type Nonce12 = [u8; 12];

/// Length of every key in the hierarchy, in bytes (256 bits).
pub const KEY_LEN: usize = 32;

} // verus!
