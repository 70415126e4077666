use cs_core::crypto::aead::{open, open_aes, open_in_place, random_nonce_12, random_nonce_24, seal, seal_aes, seal_in_place};
use cs_core::crypto::content_hash::{content_hash, content_hash_hex, constant_time_eq, verify_content_hash, ContentHasher};
use cs_core::crypto::key_wrap::{unwrap_key, wrap_key, WRAPPED_KEY_LEN};
use cs_core::crypto::{Key32, KEY_LEN};

fn fresh_kek() -> Key32 {
    let mut k = [0u8; KEY_LEN];
    for (i, b) in k.iter_mut().enumerate() {
        *b = (i as u8).wrapping_mul(7).wrapping_add(31);
    }
    k
}

fn fresh_k_asset() -> Key32 {
    let mut k = [0u8; KEY_LEN];
    for (i, b) in k.iter_mut().enumerate() {
        *b = (i as u8) ^ 0xA5;
    }
    k
}

#[test]
fn test_xchacha20_roundtrip() {
    let key = [0x42u8; 32];
    let nonce = random_nonce_24();
    let plaintext = b"hello world";
    let aad = b"associated data";

    let ct = seal(&key, &nonce, plaintext, aad).unwrap();
    let pt = open(&key, &nonce, &ct, aad).unwrap();

    assert_eq!(pt, plaintext);
}

#[test]
fn test_aes256gcm_roundtrip() {
    let key = [0x42u8; 32];
    let nonce = random_nonce_12();
    let plaintext = b"hello world";
    let aad = b"associated data";

    let ct = seal_aes(&key, &nonce, plaintext, aad).unwrap();
    let pt = open_aes(&key, &nonce, &ct, aad).unwrap();

    assert_eq!(pt, plaintext);
}

#[test]
fn test_aad_mismatch_fails() {
    let key = [0x42u8; 32];
    let nonce = random_nonce_24();
    let plaintext = b"hello world";
    let aad = b"correct aad";

    let ct = seal(&key, &nonce, plaintext, aad).unwrap();
    let result = open(&key, &nonce, &ct, b"wrong aad");

    assert!(result.is_err());
}

#[test]
fn seal_appends_a_sixteen_byte_tag_and_in_place_variants_agree() {
    let key = [0x07u8; 32];
    let nonce = [0x09u8; 24];
    let ct = seal(&key, &nonce, b"abc", b"").unwrap();
    assert_eq!(ct.len(), 3 + 16);
    assert_ne!(&ct[..3], b"abc");
    let ct2 = seal_in_place(&key, &nonce, b"abc".to_vec(), b"").unwrap();
    assert_eq!(ct, ct2);
    assert_eq!(open_in_place(&key, &nonce, ct2, b"").unwrap(), b"abc");
    assert!(open(&key, &nonce, &ct[..10], b"").is_err());
    let aes = seal_aes(&key, &[0x01u8; 12], b"", b"x").unwrap();
    assert_eq!(aes.len(), 16);
}

#[test]
fn test_content_hash_deterministic() {
    let h1 = content_hash(b"hello");
    let h2 = content_hash(b"hello");
    assert_eq!(h1, h2);
}

#[test]
fn test_content_hash_different_inputs() {
    let h1 = content_hash(b"hello");
    let h2 = content_hash(b"world");
    assert_ne!(h1, h2);
}

#[test]
fn test_verify_content_hash() {
    let data = b"hello world";
    let hash = content_hash(data);
    assert!(verify_content_hash(data, &hash));
    assert!(!verify_content_hash(b"wrong", &hash));
}

#[test]
fn content_hash_hex_of_empty_input_is_the_blake3_test_vector() {
    assert_eq!(
        content_hash_hex(b""),
        "af1349b9f5f9a1a6a0404dea36dcc9499bcb25c9adc112b7cc9a93cae41f3262"
    );
    assert_eq!(content_hash_hex(b"abc").len(), 64);
}

#[test]
fn constant_time_eq_compares_every_byte() {
    let a = [3u8; 32];
    let mut b = a;
    assert!(constant_time_eq(&a, &b));
    b[31] = 4;
    assert!(!constant_time_eq(&a, &b));
    b[31] = 3;
    b[0] = 0;
    assert!(!constant_time_eq(&a, &b));
}

#[test]
fn wrap_unwrap_round_trip() {
    let kek = fresh_kek();
    let k_asset = fresh_k_asset();
    let wrapped = wrap_key(&kek, &k_asset).unwrap();
    assert_eq!(wrapped.len(), WRAPPED_KEY_LEN);
    let unwrapped = unwrap_key(&kek, &wrapped).unwrap();
    assert_eq!(unwrapped, k_asset);
}

#[test]
fn wrong_wrapping_key_is_rejected() {
    let kek = fresh_kek();
    let k_asset = fresh_k_asset();
    let wrapped = wrap_key(&kek, &k_asset).unwrap();

    let mut wrong_kek = kek;
    wrong_kek[0] ^= 0x01;
    let res = unwrap_key(&wrong_kek, &wrapped);
    assert!(res.is_err(), "wrong-KEK unwrap accepted: {res:?}");
}

#[test]
fn tampered_wrapped_key_is_rejected() {
    let kek = fresh_kek();
    let k_asset = fresh_k_asset();
    let mut wrapped = wrap_key(&kek, &k_asset).unwrap();
    let last = wrapped.len() - 1;
    wrapped[last] ^= 0x01;
    let res = unwrap_key(&kek, &wrapped);
    assert!(res.is_err(), "tampered wrap accepted: {res:?}");
}

#[test]
fn wrong_length_wrapped_input_is_rejected() {
    let kek = fresh_kek();
    let too_short = vec![0u8; WRAPPED_KEY_LEN - 1];
    assert!(unwrap_key(&kek, &too_short).is_err());
    let too_long = vec![0u8; WRAPPED_KEY_LEN + 1];
    assert!(unwrap_key(&kek, &too_long).is_err());
}

#[test]
fn wrap_is_deterministic() {
    let kek = fresh_kek();
    let k_asset = fresh_k_asset();
    let a = wrap_key(&kek, &k_asset).unwrap();
    let b = wrap_key(&kek, &k_asset).unwrap();
    assert_eq!(a, b);
}

#[test]
fn wrap_output_differs_from_key() {
    let kek = fresh_kek();
    let k_asset = fresh_k_asset();
    let w = wrap_key(&kek, &k_asset).unwrap();
    assert_ne!(&w[8..], &k_asset[..]);
}

fn hash_in_chunks(data: &[u8], chunk: usize) -> [u8; 32] {
    let mut hasher = ContentHasher::new();
    for piece in data.chunks(chunk) {
        hasher.update(piece);
    }
    hasher.finalize()
}

#[test]
fn test_streaming_matches_one_shot() {
    let data = b"the quick brown fox jumps over the lazy dog";
    let one_shot = content_hash(data);
    let streamed = hash_in_chunks(&data[..], 64 * 1024);
    assert_eq!(one_shot, streamed);
}

#[test]
fn test_streaming_multi_buffer() {
    let data = vec![0xABu8; 64 * 1024 * 3 + 17];
    let one_shot = content_hash(&data);
    let streamed = hash_in_chunks(&data[..], 64 * 1024);
    assert_eq!(one_shot, streamed);
}

#[test]
fn streaming_chunk_size_does_not_matter() {
    let data: Vec<u8> = (0..5000u32).map(|i| (i % 251) as u8).collect();
    let one_shot = content_hash(&data);
    assert_eq!(hash_in_chunks(&data, 1), one_shot);
    assert_eq!(hash_in_chunks(&data, 7), one_shot);
    assert_eq!(ContentHasher::new().finalize(), content_hash(b""));
}
