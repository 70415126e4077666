//! BLAKE3 content hashing for archive and backup integrity.

use vstd::prelude::*;

verus! {

/// Length of a BLAKE3 digest in bytes.
pub const HASH_LEN: usize = 32;

/// The 32-byte BLAKE3 digest of `data`.
pub uninterp spec fn blake3_digest(data: Seq<u8>) -> Seq<u8>;

/// `blake3::hash(data)` as a byte array. Claimed: the digest of `data`.
#[verifier::external_body]
fn blake3_hash(data: &[u8]) -> (r: [u8; 32])
    ensures
        r@ == blake3_digest(data@),
{
    blake3::hash(data).into()
}

/// The lowercase hexadecimal digit for `d < 16`.
pub open spec fn hex_digit(d: u8) -> char {
    if d < 10 {
        ((d + 48) as u8) as char
    } else {
        ((d + 87) as u8) as char
    }
}

/// Lowercase hexadecimal text of `bytes`: two digits per byte, high nibble
/// first.
pub open spec fn hex_lower(bytes: Seq<u8>) -> Seq<char>
    decreases bytes.len(),
{
    if bytes.len() == 0 {
        Seq::empty()
    } else {
        hex_lower(bytes.drop_last()) + seq![hex_digit(bytes.last() / 16), hex_digit(bytes.last() % 16)]
    }
}

/// `hex::encode(data)`. Claimed, as the crate documents: each byte becomes
/// two lowercase hexadecimal digits, high nibble first.
#[verifier::external_body]
fn hex_encode(data: &[u8]) -> (r: String)
    ensures
        r@ == hex_lower(data@),
{
    hex::encode(data)
}

/// Compute the BLAKE3 hash of `data`.
pub fn content_hash(data: &[u8]) -> (r: [u8; HASH_LEN])
    ensures
        r@ == blake3_digest(data@),
{
    blake3_hash(data)
}

/// `blake3::Hasher`, the crate's incremental hasher.
#[verifier::external_type_specification]
#[verifier::external_body]
pub struct ExBlake3Hasher(blake3::Hasher);

/// The bytes a `blake3::Hasher` has absorbed, in order.
pub uninterp spec fn hasher_input(h: blake3::Hasher) -> Seq<u8>;

/// `blake3::Hasher::new()`. Claimed: it has absorbed nothing.
#[verifier::external_body]
fn hasher_new() -> (h: blake3::Hasher)
    ensures
        hasher_input(h) == Seq::<u8>::empty(),
{
    blake3::Hasher::new()
}

/// `blake3::Hasher::update(input)`. Claimed: the input is appended to what
/// the hasher has absorbed.
#[verifier::external_body]
fn hasher_update(h: &mut blake3::Hasher, input: &[u8])
    ensures
        hasher_input(*final(h)) == hasher_input(*old(h)) + input@,
{
    h.update(input);
}

/// `blake3::Hasher::finalize()` as a byte array. Claimed, as the crate
/// documents (incremental hashing of `foo`, `bar`, `baz` equals
/// `blake3::hash(b"foobarbaz")`): the digest of everything absorbed.
#[verifier::external_body]
fn hasher_finalize(h: &blake3::Hasher) -> (r: [u8; 32])
    ensures
        r@ == blake3_digest(hasher_input(*h)),
{
    h.finalize().into()
}

/// Incremental BLAKE3 hashing, fed chunk by chunk.
#[derive(Debug)]
pub struct ContentHasher {
    hasher: blake3::Hasher,
}

impl ContentHasher {
    /// The bytes fed so far, in order.
    pub closed spec fn hashed_bytes(&self) -> Seq<u8> {
        hasher_input(self.hasher)
    }

    /// A hasher that has been fed nothing.
    pub fn new() -> (h: Self)
        ensures
            h.hashed_bytes() == Seq::<u8>::empty(),
    {
        ContentHasher { hasher: hasher_new() }
    }

    /// Feed `chunk` after everything fed so far.
    pub fn update(&mut self, chunk: &[u8])
        ensures
            final(self).hashed_bytes() == old(self).hashed_bytes() + chunk@,
    {
        hasher_update(&mut self.hasher, chunk);
    }

    /// The digest of everything fed so far: what [`content_hash`] gives for
    /// those bytes.
    pub fn finalize(&self) -> (r: [u8; HASH_LEN])
        ensures
            r@ == blake3_digest(self.hashed_bytes()),
    {
        hasher_finalize(&self.hasher)
    }
}

/// What a fresh [`ContentHasher`] has absorbed after `update` with each of
/// `chunks` in turn.
pub open spec fn absorbed(chunks: Seq<Seq<u8>>) -> Seq<u8>
    decreases chunks.len(),
{
    if chunks.len() == 0 {
        Seq::empty()
    } else {
        absorbed(chunks.drop_last()) + chunks.last()
    }
}

/// Streaming equals one-shot: feeding `chunks` to a fresh hasher one after
/// another absorbs exactly their concatenation, so its digest is the
/// one-shot digest of the concatenated bytes.
pub proof fn lemma_streaming_matches_one_shot(chunks: Seq<Seq<u8>>)
    ensures
        absorbed(chunks) == chunks.flatten(),
        blake3_digest(absorbed(chunks)) == blake3_digest(chunks.flatten()),
{
    chunks.lemma_flatten_and_flatten_alt_are_equivalent();
    lemma_absorbed_is_flatten_alt(chunks);
}

proof fn lemma_absorbed_is_flatten_alt(chunks: Seq<Seq<u8>>)
    ensures
        absorbed(chunks) == chunks.flatten_alt(),
    decreases chunks.len(),
{
    if chunks.len() > 0 {
        lemma_absorbed_is_flatten_alt(chunks.drop_last());
    }
}

/// Compute the BLAKE3 hash of `data` as lowercase hex.
pub fn content_hash_hex(data: &[u8]) -> (r: String)
    ensures
        r@ == hex_lower(blake3_digest(data@)),
{
    let h = content_hash(data);
    hex_encode(&h)
}

/// Compare two digests in time independent of where they differ.
pub fn constant_time_eq(a: &[u8; 32], b: &[u8; 32]) -> (r: bool)
    ensures
        r == (a@ == b@),
{
    let mut acc: u8 = 0;
    let mut i: usize = 0;
    while i < 32
        invariant
            0 <= i <= 32,
            a@.len() == 32,
            b@.len() == 32,
            (acc == 0) <==> (forall|k: int| 0 <= k < i ==> a@[k] == b@[k]),
        decreases 32 - i,
    {
        let x = a[i];
        let y = b[i];
        let d: u8 = x ^ y;
        assert((d == 0) <==> (x == y)) by (bit_vector)
            requires
                d == x ^ y,
        ;
        let next: u8 = acc | d;
        assert((next == 0) <==> (acc == 0 && d == 0)) by (bit_vector)
            requires
                next == acc | d,
        ;
        acc = next;
        i = i + 1;
    }
    assert(a@ =~= b@ <==> (forall|k: int| 0 <= k < 32 ==> a@[k] == b@[k]));
    acc == 0
}

/// Verify that `data` hashes to `expected`, comparing in constant time.
pub fn verify_content_hash(data: &[u8], expected: &[u8; 32]) -> (r: bool)
    ensures
        r == (blake3_digest(data@) == expected@),
{
    let actual = content_hash(data);
    constant_time_eq(&actual, expected)
}

} // verus!
