//! Content-addressed deduplication keys.

use vstd::prelude::*;

use crate::crypto::content_hash::{blake3_digest, content_hash};

verus! {

/// The deduplication key of `data`: its BLAKE3 digest.
pub fn compute_dedup_key(data: &[u8]) -> (r: [u8; 32])
    ensures
        r@ == blake3_digest(data@),
{
    content_hash(data)
}

} // verus!
