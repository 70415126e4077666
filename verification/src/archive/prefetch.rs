//! Prefetch planning for archive segments.

use vstd::prelude::*;

verus! {

/// Plan a batch prefetch for all segments of a (conversation, bucket) pair:
/// the single pair itself.
pub fn plan_batch_prefetch(conversation_id: &str, bucket: &str) -> (r: Vec<(String, String)>)
    ensures
        r@.len() == 1,
        r@[0].0@ == conversation_id@,
        r@[0].1@ == bucket@,
{
    let mut r: Vec<(String, String)> = Vec::new();
    r.push((conversation_id.to_owned(), bucket.to_owned()));
    r
}

} // verus!
