//! Personal archive: epoch keys, segment types, event journal and planning
//! helpers.

pub mod coordinator;
pub mod epoch_keys;
pub mod event_journal;
pub mod prefetch;
pub mod privacy;
pub mod routing;
pub mod segment_builder;
pub mod types;

use vstd::prelude::*;

use crate::text::string_views;

verus! {

/// The ids of the segments smaller than `min_size`, in order.
pub open spec fn small_segment_ids(segments: Seq<(String, u64)>, min_size: u64) -> Seq<Seq<char>>
    decreases segments.len(),
{
    if segments.len() == 0 {
        Seq::empty()
    } else {
        small_segment_ids(segments.drop_last(), min_size) + (if segments.last().1 < min_size {
            seq![segments.last().0@]
        } else {
            Seq::empty()
        })
    }
}

/// Plan compaction of small segments within a (conversation, bucket) pair:
/// the ids of the segments smaller than `min_segment_size`, in order.
pub fn plan_compaction(segments: &[(String, u64)], min_segment_size: u64) -> (r: Vec<String>)
    ensures
        string_views(r@) == small_segment_ids(segments@, min_segment_size),
{
    let mut out: Vec<String> = Vec::new();
    let mut i: usize = 0;
    while i < segments.len()
        invariant
            0 <= i <= segments@.len(),
            string_views(out@) == small_segment_ids(segments@.take(i as int), min_segment_size),
        decreases segments@.len() - i,
    {
        assert(segments@.take(i + 1).drop_last() =~= segments@.take(i as int));
        let (id, size) = &segments[i];
        if *size < min_segment_size {
            let c = id.clone();
            proof {
                crate::text::lemma_string_views_push(out@, c);
            }
            out.push(c);
        }
        i = i + 1;
    }
    assert(segments@.take(i as int) =~= segments@);
    out
}

} // verus!
