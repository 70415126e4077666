//! Backup segment compaction planning.

use vstd::prelude::*;

use crate::Error;

verus! {

/// Plan compaction of backup segments. Not implemented yet: always refuses.
pub fn plan_compaction(segments: &[(String, u64)], max_segment_age_ms: i64) -> (r: Result<Vec<String>, Error>)
    ensures
        r matches Err(Error::NotImplemented(_)),
{
    Err(Error::NotImplemented("compaction planning not yet implemented"))
}

} // verus!
