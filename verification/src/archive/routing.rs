//! Archive backend routing.

use vstd::prelude::*;

use crate::config::ArchiveBackend;

verus! {

/// The archive backend for the current configuration: the configured one.
pub fn resolve_backend(config: &ArchiveBackend) -> (r: ArchiveBackend)
    ensures
        r == *config,
{
    *config
}

} // verus!
