//! In-memory journal of archive events.

use vstd::prelude::*;

verus! {

/// An archive event.
#[derive(Debug, Clone)]
pub enum ArchiveEvent {
    SegmentUploaded { segment_id: String, epoch: u64, message_count: usize },
    SegmentDownloaded { segment_id: String },
    SegmentCompacted { old_ids: Vec<String>, new_id: String },
    ManifestUploaded { generation: u64, segment_count: usize },
    EpochRotated { old_epoch: u64 },
}

/// Archive events in the order they were recorded.
#[derive(Debug, Clone)]
pub struct ArchiveEventJournal {
    pub events: Vec<ArchiveEvent>,
}

impl ArchiveEventJournal {
    /// An empty journal.
    pub fn new() -> (r: Self)
        ensures
            r.events@.len() == 0,
    {
        ArchiveEventJournal { events: Vec::new() }
    }

    /// Append an event.
    pub fn record(&mut self, event: ArchiveEvent)
        ensures
            final(self).events@ == old(self).events@.push(event),
    {
        self.events.push(event);
    }
}

impl Default for ArchiveEventJournal {
    fn default() -> (r: Self)
        ensures
            r.events@.len() == 0,
    {
        Self::new()
    }
}

} // verus!
