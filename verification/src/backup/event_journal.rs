//! In-memory journal of backup events.

use vstd::prelude::*;

verus! {

/// A backup event.
#[allow(inconsistent_fields)]
#[derive(Debug, Clone)]
pub enum BackupEvent {
    SegmentBuilt { segment_id: String, size: u64 },
    SegmentUploaded { segment_id: String, size: usize },
    ManifestPublished { generation: u64 },
    SegmentCompacted { old_ids: Vec<String>, new_id: String },
}

/// Backup events in the order they were recorded.
#[derive(Debug, Clone)]
pub struct BackupEventJournal {
    pub events: Vec<BackupEvent>,
}

impl BackupEventJournal {
    /// An empty journal.
    pub fn new() -> (r: Self)
        ensures
            r.events@.len() == 0,
    {
        BackupEventJournal { events: Vec::new() }
    }

    /// Append an event.
    pub fn record(&mut self, event: BackupEvent)
        ensures
            final(self).events@ == old(self).events@.push(event),
    {
        self.events.push(event);
    }
}

impl Default for BackupEventJournal {
    fn default() -> (r: Self)
        ensures
            r.events@.len() == 0,
    {
        Self::new()
    }
}

} // verus!
