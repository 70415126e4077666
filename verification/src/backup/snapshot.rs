//! Backup snapshots and the decisions of streaming them in batches.

use vstd::prelude::*;

use crate::local_store::schema::{Conversation, MessageBody, MessageSkeleton};

verus! {

/// Rows per batch when streaming a backup.
pub const BACKUP_BATCH_SIZE: usize = 200;

/// A point-in-time snapshot of the local store for backup.
#[derive(Debug, Clone)]
pub struct BackupSnapshot {
    pub conversations: Vec<Conversation>,
    pub skeletons: Vec<MessageSkeleton>,
    pub bodies: Vec<MessageBody>,
}

/// What to do with the rows just fetched.
#[derive(Debug, Clone, Copy, PartialEq, Eq, Structural)]
pub enum BatchDecision {
    /// Both fetches were empty: stop without emitting.
    Stop,
    /// Emit the fetched rows as a batch, with the conversations when it is
    /// the `first` batch; fetch again when `more` holds.
    Emit { more: bool, first: bool },
}

/// Where the streaming of a backup stands: the next skeleton and body
/// offsets, and the number of batches emitted.
#[derive(Debug, Clone, Copy)]
pub struct BatchCursor {
    pub skeleton_offset: i64,
    pub body_offset: i64,
    pub total_batches: usize,
}

impl BatchCursor {
    /// Nothing fetched and nothing emitted yet.
    pub fn start() -> (r: Self)
        ensures
            r.skeleton_offset == 0,
            r.body_offset == 0,
            r.total_batches == 0,
    {
        BatchCursor { skeleton_offset: 0, body_offset: 0, total_batches: 0 }
    }

    /// Decide on a fetch that returned `skeleton_count` skeletons and
    /// `body_count` bodies. Two empty fetches stop the stream. Otherwise the
    /// rows are emitted, each table's offset advances by a batch when that
    /// table returned rows, and the stream goes on unless both tables returned
    /// fewer rows than a batch. Only the first batch carries the
    /// conversations.
    pub fn step(&mut self, skeleton_count: usize, body_count: usize) -> (r: BatchDecision)
        requires
            old(self).skeleton_offset <= i64::MAX - 200,
            old(self).body_offset <= i64::MAX - 200,
            old(self).total_batches < usize::MAX,
        ensures
            skeleton_count == 0 && body_count == 0 ==> r == BatchDecision::Stop && *final(self) == *old(self),
            !(skeleton_count == 0 && body_count == 0) ==> {
                &&& r == BatchDecision::Emit {
                    more: !(skeleton_count < 200 && body_count < 200),
                    first: old(self).total_batches == 0,
                }
                &&& final(self).total_batches == old(self).total_batches + 1
                &&& final(self).skeleton_offset == old(self).skeleton_offset + (if skeleton_count > 0 { 200int } else { 0int })
                &&& final(self).body_offset == old(self).body_offset + (if body_count > 0 { 200int } else { 0int })
            },
    {
        if skeleton_count == 0 && body_count == 0 {
            return BatchDecision::Stop;
        }
        let first = self.total_batches == 0;
        self.total_batches = self.total_batches + 1;
        if skeleton_count > 0 {
            self.skeleton_offset = self.skeleton_offset + 200;
        }
        if body_count > 0 {
            self.body_offset = self.body_offset + 200;
        }
        let more = !(skeleton_count < BACKUP_BATCH_SIZE && body_count < BACKUP_BATCH_SIZE);
        BatchDecision::Emit { more, first }
    }

    /// After the stream stops: when no batch was emitted, one batch with the
    /// conversations and no rows must be, and it counts as the only batch.
    pub fn finish(&mut self) -> (emit_empty: bool)
        ensures
            emit_empty == (old(self).total_batches == 0),
            final(self).total_batches == (if emit_empty { 1 } else { old(self).total_batches }),
            final(self).skeleton_offset == old(self).skeleton_offset,
            final(self).body_offset == old(self).body_offset,
    {
        if self.total_batches == 0 {
            self.total_batches = 1;
            true
        } else {
            false
        }
    }
}

} // verus!
