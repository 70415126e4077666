//! Encrypted incremental backup: sealed segments, manifest generations, the
//! coordinator's state and batch streaming decisions.

pub mod compaction;
pub mod coordinator;
pub mod dedup;
pub mod event_journal;
pub mod manifest_builder;
pub mod segment_builder;
pub mod snapshot;
