//! Configuration of the chat-storage core.

use vstd::prelude::*;

verus! {

/// Backend holding archive segments.
#[derive(Debug, Clone, Copy, PartialEq, Eq, Structural)]
pub enum ArchiveBackend {
    Kdrive,
    Zkof,
}

/// Where media blobs are stored.
#[derive(Debug, Clone)]
pub enum MediaBlobSink {
    KchatBackend,
    ICloud { container: String },
    GoogleDrive { folder: String },
    ZkObjectFabric { bucket: String, prefix: String },
}

/// Media blob sink configuration.
#[derive(Debug, Clone)]
pub struct MediaBlobSinkConfig {
    pub sink: MediaBlobSink,
}

impl Default for MediaBlobSinkConfig {
    fn default() -> (r: Self)
        ensures
            r.sink is KchatBackend,
    {
        MediaBlobSinkConfig { sink: MediaBlobSink::KchatBackend }
    }
}

/// Search configuration. The model path is held as text.
#[derive(Debug, Clone)]
pub struct SearchConfig {
    pub semantic_enabled: bool,
    pub xlmr_model_path: Option<String>,
    pub int4_quantization: bool,
    pub max_cached_shards: usize,
}

impl Default for SearchConfig {
    fn default() -> (r: Self)
        ensures
            !r.semantic_enabled,
            r.xlmr_model_path is None,
            r.int4_quantization,
            r.max_cached_shards == 64,
    {
        SearchConfig { semantic_enabled: false, xlmr_model_path: None, int4_quantization: true, max_cached_shards: 64 }
    }
}

/// Storage budget limits, in bytes.
#[derive(Debug, Clone)]
pub struct StorageBudgetConfig {
    pub max_db_bytes: u64,
    pub max_cache_bytes: u64,
}

impl Default for StorageBudgetConfig {
    fn default() -> (r: Self)
        ensures
            r.max_db_bytes == 512 * 1024 * 1024,
            r.max_cache_bytes == 256 * 1024 * 1024,
    {
        StorageBudgetConfig { max_db_bytes: 512 * 1024 * 1024, max_cache_bytes: 256 * 1024 * 1024 }
    }
}

/// Archive epoch rotation cadence.
#[derive(Debug, Clone, Copy, PartialEq, Eq, Structural)]
pub enum EpochCadence {
    Monthly,
    Quarterly,
    Yearly,
}

/// Privacy level for archive access patterns.
#[derive(Debug, Clone, Copy, PartialEq, Eq, Structural)]
pub enum PrivacyLevel {
    Standard,
    High,
}

} // verus!
