//! Platform-agnostic core of an end-to-end encrypted chat store: key
//! derivation, sealed backup and archive segments, wire-format headers,
//! local-store state machines and on-device content checks.

pub mod archive;
pub mod backup;
pub mod config;
pub mod crypto;
pub mod formats;
pub mod knowledge;
pub mod local_store;
pub mod text;

use vstd::prelude::*;

use crypto::CryptoError;
use local_store::StorageError;

verus! {

#[verifier::external_type_specification]
#[verifier::external_body]
pub struct ExUuid(uuid::Uuid);

/// `Uuid::clone`. Claimed: a copy of the identifier (`Uuid` is `Copy`).
pub assume_specification[ <uuid::Uuid as std::clone::Clone>::clone ](id: &uuid::Uuid) -> (r: uuid::Uuid)
    ensures
        r == *id,
;

/// Top-level error type of the core library.
#[derive(Debug)]
pub enum Error {
    /// A cryptographic operation failed.
    Crypto(CryptoError),
    /// The local store failed.
    Storage(StorageError),
    /// A quota would be exceeded.
    QuotaExceeded { resource: &'static str, limit: u64, current: u64 },
    /// The operation is not implemented yet.
    NotImplemented(&'static str),
}

impl From<CryptoError> for Error {
    fn from(e: CryptoError) -> (r: Self) {
        Error::Crypto(e)
    }
}

impl vstd::std_specs::convert::FromSpecImpl<CryptoError> for Error {
    open spec fn obeys_from_spec() -> bool {
        true
    }

    open spec fn from_spec(e: CryptoError) -> Error {
        Error::Crypto(e)
    }
}

impl From<StorageError> for Error {
    fn from(e: StorageError) -> (r: Self) {
        Error::Storage(e)
    }
}

impl vstd::std_specs::convert::FromSpecImpl<StorageError> for Error {
    open spec fn obeys_from_spec() -> bool {
        true
    }

    open spec fn from_spec(e: StorageError) -> Error {
        Error::Storage(e)
    }
}

/// Unique client-generated message identifier.
#[derive(Debug, Clone, Copy, PartialEq, Eq, Hash)]
pub struct ClientMessageId(pub uuid::Uuid);

/// Opaque delivery cursor for cursor-paginated message fetch.
#[derive(Debug, Clone, PartialEq, Eq, Hash)]
pub struct DeliveryCursor(pub String);

/// Result of ingesting remote messages.
#[derive(Debug, Clone, Default)]
pub struct IngestResult {
    pub new_count: usize,
    pub updated_count: usize,
    pub duplicate_count: usize,
    pub next_cursor: Option<DeliveryCursor>,
}

/// Device registration result.
#[derive(Debug, Clone)]
pub struct DeviceRegistration {
    pub device_id: String,
    pub registered: bool,
}

/// Search query with optional filters.
#[derive(Debug, Clone)]
pub struct SearchQuery {
    pub query: String,
    pub sender_id: Option<String>,
    pub conversation_id: Option<uuid::Uuid>,
    pub date_from_ms: Option<i64>,
    pub date_to_ms: Option<i64>,
    pub content_kind: Option<ContentKind>,
}

/// Content kind filter for search.
#[derive(Debug, Clone, Copy, PartialEq, Eq, Structural)]
pub enum ContentKind {
    Text,
    Media,
    Document,
    Link,
}

/// Search scope: whether cold (offloaded) buckets are searched too.
#[derive(Debug, Clone, Copy, PartialEq, Eq, Structural)]
pub enum SearchScope {
    LocalOnly,
    IncludeCold,
}

/// Reason for hydrating a message.
#[derive(Debug, Clone, Copy, PartialEq, Eq, Structural)]
pub enum HydrationReason {
    UserTap,
    ScrollBack,
    SearchHit,
}

/// A hydrated message with full body and media references.
#[derive(Debug, Clone)]
pub struct HydratedMessage {
    pub message_id: uuid::Uuid,
    pub conversation_id: uuid::Uuid,
    pub sender_id: String,
    pub created_at_ms: i64,
    pub text_content: Option<String>,
    pub media_assets: Vec<MediaAssetRef>,
}

/// Reference to a media asset in a hydrated message.
#[derive(Debug, Clone)]
pub struct MediaAssetRef {
    pub asset_id: String,
    pub mime_type: String,
    pub node_id: String,
    pub version_id: String,
}

/// Reason for running an incremental backup.
#[derive(Debug, Clone, Copy, PartialEq, Eq, Structural)]
pub enum BackupReason {
    Scheduled,
    UserInitiated,
    PreMigration,
}

/// Result of a backup run.
#[derive(Debug, Clone, Default)]
pub struct BackupResult {
    pub segments_built: usize,
    pub segments_uploaded: usize,
    pub manifest_generation: u64,
    pub bytes_uploaded: u64,
}

/// Backup source for restore.
#[derive(Debug, Clone)]
pub enum BackupSource {
    KdriveGateway,
    ICloud,
    AndroidBackup,
    ZkObjectFabric { bucket: String, prefix: String },
}

/// Result of a restore operation.
#[derive(Debug, Clone, Default)]
pub struct RestoreResult {
    pub conversations_restored: usize,
    pub messages_restored: usize,
    pub media_restored: usize,
    pub search_indexes_rebuilt: usize,
}

/// Reason for storage pressure.
#[derive(Debug, Clone, Copy, PartialEq, Eq, Structural)]
pub enum StoragePressureReason {
    BudgetThreshold,
    DiskLow,
    UserInitiated,
}

/// Result of an offload operation.
#[derive(Debug, Clone, Default)]
pub struct OffloadResult {
    pub messages_offloaded: usize,
    pub media_offloaded: usize,
    pub bytes_freed: u64,
}

/// Result of sending media.
#[derive(Debug, Clone)]
pub struct SendMediaResult {
    pub message_id: uuid::Uuid,
    pub asset_id: String,
    pub node_id: String,
    pub version_id: String,
}

} // verus!
