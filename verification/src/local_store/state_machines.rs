//! State machines for message bodies, media assets, archive and backup
//! progress, and restore runs.

use vstd::prelude::*;

use super::StorageError;
use crate::text::{push_str, str_eq, to_owned_string};

verus! {

/// The error a refused transition carries: `"<from> -> <to>"`.
pub open spec fn transition_message(from: Seq<char>, to: Seq<char>) -> Seq<char> {
    from + " -> "@ + to
}

fn transition_error(from: &str, to: &str) -> (e: StorageError)
    ensures
        e matches StorageError::InvalidStateTransition(m) && m@ == transition_message(from@, to@),
{
    let mut m = to_owned_string(from);
    push_str(&mut m, " -> ");
    push_str(&mut m, to);
    StorageError::InvalidStateTransition(m)
}

// ---------------------------------------------------------------------------
// BodyState
// ---------------------------------------------------------------------------
/// State of a message body in the local store.
#[derive(Debug, Clone, Copy, PartialEq, Eq, Structural)]
pub enum BodyState {
    LocalPlainAvailable,
    LocalEncryptedAvailable,
    RemoteArchiveOnly,
    DeliveryStoreOnly,
    DeletedForMe,
    DeletedForEveryone,
    Unavailable,
}

/// Column value of each body state.
pub open spec fn body_state_name(s: BodyState) -> Seq<char> {
    match s {
        BodyState::LocalPlainAvailable => "local_plain_available"@,
        BodyState::LocalEncryptedAvailable => "local_encrypted_available"@,
        BodyState::RemoteArchiveOnly => "remote_archive_only"@,
        BodyState::DeliveryStoreOnly => "delivery_store_only"@,
        BodyState::DeletedForMe => "deleted_for_me"@,
        BodyState::DeletedForEveryone => "deleted_for_everyone"@,
        BodyState::Unavailable => "unavailable"@,
    }
}

/// The body-state edges other than staying put.
pub open spec fn body_state_edge(from: BodyState, to: BodyState) -> bool {
    match (from, to) {
        (BodyState::DeliveryStoreOnly, BodyState::LocalPlainAvailable) => true,
        (BodyState::DeliveryStoreOnly, BodyState::LocalEncryptedAvailable) => true,
        (BodyState::DeliveryStoreOnly, BodyState::RemoteArchiveOnly) => true,
        (BodyState::DeliveryStoreOnly, BodyState::DeletedForMe) => true,
        (BodyState::DeliveryStoreOnly, BodyState::DeletedForEveryone) => true,
        (BodyState::DeliveryStoreOnly, BodyState::Unavailable) => true,
        (BodyState::LocalPlainAvailable, BodyState::LocalEncryptedAvailable) => true,
        (BodyState::LocalPlainAvailable, BodyState::RemoteArchiveOnly) => true,
        (BodyState::LocalPlainAvailable, BodyState::DeletedForMe) => true,
        (BodyState::LocalPlainAvailable, BodyState::DeletedForEveryone) => true,
        (BodyState::LocalPlainAvailable, BodyState::Unavailable) => true,
        (BodyState::LocalEncryptedAvailable, BodyState::LocalPlainAvailable) => true,
        (BodyState::LocalEncryptedAvailable, BodyState::RemoteArchiveOnly) => true,
        (BodyState::LocalEncryptedAvailable, BodyState::DeletedForMe) => true,
        (BodyState::LocalEncryptedAvailable, BodyState::DeletedForEveryone) => true,
        (BodyState::LocalEncryptedAvailable, BodyState::Unavailable) => true,
        (BodyState::RemoteArchiveOnly, BodyState::LocalPlainAvailable) => true,
        (BodyState::RemoteArchiveOnly, BodyState::LocalEncryptedAvailable) => true,
        (BodyState::RemoteArchiveOnly, BodyState::Unavailable) => true,
        (BodyState::DeletedForMe, BodyState::DeletedForEveryone) => true,
        _ => false,
    }
}

/// A body-state transition is accepted when it stays put or follows an edge.
pub open spec fn body_state_transition_ok(from: BodyState, to: BodyState) -> bool {
    from == to || body_state_edge(from, to)
}

impl BodyState {
    pub fn as_str(&self) -> (r: &'static str)
        ensures
            r@ == body_state_name(*self),
    {
        match self {
            BodyState::LocalPlainAvailable => "local_plain_available",
            BodyState::LocalEncryptedAvailable => "local_encrypted_available",
            BodyState::RemoteArchiveOnly => "remote_archive_only",
            BodyState::DeliveryStoreOnly => "delivery_store_only",
            BodyState::DeletedForMe => "deleted_for_me",
            BodyState::DeletedForEveryone => "deleted_for_everyone",
            BodyState::Unavailable => "unavailable",
        }
    }

    /// The column value as an owned string.
    pub fn to_string(&self) -> (r: String)
        ensures
            r@ == body_state_name(*self),
    {
        to_owned_string(self.as_str())
    }

    /// Attempt a state transition; refused transitions name both states.
    pub fn try_transition(&self, target: BodyState) -> (r: Result<BodyState, StorageError>)
        ensures
            body_state_transition_ok(*self, target) ==> r == Ok::<BodyState, StorageError>(target),
            !body_state_transition_ok(*self, target) ==> (r matches Err(StorageError::InvalidStateTransition(m))
                && m@ == transition_message(body_state_name(*self), body_state_name(target))),
    {
        if *self == target {
            return Ok(target);
        }
        let allowed = match (*self, target) {
            (BodyState::DeliveryStoreOnly, BodyState::LocalPlainAvailable) => true,
            (BodyState::DeliveryStoreOnly, BodyState::LocalEncryptedAvailable) => true,
            (BodyState::DeliveryStoreOnly, BodyState::RemoteArchiveOnly) => true,
            (BodyState::DeliveryStoreOnly, BodyState::DeletedForMe) => true,
            (BodyState::DeliveryStoreOnly, BodyState::DeletedForEveryone) => true,
            (BodyState::DeliveryStoreOnly, BodyState::Unavailable) => true,
            (BodyState::LocalPlainAvailable, BodyState::LocalEncryptedAvailable) => true,
            (BodyState::LocalPlainAvailable, BodyState::RemoteArchiveOnly) => true,
            (BodyState::LocalPlainAvailable, BodyState::DeletedForMe) => true,
            (BodyState::LocalPlainAvailable, BodyState::DeletedForEveryone) => true,
            (BodyState::LocalPlainAvailable, BodyState::Unavailable) => true,
            (BodyState::LocalEncryptedAvailable, BodyState::LocalPlainAvailable) => true,
            (BodyState::LocalEncryptedAvailable, BodyState::RemoteArchiveOnly) => true,
            (BodyState::LocalEncryptedAvailable, BodyState::DeletedForMe) => true,
            (BodyState::LocalEncryptedAvailable, BodyState::DeletedForEveryone) => true,
            (BodyState::LocalEncryptedAvailable, BodyState::Unavailable) => true,
            (BodyState::RemoteArchiveOnly, BodyState::LocalPlainAvailable) => true,
            (BodyState::RemoteArchiveOnly, BodyState::LocalEncryptedAvailable) => true,
            (BodyState::RemoteArchiveOnly, BodyState::Unavailable) => true,
            (BodyState::DeletedForMe, BodyState::DeletedForEveryone) => true,
            _ => false,
        };
        if allowed {
            Ok(target)
        } else {
            Err(transition_error(self.as_str(), target.as_str()))
        }
    }

    /// Parses a column value.
    pub fn from_name(s: &str) -> (r: Result<BodyState, StorageError>)
        ensures
            forall|b: BodyState| s@ == body_state_name(b) ==> r == Ok::<BodyState, StorageError>(b),
            (forall|b: BodyState| s@ != body_state_name(b)) ==> (r matches Err(StorageError::Custom(m)) && m@ == "unknown body_state: "@ + s@),
    {
        proof {
            assert forall|a: BodyState, b: BodyState| body_state_name(a) == body_state_name(b) implies a == b by {
                lemma_body_state_names_distinct(a, b);
            }
            assert(body_state_name(BodyState::LocalPlainAvailable) == "local_plain_available"@);
            assert(body_state_name(BodyState::LocalEncryptedAvailable) == "local_encrypted_available"@);
            assert(body_state_name(BodyState::RemoteArchiveOnly) == "remote_archive_only"@);
            assert(body_state_name(BodyState::DeliveryStoreOnly) == "delivery_store_only"@);
            assert(body_state_name(BodyState::DeletedForMe) == "deleted_for_me"@);
            assert(body_state_name(BodyState::DeletedForEveryone) == "deleted_for_everyone"@);
            assert(body_state_name(BodyState::Unavailable) == "unavailable"@);
        }
        if str_eq(s, "local_plain_available") {
            Ok(BodyState::LocalPlainAvailable)
        } else if str_eq(s, "local_encrypted_available") {
            Ok(BodyState::LocalEncryptedAvailable)
        } else if str_eq(s, "remote_archive_only") {
            Ok(BodyState::RemoteArchiveOnly)
        } else if str_eq(s, "delivery_store_only") {
            Ok(BodyState::DeliveryStoreOnly)
        } else if str_eq(s, "deleted_for_me") {
            Ok(BodyState::DeletedForMe)
        } else if str_eq(s, "deleted_for_everyone") {
            Ok(BodyState::DeletedForEveryone)
        } else if str_eq(s, "unavailable") {
            Ok(BodyState::Unavailable)
        } else {
            let mut m = to_owned_string("unknown body_state: ");
            push_str(&mut m, s);
            Err(StorageError::Custom(m))
        }
    }
}

impl core::str::FromStr for BodyState {
    type Err = StorageError;

    fn from_str(s: &str) -> (r: Result<Self, StorageError>)
        ensures
            forall|b: BodyState| s@ == body_state_name(b) ==> r == Ok::<BodyState, StorageError>(b),
            (forall|b: BodyState| s@ != body_state_name(b)) ==> (r matches Err(StorageError::Custom(m)) && m@ == "unknown body_state: "@ + s@),
    {
        Self::from_name(s)
    }
}

/// Distinct body states have distinct column values.
pub proof fn lemma_body_state_names_distinct(a: BodyState, b: BodyState)
    ensures
        body_state_name(a) == body_state_name(b) ==> a == b,
{
    reveal_strlit("local_plain_available");
    reveal_strlit("local_encrypted_available");
    reveal_strlit("remote_archive_only");
    reveal_strlit("delivery_store_only");
    reveal_strlit("deleted_for_me");
    reveal_strlit("deleted_for_everyone");
    reveal_strlit("unavailable");
    if body_state_name(a) == body_state_name(b) && a != b {
        let x = body_state_name(a);
        let y = body_state_name(b);
        assert(x.len() == y.len());
        if x.len() > 0 { assert(x[0] == y[0]); }
    }
}

// ---------------------------------------------------------------------------
// MediaState
// ---------------------------------------------------------------------------
/// State of a media asset in the local store.
#[derive(Debug, Clone, Copy, PartialEq, Eq, Structural)]
pub enum MediaState {
    ThumbnailOnly,
    OriginalLocal,
    RemoteOriginal,
    DownloadInProgress,
    Evicted,
    Deleted,
}

/// Column value of each media state.
pub open spec fn media_state_name(s: MediaState) -> Seq<char> {
    match s {
        MediaState::ThumbnailOnly => "thumbnail_only"@,
        MediaState::OriginalLocal => "original_local"@,
        MediaState::RemoteOriginal => "remote_original"@,
        MediaState::DownloadInProgress => "download_in_progress"@,
        MediaState::Evicted => "evicted"@,
        MediaState::Deleted => "deleted"@,
    }
}

/// The media-state edges other than staying put.
pub open spec fn media_state_edge(from: MediaState, to: MediaState) -> bool {
    match (from, to) {
        (MediaState::ThumbnailOnly, MediaState::OriginalLocal) => true,
        (MediaState::ThumbnailOnly, MediaState::RemoteOriginal) => true,
        (MediaState::ThumbnailOnly, MediaState::DownloadInProgress) => true,
        (MediaState::ThumbnailOnly, MediaState::Evicted) => true,
        (MediaState::ThumbnailOnly, MediaState::Deleted) => true,
        (MediaState::OriginalLocal, MediaState::ThumbnailOnly) => true,
        (MediaState::OriginalLocal, MediaState::RemoteOriginal) => true,
        (MediaState::OriginalLocal, MediaState::Evicted) => true,
        (MediaState::OriginalLocal, MediaState::Deleted) => true,
        (MediaState::RemoteOriginal, MediaState::DownloadInProgress) => true,
        (MediaState::RemoteOriginal, MediaState::OriginalLocal) => true,
        (MediaState::RemoteOriginal, MediaState::Evicted) => true,
        (MediaState::RemoteOriginal, MediaState::Deleted) => true,
        (MediaState::DownloadInProgress, MediaState::OriginalLocal) => true,
        (MediaState::DownloadInProgress, MediaState::RemoteOriginal) => true,
        (MediaState::DownloadInProgress, MediaState::Deleted) => true,
        (MediaState::Evicted, MediaState::DownloadInProgress) => true,
        (MediaState::Evicted, MediaState::Deleted) => true,
        _ => false,
    }
}

/// A media-state transition is accepted when it stays put or follows an edge.
pub open spec fn media_state_transition_ok(from: MediaState, to: MediaState) -> bool {
    from == to || media_state_edge(from, to)
}

impl MediaState {
    pub fn as_str(&self) -> (r: &'static str)
        ensures
            r@ == media_state_name(*self),
    {
        match self {
            MediaState::ThumbnailOnly => "thumbnail_only",
            MediaState::OriginalLocal => "original_local",
            MediaState::RemoteOriginal => "remote_original",
            MediaState::DownloadInProgress => "download_in_progress",
            MediaState::Evicted => "evicted",
            MediaState::Deleted => "deleted",
        }
    }

    /// The column value as an owned string.
    pub fn to_string(&self) -> (r: String)
        ensures
            r@ == media_state_name(*self),
    {
        to_owned_string(self.as_str())
    }

    /// Attempt a state transition; refused transitions name both states.
    pub fn try_transition(&self, target: MediaState) -> (r: Result<MediaState, StorageError>)
        ensures
            media_state_transition_ok(*self, target) ==> r == Ok::<MediaState, StorageError>(target),
            !media_state_transition_ok(*self, target) ==> (r matches Err(StorageError::InvalidStateTransition(m))
                && m@ == transition_message(media_state_name(*self), media_state_name(target))),
    {
        if *self == target {
            return Ok(target);
        }
        let allowed = match (*self, target) {
            (MediaState::ThumbnailOnly, MediaState::OriginalLocal) => true,
            (MediaState::ThumbnailOnly, MediaState::RemoteOriginal) => true,
            (MediaState::ThumbnailOnly, MediaState::DownloadInProgress) => true,
            (MediaState::ThumbnailOnly, MediaState::Evicted) => true,
            (MediaState::ThumbnailOnly, MediaState::Deleted) => true,
            (MediaState::OriginalLocal, MediaState::ThumbnailOnly) => true,
            (MediaState::OriginalLocal, MediaState::RemoteOriginal) => true,
            (MediaState::OriginalLocal, MediaState::Evicted) => true,
            (MediaState::OriginalLocal, MediaState::Deleted) => true,
            (MediaState::RemoteOriginal, MediaState::DownloadInProgress) => true,
            (MediaState::RemoteOriginal, MediaState::OriginalLocal) => true,
            (MediaState::RemoteOriginal, MediaState::Evicted) => true,
            (MediaState::RemoteOriginal, MediaState::Deleted) => true,
            (MediaState::DownloadInProgress, MediaState::OriginalLocal) => true,
            (MediaState::DownloadInProgress, MediaState::RemoteOriginal) => true,
            (MediaState::DownloadInProgress, MediaState::Deleted) => true,
            (MediaState::Evicted, MediaState::DownloadInProgress) => true,
            (MediaState::Evicted, MediaState::Deleted) => true,
            _ => false,
        };
        if allowed {
            Ok(target)
        } else {
            Err(transition_error(self.as_str(), target.as_str()))
        }
    }

    /// Parses a column value.
    pub fn from_name(s: &str) -> (r: Result<MediaState, StorageError>)
        ensures
            forall|b: MediaState| s@ == media_state_name(b) ==> r == Ok::<MediaState, StorageError>(b),
            (forall|b: MediaState| s@ != media_state_name(b)) ==> (r matches Err(StorageError::Custom(m)) && m@ == "unknown media_state: "@ + s@),
    {
        proof {
            assert forall|a: MediaState, b: MediaState| media_state_name(a) == media_state_name(b) implies a == b by {
                lemma_media_state_names_distinct(a, b);
            }
            assert(media_state_name(MediaState::ThumbnailOnly) == "thumbnail_only"@);
            assert(media_state_name(MediaState::OriginalLocal) == "original_local"@);
            assert(media_state_name(MediaState::RemoteOriginal) == "remote_original"@);
            assert(media_state_name(MediaState::DownloadInProgress) == "download_in_progress"@);
            assert(media_state_name(MediaState::Evicted) == "evicted"@);
            assert(media_state_name(MediaState::Deleted) == "deleted"@);
        }
        if str_eq(s, "thumbnail_only") {
            Ok(MediaState::ThumbnailOnly)
        } else if str_eq(s, "original_local") {
            Ok(MediaState::OriginalLocal)
        } else if str_eq(s, "remote_original") {
            Ok(MediaState::RemoteOriginal)
        } else if str_eq(s, "download_in_progress") {
            Ok(MediaState::DownloadInProgress)
        } else if str_eq(s, "evicted") {
            Ok(MediaState::Evicted)
        } else if str_eq(s, "deleted") {
            Ok(MediaState::Deleted)
        } else {
            let mut m = to_owned_string("unknown media_state: ");
            push_str(&mut m, s);
            Err(StorageError::Custom(m))
        }
    }
}

impl core::str::FromStr for MediaState {
    type Err = StorageError;

    fn from_str(s: &str) -> (r: Result<Self, StorageError>)
        ensures
            forall|b: MediaState| s@ == media_state_name(b) ==> r == Ok::<MediaState, StorageError>(b),
            (forall|b: MediaState| s@ != media_state_name(b)) ==> (r matches Err(StorageError::Custom(m)) && m@ == "unknown media_state: "@ + s@),
    {
        Self::from_name(s)
    }
}

/// Distinct media states have distinct column values.
pub proof fn lemma_media_state_names_distinct(a: MediaState, b: MediaState)
    ensures
        media_state_name(a) == media_state_name(b) ==> a == b,
{
    reveal_strlit("thumbnail_only");
    reveal_strlit("original_local");
    reveal_strlit("remote_original");
    reveal_strlit("download_in_progress");
    reveal_strlit("evicted");
    reveal_strlit("deleted");
    if media_state_name(a) == media_state_name(b) && a != b {
        let x = media_state_name(a);
        let y = media_state_name(b);
        assert(x.len() == y.len());
        if x.len() > 0 { assert(x[0] == y[0]); }
    }
}

// ---------------------------------------------------------------------------
// ArchiveState
// ---------------------------------------------------------------------------
/// Archive state of a message.
#[derive(Debug, Clone, Copy, PartialEq, Eq, Structural)]
pub enum ArchiveState {
    NotArchived,
    Archiving,
    Archived,
    ArchiveFailed,
}

/// Column value of each archive state.
pub open spec fn archive_state_name(s: ArchiveState) -> Seq<char> {
    match s {
        ArchiveState::NotArchived => "not_archived"@,
        ArchiveState::Archiving => "archiving"@,
        ArchiveState::Archived => "archived"@,
        ArchiveState::ArchiveFailed => "archive_failed"@,
    }
}

/// The archive-state edges other than staying put.
pub open spec fn archive_state_edge(from: ArchiveState, to: ArchiveState) -> bool {
    match (from, to) {
        (ArchiveState::NotArchived, ArchiveState::Archiving) => true,
        (ArchiveState::Archiving, ArchiveState::Archived) => true,
        (ArchiveState::Archiving, ArchiveState::ArchiveFailed) => true,
        (ArchiveState::ArchiveFailed, ArchiveState::Archiving) => true,
        (ArchiveState::Archived, ArchiveState::NotArchived) => true,
        _ => false,
    }
}

/// A archive-state transition is accepted when it stays put or follows an edge.
pub open spec fn archive_state_transition_ok(from: ArchiveState, to: ArchiveState) -> bool {
    from == to || archive_state_edge(from, to)
}

impl ArchiveState {
    pub fn as_str(&self) -> (r: &'static str)
        ensures
            r@ == archive_state_name(*self),
    {
        match self {
            ArchiveState::NotArchived => "not_archived",
            ArchiveState::Archiving => "archiving",
            ArchiveState::Archived => "archived",
            ArchiveState::ArchiveFailed => "archive_failed",
        }
    }

    /// The column value as an owned string.
    pub fn to_string(&self) -> (r: String)
        ensures
            r@ == archive_state_name(*self),
    {
        to_owned_string(self.as_str())
    }

    /// Attempt a state transition; refused transitions name both states.
    pub fn try_transition(&self, target: ArchiveState) -> (r: Result<ArchiveState, StorageError>)
        ensures
            archive_state_transition_ok(*self, target) ==> r == Ok::<ArchiveState, StorageError>(target),
            !archive_state_transition_ok(*self, target) ==> (r matches Err(StorageError::InvalidStateTransition(m))
                && m@ == transition_message(archive_state_name(*self), archive_state_name(target))),
    {
        if *self == target {
            return Ok(target);
        }
        let allowed = match (*self, target) {
            (ArchiveState::NotArchived, ArchiveState::Archiving) => true,
            (ArchiveState::Archiving, ArchiveState::Archived) => true,
            (ArchiveState::Archiving, ArchiveState::ArchiveFailed) => true,
            (ArchiveState::ArchiveFailed, ArchiveState::Archiving) => true,
            (ArchiveState::Archived, ArchiveState::NotArchived) => true,
            _ => false,
        };
        if allowed {
            Ok(target)
        } else {
            Err(transition_error(self.as_str(), target.as_str()))
        }
    }

    /// Parses a column value.
    pub fn from_name(s: &str) -> (r: Result<ArchiveState, StorageError>)
        ensures
            forall|b: ArchiveState| s@ == archive_state_name(b) ==> r == Ok::<ArchiveState, StorageError>(b),
            (forall|b: ArchiveState| s@ != archive_state_name(b)) ==> (r matches Err(StorageError::Custom(m)) && m@ == "unknown archive_state: "@ + s@),
    {
        proof {
            assert forall|a: ArchiveState, b: ArchiveState| archive_state_name(a) == archive_state_name(b) implies a == b by {
                lemma_archive_state_names_distinct(a, b);
            }
            assert(archive_state_name(ArchiveState::NotArchived) == "not_archived"@);
            assert(archive_state_name(ArchiveState::Archiving) == "archiving"@);
            assert(archive_state_name(ArchiveState::Archived) == "archived"@);
            assert(archive_state_name(ArchiveState::ArchiveFailed) == "archive_failed"@);
        }
        if str_eq(s, "not_archived") {
            Ok(ArchiveState::NotArchived)
        } else if str_eq(s, "archiving") {
            Ok(ArchiveState::Archiving)
        } else if str_eq(s, "archived") {
            Ok(ArchiveState::Archived)
        } else if str_eq(s, "archive_failed") {
            Ok(ArchiveState::ArchiveFailed)
        } else {
            let mut m = to_owned_string("unknown archive_state: ");
            push_str(&mut m, s);
            Err(StorageError::Custom(m))
        }
    }
}

impl core::str::FromStr for ArchiveState {
    type Err = StorageError;

    fn from_str(s: &str) -> (r: Result<Self, StorageError>)
        ensures
            forall|b: ArchiveState| s@ == archive_state_name(b) ==> r == Ok::<ArchiveState, StorageError>(b),
            (forall|b: ArchiveState| s@ != archive_state_name(b)) ==> (r matches Err(StorageError::Custom(m)) && m@ == "unknown archive_state: "@ + s@),
    {
        Self::from_name(s)
    }
}

/// Distinct archive states have distinct column values.
pub proof fn lemma_archive_state_names_distinct(a: ArchiveState, b: ArchiveState)
    ensures
        archive_state_name(a) == archive_state_name(b) ==> a == b,
{
    reveal_strlit("not_archived");
    reveal_strlit("archiving");
    reveal_strlit("archived");
    reveal_strlit("archive_failed");
    if archive_state_name(a) == archive_state_name(b) && a != b {
        let x = archive_state_name(a);
        let y = archive_state_name(b);
        assert(x.len() == y.len());
        if x.len() > 0 { assert(x[0] == y[0]); }
    }
}

// ---------------------------------------------------------------------------
// BackupState
// ---------------------------------------------------------------------------
/// Backup state of a message.
#[derive(Debug, Clone, Copy, PartialEq, Eq, Structural)]
pub enum BackupState {
    NotBackedUp,
    BackingUp,
    BackedUp,
    BackupFailed,
}

/// Column value of each backup state.
pub open spec fn backup_state_name(s: BackupState) -> Seq<char> {
    match s {
        BackupState::NotBackedUp => "not_backed_up"@,
        BackupState::BackingUp => "backing_up"@,
        BackupState::BackedUp => "backed_up"@,
        BackupState::BackupFailed => "backup_failed"@,
    }
}

/// The backup-state edges other than staying put.
pub open spec fn backup_state_edge(from: BackupState, to: BackupState) -> bool {
    match (from, to) {
        (BackupState::NotBackedUp, BackupState::BackingUp) => true,
        (BackupState::BackingUp, BackupState::BackedUp) => true,
        (BackupState::BackingUp, BackupState::BackupFailed) => true,
        (BackupState::BackupFailed, BackupState::BackingUp) => true,
        (BackupState::BackedUp, BackupState::NotBackedUp) => true,
        _ => false,
    }
}

/// A backup-state transition is accepted when it stays put or follows an edge.
pub open spec fn backup_state_transition_ok(from: BackupState, to: BackupState) -> bool {
    from == to || backup_state_edge(from, to)
}

impl BackupState {
    pub fn as_str(&self) -> (r: &'static str)
        ensures
            r@ == backup_state_name(*self),
    {
        match self {
            BackupState::NotBackedUp => "not_backed_up",
            BackupState::BackingUp => "backing_up",
            BackupState::BackedUp => "backed_up",
            BackupState::BackupFailed => "backup_failed",
        }
    }

    /// The column value as an owned string.
    pub fn to_string(&self) -> (r: String)
        ensures
            r@ == backup_state_name(*self),
    {
        to_owned_string(self.as_str())
    }

    /// Attempt a state transition; refused transitions name both states.
    pub fn try_transition(&self, target: BackupState) -> (r: Result<BackupState, StorageError>)
        ensures
            backup_state_transition_ok(*self, target) ==> r == Ok::<BackupState, StorageError>(target),
            !backup_state_transition_ok(*self, target) ==> (r matches Err(StorageError::InvalidStateTransition(m))
                && m@ == transition_message(backup_state_name(*self), backup_state_name(target))),
    {
        if *self == target {
            return Ok(target);
        }
        let allowed = match (*self, target) {
            (BackupState::NotBackedUp, BackupState::BackingUp) => true,
            (BackupState::BackingUp, BackupState::BackedUp) => true,
            (BackupState::BackingUp, BackupState::BackupFailed) => true,
            (BackupState::BackupFailed, BackupState::BackingUp) => true,
            (BackupState::BackedUp, BackupState::NotBackedUp) => true,
            _ => false,
        };
        if allowed {
            Ok(target)
        } else {
            Err(transition_error(self.as_str(), target.as_str()))
        }
    }

    /// Parses a column value.
    pub fn from_name(s: &str) -> (r: Result<BackupState, StorageError>)
        ensures
            forall|b: BackupState| s@ == backup_state_name(b) ==> r == Ok::<BackupState, StorageError>(b),
            (forall|b: BackupState| s@ != backup_state_name(b)) ==> (r matches Err(StorageError::Custom(m)) && m@ == "unknown backup_state: "@ + s@),
    {
        proof {
            assert forall|a: BackupState, b: BackupState| backup_state_name(a) == backup_state_name(b) implies a == b by {
                lemma_backup_state_names_distinct(a, b);
            }
            assert(backup_state_name(BackupState::NotBackedUp) == "not_backed_up"@);
            assert(backup_state_name(BackupState::BackingUp) == "backing_up"@);
            assert(backup_state_name(BackupState::BackedUp) == "backed_up"@);
            assert(backup_state_name(BackupState::BackupFailed) == "backup_failed"@);
        }
        if str_eq(s, "not_backed_up") {
            Ok(BackupState::NotBackedUp)
        } else if str_eq(s, "backing_up") {
            Ok(BackupState::BackingUp)
        } else if str_eq(s, "backed_up") {
            Ok(BackupState::BackedUp)
        } else if str_eq(s, "backup_failed") {
            Ok(BackupState::BackupFailed)
        } else {
            let mut m = to_owned_string("unknown backup_state: ");
            push_str(&mut m, s);
            Err(StorageError::Custom(m))
        }
    }
}

impl core::str::FromStr for BackupState {
    type Err = StorageError;

    fn from_str(s: &str) -> (r: Result<Self, StorageError>)
        ensures
            forall|b: BackupState| s@ == backup_state_name(b) ==> r == Ok::<BackupState, StorageError>(b),
            (forall|b: BackupState| s@ != backup_state_name(b)) ==> (r matches Err(StorageError::Custom(m)) && m@ == "unknown backup_state: "@ + s@),
    {
        Self::from_name(s)
    }
}

/// Distinct backup states have distinct column values.
pub proof fn lemma_backup_state_names_distinct(a: BackupState, b: BackupState)
    ensures
        backup_state_name(a) == backup_state_name(b) ==> a == b,
{
    reveal_strlit("not_backed_up");
    reveal_strlit("backing_up");
    reveal_strlit("backed_up");
    reveal_strlit("backup_failed");
    if backup_state_name(a) == backup_state_name(b) && a != b {
        let x = backup_state_name(a);
        let y = backup_state_name(b);
        assert(x.len() == y.len());
        if x.len() > 0 { assert(x[0] == y[0]); }
    }
}

// ---------------------------------------------------------------------------
// RestoreState
// ---------------------------------------------------------------------------
/// State of a restore operation.
#[derive(Debug, Clone, Copy, PartialEq, Eq, Structural)]
pub enum RestoreState {
    NotStarted,
    FetchingManifests,
    FetchingSkeletons,
    FetchingBodies,
    FetchingMedia,
    BuildingIndexes,
    Complete,
    Failed,
}

/// Column value of each restore state.
pub open spec fn restore_state_name(s: RestoreState) -> Seq<char> {
    match s {
        RestoreState::NotStarted => "not_started"@,
        RestoreState::FetchingManifests => "fetching_manifests"@,
        RestoreState::FetchingSkeletons => "fetching_skeletons"@,
        RestoreState::FetchingBodies => "fetching_bodies"@,
        RestoreState::FetchingMedia => "fetching_media"@,
        RestoreState::BuildingIndexes => "building_indexes"@,
        RestoreState::Complete => "complete"@,
        RestoreState::Failed => "failed"@,
    }
}

impl RestoreState {
    pub fn as_str(&self) -> (r: &'static str)
        ensures
            r@ == restore_state_name(*self),
    {
        match self {
            RestoreState::NotStarted => "not_started",
            RestoreState::FetchingManifests => "fetching_manifests",
            RestoreState::FetchingSkeletons => "fetching_skeletons",
            RestoreState::FetchingBodies => "fetching_bodies",
            RestoreState::FetchingMedia => "fetching_media",
            RestoreState::BuildingIndexes => "building_indexes",
            RestoreState::Complete => "complete",
            RestoreState::Failed => "failed",
        }
    }

    /// The column value as an owned string.
    pub fn to_string(&self) -> (r: String)
        ensures
            r@ == restore_state_name(*self),
    {
        to_owned_string(self.as_str())
    }
}

/// Distinct restore states have distinct column values.
pub proof fn lemma_restore_state_names_distinct(a: RestoreState, b: RestoreState)
    ensures
        restore_state_name(a) == restore_state_name(b) ==> a == b,
{
    reveal_strlit("not_started");
    reveal_strlit("fetching_manifests");
    reveal_strlit("fetching_skeletons");
    reveal_strlit("fetching_bodies");
    reveal_strlit("fetching_media");
    reveal_strlit("building_indexes");
    reveal_strlit("complete");
    reveal_strlit("failed");
    if restore_state_name(a) == restore_state_name(b) && a != b {
        let x = restore_state_name(a);
        let y = restore_state_name(b);
        assert(x.len() == y.len());
        if x.len() > 0 { assert(x[0] == y[0]); }
        if x.len() > 9 { assert(x[9] == y[9]); }
    }
}

/// The body-state transitions `try_transition` accepts are exactly staying
/// put and these twenty pairs.
pub proof fn lemma_body_transitions_accepted(from: BodyState, to: BodyState)
    ensures
        body_state_transition_ok(from, to) <==> ({
            ||| from == to
            ||| (from, to) == (BodyState::DeliveryStoreOnly, BodyState::LocalPlainAvailable)
            ||| (from, to) == (BodyState::DeliveryStoreOnly, BodyState::LocalEncryptedAvailable)
            ||| (from, to) == (BodyState::DeliveryStoreOnly, BodyState::RemoteArchiveOnly)
            ||| (from, to) == (BodyState::DeliveryStoreOnly, BodyState::DeletedForMe)
            ||| (from, to) == (BodyState::DeliveryStoreOnly, BodyState::DeletedForEveryone)
            ||| (from, to) == (BodyState::DeliveryStoreOnly, BodyState::Unavailable)
            ||| (from, to) == (BodyState::LocalPlainAvailable, BodyState::LocalEncryptedAvailable)
            ||| (from, to) == (BodyState::LocalPlainAvailable, BodyState::RemoteArchiveOnly)
            ||| (from, to) == (BodyState::LocalPlainAvailable, BodyState::DeletedForMe)
            ||| (from, to) == (BodyState::LocalPlainAvailable, BodyState::DeletedForEveryone)
            ||| (from, to) == (BodyState::LocalPlainAvailable, BodyState::Unavailable)
            ||| (from, to) == (BodyState::LocalEncryptedAvailable, BodyState::LocalPlainAvailable)
            ||| (from, to) == (BodyState::LocalEncryptedAvailable, BodyState::RemoteArchiveOnly)
            ||| (from, to) == (BodyState::LocalEncryptedAvailable, BodyState::DeletedForMe)
            ||| (from, to) == (BodyState::LocalEncryptedAvailable, BodyState::DeletedForEveryone)
            ||| (from, to) == (BodyState::LocalEncryptedAvailable, BodyState::Unavailable)
            ||| (from, to) == (BodyState::RemoteArchiveOnly, BodyState::LocalPlainAvailable)
            ||| (from, to) == (BodyState::RemoteArchiveOnly, BodyState::LocalEncryptedAvailable)
            ||| (from, to) == (BodyState::RemoteArchiveOnly, BodyState::Unavailable)
            ||| (from, to) == (BodyState::DeletedForMe, BodyState::DeletedForEveryone)
        }),
{
}

/// The media-state transitions `try_transition` accepts are exactly staying
/// put and these eighteen pairs.
pub proof fn lemma_media_transitions_accepted(from: MediaState, to: MediaState)
    ensures
        media_state_transition_ok(from, to) <==> ({
            ||| from == to
            ||| (from, to) == (MediaState::ThumbnailOnly, MediaState::OriginalLocal)
            ||| (from, to) == (MediaState::ThumbnailOnly, MediaState::RemoteOriginal)
            ||| (from, to) == (MediaState::ThumbnailOnly, MediaState::DownloadInProgress)
            ||| (from, to) == (MediaState::ThumbnailOnly, MediaState::Evicted)
            ||| (from, to) == (MediaState::ThumbnailOnly, MediaState::Deleted)
            ||| (from, to) == (MediaState::OriginalLocal, MediaState::ThumbnailOnly)
            ||| (from, to) == (MediaState::OriginalLocal, MediaState::RemoteOriginal)
            ||| (from, to) == (MediaState::OriginalLocal, MediaState::Evicted)
            ||| (from, to) == (MediaState::OriginalLocal, MediaState::Deleted)
            ||| (from, to) == (MediaState::RemoteOriginal, MediaState::DownloadInProgress)
            ||| (from, to) == (MediaState::RemoteOriginal, MediaState::OriginalLocal)
            ||| (from, to) == (MediaState::RemoteOriginal, MediaState::Evicted)
            ||| (from, to) == (MediaState::RemoteOriginal, MediaState::Deleted)
            ||| (from, to) == (MediaState::DownloadInProgress, MediaState::OriginalLocal)
            ||| (from, to) == (MediaState::DownloadInProgress, MediaState::RemoteOriginal)
            ||| (from, to) == (MediaState::DownloadInProgress, MediaState::Deleted)
            ||| (from, to) == (MediaState::Evicted, MediaState::DownloadInProgress)
            ||| (from, to) == (MediaState::Evicted, MediaState::Deleted)
        }),
{
}

/// The archive-state transitions `try_transition` accepts are exactly
/// staying put and these five pairs.
pub proof fn lemma_archive_transitions_accepted(from: ArchiveState, to: ArchiveState)
    ensures
        archive_state_transition_ok(from, to) <==> ({
            ||| from == to
            ||| (from, to) == (ArchiveState::NotArchived, ArchiveState::Archiving)
            ||| (from, to) == (ArchiveState::Archiving, ArchiveState::Archived)
            ||| (from, to) == (ArchiveState::Archiving, ArchiveState::ArchiveFailed)
            ||| (from, to) == (ArchiveState::ArchiveFailed, ArchiveState::Archiving)
            ||| (from, to) == (ArchiveState::Archived, ArchiveState::NotArchived)
        }),
{
}

/// The backup-state transitions `try_transition` accepts are exactly staying
/// put and these five pairs.
pub proof fn lemma_backup_transitions_accepted(from: BackupState, to: BackupState)
    ensures
        backup_state_transition_ok(from, to) <==> ({
            ||| from == to
            ||| (from, to) == (BackupState::NotBackedUp, BackupState::BackingUp)
            ||| (from, to) == (BackupState::BackingUp, BackupState::BackedUp)
            ||| (from, to) == (BackupState::BackingUp, BackupState::BackupFailed)
            ||| (from, to) == (BackupState::BackupFailed, BackupState::BackingUp)
            ||| (from, to) == (BackupState::BackedUp, BackupState::NotBackedUp)
        }),
{
}

} // verus!
