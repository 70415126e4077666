//! SQLCipher schema of the local store, its forward migrations, and the
//! typed rows that mirror the table columns.

use vstd::prelude::*;

use super::state_machines::{ArchiveState, BackupState, BodyState, MediaState, RestoreState};
use crate::config::ArchiveBackend;
use crate::text::{decimal, push_decimal, push_str, str_eq};

verus! {

/// `CREATE TABLE` / `CREATE VIRTUAL TABLE` statements for every table of the
/// local store (migration v1), for `execute_batch`.
pub const SCHEMA_SQL: &'static str = r#"
-- Conversations
CREATE TABLE IF NOT EXISTS conversation (
    conversation_id   TEXT PRIMARY KEY,
    title_cipher      BLOB,                 -- encrypted with K_local_db
    pinned            INTEGER NOT NULL DEFAULT 0,
    muted             INTEGER NOT NULL DEFAULT 0,
    last_message_id   TEXT,
    last_activity_ms  INTEGER NOT NULL,
    conversation_type TEXT NOT NULL DEFAULT 'dm',
    scope             TEXT NOT NULL DEFAULT 'b2c',
    tenant_id         TEXT NOT NULL DEFAULT '',
    community_id      TEXT NOT NULL DEFAULT '',
    domain_id         TEXT NOT NULL DEFAULT ''
);
CREATE INDEX IF NOT EXISTS idx_conv_community
    ON conversation(community_id);
CREATE INDEX IF NOT EXISTS idx_conv_domain
    ON conversation(domain_id);
CREATE INDEX IF NOT EXISTS idx_conv_tenant
    ON conversation(tenant_id);
CREATE INDEX IF NOT EXISTS idx_conv_scope
    ON conversation(scope);

-- Skeletons render the timeline before any body / media is loaded
CREATE TABLE IF NOT EXISTS message_skeleton (
    message_id        TEXT PRIMARY KEY,
    conversation_id   TEXT NOT NULL REFERENCES conversation(conversation_id),
    sender_id         TEXT NOT NULL,
    created_at_ms     INTEGER NOT NULL,
    received_at_ms    INTEGER NOT NULL,
    kind              TEXT NOT NULL,
    body_state        TEXT NOT NULL,
    media_state       TEXT,
    archive_state     TEXT NOT NULL DEFAULT 'not_archived',
    backup_state      TEXT NOT NULL DEFAULT 'not_backed_up',
    reply_to          TEXT,
    edited_at_ms      INTEGER,
    deleted_at_ms     INTEGER
);
CREATE INDEX IF NOT EXISTS idx_skeleton_conv_time
    ON message_skeleton (conversation_id, created_at_ms DESC);

-- Additional indexes for backup, archive, and sender queries
CREATE INDEX IF NOT EXISTS idx_skeleton_backup_state
    ON message_skeleton(backup_state) WHERE backup_state = 'not_backed_up';
CREATE INDEX IF NOT EXISTS idx_skeleton_archive_state
    ON message_skeleton(archive_state, created_at_ms);
CREATE INDEX IF NOT EXISTS idx_skeleton_sender
    ON message_skeleton(conversation_id, sender_id, created_at_ms);

CREATE TABLE IF NOT EXISTS message_body (
    message_id        TEXT PRIMARY KEY REFERENCES message_skeleton(message_id),
    text_content      TEXT,                 -- UTF-8, may mix scripts
    detected_language TEXT,                 -- BCP-47, optional
    rich_meta         BLOB                  -- mentions, link previews (CBOR)
);

CREATE TABLE IF NOT EXISTS media_asset (
    asset_id          TEXT PRIMARY KEY,
    message_id        TEXT NOT NULL REFERENCES message_skeleton(message_id),
    mime_type         TEXT NOT NULL,
    bytes_total       INTEGER NOT NULL,
    bytes_local       INTEGER NOT NULL,
    media_state       TEXT NOT NULL,
    wrapped_k_asset   BLOB NOT NULL,
    chunk_count       INTEGER NOT NULL,
    merkle_root       BLOB NOT NULL,
    blob_id           TEXT NOT NULL,
    storage_sink      TEXT NOT NULL DEFAULT 'kchat_backend'
);

-- Multilingual full-text search
CREATE VIRTUAL TABLE IF NOT EXISTS search_fts USING fts5(
    message_id        UNINDEXED,
    conversation_id   UNINDEXED,
    sender_id         UNINDEXED,
    created_at_ms     UNINDEXED,
    text_content,
    tokenize = 'unicode61 remove_diacritics 2',
    detail = 'full'
);

CREATE TABLE IF NOT EXISTS search_fuzzy (
    token       TEXT NOT NULL,
    script      TEXT NOT NULL,             -- ISO-15924
    message_id  TEXT NOT NULL,
    PRIMARY KEY (token, script, message_id)
);

CREATE TABLE IF NOT EXISTS search_vector (
    message_id    TEXT NOT NULL,
    embedding     BLOB NOT NULL,            -- INT8-quantized
    model_version TEXT NOT NULL,
    PRIMARY KEY (message_id, model_version)
);

CREATE TABLE IF NOT EXISTS media_search_index (
    asset_id      TEXT NOT NULL REFERENCES media_asset(asset_id),
    kind          TEXT NOT NULL,            -- 'ocr' | 'caption' | 'transcript' | 'tag'
    text          TEXT NOT NULL,
    language      TEXT,                     -- BCP-47 if detected
    confidence    REAL,
    PRIMARY KEY (asset_id, kind, text)
);

-- Backup pipeline
CREATE TABLE IF NOT EXISTS backup_event_journal (
    event_seq       INTEGER PRIMARY KEY AUTOINCREMENT,
    event_type      TEXT NOT NULL,
    conversation_id TEXT,
    message_id      TEXT,
    payload         BLOB NOT NULL,            -- CBOR
    created_at_ms   INTEGER NOT NULL
);
CREATE INDEX IF NOT EXISTS idx_backup_event_journal_created
    ON backup_event_journal(created_at_ms);

-- Persisted backup coordinator state (single-row table)
CREATE TABLE IF NOT EXISTS backup_state (
    id                  INTEGER PRIMARY KEY CHECK (id = 1),
    current_generation  INTEGER NOT NULL,
    prev_manifest_hash  BLOB NOT NULL
);

CREATE TABLE IF NOT EXISTS backup_event_cursor (
    id          INTEGER PRIMARY KEY CHECK (id = 1),
    cursor_seq  INTEGER NOT NULL DEFAULT 0
);

-- Archive pipeline
CREATE TABLE IF NOT EXISTS archive_segment_map (
    segment_id           TEXT PRIMARY KEY,
    conversation_id      TEXT NOT NULL,
    time_bucket          TEXT NOT NULL,
    segment_type         TEXT NOT NULL,
    blob_id              TEXT NOT NULL,
    storage_backend      TEXT NOT NULL DEFAULT 'kchat_backend',
    merkle_root          BLOB NOT NULL,
    state                TEXT NOT NULL,
    tenant_id            TEXT NOT NULL DEFAULT ''
);
CREATE INDEX IF NOT EXISTS idx_asm_tenant_bucket
    ON archive_segment_map(tenant_id, time_bucket);
CREATE INDEX IF NOT EXISTS idx_archive_conv_bucket
    ON archive_segment_map (conversation_id, time_bucket);

CREATE TABLE IF NOT EXISTS archive_event_journal (
    event_seq       INTEGER PRIMARY KEY AUTOINCREMENT,
    event_type      TEXT NOT NULL,
    conversation_id TEXT NOT NULL,
    message_id      TEXT,
    payload         BLOB NOT NULL,            -- CBOR
    created_at_ms   INTEGER NOT NULL
);

CREATE TABLE IF NOT EXISTS archive_event_cursor (
    id          INTEGER PRIMARY KEY CHECK (id = 1),
    cursor_seq  INTEGER NOT NULL DEFAULT 0
);

-- Restore state machine
CREATE TABLE IF NOT EXISTS restore_state (
    id     INTEGER PRIMARY KEY CHECK (id = 1),
    state  TEXT NOT NULL,
    notes  TEXT
);

-- Knowledge cards
CREATE TABLE IF NOT EXISTS knowledge_card (
    card_id         TEXT PRIMARY KEY,
    title           TEXT NOT NULL,
    card_type       TEXT NOT NULL,
    source_messages TEXT NOT NULL,
    confidence      REAL NOT NULL DEFAULT 0.0,
    pinned          INTEGER NOT NULL DEFAULT 0,
    created_at_ms   INTEGER NOT NULL
);

-- Knowledge entities
CREATE TABLE IF NOT EXISTS knowledge_entity (
    entity_id   TEXT PRIMARY KEY,
    card_id     TEXT NOT NULL REFERENCES knowledge_card(card_id),
    entity_type TEXT NOT NULL,
    value       TEXT NOT NULL,
    language    TEXT
);

-- Threat index
CREATE TABLE IF NOT EXISTS threat_index (
    threat_id   TEXT PRIMARY KEY,
    pattern     TEXT NOT NULL,
    severity    TEXT NOT NULL,
    created_at_ms INTEGER NOT NULL
);

-- Outbox (pending outgoing messages)
CREATE TABLE IF NOT EXISTS outbox (
    client_message_id  TEXT PRIMARY KEY,
    conversation_id    TEXT NOT NULL,
    text_content       TEXT,
    media_asset_id     TEXT,
    created_at_ms      INTEGER NOT NULL,
    sent               INTEGER NOT NULL DEFAULT 0,
    sent_at_ms         INTEGER
);
"#;

/// Migration v2: backup manifest chain and segment ledger tables.
pub const MIGRATION_V2_SQL: &'static str = r#"
CREATE TABLE IF NOT EXISTS backup_manifest_chain (
    id              INTEGER PRIMARY KEY CHECK (id = 1),
    generation      INTEGER NOT NULL,
    manifest_cbor   BLOB NOT NULL,
    updated_at_ms   INTEGER NOT NULL
);

CREATE TABLE IF NOT EXISTS backup_segment_ledger (
    segment_id           TEXT PRIMARY KEY,
    segment_type         TEXT NOT NULL,
    nonce                BLOB NOT NULL,
    ciphertext           BLOB NOT NULL,
    merkle_root          BLOB NOT NULL,
    event_count          INTEGER NOT NULL,
    tier                 TEXT NOT NULL,
    min_event_ms         INTEGER NOT NULL,
    max_event_ms         INTEGER NOT NULL,
    wrapped_k_segment    BLOB NOT NULL,
    created_at_ms        INTEGER NOT NULL
);
CREATE INDEX IF NOT EXISTS idx_backup_segment_ledger_tier_min
    ON backup_segment_ledger(tier, min_event_ms);
"#;

/// Migration v3: `sink_metadata` column on `media_asset`.
pub const MIGRATION_V3_SQL: &'static str = r#"
ALTER TABLE media_asset ADD COLUMN sink_metadata BLOB;
"#;

/// Migration v4: search shard map ledger.
pub const MIGRATION_V4_SQL: &'static str = r#"
CREATE TABLE IF NOT EXISTS search_shard_map (
    conversation_hash   TEXT NOT NULL,
    time_bucket         TEXT NOT NULL,
    shard_type          TEXT NOT NULL,
    shard_id            TEXT NOT NULL,
    doc_count           INTEGER NOT NULL,
    ciphertext_len      INTEGER NOT NULL,
    ciphertext_sha256   BLOB NOT NULL,
    uploaded_at_ms      INTEGER NOT NULL,
    PRIMARY KEY (conversation_hash, time_bucket, shard_type)
);
"#;

/// Migration v5: `content_hash` on `search_shard_map`.
pub const MIGRATION_V5_SQL: &'static str = r#"
ALTER TABLE search_shard_map ADD COLUMN content_hash BLOB;
"#;

/// The highest `user_version` the migrations produce.
pub const LATEST_USER_VERSION: i32 = 5;

/// The SQL of migration `version` (1 is the base schema).
pub open spec fn migration_sql(version: int) -> &'static str {
    if version == 1 {
        SCHEMA_SQL
    } else if version == 2 {
        MIGRATION_V2_SQL
    } else if version == 3 {
        MIGRATION_V3_SQL
    } else if version == 4 {
        MIGRATION_V4_SQL
    } else {
        MIGRATION_V5_SQL
    }
}

/// The ordered table of forward migrations: `(target user_version, SQL)`.
pub fn migrations() -> (r: Vec<(i32, &'static str)>)
    ensures
        r@.len() == 5,
        forall|i: int| 0 <= i < 5 ==> #[trigger] r@[i] == ((i + 1) as i32, migration_sql(i + 1)),
{
    let mut r: Vec<(i32, &'static str)> = Vec::new();
    r.push((1, SCHEMA_SQL));
    r.push((2, MIGRATION_V2_SQL));
    r.push((3, MIGRATION_V3_SQL));
    r.push((4, MIGRATION_V4_SQL));
    r.push((5, MIGRATION_V5_SQL));
    r
}

/// One migration to run: its SQL, the versions reported if it fails, and
/// whether `user_version` is set to `target_version` right after it.
#[derive(Debug, Clone, Copy)]
pub struct MigrationStep {
    pub target_version: i32,
    pub sql: &'static str,
    pub error_from: u32,
    pub set_user_version_after: bool,
}

/// What opening a database at `user_version` must run: the steps in order,
/// then, when present, the final `user_version` to record.
#[derive(Debug, Clone)]
pub struct MigrationPlan {
    pub steps: Vec<MigrationStep>,
    pub final_user_version: Option<i32>,
}

/// The view of a step: `(target, sql, error_from, set_after)`.
pub open spec fn step_view(s: MigrationStep) -> (int, &'static str, u32, bool) {
    (s.target_version as int, s.sql, s.error_from, s.set_user_version_after)
}

/// The steps for a database at `current`:
/// * a fresh database (version 0) runs the base schema and then every later
///   migration, a failure of migration `v` reported as from `v - 1` to `v`,
///   and records the latest version at the end;
/// * an older database runs, in order, each migration above its version,
///   a failure reported as from its version (as `u32`) to the target, and
///   records each target right after its migration;
/// * a database at or above the latest version runs nothing.
pub open spec fn migration_steps(current: i32) -> Seq<(int, &'static str, u32, bool)> {
    if current == 0 {
        Seq::new(5, |i: int| (i + 1, migration_sql(i + 1), i as u32, false))
    } else if current < LATEST_USER_VERSION {
        let first = if current < 0 { 1 } else { current as int + 1 };
        Seq::new((6 - first) as nat, |i: int| (first + i, migration_sql(first + i), current as u32, true))
    } else {
        Seq::empty()
    }
}

/// Plan the migrations for a database whose `user_version` is
/// `current_version`.
pub fn plan_migrations(current_version: i32) -> (plan: MigrationPlan)
    ensures
        plan.steps@.map_values(|s: MigrationStep| step_view(s)) == migration_steps(current_version),
        plan.final_user_version == (if current_version == 0 { Some(LATEST_USER_VERSION) } else { None::<i32> }),
{
    let table = migrations();
    let mut steps: Vec<MigrationStep> = Vec::new();
    let mut i: usize = 0;
    let ghost expected = migration_steps(current_version);
    let ghost first: int = if current_version == 0 {
        1
    } else if current_version < 0 {
        1
    } else {
        current_version as int + 1
    };
    while i < 5
        invariant
            0 <= i <= 5,
            table@.len() == 5,
            forall|k: int| 0 <= k < 5 ==> #[trigger] table@[k] == ((k + 1) as i32, migration_sql(k + 1)),
            expected == migration_steps(current_version),
            first == (if current_version <= 0 { 1 } else { current_version as int + 1 }),
            current_version < LATEST_USER_VERSION ==> steps@.map_values(|s: MigrationStep| step_view(s))
                =~= expected.take(if i + 1 >= first { i + 1 - first } else { 0 }),
            current_version >= LATEST_USER_VERSION ==> steps@.len() == 0,
        decreases 5 - i,
    {
        let (target, sql) = table[i];
        let ghost before = steps@.map_values(|s: MigrationStep| step_view(s));
        if current_version == 0 {
            steps.push(MigrationStep { target_version: target, sql, error_from: (target - 1) as u32, set_user_version_after: false });
        } else if current_version < LATEST_USER_VERSION && target > current_version {
            steps.push(MigrationStep { target_version: target, sql, error_from: current_version as u32, set_user_version_after: true });
        }
        proof {
            if current_version < LATEST_USER_VERSION && i + 1 >= first {
                assert(steps@.map_values(|s: MigrationStep| step_view(s)) =~= before.push(expected[i + 1 - first]));
            }
        }
        i = i + 1;
    }
    proof {
        if current_version < LATEST_USER_VERSION {
            assert(expected.take(6 - first) =~= expected);
        } else {
            assert(steps@.map_values(|s: MigrationStep| step_view(s)) =~= expected);
        }
    }
    let final_user_version = if current_version == 0 {
        Some(LATEST_USER_VERSION)
    } else {
        None
    };
    MigrationPlan { steps, final_user_version }
}

/// `kind` discriminator for `message_skeleton.kind`.
#[derive(Debug, Clone, Copy, PartialEq, Eq, Structural, Hash)]
pub enum MessageKind {
    Text,
    Media,
    System,
}

/// The column text of a message kind.
pub open spec fn message_kind_name(k: MessageKind) -> Seq<char> {
    match k {
        MessageKind::Text => "text"@,
        MessageKind::Media => "media"@,
        MessageKind::System => "system"@,
    }
}

/// The kind stored as `s`: `media` and `system` by name, anything else text.
pub open spec fn message_kind_of(s: Seq<char>) -> MessageKind {
    if s == "media"@ {
        MessageKind::Media
    } else if s == "system"@ {
        MessageKind::System
    } else {
        MessageKind::Text
    }
}

impl MessageKind {
    /// The column text of this kind.
    pub fn as_str(self) -> (r: &'static str)
        ensures
            r@ == message_kind_name(self),
    {
        match self {
            MessageKind::Text => "text",
            MessageKind::Media => "media",
            MessageKind::System => "system",
        }
    }

    /// Read a kind column: `media` and `system` by name, anything else is
    /// text.
    pub fn parse(s: &str) -> (r: Self)
        ensures
            r == message_kind_of(s@),
    {
        if str_eq(s, "media") {
            MessageKind::Media
        } else if str_eq(s, "system") {
            MessageKind::System
        } else {
            MessageKind::Text
        }
    }
}

/// Reading back the column text of a kind gives the kind.
pub proof fn lemma_message_kind_round_trip(k: MessageKind)
    ensures
        message_kind_of(message_kind_name(k)) == k,
{
    reveal_strlit("text");
    reveal_strlit("media");
    reveal_strlit("system");
    assert("text"@.len() == 4);
    assert("media"@.len() == 5);
    assert("system"@.len() == 6);
}

/// Typed value of `archive_segment_map.storage_backend`.
#[derive(Debug, Clone, Copy, PartialEq, Eq, Structural, Hash)]
pub enum StorageBackend {
    KChatBackend,
    ZkObjectFabric,
}

impl Default for StorageBackend {
    fn default() -> (r: Self)
        ensures
            r == StorageBackend::KChatBackend,
    {
        StorageBackend::KChatBackend
    }
}

/// The column text of a storage backend.
pub open spec fn storage_backend_name(b: StorageBackend) -> Seq<char> {
    match b {
        StorageBackend::KChatBackend => "kchat_backend"@,
        StorageBackend::ZkObjectFabric => "zk_object_fabric"@,
    }
}

/// `format!("{s:?}")` on a string: the text quoted and escaped as `Debug`
/// writes it.
pub uninterp spec fn debug_quoted(s: Seq<char>) -> Seq<char>;

/// Most message ids one batched body query binds; SQLite allows about 999
/// parameters.
pub const MAX_BATCH_PARAMS: usize = 900;

/// `n` query placeholders: `?` repeated `n` times, joined by `, `.
pub open spec fn placeholders(n: nat) -> Seq<char>
    decreases n,
{
    if n == 0 {
        Seq::empty()
    } else if n == 1 {
        "?"@
    } else {
        placeholders((n - 1) as nat) + ", ?"@
    }
}

/// The query fetching the bodies of `n` message ids.
pub open spec fn bodies_batch_sql(n: nat) -> Seq<char> {
    "SELECT message_id, text_content FROM message_body WHERE message_id IN ("@ + placeholders(n) + ")"@
}

/// The plan of a batched body fetch of `count` message ids: no query for no
/// ids, a refusal past [`MAX_BATCH_PARAMS`], and otherwise the query with one
/// placeholder per id.
pub fn plan_bodies_batch(count: usize) -> (r: Result<Option<String>, String>)
    ensures
        count == 0 ==> r matches Ok(None),
        count > MAX_BATCH_PARAMS ==> (r matches Err(m) && m@ == "batch size "@ + decimal(count as nat)
            + " exceeds SQLite parameter limit"@),
        0 < count <= MAX_BATCH_PARAMS ==> (r matches Ok(Some(sql)) && sql@ == bodies_batch_sql(count as nat)),
{
    if count == 0 {
        return Ok(None);
    }
    if count > MAX_BATCH_PARAMS {
        let mut m = "batch size ".to_owned();
        push_decimal(&mut m, count as u64);
        push_str(&mut m, " exceeds SQLite parameter limit");
        return Err(m);
    }
    let mut sql = "SELECT message_id, text_content FROM message_body WHERE message_id IN (".to_owned();
    let ghost head = sql@;
    let mut i: usize = 0;
    while i < count
        invariant
            0 <= i <= count,
            sql@ == head + placeholders(i as nat),
        decreases count - i,
    {
        if i == 0 {
            push_str(&mut sql, "?");
            proof {
                reveal_strlit("?");
                assert(placeholders(1) == "?"@);
            }
        } else {
            push_str(&mut sql, ", ?");
            proof {
                assert(placeholders((i + 1) as nat) == placeholders(i as nat) + ", ?"@);
            }
        }
        assert(sql@ =~= head + placeholders((i + 1) as nat));
        i = i + 1;
    }
    push_str(&mut sql, ")");
    Ok(Some(sql))
}

/// `format!("{s:?}")` on a string. Claimed: the result is
/// `debug_quoted(s)`.
#[verifier::external_body]
fn debug_quote(s: &str) -> (r: String)
    ensures
        r@ == debug_quoted(s@),
{
    format!("{s:?}")
}

/// The message refusing a backend column: a fixed prefix followed by the
/// value as `Debug` quotes it.
fn invalid_backend_message(other: &str) -> (r: String)
    ensures
        r@ == "invalid storage_backend value: "@ + debug_quoted(other@),
{
    let quoted = debug_quote(other);
    let mut m = "invalid storage_backend value: ".to_owned();
    push_str(&mut m, quoted.as_str());
    m
}

impl StorageBackend {
    /// The column text of this backend.
    pub fn as_str(self) -> (r: &'static str)
        ensures
            r@ == storage_backend_name(self),
    {
        match self {
            StorageBackend::KChatBackend => "kchat_backend",
            StorageBackend::ZkObjectFabric => "zk_object_fabric",
        }
    }

    /// The column text of this backend as a `String`.
    pub fn to_string(&self) -> (r: String)
        ensures
            r@ == storage_backend_name(*self),
    {
        self.as_str().to_owned()
    }

    /// Read a backend column; anything but the two names is refused.
    pub fn parse(s: &str) -> (r: Result<Self, String>)
        ensures
            r matches Ok(b) ==> storage_backend_name(b) == s@,
            r is Err <==> (s@ != "kchat_backend"@ && s@ != "zk_object_fabric"@),
            r matches Err(m) ==> m@ == "invalid storage_backend value: "@ + debug_quoted(s@),
    {
        if str_eq(s, "kchat_backend") {
            Ok(StorageBackend::KChatBackend)
        } else if str_eq(s, "zk_object_fabric") {
            Ok(StorageBackend::ZkObjectFabric)
        } else {
            Err(invalid_backend_message(s))
        }
    }

    /// The storage backend an archive backend writes to.
    pub fn from_archive_backend(backend: ArchiveBackend) -> (r: Self)
        ensures
            r == (match backend {
                ArchiveBackend::Kdrive => StorageBackend::KChatBackend,
                ArchiveBackend::Zkof => StorageBackend::ZkObjectFabric,
            }),
    {
        match backend {
            ArchiveBackend::Kdrive => StorageBackend::KChatBackend,
            ArchiveBackend::Zkof => StorageBackend::ZkObjectFabric,
        }
    }
}

impl From<ArchiveBackend> for StorageBackend {
    fn from(backend: ArchiveBackend) -> (r: Self) {
        Self::from_archive_backend(backend)
    }
}

impl vstd::std_specs::convert::FromSpecImpl<ArchiveBackend> for StorageBackend {
    open spec fn obeys_from_spec() -> bool {
        true
    }

    open spec fn from_spec(backend: ArchiveBackend) -> StorageBackend {
        match backend {
            ArchiveBackend::Kdrive => StorageBackend::KChatBackend,
            ArchiveBackend::Zkof => StorageBackend::ZkObjectFabric,
        }
    }
}

impl core::str::FromStr for StorageBackend {
    type Err = String;

    fn from_str(s: &str) -> (r: Result<Self, String>)
        ensures
            r matches Ok(b) ==> storage_backend_name(b) == s@,
            r is Err <==> (s@ != "kchat_backend"@ && s@ != "zk_object_fabric"@),
            r matches Err(m) ==> m@ == "invalid storage_backend value: "@ + debug_quoted(s@),
    {
        Self::parse(s)
    }
}

/// Parsing the column text of a backend gives the backend.
pub proof fn lemma_storage_backend_round_trip(b: StorageBackend)
    ensures
        storage_backend_name(b) == "kchat_backend"@ || storage_backend_name(b) == "zk_object_fabric"@,
        "kchat_backend"@ != "zk_object_fabric"@,
{
    reveal_strlit("kchat_backend");
    reveal_strlit("zk_object_fabric");
    assert("kchat_backend"@.len() == 13);
    assert("zk_object_fabric"@.len() == 16);
}

/// `conversation` row.
#[derive(Debug, Clone, PartialEq, Eq)]
pub struct Conversation {
    pub conversation_id: String,
    pub title_cipher: Option<Vec<u8>>,
    pub pinned: bool,
    pub muted: bool,
    pub last_message_id: Option<String>,
    pub last_activity_ms: i64,
    pub conversation_type: String,
    pub scope: String,
    pub tenant_id: String,
    pub community_id: String,
    pub domain_id: String,
}

/// Default `conversation_type` of rows written before the column existed.
pub fn default_conversation_type() -> (r: String)
    ensures
        r@ == "dm"@,
{
    "dm".to_owned()
}

/// Default `scope` of rows written before the column existed.
pub fn default_scope() -> (r: String)
    ensures
        r@ == "b2c"@,
{
    "b2c".to_owned()
}

impl Conversation {
    /// A row with the first six columns given; the later columns take their
    /// defaults (`dm`, `b2c`, and empty tenant, community and domain ids).
    pub fn legacy(
        conversation_id: &str,
        title_cipher: Option<Vec<u8>>,
        pinned: bool,
        muted: bool,
        last_message_id: Option<String>,
        last_activity_ms: i64,
    ) -> (r: Self)
        ensures
            r.conversation_id@ == conversation_id@,
            r.title_cipher == title_cipher,
            r.pinned == pinned,
            r.muted == muted,
            r.last_message_id == last_message_id,
            r.last_activity_ms == last_activity_ms,
            r.conversation_type@ == "dm"@,
            r.scope@ == "b2c"@,
            r.tenant_id@ == Seq::<char>::empty(),
            r.community_id@ == Seq::<char>::empty(),
            r.domain_id@ == Seq::<char>::empty(),
    {
        Conversation {
            conversation_id: conversation_id.to_owned(),
            title_cipher,
            pinned,
            muted,
            last_message_id,
            last_activity_ms,
            conversation_type: default_conversation_type(),
            scope: default_scope(),
            tenant_id: String::new(),
            community_id: String::new(),
            domain_id: String::new(),
        }
    }
}

impl Default for Conversation {
    fn default() -> (r: Self)
        ensures
            r.conversation_id@ == Seq::<char>::empty(),
            r.title_cipher is None,
            !r.pinned,
            !r.muted,
            r.last_message_id is None,
            r.last_activity_ms == 0,
            r.conversation_type@ == "dm"@,
            r.scope@ == "b2c"@,
            r.tenant_id@ == Seq::<char>::empty(),
            r.community_id@ == Seq::<char>::empty(),
            r.domain_id@ == Seq::<char>::empty(),
    {
        proof {
            reveal_strlit("");
        }
        Self::legacy("", None, false, false, None, 0)
    }
}

/// `message_skeleton` row.
#[derive(Debug, Clone, PartialEq, Eq)]
pub struct MessageSkeleton {
    pub message_id: String,
    pub conversation_id: String,
    pub sender_id: String,
    pub created_at_ms: i64,
    pub received_at_ms: i64,
    pub kind: MessageKind,
    pub body_state: BodyState,
    pub media_state: Option<MediaState>,
    pub archive_state: ArchiveState,
    pub backup_state: BackupState,
    pub reply_to: Option<String>,
    pub edited_at_ms: Option<i64>,
    pub deleted_at_ms: Option<i64>,
}

/// `message_body` row.
#[derive(Debug, Clone, PartialEq, Eq)]
pub struct MessageBody {
    pub message_id: String,
    pub text_content: Option<String>,
    pub detected_language: Option<String>,
    pub rich_meta: Option<Vec<u8>>,
}

/// `media_asset` row.
#[derive(Debug, Clone, PartialEq, Eq)]
pub struct MediaAsset {
    pub asset_id: String,
    pub message_id: String,
    pub mime_type: String,
    pub bytes_total: i64,
    pub bytes_local: i64,
    pub media_state: MediaState,
    pub wrapped_k_asset: Vec<u8>,
    pub chunk_count: i32,
    pub merkle_root: Vec<u8>,
    pub blob_id: String,
    pub storage_sink: String,
}

/// `backup_event_journal` row.
#[derive(Debug, Clone, PartialEq, Eq)]
pub struct BackupEventJournalEntry {
    pub event_seq: i64,
    pub event_type: String,
    pub conversation_id: Option<String>,
    pub message_id: Option<String>,
    pub payload: Vec<u8>,
    pub created_at_ms: i64,
}

/// `archive_segment_map` row.
#[derive(Debug, Clone, PartialEq, Eq)]
pub struct ArchiveSegmentMapEntry {
    pub segment_id: String,
    pub conversation_id: String,
    pub time_bucket: String,
    pub segment_type: String,
    pub blob_id: String,
    pub storage_backend: String,
    pub merkle_root: Vec<u8>,
    pub state: ArchiveState,
}

/// `restore_state` row.
#[derive(Debug, Clone, PartialEq, Eq)]
pub struct RestoreStateEntry {
    pub id: i32,
    pub state: RestoreState,
    pub notes: Option<String>,
}

/// Timeline row: a skeleton joined with its body text.
#[derive(Debug, Clone, PartialEq, Eq)]
pub struct TimelineRow {
    pub message_id: String,
    pub conversation_id: String,
    pub sender_id: String,
    pub created_at_ms: i64,
    pub kind: MessageKind,
    pub body_state: BodyState,
    pub text_content: Option<String>,
    pub reply_to: Option<String>,
    pub edited_at_ms: Option<i64>,
    pub deleted_at_ms: Option<i64>,
}

} // verus!
