//! Encrypted on-device store: row types, state machines and the error type.

pub mod schema;
pub mod state_machines;


use vstd::prelude::*;

verus! {

/// Storage-layer error.
#[derive(Debug)]
pub enum StorageError {
    /// The database driver reported a failure (its message).
    Sqlite(String),
    /// The database reported `SQLITE_BUSY` / `SQLITE_LOCKED`.
    DatabaseLocked,
    /// A schema migration failed mid-flight.
    MigrationFailed { from: u32, to: u32, detail: String },
    /// The volume holding the database is full.
    DiskFull,
    /// A decoded row failed an invariant check.
    CorruptRow { table: String, detail: String },
    /// A non-SQL I/O failure (its message).
    Io(String),
    /// A CBOR encode failed.
    CborEncode { context: String, detail: String },
    /// A CBOR decode failed.
    CborDecode { context: String, detail: String },
    /// A compress / decompress call failed.
    Zstd { context: String, detail: String },
    /// A textual identifier could not be parsed.
    InvalidId { kind: String, detail: String },
    /// A subsystem expected at boot was not installed.
    SubsystemNotInstalled(String),
    /// A write-once subsystem was installed twice.
    SubsystemAlreadyInstalled(String),
    /// A lock was poisoned by a panicking thread.
    LockPoisoned(String),
    /// The device is offline.
    Offline,
    /// A state machine refused a transition (`"from -> to"`).
    InvalidStateTransition(String),
    /// Free-form error.
    Custom(String),
}

impl StorageError {
    /// A [`StorageError::Custom`] carrying `msg`.
    pub fn msg(msg: &str) -> (r: StorageError)
        ensures
            r matches StorageError::Custom(m) && m@ == msg@,
    {
        StorageError::Custom(crate::text::to_owned_string(msg))
    }
}

} // verus!
