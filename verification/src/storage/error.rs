//! Errors of the storage engine.

use vstd::prelude::*;

verus! {

/// Why the write-ahead log refused an append.
#[derive(Clone, Copy, Debug, PartialEq, Eq, Structural)]
pub enum WalError {
    /// The log has no room for the batch.
    Full,
}

/// What can go wrong in a region.
#[derive(Clone, Debug, PartialEq, Eq)]
pub enum Error {
    /// Two columns of a region have the same name.
    ColumnNameExists { name: String },
    /// A batch names a column that the schema does not have.
    UnknownColumn { name: String },
    /// A column of a batch has another type than the schema gives it.
    TypeMismatch { name: String },
    /// The columns of a batch differ in length.
    LenNotEquals { name: String, expect: usize, given: usize },
    /// A batch lacks the timestamp column.
    MissingTimestamp,
    /// A batch lacks a column that is neither nullable nor has a default.
    MissingColumn { name: String },
    /// A column that is not nullable holds a null.
    HasNull { name: String },
    /// Keys to delete carry a column that is no key.
    NotKeyColumn { name: String },
    /// A batch holds more rows than a batch may.
    BatchTooLarge,
    /// The schema of a batch is not the schema of the region.
    InvalidInputSchema { region: String },
    /// The columns are not a millisecond timestamp key with one 64-bit value.
    UnsupportedLayout,
    /// No sequence numbers are left for the batch.
    SequenceExhausted,
    /// The write-ahead log refused the batch; nothing was applied.
    WriteWal { source: WalError },
    /// The manifest has no versions left; nothing was recorded.
    ManifestFull,
    /// A file of that name exists already.
    FileExists { file_name: String },
    /// The manifest names a file that the storage does not hold.
    FileNotFound { file_name: String },
    /// A projection names a column that the schema does not have.
    InvalidProjection { index: usize },
    /// The log holds fewer good bytes than were known to be good.
    CorruptedLog { valid: usize, checkpoint: usize },
    /// The manifest holds fewer good records than were known to be good.
    CorruptedManifest { valid: usize, checkpoint: usize },
    /// There are no files to compact.
    NothingToCompact,
    /// There is nothing to flush.
    NothingToFlush,
    /// The memtable is frozen and takes no more writes.
    MemtableFrozen,
}

pub type Result<T> = core::result::Result<T, Error>;

} // verus!
