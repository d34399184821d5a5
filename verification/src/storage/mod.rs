//! The region storage engine: write path, multi-version reads, flush and
//! manifest-based recovery.

pub mod column_map;
pub mod error;
pub mod flush;
pub mod manifest;
pub mod manifest_format;
pub mod memtable;
pub mod metadata;
pub mod region;
pub mod snapshot;
pub mod sst;
pub mod test_util;
pub mod version;
pub mod wal;
pub mod wal_format;
pub mod write_batch;
