//! A per-region storage engine for time-series data, together with the column
//! type system, the SQL-to-schema conversions and the client-side decisions
//! that surround it.
//!
//! Every function in this crate carries a contract that the verifier checks.

pub mod client;
pub mod common;
pub mod datatypes;
pub mod meta_client;
pub mod query;
pub mod recordbatch;
pub mod sharing;
pub mod sql;
pub mod storage;
