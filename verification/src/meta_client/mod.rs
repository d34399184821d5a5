//! The client of the metadata service: which of its parts are enabled, and
//! which are started.

pub mod client;
