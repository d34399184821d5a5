//! The client of a database server: what it asks, and what it makes of the
//! answers.

pub mod database;
pub mod error;
