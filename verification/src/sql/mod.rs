//! From parsed SQL to schemas and values.

pub mod ast;
pub mod error;
pub mod statements;
