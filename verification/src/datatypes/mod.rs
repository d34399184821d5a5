//! The column type system: logical types, values, schemas and vectors.

pub mod arrow;
pub mod data_type;
pub mod error;
pub mod helper;
pub mod scalar;
pub mod schema;
pub mod value;
pub mod vectors;
