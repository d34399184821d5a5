//! What several parts of the crate share: calendar time, hexadecimal text
//! and numbers in text.

pub mod hex;
pub mod text;
pub mod time;
