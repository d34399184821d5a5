//! Record batches and the streams that carry them.

pub mod adapter;
pub mod batch;
