//! The query layer, as far as it decides: physical plans and their
//! adapters, the statements of a query, and the conversion of literals.

pub mod datafusion;
pub mod optimizer;
pub mod physical_plan;
