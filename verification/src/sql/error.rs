//! Errors of the conversion from SQL.

use vstd::prelude::*;
use crate::datatypes::data_type::ConcreteDataType;
use crate::sql::ast::{DataType, Expr};

verus! {

/// What can go wrong while SQL is turned into schemas and values.
#[derive(Clone, Debug, PartialEq, Eq)]
pub enum Error {
    /// The statement is not one that is understood.
    InvalidSql { msg: String },
    /// A literal has another type than the column.
    ColumnTypeMismatch { column_name: String, expect: ConcreteDataType, actual: ConcreteDataType },
    /// A literal cannot be read as a value of the column's type.
    ParseSqlValue { msg: String },
    /// A number stands for a floating-point column; reading it is left to
    /// the caller.
    FloatNumber { text: String },
    /// The default of a column is an expression that is not supported.
    UnsupportedDefaultValue { column_name: String, expr: Expr },
    /// The SQL type has no counterpart.
    SqlTypeNotSupported { t: DataType },
    /// The default does not fit the column.
    InvalidDefault { column: String, source: crate::datatypes::error::Error },
    /// The column's type cannot be sent over the wire.
    ConvertToGrpcDataType { source: ConcreteDataType },
}

pub type Result<T> = core::result::Result<T, Error>;

} // verus!
