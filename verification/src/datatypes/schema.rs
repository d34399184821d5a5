//! Column schemas, default constraints and table schemas.

use std::sync::Arc;
use vstd::prelude::*;
use vstd::string::StringExecFns;
use crate::datatypes::data_type::ConcreteDataType;
use crate::datatypes::error::{Error, Result};
use crate::datatypes::value::Value;

verus! {

/// The one function that a default constraint may call.
pub const CURRENT_TIMESTAMP: &'static str = "current_timestamp()";

/// The default of a column: a fixed value, or a function evaluated when a row
/// is written.
#[derive(Clone, Debug, PartialEq, Eq)]
pub enum ColumnDefaultConstraint {
    Function(String),
    Value(Value),
}

/// What checking a default constraint against a column finds.
#[derive(Clone, Copy, Debug, PartialEq, Eq, Structural)]
pub enum DefaultCheck {
    /// The constraint fits the column.
    Valid,
    /// The function is not one that is supported.
    UnsupportedFunction,
    /// The function returns a timestamp, the column holds something else.
    FunctionType,
    /// The default is null, the column is not nullable.
    NullDefault,
    /// The default value has another type than the column.
    ValueType,
}

impl ColumnDefaultConstraint {
    /// What checking this constraint against a column of the type
    /// `data_type` finds.
    pub open spec fn check(self, data_type: ConcreteDataType, is_nullable: bool) -> DefaultCheck {
        match self {
            ColumnDefaultConstraint::Function(expr) => if expr@ != CURRENT_TIMESTAMP@ {
                DefaultCheck::UnsupportedFunction
            } else if !(data_type is Timestamp) {
                DefaultCheck::FunctionType
            } else {
                DefaultCheck::Valid
            },
            ColumnDefaultConstraint::Value(v) => if v@ is Null {
                if is_nullable {
                    DefaultCheck::Valid
                } else {
                    DefaultCheck::NullDefault
                }
            } else if data_type.spec_logical_type_id() != v@.data_type().spec_logical_type_id() {
                DefaultCheck::ValueType
            } else {
                DefaultCheck::Valid
            },
        }
    }

    /// Checks the constraint against a column of the type `data_type`:
    /// a function must be `current_timestamp()` on a timestamp column; a null
    /// needs a nullable column; any other value must have the column's type.
    pub fn validate(&self, data_type: &ConcreteDataType, is_nullable: bool) -> (r: Result<()>)
        ensures
            match self.check(*data_type, is_nullable) {
                DefaultCheck::Valid => r is Ok,
                DefaultCheck::UnsupportedFunction => r matches Err(
                    Error::UnsupportedDefaultExpr { expr },
                ) && self matches ColumnDefaultConstraint::Function(f) && expr@ == f@,
                DefaultCheck::FunctionType => r matches Err(Error::DefaultValueType { .. }),
                DefaultCheck::NullDefault => r matches Err(Error::NullDefault),
                DefaultCheck::ValueType => r matches Err(Error::DefaultValueType { .. }),
            },
    {
        match self {
            ColumnDefaultConstraint::Function(expr) => {
                let supported = String::from_str(CURRENT_TIMESTAMP);
                if *expr != supported {
                    return Err(Error::UnsupportedDefaultExpr { expr: expr.clone() });
                }
                if !data_type.is_timestamp() {
                    return Err(
                        Error::DefaultValueType {
                            reason: String::from_str(
                                "return value of the function must has timestamp type",
                            ),
                        },
                    );
                }
                Ok(())
            },
            ColumnDefaultConstraint::Value(v) => {
                if v.is_null() {
                    if is_nullable {
                        Ok(())
                    } else {
                        Err(Error::NullDefault)
                    }
                } else if data_type.logical_type_id() != v.data_type().logical_type_id() {
                    let mut reason = String::from_str("column has type ");
                    reason.append(data_type.name());
                    reason.append(" but default value has type ");
                    reason.append(v.data_type().name());
                    Err(Error::DefaultValueType { reason })
                } else {
                    Ok(())
                }
            },
        }
    }

    /// A copy with the same content.
    pub fn duplicate(&self) -> (c: ColumnDefaultConstraint)
        ensures
            match (*self, c) {
                (ColumnDefaultConstraint::Function(a), ColumnDefaultConstraint::Function(b)) => a
                    == b,
                (ColumnDefaultConstraint::Value(a), ColumnDefaultConstraint::Value(b)) => a@ == b@,
                _ => false,
            },
    {
        match self {
            ColumnDefaultConstraint::Function(f) => ColumnDefaultConstraint::Function(f.clone()),
            ColumnDefaultConstraint::Value(v) => ColumnDefaultConstraint::Value(v.duplicate()),
        }
    }
}

/// The schema of one column.
#[derive(Clone, Debug, PartialEq, Eq)]
pub struct ColumnSchema {
    pub name: String,
    pub data_type: ConcreteDataType,
    pub is_nullable: bool,
    pub is_time_index: bool,
    pub default_constraint: Option<ColumnDefaultConstraint>,
}

impl ColumnSchema {
    /// A column without a default that is no time index.
    pub fn new(name: String, data_type: ConcreteDataType, is_nullable: bool) -> (c: ColumnSchema)
        ensures
            c == (ColumnSchema {
                name,
                data_type,
                is_nullable,
                is_time_index: false,
                default_constraint: None,
            }),
    {
        ColumnSchema { name, data_type, is_nullable, is_time_index: false, default_constraint: None }
    }

    pub fn is_nullable(&self) -> (b: bool)
        ensures
            b == self.is_nullable,
    {
        self.is_nullable
    }

    pub fn is_time_index(&self) -> (b: bool)
        ensures
            b == self.is_time_index,
    {
        self.is_time_index
    }

    pub fn default_constraint(&self) -> (c: Option<&ColumnDefaultConstraint>)
        ensures
            match c {
                Some(d) => self.default_constraint == Some(*d),
                None => self.default_constraint is None,
            },
    {
        self.default_constraint.as_ref()
    }

    /// The same column, marked as the time index or not.
    pub fn with_time_index(self, is_time_index: bool) -> (c: ColumnSchema)
        ensures
            c == (ColumnSchema { is_time_index, ..self }),
    {
        ColumnSchema { is_time_index, ..self }
    }

    /// The same column with the given default, after checking the default
    /// against the column. Without a default nothing is checked.
    pub fn with_default_constraint(
        self,
        default_constraint: Option<ColumnDefaultConstraint>,
    ) -> (r: Result<ColumnSchema>)
        ensures
            match default_constraint {
                None => r == Ok::<ColumnSchema, Error>(
                    ColumnSchema { default_constraint: None, ..self },
                ),
                Some(c) => match c.check(self.data_type, self.is_nullable) {
                    DefaultCheck::Valid => r == Ok::<ColumnSchema, Error>(
                        ColumnSchema { default_constraint: Some(c), ..self },
                    ),
                    DefaultCheck::UnsupportedFunction => r matches Err(
                        Error::UnsupportedDefaultExpr { .. },
                    ),
                    DefaultCheck::FunctionType => r matches Err(Error::DefaultValueType { .. }),
                    DefaultCheck::NullDefault => r matches Err(Error::NullDefault),
                    DefaultCheck::ValueType => r matches Err(Error::DefaultValueType { .. }),
                },
            },
    {
        match &default_constraint {
            Some(c) => {
                match c.validate(&self.data_type, self.is_nullable) {
                    Ok(()) => {},
                    Err(e) => {
                        return Err(e);
                    },
                }
            },
            None => {},
        }
        Ok(ColumnSchema { default_constraint, ..self })
    }
}

/// Whether `columns[index]` is the first column with the name `name`.
pub open spec fn is_first_named(columns: Seq<ColumnSchema>, name: Seq<char>, index: int) -> bool {
    &&& 0 <= index < columns.len()
    &&& columns[index].name@ == name
    &&& forall|j: int| 0 <= j < index ==> columns[j].name@ != name
}

/// The schema of a table: its columns in order, the index of the timestamp
/// column if one is designated, and a version.
#[derive(Clone, Debug, PartialEq, Eq)]
pub struct Schema {
    pub column_schemas: Vec<ColumnSchema>,
    pub timestamp_index: Option<usize>,
    pub version: u32,
}

/// A schema behind a shared pointer.
pub type SchemaRef = Arc<Schema>;

impl Schema {
    /// The schema of the given columns at version 0, without a timestamp
    /// column.
    pub fn new(column_schemas: Vec<ColumnSchema>) -> (s: Schema)
        ensures
            s == (Schema { column_schemas, timestamp_index: None, version: 0 }),
    {
        Schema { column_schemas, timestamp_index: None, version: 0 }
    }

    /// The schema of the given columns with `timestamp_index` and `version`.
    /// A timestamp index must name a column, and that column must hold
    /// timestamps.
    pub fn try_new(
        column_schemas: Vec<ColumnSchema>,
        timestamp_index: Option<usize>,
        version: u32,
    ) -> (r: Result<Schema>)
        ensures
            match timestamp_index {
                Some(i) if i >= column_schemas@.len() || !(column_schemas@[i as int].data_type
                    is Timestamp) => r == Err::<Schema, Error>(
                    Error::InvalidTimestampIndex { index: i },
                ),
                _ => r == Ok::<Schema, Error>(Schema { column_schemas, timestamp_index, version }),
            },
    {
        match timestamp_index {
            Some(i) => {
                if i >= column_schemas.len() || !column_schemas[i].data_type.is_timestamp() {
                    return Err(Error::InvalidTimestampIndex { index: i });
                }
            },
            None => {},
        }
        Ok(Schema { column_schemas, timestamp_index, version })
    }

    pub fn column_schemas(&self) -> (c: &Vec<ColumnSchema>)
        ensures
            *c == self.column_schemas,
    {
        &self.column_schemas
    }

    pub fn num_columns(&self) -> (n: usize)
        ensures
            n == self.column_schemas@.len(),
    {
        self.column_schemas.len()
    }

    pub fn timestamp_index(&self) -> (i: Option<usize>)
        ensures
            i == self.timestamp_index,
    {
        self.timestamp_index
    }

    pub fn version(&self) -> (v: u32)
        ensures
            v == self.version,
    {
        self.version
    }

    /// The index of the first column with the name `name`.
    pub fn column_index_by_name(&self, name: &str) -> (r: Option<usize>)
        ensures
            match r {
                Some(i) => is_first_named(self.column_schemas@, name@, i as int),
                None => forall|j: int|
                    0 <= j < self.column_schemas@.len() ==> self.column_schemas@[j].name@ != name@,
            },
    {
        let wanted = String::from_str(name);
        let mut i: usize = 0;
        while i < self.column_schemas.len()
            invariant
                i <= self.column_schemas.len(),
                wanted@ == name@,
                forall|j: int| 0 <= j < i ==> self.column_schemas@[j].name@ != name@,
            decreases self.column_schemas.len() - i,
        {
            if self.column_schemas[i].name == wanted {
                return Some(i);
            }
            i += 1;
        }
        None
    }

    /// The first column with the name `name`.
    pub fn column_schema_by_name(&self, name: &str) -> (r: Option<&ColumnSchema>)
        ensures
            match r {
                Some(c) => exists|i: int|
                    is_first_named(self.column_schemas@, name@, i) && *c == self.column_schemas@[i],
                None => forall|j: int|
                    0 <= j < self.column_schemas@.len() ==> self.column_schemas@[j].name@ != name@,
            },
    {
        match self.column_index_by_name(name) {
            Some(i) => Some(&self.column_schemas[i]),
            None => None,
        }
    }
}

} // verus!
