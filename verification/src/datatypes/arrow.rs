//! The types and arrays of the columnar wire format, as far as vectors and
//! schemas are converted from and to them.

use std::sync::Arc;
use vstd::prelude::*;
use crate::datatypes::data_type::{
    BinaryType, BooleanType, ConcreteDataType, DateTimeType, DateType, Float32Type, Float64Type,
    Int16Type, Int32Type, Int64Type, Int8Type, LogicalTypeId, NullType, StringType, TimeUnit,
    UInt16Type, UInt32Type, UInt64Type, UInt8Type,
};
use crate::datatypes::error::{Error, Result};
use crate::datatypes::schema::{ColumnSchema, Schema};
use crate::datatypes::vectors::VectorRef;

verus! {

/// A data type of the wire format. A timestamp is given by its unit alone,
/// and a list by the logical type of its items.
#[derive(Clone, Copy, Debug, PartialEq, Eq, Hash, Structural)]
pub enum ArrowDataType {
    Null,
    Boolean,
    Int8,
    Int16,
    Int32,
    Int64,
    UInt8,
    UInt16,
    UInt32,
    UInt64,
    Float16,
    Float32,
    Float64,
    Timestamp(TimeUnit),
    Date32,
    Date64,
    Time32,
    Time64,
    Duration,
    Interval,
    Binary,
    FixedSizeBinary,
    LargeBinary,
    Utf8,
    LargeUtf8,
    List(LogicalTypeId),
    LargeList,
    FixedSizeList,
    Struct,
    Union,
    Dictionary,
    Decimal128,
    Decimal256,
    MapOfEntries,
}

/// A field of a wire schema.
#[derive(Clone, Debug, PartialEq, Eq)]
pub struct ArrowField {
    pub name: String,
    pub data_type: ArrowDataType,
    pub nullable: bool,
}

/// A schema of the wire format.
#[derive(Clone, Debug, PartialEq, Eq)]
pub struct ArrowSchema {
    pub fields: Vec<ArrowField>,
}

/// A wire schema behind a shared pointer.
pub type ArrowSchemaRef = Arc<ArrowSchema>;

/// An array of the wire format: the type it declares, and its items.
#[derive(Clone, Debug, PartialEq, Eq)]
pub struct ArrowArray {
    pub data_type: ArrowDataType,
    pub data: VectorRef,
}

/// An array behind a shared pointer.
pub type ArrayRef = Arc<ArrowArray>;

/// The column type that a wire type converts to, if it converts.
pub open spec fn from_arrow_type(t: ArrowDataType) -> Option<ConcreteDataType> {
    match t {
        ArrowDataType::Null => Some(ConcreteDataType::Null(NullType)),
        ArrowDataType::Boolean => Some(ConcreteDataType::Boolean(BooleanType)),
        ArrowDataType::Int8 => Some(ConcreteDataType::Int8(Int8Type)),
        ArrowDataType::Int16 => Some(ConcreteDataType::Int16(Int16Type)),
        ArrowDataType::Int32 => Some(ConcreteDataType::Int32(Int32Type)),
        ArrowDataType::Int64 => Some(ConcreteDataType::Int64(Int64Type)),
        ArrowDataType::UInt8 => Some(ConcreteDataType::UInt8(UInt8Type)),
        ArrowDataType::UInt16 => Some(ConcreteDataType::UInt16(UInt16Type)),
        ArrowDataType::UInt32 => Some(ConcreteDataType::UInt32(UInt32Type)),
        ArrowDataType::UInt64 => Some(ConcreteDataType::UInt64(UInt64Type)),
        ArrowDataType::Float32 => Some(ConcreteDataType::Float32(Float32Type)),
        ArrowDataType::Float64 => Some(ConcreteDataType::Float64(Float64Type)),
        ArrowDataType::Date32 => Some(ConcreteDataType::Date(DateType)),
        ArrowDataType::Date64 => Some(ConcreteDataType::DateTime(DateTimeType)),
        ArrowDataType::Timestamp(unit) => Some(ConcreteDataType::Timestamp(unit)),
        ArrowDataType::Binary | ArrowDataType::LargeBinary => Some(
            ConcreteDataType::Binary(BinaryType),
        ),
        ArrowDataType::Utf8 | ArrowDataType::LargeUtf8 => Some(
            ConcreteDataType::String(StringType),
        ),
        ArrowDataType::List(item) => Some(ConcreteDataType::List(item)),
        _ => None,
    }
}

/// The wire type that a column type is sent as.
pub open spec fn to_arrow_type(t: ConcreteDataType) -> ArrowDataType {
    match t {
        ConcreteDataType::Null(_) => ArrowDataType::Null,
        ConcreteDataType::Boolean(_) => ArrowDataType::Boolean,
        ConcreteDataType::Int8(_) => ArrowDataType::Int8,
        ConcreteDataType::Int16(_) => ArrowDataType::Int16,
        ConcreteDataType::Int32(_) => ArrowDataType::Int32,
        ConcreteDataType::Int64(_) => ArrowDataType::Int64,
        ConcreteDataType::UInt8(_) => ArrowDataType::UInt8,
        ConcreteDataType::UInt16(_) => ArrowDataType::UInt16,
        ConcreteDataType::UInt32(_) => ArrowDataType::UInt32,
        ConcreteDataType::UInt64(_) => ArrowDataType::UInt64,
        ConcreteDataType::Float32(_) => ArrowDataType::Float32,
        ConcreteDataType::Float64(_) => ArrowDataType::Float64,
        ConcreteDataType::Binary(_) => ArrowDataType::LargeBinary,
        ConcreteDataType::String(_) => ArrowDataType::Utf8,
        ConcreteDataType::Date(_) => ArrowDataType::Date32,
        ConcreteDataType::DateTime(_) => ArrowDataType::Date64,
        ConcreteDataType::Timestamp(unit) => ArrowDataType::Timestamp(unit),
        ConcreteDataType::List(item) => ArrowDataType::List(item),
    }
}

/// A column type that is sent and converted back is the same type again.
pub proof fn lemma_arrow_round_trip(t: ConcreteDataType)
    ensures
        from_arrow_type(to_arrow_type(t)) == Some(t),
{
}

impl ArrowDataType {
    /// The name of the type, for messages.
    pub fn name(&self) -> (name: &'static str)
        ensures
            name@ == self.spec_name(),
    {
        match self {
            ArrowDataType::Null => "Null",
            ArrowDataType::Boolean => "Boolean",
            ArrowDataType::Int8 => "Int8",
            ArrowDataType::Int16 => "Int16",
            ArrowDataType::Int32 => "Int32",
            ArrowDataType::Int64 => "Int64",
            ArrowDataType::UInt8 => "UInt8",
            ArrowDataType::UInt16 => "UInt16",
            ArrowDataType::UInt32 => "UInt32",
            ArrowDataType::UInt64 => "UInt64",
            ArrowDataType::Float16 => "Float16",
            ArrowDataType::Float32 => "Float32",
            ArrowDataType::Float64 => "Float64",
            ArrowDataType::Timestamp(_) => "Timestamp",
            ArrowDataType::Date32 => "Date32",
            ArrowDataType::Date64 => "Date64",
            ArrowDataType::Time32 => "Time32",
            ArrowDataType::Time64 => "Time64",
            ArrowDataType::Duration => "Duration",
            ArrowDataType::Interval => "Interval",
            ArrowDataType::Binary => "Binary",
            ArrowDataType::FixedSizeBinary => "FixedSizeBinary",
            ArrowDataType::LargeBinary => "LargeBinary",
            ArrowDataType::Utf8 => "Utf8",
            ArrowDataType::LargeUtf8 => "LargeUtf8",
            ArrowDataType::List(_) => "List",
            ArrowDataType::LargeList => "LargeList",
            ArrowDataType::FixedSizeList => "FixedSizeList",
            ArrowDataType::Struct => "Struct",
            ArrowDataType::Union => "Union",
            ArrowDataType::Dictionary => "Dictionary",
            ArrowDataType::Decimal128 => "Decimal128",
            ArrowDataType::Decimal256 => "Decimal256",
            ArrowDataType::MapOfEntries => "Map",
        }
    }

    /// The name of the type: that of its variant, and `Map` for a map.
    pub open spec fn spec_name(self) -> Seq<char> {
        match self {
            ArrowDataType::Null => "Null"@,
            ArrowDataType::Boolean => "Boolean"@,
            ArrowDataType::Int8 => "Int8"@,
            ArrowDataType::Int16 => "Int16"@,
            ArrowDataType::Int32 => "Int32"@,
            ArrowDataType::Int64 => "Int64"@,
            ArrowDataType::UInt8 => "UInt8"@,
            ArrowDataType::UInt16 => "UInt16"@,
            ArrowDataType::UInt32 => "UInt32"@,
            ArrowDataType::UInt64 => "UInt64"@,
            ArrowDataType::Float16 => "Float16"@,
            ArrowDataType::Float32 => "Float32"@,
            ArrowDataType::Float64 => "Float64"@,
            ArrowDataType::Timestamp(_) => "Timestamp"@,
            ArrowDataType::Date32 => "Date32"@,
            ArrowDataType::Date64 => "Date64"@,
            ArrowDataType::Time32 => "Time32"@,
            ArrowDataType::Time64 => "Time64"@,
            ArrowDataType::Duration => "Duration"@,
            ArrowDataType::Interval => "Interval"@,
            ArrowDataType::Binary => "Binary"@,
            ArrowDataType::FixedSizeBinary => "FixedSizeBinary"@,
            ArrowDataType::LargeBinary => "LargeBinary"@,
            ArrowDataType::Utf8 => "Utf8"@,
            ArrowDataType::LargeUtf8 => "LargeUtf8"@,
            ArrowDataType::List(_) => "List"@,
            ArrowDataType::LargeList => "LargeList"@,
            ArrowDataType::FixedSizeList => "FixedSizeList"@,
            ArrowDataType::Struct => "Struct"@,
            ArrowDataType::Union => "Union"@,
            ArrowDataType::Dictionary => "Dictionary"@,
            ArrowDataType::Decimal128 => "Decimal128"@,
            ArrowDataType::Decimal256 => "Decimal256"@,
            ArrowDataType::MapOfEntries => "Map"@,
        }
    }
}

impl ConcreteDataType {
    /// The column type that the wire type `t` converts to. Fails exactly for
    /// the wire types without a counterpart.
    pub fn try_from_arrow(t: &ArrowDataType) -> (r: Result<ConcreteDataType>)
        ensures
            match from_arrow_type(*t) {
                Some(c) => r == Ok::<ConcreteDataType, Error>(c),
                None => r matches Err(Error::UnsupportedArrowType { .. }),
            },
    {
        match t {
            ArrowDataType::Null => Ok(ConcreteDataType::Null(NullType)),
            ArrowDataType::Boolean => Ok(ConcreteDataType::Boolean(BooleanType)),
            ArrowDataType::Int8 => Ok(ConcreteDataType::Int8(Int8Type)),
            ArrowDataType::Int16 => Ok(ConcreteDataType::Int16(Int16Type)),
            ArrowDataType::Int32 => Ok(ConcreteDataType::Int32(Int32Type)),
            ArrowDataType::Int64 => Ok(ConcreteDataType::Int64(Int64Type)),
            ArrowDataType::UInt8 => Ok(ConcreteDataType::UInt8(UInt8Type)),
            ArrowDataType::UInt16 => Ok(ConcreteDataType::UInt16(UInt16Type)),
            ArrowDataType::UInt32 => Ok(ConcreteDataType::UInt32(UInt32Type)),
            ArrowDataType::UInt64 => Ok(ConcreteDataType::UInt64(UInt64Type)),
            ArrowDataType::Float32 => Ok(ConcreteDataType::Float32(Float32Type)),
            ArrowDataType::Float64 => Ok(ConcreteDataType::Float64(Float64Type)),
            ArrowDataType::Date32 => Ok(ConcreteDataType::Date(DateType)),
            ArrowDataType::Date64 => Ok(ConcreteDataType::DateTime(DateTimeType)),
            ArrowDataType::Timestamp(unit) => Ok(ConcreteDataType::Timestamp(*unit)),
            ArrowDataType::Binary | ArrowDataType::LargeBinary => Ok(
                ConcreteDataType::Binary(BinaryType),
            ),
            ArrowDataType::Utf8 | ArrowDataType::LargeUtf8 => Ok(
                ConcreteDataType::String(StringType),
            ),
            ArrowDataType::List(item) => Ok(ConcreteDataType::List(*item)),
            _ => Err(Error::UnsupportedArrowType { arrow_type: String::from_str(t.name()) }),
        }
    }

    /// The wire type that this column type is sent as.
    pub fn as_arrow_type(&self) -> (t: ArrowDataType)
        ensures
            t == to_arrow_type(*self),
    {
        match self {
            ConcreteDataType::Null(_) => ArrowDataType::Null,
            ConcreteDataType::Boolean(_) => ArrowDataType::Boolean,
            ConcreteDataType::Int8(_) => ArrowDataType::Int8,
            ConcreteDataType::Int16(_) => ArrowDataType::Int16,
            ConcreteDataType::Int32(_) => ArrowDataType::Int32,
            ConcreteDataType::Int64(_) => ArrowDataType::Int64,
            ConcreteDataType::UInt8(_) => ArrowDataType::UInt8,
            ConcreteDataType::UInt16(_) => ArrowDataType::UInt16,
            ConcreteDataType::UInt32(_) => ArrowDataType::UInt32,
            ConcreteDataType::UInt64(_) => ArrowDataType::UInt64,
            ConcreteDataType::Float32(_) => ArrowDataType::Float32,
            ConcreteDataType::Float64(_) => ArrowDataType::Float64,
            ConcreteDataType::Binary(_) => ArrowDataType::LargeBinary,
            ConcreteDataType::String(_) => ArrowDataType::Utf8,
            ConcreteDataType::Date(_) => ArrowDataType::Date32,
            ConcreteDataType::DateTime(_) => ArrowDataType::Date64,
            ConcreteDataType::Timestamp(unit) => ArrowDataType::Timestamp(*unit),
            ConcreteDataType::List(item) => ArrowDataType::List(*item),
        }
    }
}

/// Whether `column` is the column that the wire field `field` converts to.
pub open spec fn is_column_of_field(column: ColumnSchema, field: ArrowField) -> bool {
    &&& column.name == field.name
    &&& Some(column.data_type) == from_arrow_type(field.data_type)
    &&& column.is_nullable == field.nullable
    &&& !column.is_time_index
    &&& column.default_constraint is None
}

/// Whether `field` is the wire field that the column `column` is sent as.
pub open spec fn is_field_of_column(field: ArrowField, column: ColumnSchema) -> bool {
    &&& field.name == column.name
    &&& field.data_type == to_arrow_type(column.data_type)
    &&& field.nullable == column.is_nullable
}

impl Schema {
    /// The schema that the wire schema `arrow` converts to: a column for
    /// each field, in order, at version 0 and without a timestamp column.
    /// Fails exactly when a field has a type without a counterpart.
    pub fn try_from_arrow(arrow: &ArrowSchema) -> (r: Result<Schema>)
        ensures
            match r {
                Ok(schema) => {
                    &&& schema.version == 0
                    &&& schema.timestamp_index is None
                    &&& schema.column_schemas@.len() == arrow.fields@.len()
                    &&& forall|i: int|
                        0 <= i < arrow.fields@.len() ==> is_column_of_field(
                            #[trigger] schema.column_schemas@[i],
                            arrow.fields@[i],
                        )
                },
                Err(e) => e is UnsupportedArrowType && exists|i: int|
                    0 <= i < arrow.fields@.len() && from_arrow_type(
                        (#[trigger] arrow.fields@[i]).data_type,
                    ) is None,
            },
    {
        let mut columns: Vec<ColumnSchema> = Vec::new();
        let mut i: usize = 0;
        while i < arrow.fields.len()
            invariant
                i <= arrow.fields@.len(),
                columns@.len() == i,
                forall|j: int|
                    0 <= j < i ==> is_column_of_field(#[trigger] columns@[j], arrow.fields@[j]),
            decreases arrow.fields@.len() - i,
        {
            let field = &arrow.fields[i];
            let data_type = match ConcreteDataType::try_from_arrow(&field.data_type) {
                Ok(t) => t,
                Err(e) => {
                    return Err(e);
                },
            };
            columns.push(ColumnSchema::new(field.name.clone(), data_type, field.nullable));
            i += 1;
        }
        Ok(Schema::new(columns))
    }

    /// The wire schema that this schema is sent as: a field for each column,
    /// in order.
    pub fn arrow_schema(&self) -> (arrow: ArrowSchema)
        ensures
            arrow.fields@.len() == self.column_schemas@.len(),
            forall|i: int|
                0 <= i < self.column_schemas@.len() ==> is_field_of_column(
                    #[trigger] arrow.fields@[i],
                    self.column_schemas@[i],
                ),
    {
        let mut fields: Vec<ArrowField> = Vec::new();
        let mut i: usize = 0;
        while i < self.column_schemas.len()
            invariant
                i <= self.column_schemas@.len(),
                fields@.len() == i,
                forall|j: int|
                    0 <= j < i ==> is_field_of_column(#[trigger] fields@[j], self.column_schemas@[j]),
            decreases self.column_schemas@.len() - i,
        {
            let column = &self.column_schemas[i];
            fields.push(
                ArrowField {
                    name: column.name.clone(),
                    data_type: column.data_type.as_arrow_type(),
                    nullable: column.is_nullable,
                },
            );
            i += 1;
        }
        ArrowSchema { fields }
    }
}

/// A schema that is sent and converted back has the same columns again, but
/// for time index and defaults, which the wire does not carry.
pub proof fn lemma_schema_round_trip(column: ColumnSchema, field: ArrowField, back: ColumnSchema)
    requires
        is_field_of_column(field, column),
        is_column_of_field(back, field),
    ensures
        back.name == column.name,
        back.data_type == column.data_type,
        back.is_nullable == column.is_nullable,
{
    lemma_arrow_round_trip(column.data_type);
}

} // verus!
