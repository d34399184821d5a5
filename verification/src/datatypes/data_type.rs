//! Logical and concrete data types of columns.

use vstd::prelude::*;

verus! {

/// The unit a timestamp counts in.
#[derive(Clone, Copy, Debug, PartialEq, Eq, Hash, Structural)]
pub enum TimeUnit {
    Second,
    Millisecond,
    Microsecond,
    Nanosecond,
}

/// The identifier of a logical type, without its parameters.
#[derive(Clone, Copy, Debug, PartialEq, Eq, Hash, Structural)]
pub enum LogicalTypeId {
    Null,
    Boolean,
    Int8,
    Int16,
    Int32,
    Int64,
    UInt8,
    UInt16,
    UInt32,
    UInt64,
    Float32,
    Float64,
    String,
    Binary,
    Date,
    DateTime,
    TimestampSecond,
    TimestampMillisecond,
    TimestampMicrosecond,
    TimestampNanosecond,
    List,
}

/// The type of the null value.
#[derive(Clone, Copy, Debug, Default, PartialEq, Eq, Hash, Structural)]
pub struct NullType;

/// The type of booleans.
#[derive(Clone, Copy, Debug, Default, PartialEq, Eq, Hash, Structural)]
pub struct BooleanType;

/// The type of 8-bit signed integers.
#[derive(Clone, Copy, Debug, Default, PartialEq, Eq, Hash, Structural)]
pub struct Int8Type;

/// The type of 16-bit signed integers.
#[derive(Clone, Copy, Debug, Default, PartialEq, Eq, Hash, Structural)]
pub struct Int16Type;

/// The type of 32-bit signed integers.
#[derive(Clone, Copy, Debug, Default, PartialEq, Eq, Hash, Structural)]
pub struct Int32Type;

/// The type of 64-bit signed integers.
#[derive(Clone, Copy, Debug, Default, PartialEq, Eq, Hash, Structural)]
pub struct Int64Type;

/// The type of 8-bit unsigned integers.
#[derive(Clone, Copy, Debug, Default, PartialEq, Eq, Hash, Structural)]
pub struct UInt8Type;

/// The type of 16-bit unsigned integers.
#[derive(Clone, Copy, Debug, Default, PartialEq, Eq, Hash, Structural)]
pub struct UInt16Type;

/// The type of 32-bit unsigned integers.
#[derive(Clone, Copy, Debug, Default, PartialEq, Eq, Hash, Structural)]
pub struct UInt32Type;

/// The type of 64-bit unsigned integers.
#[derive(Clone, Copy, Debug, Default, PartialEq, Eq, Hash, Structural)]
pub struct UInt64Type;

/// The type of single-precision numbers.
#[derive(Clone, Copy, Debug, Default, PartialEq, Eq, Hash, Structural)]
pub struct Float32Type;

/// The type of double-precision numbers.
#[derive(Clone, Copy, Debug, Default, PartialEq, Eq, Hash, Structural)]
pub struct Float64Type;

/// The type of byte strings.
#[derive(Clone, Copy, Debug, Default, PartialEq, Eq, Hash, Structural)]
pub struct BinaryType;

/// The type of strings.
#[derive(Clone, Copy, Debug, Default, PartialEq, Eq, Hash, Structural)]
pub struct StringType;

/// The type of dates.
#[derive(Clone, Copy, Debug, Default, PartialEq, Eq, Hash, Structural)]
pub struct DateType;

/// The type of date-times.
#[derive(Clone, Copy, Debug, Default, PartialEq, Eq, Hash, Structural)]
pub struct DateTimeType;

impl DateTimeType {
    /// The name of the type.
    pub fn name(&self) -> (name: &'static str)
        ensures
            name@ == "DateTime"@,
    {
        "DateTime"
    }
}

/// The type of a column or of a value. A list names the type of its items by
/// their identifier, so lists of lists are not expressible.
#[derive(Clone, Copy, Debug, PartialEq, Eq, Hash, Structural)]
pub enum ConcreteDataType {
    Null(NullType),
    Boolean(BooleanType),
    Int8(Int8Type),
    Int16(Int16Type),
    Int32(Int32Type),
    Int64(Int64Type),
    UInt8(UInt8Type),
    UInt16(UInt16Type),
    UInt32(UInt32Type),
    UInt64(UInt64Type),
    Float32(Float32Type),
    Float64(Float64Type),
    Binary(BinaryType),
    String(StringType),
    Date(DateType),
    DateTime(DateTimeType),
    Timestamp(TimeUnit),
    List(LogicalTypeId),
}

impl ConcreteDataType {
    pub fn null_datatype() -> (t: ConcreteDataType)
        ensures
            t == ConcreteDataType::Null(NullType),
    {
        ConcreteDataType::Null(NullType)
    }

    pub fn boolean_datatype() -> (t: ConcreteDataType)
        ensures
            t == ConcreteDataType::Boolean(BooleanType),
    {
        ConcreteDataType::Boolean(BooleanType)
    }

    pub fn int8_datatype() -> (t: ConcreteDataType)
        ensures
            t == ConcreteDataType::Int8(Int8Type),
    {
        ConcreteDataType::Int8(Int8Type)
    }

    pub fn int16_datatype() -> (t: ConcreteDataType)
        ensures
            t == ConcreteDataType::Int16(Int16Type),
    {
        ConcreteDataType::Int16(Int16Type)
    }

    pub fn int32_datatype() -> (t: ConcreteDataType)
        ensures
            t == ConcreteDataType::Int32(Int32Type),
    {
        ConcreteDataType::Int32(Int32Type)
    }

    pub fn int64_datatype() -> (t: ConcreteDataType)
        ensures
            t == ConcreteDataType::Int64(Int64Type),
    {
        ConcreteDataType::Int64(Int64Type)
    }

    pub fn uint8_datatype() -> (t: ConcreteDataType)
        ensures
            t == ConcreteDataType::UInt8(UInt8Type),
    {
        ConcreteDataType::UInt8(UInt8Type)
    }

    pub fn uint16_datatype() -> (t: ConcreteDataType)
        ensures
            t == ConcreteDataType::UInt16(UInt16Type),
    {
        ConcreteDataType::UInt16(UInt16Type)
    }

    pub fn uint32_datatype() -> (t: ConcreteDataType)
        ensures
            t == ConcreteDataType::UInt32(UInt32Type),
    {
        ConcreteDataType::UInt32(UInt32Type)
    }

    pub fn uint64_datatype() -> (t: ConcreteDataType)
        ensures
            t == ConcreteDataType::UInt64(UInt64Type),
    {
        ConcreteDataType::UInt64(UInt64Type)
    }

    pub fn float32_datatype() -> (t: ConcreteDataType)
        ensures
            t == ConcreteDataType::Float32(Float32Type),
    {
        ConcreteDataType::Float32(Float32Type)
    }

    pub fn float64_datatype() -> (t: ConcreteDataType)
        ensures
            t == ConcreteDataType::Float64(Float64Type),
    {
        ConcreteDataType::Float64(Float64Type)
    }

    pub fn binary_datatype() -> (t: ConcreteDataType)
        ensures
            t == ConcreteDataType::Binary(BinaryType),
    {
        ConcreteDataType::Binary(BinaryType)
    }

    pub fn string_datatype() -> (t: ConcreteDataType)
        ensures
            t == ConcreteDataType::String(StringType),
    {
        ConcreteDataType::String(StringType)
    }

    pub fn date_datatype() -> (t: ConcreteDataType)
        ensures
            t == ConcreteDataType::Date(DateType),
    {
        ConcreteDataType::Date(DateType)
    }

    pub fn datetime_datatype() -> (t: ConcreteDataType)
        ensures
            t == ConcreteDataType::DateTime(DateTimeType),
    {
        ConcreteDataType::DateTime(DateTimeType)
    }

    pub fn timestamp_datatype(unit: TimeUnit) -> (t: ConcreteDataType)
        ensures
            t == ConcreteDataType::Timestamp(unit),
    {
        ConcreteDataType::Timestamp(unit)
    }

    pub fn timestamp_millisecond_datatype() -> (t: ConcreteDataType)
        ensures
            t == ConcreteDataType::Timestamp(TimeUnit::Millisecond),
    {
        ConcreteDataType::Timestamp(TimeUnit::Millisecond)
    }

    /// The type of lists whose items have the type `item`.
    pub fn list_datatype(item: ConcreteDataType) -> (t: ConcreteDataType)
        ensures
            t == ConcreteDataType::List(item.spec_logical_type_id()),
    {
        ConcreteDataType::List(item.logical_type_id())
    }

    /// The type that the identifier `id` names; a list is taken to hold nulls.
    pub fn from_logical_type_id(id: LogicalTypeId) -> (t: ConcreteDataType)
        ensures
            t == Self::spec_from_logical_type_id(id),
    {
        match id {
            LogicalTypeId::Null => ConcreteDataType::Null(NullType),
            LogicalTypeId::Boolean => ConcreteDataType::Boolean(BooleanType),
            LogicalTypeId::Int8 => ConcreteDataType::Int8(Int8Type),
            LogicalTypeId::Int16 => ConcreteDataType::Int16(Int16Type),
            LogicalTypeId::Int32 => ConcreteDataType::Int32(Int32Type),
            LogicalTypeId::Int64 => ConcreteDataType::Int64(Int64Type),
            LogicalTypeId::UInt8 => ConcreteDataType::UInt8(UInt8Type),
            LogicalTypeId::UInt16 => ConcreteDataType::UInt16(UInt16Type),
            LogicalTypeId::UInt32 => ConcreteDataType::UInt32(UInt32Type),
            LogicalTypeId::UInt64 => ConcreteDataType::UInt64(UInt64Type),
            LogicalTypeId::Float32 => ConcreteDataType::Float32(Float32Type),
            LogicalTypeId::Float64 => ConcreteDataType::Float64(Float64Type),
            LogicalTypeId::String => ConcreteDataType::String(StringType),
            LogicalTypeId::Binary => ConcreteDataType::Binary(BinaryType),
            LogicalTypeId::Date => ConcreteDataType::Date(DateType),
            LogicalTypeId::DateTime => ConcreteDataType::DateTime(DateTimeType),
            LogicalTypeId::TimestampSecond => ConcreteDataType::Timestamp(TimeUnit::Second),
            LogicalTypeId::TimestampMillisecond => ConcreteDataType::Timestamp(
                TimeUnit::Millisecond,
            ),
            LogicalTypeId::TimestampMicrosecond => ConcreteDataType::Timestamp(
                TimeUnit::Microsecond,
            ),
            LogicalTypeId::TimestampNanosecond => ConcreteDataType::Timestamp(TimeUnit::Nanosecond),
            LogicalTypeId::List => ConcreteDataType::List(LogicalTypeId::Null),
        }
    }

    pub open spec fn spec_from_logical_type_id(id: LogicalTypeId) -> ConcreteDataType {
        match id {
            LogicalTypeId::Null => ConcreteDataType::Null(NullType),
            LogicalTypeId::Boolean => ConcreteDataType::Boolean(BooleanType),
            LogicalTypeId::Int8 => ConcreteDataType::Int8(Int8Type),
            LogicalTypeId::Int16 => ConcreteDataType::Int16(Int16Type),
            LogicalTypeId::Int32 => ConcreteDataType::Int32(Int32Type),
            LogicalTypeId::Int64 => ConcreteDataType::Int64(Int64Type),
            LogicalTypeId::UInt8 => ConcreteDataType::UInt8(UInt8Type),
            LogicalTypeId::UInt16 => ConcreteDataType::UInt16(UInt16Type),
            LogicalTypeId::UInt32 => ConcreteDataType::UInt32(UInt32Type),
            LogicalTypeId::UInt64 => ConcreteDataType::UInt64(UInt64Type),
            LogicalTypeId::Float32 => ConcreteDataType::Float32(Float32Type),
            LogicalTypeId::Float64 => ConcreteDataType::Float64(Float64Type),
            LogicalTypeId::String => ConcreteDataType::String(StringType),
            LogicalTypeId::Binary => ConcreteDataType::Binary(BinaryType),
            LogicalTypeId::Date => ConcreteDataType::Date(DateType),
            LogicalTypeId::DateTime => ConcreteDataType::DateTime(DateTimeType),
            LogicalTypeId::TimestampSecond => ConcreteDataType::Timestamp(TimeUnit::Second),
            LogicalTypeId::TimestampMillisecond => ConcreteDataType::Timestamp(
                TimeUnit::Millisecond,
            ),
            LogicalTypeId::TimestampMicrosecond => ConcreteDataType::Timestamp(
                TimeUnit::Microsecond,
            ),
            LogicalTypeId::TimestampNanosecond => ConcreteDataType::Timestamp(TimeUnit::Nanosecond),
            LogicalTypeId::List => ConcreteDataType::List(LogicalTypeId::Null),
        }
    }

    pub open spec fn spec_logical_type_id(self) -> LogicalTypeId {
        match self {
            ConcreteDataType::Null(NullType) => LogicalTypeId::Null,
            ConcreteDataType::Boolean(BooleanType) => LogicalTypeId::Boolean,
            ConcreteDataType::Int8(Int8Type) => LogicalTypeId::Int8,
            ConcreteDataType::Int16(Int16Type) => LogicalTypeId::Int16,
            ConcreteDataType::Int32(Int32Type) => LogicalTypeId::Int32,
            ConcreteDataType::Int64(Int64Type) => LogicalTypeId::Int64,
            ConcreteDataType::UInt8(UInt8Type) => LogicalTypeId::UInt8,
            ConcreteDataType::UInt16(UInt16Type) => LogicalTypeId::UInt16,
            ConcreteDataType::UInt32(UInt32Type) => LogicalTypeId::UInt32,
            ConcreteDataType::UInt64(UInt64Type) => LogicalTypeId::UInt64,
            ConcreteDataType::Float32(Float32Type) => LogicalTypeId::Float32,
            ConcreteDataType::Float64(Float64Type) => LogicalTypeId::Float64,
            ConcreteDataType::Binary(BinaryType) => LogicalTypeId::Binary,
            ConcreteDataType::String(StringType) => LogicalTypeId::String,
            ConcreteDataType::Date(DateType) => LogicalTypeId::Date,
            ConcreteDataType::DateTime(DateTimeType) => LogicalTypeId::DateTime,
            ConcreteDataType::Timestamp(TimeUnit::Second) => LogicalTypeId::TimestampSecond,
            ConcreteDataType::Timestamp(TimeUnit::Millisecond) => LogicalTypeId::TimestampMillisecond,
            ConcreteDataType::Timestamp(TimeUnit::Microsecond) => LogicalTypeId::TimestampMicrosecond,
            ConcreteDataType::Timestamp(TimeUnit::Nanosecond) => LogicalTypeId::TimestampNanosecond,
            ConcreteDataType::List(_) => LogicalTypeId::List,
        }
    }

    /// The identifier of this type.
    pub fn logical_type_id(&self) -> (id: LogicalTypeId)
        ensures
            id == self.spec_logical_type_id(),
    {
        match self {
            ConcreteDataType::Null(NullType) => LogicalTypeId::Null,
            ConcreteDataType::Boolean(BooleanType) => LogicalTypeId::Boolean,
            ConcreteDataType::Int8(Int8Type) => LogicalTypeId::Int8,
            ConcreteDataType::Int16(Int16Type) => LogicalTypeId::Int16,
            ConcreteDataType::Int32(Int32Type) => LogicalTypeId::Int32,
            ConcreteDataType::Int64(Int64Type) => LogicalTypeId::Int64,
            ConcreteDataType::UInt8(UInt8Type) => LogicalTypeId::UInt8,
            ConcreteDataType::UInt16(UInt16Type) => LogicalTypeId::UInt16,
            ConcreteDataType::UInt32(UInt32Type) => LogicalTypeId::UInt32,
            ConcreteDataType::UInt64(UInt64Type) => LogicalTypeId::UInt64,
            ConcreteDataType::Float32(Float32Type) => LogicalTypeId::Float32,
            ConcreteDataType::Float64(Float64Type) => LogicalTypeId::Float64,
            ConcreteDataType::Binary(BinaryType) => LogicalTypeId::Binary,
            ConcreteDataType::String(StringType) => LogicalTypeId::String,
            ConcreteDataType::Date(DateType) => LogicalTypeId::Date,
            ConcreteDataType::DateTime(DateTimeType) => LogicalTypeId::DateTime,
            ConcreteDataType::Timestamp(TimeUnit::Second) => LogicalTypeId::TimestampSecond,
            ConcreteDataType::Timestamp(TimeUnit::Millisecond) => LogicalTypeId::TimestampMillisecond,
            ConcreteDataType::Timestamp(TimeUnit::Microsecond) => LogicalTypeId::TimestampMicrosecond,
            ConcreteDataType::Timestamp(TimeUnit::Nanosecond) => LogicalTypeId::TimestampNanosecond,
            ConcreteDataType::List(_) => LogicalTypeId::List,
        }
    }

    pub open spec fn spec_is_stringifiable(self) -> bool {
        self is String || self is Date || self is DateTime || self is Timestamp
    }

    /// Whether a value of this type can be written as a string literal.
    pub fn is_stringifiable(&self) -> (b: bool)
        ensures
            b == self.spec_is_stringifiable(),
    {
        match self {
            ConcreteDataType::String(StringType)
            | ConcreteDataType::Date(DateType)
            | ConcreteDataType::DateTime(DateTimeType)
            | ConcreteDataType::Timestamp(_) => true,
            _ => false,
        }
    }

    /// Whether this is the boolean type.
    pub fn is_boolean(&self) -> (b: bool)
        ensures
            b == (*self == ConcreteDataType::Boolean(BooleanType)),
    {
        match self {
            ConcreteDataType::Boolean(BooleanType) => true,
            _ => false,
        }
    }

    /// Whether this is a timestamp type, of any unit.
    pub fn is_timestamp(&self) -> (b: bool)
        ensures
            b == (*self is Timestamp),
    {
        match self {
            ConcreteDataType::Timestamp(_) => true,
            _ => false,
        }
    }

    /// The name of the type, as error messages and type lookups spell it.
    pub fn name(&self) -> (s: &'static str)
        ensures
            s@ == self.spec_name(),
    {
        match self {
            ConcreteDataType::Null(NullType) => "Null",
            ConcreteDataType::Boolean(BooleanType) => "Boolean",
            ConcreteDataType::Int8(Int8Type) => "Int8",
            ConcreteDataType::Int16(Int16Type) => "Int16",
            ConcreteDataType::Int32(Int32Type) => "Int32",
            ConcreteDataType::Int64(Int64Type) => "Int64",
            ConcreteDataType::UInt8(UInt8Type) => "UInt8",
            ConcreteDataType::UInt16(UInt16Type) => "UInt16",
            ConcreteDataType::UInt32(UInt32Type) => "UInt32",
            ConcreteDataType::UInt64(UInt64Type) => "UInt64",
            ConcreteDataType::Float32(Float32Type) => "Float32",
            ConcreteDataType::Float64(Float64Type) => "Float64",
            ConcreteDataType::Binary(BinaryType) => "Binary",
            ConcreteDataType::String(StringType) => "String",
            ConcreteDataType::Date(DateType) => "Date",
            ConcreteDataType::DateTime(DateTimeType) => "DateTime",
            ConcreteDataType::Timestamp(_) => "Timestamp",
            ConcreteDataType::List(_) => "List",
        }
    }

    pub open spec fn spec_name(self) -> Seq<char> {
        match self {
            ConcreteDataType::Null(NullType) => "Null"@,
            ConcreteDataType::Boolean(BooleanType) => "Boolean"@,
            ConcreteDataType::Int8(Int8Type) => "Int8"@,
            ConcreteDataType::Int16(Int16Type) => "Int16"@,
            ConcreteDataType::Int32(Int32Type) => "Int32"@,
            ConcreteDataType::Int64(Int64Type) => "Int64"@,
            ConcreteDataType::UInt8(UInt8Type) => "UInt8"@,
            ConcreteDataType::UInt16(UInt16Type) => "UInt16"@,
            ConcreteDataType::UInt32(UInt32Type) => "UInt32"@,
            ConcreteDataType::UInt64(UInt64Type) => "UInt64"@,
            ConcreteDataType::Float32(Float32Type) => "Float32"@,
            ConcreteDataType::Float64(Float64Type) => "Float64"@,
            ConcreteDataType::Binary(BinaryType) => "Binary"@,
            ConcreteDataType::String(StringType) => "String"@,
            ConcreteDataType::Date(DateType) => "Date"@,
            ConcreteDataType::DateTime(DateTimeType) => "DateTime"@,
            ConcreteDataType::Timestamp(_) => "Timestamp"@,
            ConcreteDataType::List(_) => "List"@,
        }
    }
}

} // verus!
