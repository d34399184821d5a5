//! Conversions from parsed SQL: names, literals, data types and column
//! definitions.

use vstd::prelude::*;
use vstd::string::{StringExecFns, StringSliceAdditionalSpecFns};
use crate::common::hex::{decode, hex_outcome, HexError};
use crate::common::text::{
    char_debug, char_debug_text, decimal_string, decimal_text, eq_ignore_ascii_case,
    i16_from_text, i32_from_text, i64_from_text, i8_from_text, lowercase_of, parse_i16,
    parse_i32, parse_i64, parse_i8, parse_u16, parse_u32, parse_u64, parse_u8,
    same_ignoring_ascii_case, to_lowercase, u16_from_text, u32_from_text, u64_from_text,
    u8_from_text,
};
use crate::common::time::{
    date_value, datetime_value, parse_date, parse_datetime, parse_timestamp, timestamp_value,
};
use crate::datatypes::data_type::{
    BinaryType, BooleanType, ConcreteDataType, DateTimeType, DateType, Float32Type, Float64Type,
    Int16Type, Int32Type, Int64Type, StringType, TimeUnit,
};
use crate::datatypes::schema::{ColumnDefaultConstraint, ColumnSchema, DefaultCheck};
use crate::datatypes::value::{Timestamp, Value, ValueView};
use crate::sql::ast::{
    ColumnDef, ColumnOption, ColumnOptionDef, DataType as SqlDataType, Expr, Ident, ObjectName,
    Value as SqlValue,
};
use crate::sql::error::{Error, Result};

verus! {

/// The catalog of a table that names none.
pub const DEFAULT_CATALOG_NAME: &'static str = "greptime";

/// The schema of a table that names none.
pub const DEFAULT_SCHEMA_NAME: &'static str = "public";

/// The parts of a name, joined by points.
pub open spec fn joined(parts: Seq<Ident>) -> Seq<char>
    decreases parts.len(),
{
    if parts.len() == 0 {
        Seq::empty()
    } else if parts.len() == 1 {
        parts[0].value@
    } else {
        joined(parts.drop_last()) + "."@ + parts.last().value@
    }
}

fn join(parts: &Vec<Ident>) -> (text: String)
    ensures
        text@ == joined(parts@),
{
    let mut text = String::new();
    let mut i: usize = 0;
    while i < parts.len()
        invariant
            i <= parts@.len(),
            text@ == joined(parts@.take(i as int)),
        decreases parts@.len() - i,
    {
        proof {
            let upto = parts@.take(i + 1);
            assert(upto.drop_last() =~= parts@.take(i as int));
            assert(upto.last() == parts@[i as int]);
            if i == 0 {
                assert(upto[0] == parts@[0]);
                assert(Seq::<char>::empty() + parts@[0].value@ =~= parts@[0].value@);
            }
        }
        if i > 0 {
            text.append(".");
        }
        text.append(parts[i].value.as_str());
        i += 1;
    }
    proof {
        assert(parts@.take(parts@.len() as int) =~= parts@);
    }
    text
}

/// The message for a table name of no or of too many parts.
pub open spec fn table_name_message(parts: Seq<Ident>) -> Seq<char> {
    "expect table name to be <catalog>.<schema>.<table>, <schema>.<table> or <table>, actual: "@
        + joined(parts)
}

/// The catalog, the schema and the table that a table name of one, two or
/// three parts names; the catalog and the schema default to
/// [`DEFAULT_CATALOG_NAME`] and [`DEFAULT_SCHEMA_NAME`]. Any other number of
/// parts is invalid SQL.
pub fn table_idents_to_full_name(obj_name: &ObjectName) -> (r: Result<(String, String, String)>)
    ensures
        match r {
            Ok((catalog, schema, table)) => {
                let parts = obj_name.0@;
                &&& 1 <= parts.len() <= 3
                &&& table@ == parts.last().value@
                &&& schema@ == if parts.len() >= 2 {
                    parts[parts.len() - 2].value@
                } else {
                    DEFAULT_SCHEMA_NAME@
                }
                &&& catalog@ == if parts.len() == 3 {
                    parts[0].value@
                } else {
                    DEFAULT_CATALOG_NAME@
                }
            },
            Err(e) => {
                &&& !(1 <= obj_name.0@.len() <= 3)
                &&& e matches Error::InvalidSql { msg }
                &&& msg@ == table_name_message(obj_name.0@)
            },
        },
{
    let parts = &obj_name.0;
    if parts.len() == 1 {
        Ok(
            (
                String::from_str(DEFAULT_CATALOG_NAME),
                String::from_str(DEFAULT_SCHEMA_NAME),
                parts[0].value.clone(),
            ),
        )
    } else if parts.len() == 2 {
        Ok((String::from_str(DEFAULT_CATALOG_NAME), parts[0].value.clone(), parts[1].value.clone()))
    } else if parts.len() == 3 {
        Ok((parts[0].value.clone(), parts[1].value.clone(), parts[2].value.clone()))
    } else {
        let mut msg = String::from_str(
            "expect table name to be <catalog>.<schema>.<table>, <schema>.<table> or <table>, actual: ",
        );
        let name = join(parts);
        msg.append(name.as_str());
        Err(Error::InvalidSql { msg })
    }
}

/// Whether `r` is the error that the literal cannot be read, with the
/// message `msg`.
pub open spec fn is_parse_error<T>(r: Result<T>, msg: Seq<char>) -> bool {
    r matches Err(Error::ParseSqlValue { msg: m }) && m@ == msg
}

/// The message for a number that cannot be read.
pub open spec fn number_message(text: Seq<char>, reason: Seq<char>) -> Seq<char> {
    "Fail to parse number "@ + text + ", "@ + reason
}

/// The message for a number that stands for a column that holds no numbers.
pub open spec fn invalid_type_message(text: Seq<char>, data_type: ConcreteDataType) -> Seq<char> {
    "Fail to parse number "@ + text + ", invalid column type: "@ + debug_name(data_type)
}

/// The name of a type as messages spell it.
pub open spec fn debug_name(data_type: ConcreteDataType) -> Seq<char> {
    match data_type {
        ConcreteDataType::Timestamp(_) | ConcreteDataType::List(_) => data_type.spec_name(),
        _ => data_type.spec_name() + "("@ + data_type.spec_name() + "Type)"@,
    }
}

fn exec_debug_name(data_type: &ConcreteDataType) -> (text: String)
    ensures
        text@ == debug_name(*data_type),
{
    let mut text = String::from_str(data_type.name());
    match data_type {
        ConcreteDataType::Timestamp(_) | ConcreteDataType::List(_) => {},
        _ => {
            text.append("(");
            text.append(data_type.name());
            text.append("Type)");
        },
    }
    text
}

/// A type of numbers that a literal can be read as.
pub trait SqlNumber: Sized {
    /// What reading `text` as such a number gives: the number, or the
    /// description of what is wrong with the text.
    spec fn from_text(text: Seq<char>) -> core::result::Result<Self, Seq<char>>;

    /// The number as a value.
    spec fn value_view(self) -> ValueView;

    /// Reads `text` as such a number.
    fn read(text: &str) -> (r: core::result::Result<Self, String>)
        ensures
            match r {
                Ok(n) => Self::from_text(text@) == Ok::<Self, Seq<char>>(n),
                Err(e) => Self::from_text(text@) == Err::<Self, Seq<char>>(e@),
            },
    ;

    /// The number as a value.
    fn into_value(self) -> (v: Value)
        ensures
            v@ == self.value_view(),
    ;
}

impl SqlNumber for u8 {
    open spec fn from_text(text: Seq<char>) -> core::result::Result<u8, Seq<char>> {
        u8_from_text(text)
    }

    open spec fn value_view(self) -> ValueView {
        ValueView::UInt8(self)
    }

    fn read(text: &str) -> (r: core::result::Result<u8, String>) {
        parse_u8(text)
    }

    fn into_value(self) -> (v: Value) {
        Value::UInt8(self)
    }
}

impl SqlNumber for u16 {
    open spec fn from_text(text: Seq<char>) -> core::result::Result<u16, Seq<char>> {
        u16_from_text(text)
    }

    open spec fn value_view(self) -> ValueView {
        ValueView::UInt16(self)
    }

    fn read(text: &str) -> (r: core::result::Result<u16, String>) {
        parse_u16(text)
    }

    fn into_value(self) -> (v: Value) {
        Value::UInt16(self)
    }
}

impl SqlNumber for u32 {
    open spec fn from_text(text: Seq<char>) -> core::result::Result<u32, Seq<char>> {
        u32_from_text(text)
    }

    open spec fn value_view(self) -> ValueView {
        ValueView::UInt32(self)
    }

    fn read(text: &str) -> (r: core::result::Result<u32, String>) {
        parse_u32(text)
    }

    fn into_value(self) -> (v: Value) {
        Value::UInt32(self)
    }
}

impl SqlNumber for u64 {
    open spec fn from_text(text: Seq<char>) -> core::result::Result<u64, Seq<char>> {
        u64_from_text(text)
    }

    open spec fn value_view(self) -> ValueView {
        ValueView::UInt64(self)
    }

    fn read(text: &str) -> (r: core::result::Result<u64, String>) {
        parse_u64(text)
    }

    fn into_value(self) -> (v: Value) {
        Value::UInt64(self)
    }
}

impl SqlNumber for i8 {
    open spec fn from_text(text: Seq<char>) -> core::result::Result<i8, Seq<char>> {
        i8_from_text(text)
    }

    open spec fn value_view(self) -> ValueView {
        ValueView::Int8(self)
    }

    fn read(text: &str) -> (r: core::result::Result<i8, String>) {
        parse_i8(text)
    }

    fn into_value(self) -> (v: Value) {
        Value::Int8(self)
    }
}

impl SqlNumber for i16 {
    open spec fn from_text(text: Seq<char>) -> core::result::Result<i16, Seq<char>> {
        i16_from_text(text)
    }

    open spec fn value_view(self) -> ValueView {
        ValueView::Int16(self)
    }

    fn read(text: &str) -> (r: core::result::Result<i16, String>) {
        parse_i16(text)
    }

    fn into_value(self) -> (v: Value) {
        Value::Int16(self)
    }
}

impl SqlNumber for i32 {
    open spec fn from_text(text: Seq<char>) -> core::result::Result<i32, Seq<char>> {
        i32_from_text(text)
    }

    open spec fn value_view(self) -> ValueView {
        ValueView::Int32(self)
    }

    fn read(text: &str) -> (r: core::result::Result<i32, String>) {
        parse_i32(text)
    }

    fn into_value(self) -> (v: Value) {
        Value::Int32(self)
    }
}

impl SqlNumber for i64 {
    open spec fn from_text(text: Seq<char>) -> core::result::Result<i64, Seq<char>> {
        i64_from_text(text)
    }

    open spec fn value_view(self) -> ValueView {
        ValueView::Int64(self)
    }

    fn read(text: &str) -> (r: core::result::Result<i64, String>) {
        parse_i64(text)
    }

    fn into_value(self) -> (v: Value) {
        Value::Int64(self)
    }
}

/// What the outcome `read` of reading the number `n` comes to: the number,
/// or the error that names the text and what is wrong with it.
pub fn number_result<R>(n: &str, read: core::result::Result<R, String>) -> (r: Result<R>)
    ensures
        match read {
            Ok(v) => r == Ok::<R, Error>(v),
            Err(reason) => is_parse_error(r, number_message(n@, reason@)),
        },
{
    match read {
        Ok(v) => Ok(v),
        Err(reason) => {
            let mut msg = String::from_str("Fail to parse number ");
            msg.append(n);
            msg.append(", ");
            msg.append(reason.as_str());
            Err(Error::ParseSqlValue { msg })
        },
    }
}

/// Reads the text `n` as a number of the type `R`.
pub fn parse_sql_number<R: SqlNumber>(n: &str) -> (r: Result<R>)
    ensures
        match R::from_text(n@) {
            Ok(v) => r == Ok::<R, Error>(v),
            Err(reason) => is_parse_error(r, number_message(n@, reason)),
        },
{
    number_result(n, R::read(n))
}

/// Whether `r` is what reading the text `n` as a number of the type `R`
/// comes to, as a value.
pub open spec fn is_number_of<R: SqlNumber>(r: Result<Value>, n: Seq<char>) -> bool {
    match R::from_text(n) {
        Ok(v) => r matches Ok(value) && value@ == v.value_view(),
        Err(reason) => is_parse_error(r, number_message(n, reason)),
    }
}

/// Whether `r` is what the number `n` comes to for a column of the type
/// `data_type`: an integer column reads it as its kind of integer, a
/// timestamp column as a 64-bit integer; for a floating-point column the
/// text is handed back in [`Error::FloatNumber`]; any other column cannot
/// hold a number.
pub open spec fn is_number_value(r: Result<Value>, data_type: ConcreteDataType, n: Seq<char>) -> bool {
    match data_type {
        ConcreteDataType::UInt8(_) => is_number_of::<u8>(r, n),
        ConcreteDataType::UInt16(_) => is_number_of::<u16>(r, n),
        ConcreteDataType::UInt32(_) => is_number_of::<u32>(r, n),
        ConcreteDataType::UInt64(_) => is_number_of::<u64>(r, n),
        ConcreteDataType::Int8(_) => is_number_of::<i8>(r, n),
        ConcreteDataType::Int16(_) => is_number_of::<i16>(r, n),
        ConcreteDataType::Int32(_) => is_number_of::<i32>(r, n),
        ConcreteDataType::Int64(_) => is_number_of::<i64>(r, n),
        ConcreteDataType::Timestamp(_) => is_number_of::<i64>(r, n),
        ConcreteDataType::Float32(_) | ConcreteDataType::Float64(_) => r matches Err(
            Error::FloatNumber { text },
        ) && text@ == n,
        _ => is_parse_error(r, invalid_type_message(n, data_type)),
    }
}

fn number_as<R: SqlNumber>(n: &str) -> (r: Result<Value>)
    ensures
        is_number_of::<R>(r, n@),
{
    match parse_sql_number::<R>(n) {
        Ok(v) => Ok(v.into_value()),
        Err(e) => Err(e),
    }
}

/// Converts a number literal into a value of the column's type.
pub fn sql_number_to_value(data_type: &ConcreteDataType, n: &str) -> (r: Result<Value>)
    ensures
        is_number_value(r, *data_type, n@),
{
    match data_type {
        ConcreteDataType::UInt8(_) => number_as::<u8>(n),
        ConcreteDataType::UInt16(_) => number_as::<u16>(n),
        ConcreteDataType::UInt32(_) => number_as::<u32>(n),
        ConcreteDataType::UInt64(_) => number_as::<u64>(n),
        ConcreteDataType::Int8(_) => number_as::<i8>(n),
        ConcreteDataType::Int16(_) => number_as::<i16>(n),
        ConcreteDataType::Int32(_) => number_as::<i32>(n),
        ConcreteDataType::Int64(_) => number_as::<i64>(n),
        ConcreteDataType::Timestamp(_) => number_as::<i64>(n),
        ConcreteDataType::Float32(_) | ConcreteDataType::Float64(_) => Err(
            Error::FloatNumber { text: String::from_str(n) },
        ),
        _ => {
            let mut msg = String::from_str("Fail to parse number ");
            msg.append(n);
            msg.append(", invalid column type: ");
            let name = exec_debug_name(data_type);
            msg.append(name.as_str());
            Err(Error::ParseSqlValue { msg })
        },
    }
}

/// The message for a string that cannot be read as a value of `kind`.
pub open spec fn string_message(s: Seq<char>, kind: Seq<char>) -> Seq<char> {
    "Failed to parse "@ + s + " to "@ + kind + " value"@
}

fn string_error(s: &str, kind: &str) -> (e: Error)
    ensures
        e matches Error::ParseSqlValue { msg } && msg@ == string_message(s@, kind@),
{
    let mut msg = String::from_str("Failed to parse ");
    msg.append(s);
    msg.append(" to ");
    msg.append(kind);
    msg.append(" value");
    Error::ParseSqlValue { msg }
}

/// The count of `unit`s that a count of nanoseconds comes to, rounded
/// towards zero.
pub open spec fn nanos_to_unit(nanos: int, unit: TimeUnit) -> int {
    let per = crate::datatypes::value::nanos_per(unit);
    if nanos >= 0 {
        nanos / per
    } else {
        -((-nanos) / per)
    }
}

fn convert_nanos(nanos: i64, unit: TimeUnit) -> (value: i64)
    ensures
        value == nanos_to_unit(nanos as int, unit),
{
    let per: i64 = match unit {
        TimeUnit::Second => 1_000_000_000,
        TimeUnit::Millisecond => 1_000_000,
        TimeUnit::Microsecond => 1_000,
        TimeUnit::Nanosecond => 1,
    };
    let wide = nanos as i128;
    let scale = per as i128;
    if wide >= 0 {
        (wide / scale) as i64
    } else {
        let positive = (-wide) / scale;
        (-positive) as i64
    }
}

/// Whether `r` is what the string literal `s` comes to for the column
/// `column_name` of the type `data_type`: the string itself for a string
/// column; the date, the date-time or the timestamp that it spells for such
/// a column, the timestamp in the column's unit; a mismatch for any other
/// column.
pub open spec fn is_string_value(
    r: Result<Value>,
    column_name: Seq<char>,
    s: Seq<char>,
    data_type: ConcreteDataType,
) -> bool {
    let bytes = vstd::utf8::encode_utf8(s);
    match data_type {
        ConcreteDataType::String(_) => r matches Ok(v) && v@ == ValueView::String(s),
        ConcreteDataType::Date(_) => match date_value(bytes) {
            Some(days) => r matches Ok(v) && v@ == ValueView::Date(days as i32),
            None => is_parse_error(r, string_message(s, "Date"@)),
        },
        ConcreteDataType::DateTime(_) => match datetime_value(bytes) {
            Some(seconds) => r matches Ok(v) && v@ == ValueView::DateTime(seconds as i64),
            None => is_parse_error(r, string_message(s, "DateTime"@)),
        },
        ConcreteDataType::Timestamp(unit) => match timestamp_value(bytes) {
            Some(nanos) => r matches Ok(v) && v@ == ValueView::Timestamp(
                Timestamp { value: nanos_to_unit(nanos, unit) as i64, unit },
            ),
            None => is_parse_error(r, string_message(s, "Timestamp"@)),
        },
        _ => r matches Err(Error::ColumnTypeMismatch { column_name: c, expect, actual }) && c@
            == column_name && expect == data_type && actual == ConcreteDataType::String(StringType),
    }
}

/// Converts a string literal into a value of the column's type.
pub fn parse_string_to_value(column_name: &str, s: String, data_type: &ConcreteDataType) -> (r: Result<
    Value,
>)
    ensures
        is_string_value(r, column_name@, s@, *data_type),
{
    if !data_type.is_stringifiable() {
        return Err(
            Error::ColumnTypeMismatch {
                column_name: String::from_str(column_name),
                expect: *data_type,
                actual: ConcreteDataType::string_datatype(),
            },
        );
    }
    match data_type {
        ConcreteDataType::String(_) => Ok(Value::String(s)),
        ConcreteDataType::Date(_) => match parse_date(s.as_str()) {
            Some(days) => Ok(Value::Date(days)),
            None => Err(string_error(s.as_str(), "Date")),
        },
        ConcreteDataType::DateTime(_) => match parse_datetime(s.as_str()) {
            Some(seconds) => Ok(Value::DateTime(seconds)),
            None => Err(string_error(s.as_str(), "DateTime")),
        },
        ConcreteDataType::Timestamp(unit) => match parse_timestamp(s.as_str()) {
            Some(nanos) => Ok(
                Value::Timestamp(Timestamp { value: convert_nanos(nanos, *unit), unit: *unit }),
            ),
            None => Err(string_error(s.as_str(), "Timestamp")),
        },
        _ => Err(
            Error::ColumnTypeMismatch {
                column_name: String::from_str(column_name),
                expect: *data_type,
                actual: ConcreteDataType::string_datatype(),
            },
        ),
    }
}

/// The message that says why hexadecimal text cannot be decoded.
pub open spec fn hex_message(e: HexError) -> Seq<char> {
    match e {
        HexError::InvalidHexCharacter { c, index } =>
            "Fail to parse hex string to Byte: invalid character "@ + char_debug_text(c)
                + " at position "@ + decimal_text(index as nat),
        HexError::OddLength => "Fail to parse hex string to Byte: odd number of digits"@,
        HexError::InvalidStringLength => "Fail to parse hex string to Byte: invalid string length"@,
    }
}

/// What the outcome `decoded` of decoding a hexadecimal literal comes to as
/// a value: the bytes, or the error that says what is wrong with the text.
pub fn hex_result(decoded: core::result::Result<Vec<u8>, HexError>) -> (r: Result<Value>)
    ensures
        match decoded {
            Ok(bytes) => r matches Ok(v) && v@ == ValueView::Binary(bytes@),
            Err(e) => is_parse_error(r, hex_message(e)),
        },
{
    match decoded {
        Ok(bytes) => Ok(Value::Binary(bytes)),
        Err(HexError::InvalidHexCharacter { c, index }) => {
            let mut msg = String::from_str("Fail to parse hex string to Byte: invalid character ");
            let what = char_debug(c);
            msg.append(what.as_str());
            msg.append(" at position ");
            let position = decimal_string(index);
            msg.append(position.as_str());
            Err(Error::ParseSqlValue { msg })
        },
        Err(HexError::OddLength) => Err(
            Error::ParseSqlValue {
                msg: String::from_str("Fail to parse hex string to Byte: odd number of digits"),
            },
        ),
        Err(HexError::InvalidStringLength) => Err(
            Error::ParseSqlValue {
                msg: String::from_str("Fail to parse hex string to Byte: invalid string length"),
            },
        ),
    }
}

/// Whether `r` is what the hexadecimal literal with the bytes `bytes` comes
/// to: the bytes that its pairs of digits spell, or an error if it has an odd
/// number of digits or holds something that is no digit.
pub open spec fn is_hex_value(r: Result<Value>, bytes: Seq<u8>) -> bool {
    match hex_outcome(bytes) {
        Ok(decoded) => r matches Ok(v) && v@ == ValueView::Binary(decoded),
        Err(e) => is_parse_error(r, hex_message(e)),
    }
}

/// Converts a hexadecimal literal into a binary value.
pub fn parse_hex_string(s: &str) -> (r: Result<Value>)
    ensures
        is_hex_value(r, s.spec_bytes()),
{
    hex_result(decode(s.as_bytes()))
}

/// Whether `r` is what the literal `sql_val` comes to for the column
/// `column_name` of the type `data_type`.
pub open spec fn is_sql_value(
    r: Result<Value>,
    column_name: Seq<char>,
    data_type: ConcreteDataType,
    sql_val: SqlValue,
) -> bool {
    match sql_val {
        SqlValue::Number(n, _) => is_number_value(r, data_type, n@),
        SqlValue::Null => r matches Ok(v) && v@ == ValueView::Null,
        SqlValue::Boolean(b) => if data_type == ConcreteDataType::Boolean(BooleanType) {
            r matches Ok(v) && v@ == ValueView::Boolean(b)
        } else {
            r matches Err(Error::ColumnTypeMismatch { column_name: c, expect, actual }) && c@
                == column_name && expect == data_type && actual == ConcreteDataType::Boolean(
                BooleanType,
            )
        },
        SqlValue::DoubleQuotedString(s) | SqlValue::SingleQuotedString(s) => is_string_value(
            r,
            column_name,
            s@,
            data_type,
        ),
        SqlValue::HexStringLiteral(s) => is_hex_value(r, vstd::utf8::encode_utf8(s@)),
        _ => is_parse_error(r, "Unsupported sql value"@),
    }
}

/// Converts a literal into a value of the column's type.
pub fn sql_value_to_value(column_name: &str, data_type: &ConcreteDataType, sql_val: &SqlValue) -> (r:
    Result<Value>)
    ensures
        is_sql_value(r, column_name@, *data_type, *sql_val),
{
    match sql_val {
        SqlValue::Number(n, _) => sql_number_to_value(data_type, n.as_str()),
        SqlValue::Null => Ok(Value::Null),
        SqlValue::Boolean(b) => {
            if !data_type.is_boolean() {
                return Err(
                    Error::ColumnTypeMismatch {
                        column_name: String::from_str(column_name),
                        expect: *data_type,
                        actual: ConcreteDataType::boolean_datatype(),
                    },
                );
            }
            Ok(Value::Boolean(*b))
        },
        SqlValue::DoubleQuotedString(s) | SqlValue::SingleQuotedString(s) => parse_string_to_value(
            column_name,
            s.clone(),
            data_type,
        ),
        SqlValue::HexStringLiteral(s) => parse_hex_string(s.as_str()),
        _ => Err(Error::ParseSqlValue { msg: String::from_str("Unsupported sql value") }),
    }
}

/// The type that an SQL type stands for, if it stands for one.
pub open spec fn concrete_type_of(data_type: SqlDataType) -> Option<ConcreteDataType> {
    match data_type {
        SqlDataType::BigInt(_) => Some(ConcreteDataType::Int64(Int64Type)),
        SqlDataType::Int(_) => Some(ConcreteDataType::Int32(Int32Type)),
        SqlDataType::SmallInt(_) => Some(ConcreteDataType::Int16(Int16Type)),
        SqlDataType::Char(_) | SqlDataType::Varchar(_) | SqlDataType::Text | SqlDataType::String => Some(
            ConcreteDataType::String(StringType),
        ),
        SqlDataType::Float(_) => Some(ConcreteDataType::Float32(Float32Type)),
        SqlDataType::Double => Some(ConcreteDataType::Float64(Float64Type)),
        SqlDataType::Boolean => Some(ConcreteDataType::Boolean(BooleanType)),
        SqlDataType::Date => Some(ConcreteDataType::Date(DateType)),
        SqlDataType::Varbinary(_) => Some(ConcreteDataType::Binary(BinaryType)),
        SqlDataType::Custom(name, _) => if name.0@.len() == 1 && same_ignoring_ascii_case(
            vstd::utf8::encode_utf8(name.0@[0].value@),
            vstd::utf8::encode_utf8("DateTime"@),
        ) {
            Some(ConcreteDataType::DateTime(DateTimeType))
        } else {
            None
        },
        SqlDataType::Timestamp(_, _) => Some(ConcreteDataType::Timestamp(TimeUnit::Millisecond)),
        _ => None,
    }
}

/// The type that the SQL type `data_type` stands for. The custom type
/// `datetime`, in any case, is the date-time type; any other custom type and
/// the SQL types without a counterpart are not supported, and the error
/// names the type that was given.
pub fn sql_data_type_to_concrete_data_type(data_type: &SqlDataType) -> (r: Result<ConcreteDataType>)
    ensures
        match concrete_type_of(*data_type) {
            Some(t) => r == Ok::<ConcreteDataType, Error>(t),
            None => r matches Err(Error::SqlTypeNotSupported { t }) && t.is_same(*data_type),
        },
{
    match data_type {
        SqlDataType::BigInt(_) => Ok(ConcreteDataType::int64_datatype()),
        SqlDataType::Int(_) => Ok(ConcreteDataType::int32_datatype()),
        SqlDataType::SmallInt(_) => Ok(ConcreteDataType::int16_datatype()),
        SqlDataType::Char(_) | SqlDataType::Varchar(_) | SqlDataType::Text | SqlDataType::String => Ok(
            ConcreteDataType::string_datatype(),
        ),
        SqlDataType::Float(_) => Ok(ConcreteDataType::float32_datatype()),
        SqlDataType::Double => Ok(ConcreteDataType::float64_datatype()),
        SqlDataType::Boolean => Ok(ConcreteDataType::boolean_datatype()),
        SqlDataType::Date => Ok(ConcreteDataType::date_datatype()),
        SqlDataType::Varbinary(_) => Ok(ConcreteDataType::binary_datatype()),
        SqlDataType::Custom(obj_name, _) => {
            if obj_name.0.len() == 1 && eq_ignore_ascii_case(
                obj_name.0[0].value.as_str(),
                DateTimeType.name(),
            ) {
                Ok(ConcreteDataType::datetime_datatype())
            } else {
                Err(Error::SqlTypeNotSupported { t: data_type.duplicate() })
            }
        },
        SqlDataType::Timestamp(_, _) => Ok(ConcreteDataType::timestamp_millisecond_datatype()),
        _ => Err(Error::SqlTypeNotSupported { t: data_type.duplicate() }),
    }
}

/// The position of the first option, at `from` or later, that gives a
/// default.
pub open spec fn first_default(opts: Seq<ColumnOptionDef>, from: int) -> Option<int>
    decreases opts.len() - from,
{
    if from < 0 || from >= opts.len() {
        None
    } else if opts[from].option is Default {
        Some(from)
    } else {
        first_default(opts, from + 1)
    }
}

/// A position that `first_default` returns holds a default.
pub proof fn lemma_first_default(opts: Seq<ColumnOptionDef>, from: int)
    requires
        0 <= from,
    ensures
        first_default(opts, from) matches Some(i) ==> from <= i < opts.len() && opts[i].option
            is Default,
    decreases opts.len() - from,
{
    if from < opts.len() && !(opts[from].option is Default) {
        lemma_first_default(opts, from + 1);
    }
}

/// Whether `r` is the default constraint that the options `opts` give the
/// column `column_name` of the type `data_type`. The first option that gives
/// a default decides: a literal becomes a value of the column's type, a call
/// of a function becomes its text in lower case, and any other expression is
/// not supported. Without such an option there is no constraint.
pub open spec fn is_default_constraint(
    r: Result<Option<ColumnDefaultConstraint>>,
    column_name: Seq<char>,
    data_type: ConcreteDataType,
    opts: Seq<ColumnOptionDef>,
) -> bool {
    match first_default(opts, 0) {
        None => r matches Ok(None),
        Some(i) => match opts[i].option {
            ColumnOption::Default(Expr::Value(v)) => match r {
                Ok(Some(ColumnDefaultConstraint::Value(value))) => is_sql_value(
                    Ok(value),
                    column_name,
                    data_type,
                    v,
                ),
                Err(e) => is_sql_value(Err(e), column_name, data_type, v),
                _ => false,
            },
            ColumnOption::Default(Expr::Function(f)) => r matches Ok(
                Some(ColumnDefaultConstraint::Function(g)),
            ) && g@ == lowercase_of(f@),
            ColumnOption::Default(expr) => r matches Err(
                Error::UnsupportedDefaultValue { column_name: c, expr: e },
            ) && c@ == column_name && e == expr,
            _ => false,
        },
    }
}

/// The default constraint that the options give a column.
pub fn parse_column_default_constraint(
    column_name: &str,
    data_type: &ConcreteDataType,
    opts: &[ColumnOptionDef],
) -> (r: Result<Option<ColumnDefaultConstraint>>)
    ensures
        is_default_constraint(r, column_name@, *data_type, opts@),
{
    let mut i: usize = 0;
    while i < opts.len()
        invariant
            i <= opts@.len(),
            first_default(opts@, 0) == first_default(opts@, i as int),
        decreases opts@.len() - i,
    {
        match &opts[i].option {
            ColumnOption::Default(Expr::Value(v)) => {
                return match sql_value_to_value(column_name, data_type, v) {
                    Ok(value) => Ok(Some(ColumnDefaultConstraint::Value(value))),
                    Err(e) => Err(e),
                };
            },
            ColumnOption::Default(Expr::Function(func)) => {
                return Ok(
                    Some(ColumnDefaultConstraint::Function(to_lowercase(func.as_str()))),
                );
            },
            ColumnOption::Default(expr) => {
                return Err(
                    Error::UnsupportedDefaultValue {
                        column_name: String::from_str(column_name),
                        expr: expr.duplicate(),
                    },
                );
            },
            _ => {},
        }
        i += 1;
    }
    Ok(None)
}

/// Whether none of the options forbids nulls.
pub open spec fn allows_null(opts: Seq<ColumnOptionDef>) -> bool {
    forall|i: int| 0 <= i < opts.len() ==> !((#[trigger] opts[i]).option is NotNull)
}

fn no_not_null(opts: &Vec<ColumnOptionDef>) -> (b: bool)
    ensures
        b == allows_null(opts@),
{
    let mut i: usize = 0;
    while i < opts.len()
        invariant
            i <= opts@.len(),
            forall|j: int| 0 <= j < i ==> !((#[trigger] opts@[j]).option is NotNull),
        decreases opts@.len() - i,
    {
        match &opts[i].option {
            ColumnOption::NotNull => {
                return false;
            },
            _ => {},
        }
        i += 1;
    }
    true
}

/// Whether `r` is the schema of the column that `column_def` defines: the
/// name and the type are those of the definition; the column is nullable
/// unless an option forbids nulls or the column is the time index; and the
/// default is the one that the options give, provided it fits the column.
/// The errors are those of the type, of the default's literal, and of the
/// default not fitting.
pub open spec fn is_column_schema(r: Result<ColumnSchema>, column_def: ColumnDef, is_time_index: bool) -> bool {
    let name = column_def.name.value;
    let nullable = allows_null(column_def.options@) && !is_time_index;
    match concrete_type_of(column_def.data_type) {
        None => r matches Err(Error::SqlTypeNotSupported { t }) && t.is_same(column_def.data_type),
        Some(data_type) => exists|d: Result<Option<ColumnDefaultConstraint>>|
            {
                &&& #[trigger] is_default_constraint(d, name@, data_type, column_def.options@)
                &&& match d {
                    Err(e) => r == Err::<ColumnSchema, Error>(e),
                    Ok(None) => r == Ok::<ColumnSchema, Error>(
                        ColumnSchema {
                            name,
                            data_type,
                            is_nullable: nullable,
                            is_time_index,
                            default_constraint: None,
                        },
                    ),
                    Ok(Some(c)) => if c.check(data_type, nullable) == DefaultCheck::Valid {
                        r == Ok::<ColumnSchema, Error>(
                            ColumnSchema {
                                name,
                                data_type,
                                is_nullable: nullable,
                                is_time_index,
                                default_constraint: Some(c),
                            },
                        )
                    } else {
                        r matches Err(Error::InvalidDefault { column, .. }) && column == name
                    },
                }
            },
    }
}

/// Creates the schema of a column from its definition.
pub fn column_def_to_schema(column_def: &ColumnDef, is_time_index: bool) -> (r: Result<ColumnSchema>)
    ensures
        is_column_schema(r, *column_def, is_time_index),
{
    let is_nullable = no_not_null(&column_def.options) && !is_time_index;
    let name = column_def.name.value.clone();
    let data_type = match sql_data_type_to_concrete_data_type(&column_def.data_type) {
        Ok(t) => t,
        Err(e) => {
            return Err(e);
        },
    };
    let d = parse_column_default_constraint(
        name.as_str(),
        &data_type,
        column_def.options.as_slice(),
    );
    let default_constraint = match d {
        Ok(c) => c,
        Err(e) => {
            return Err(e);
        },
    };
    let column = ColumnSchema::new(name, data_type, is_nullable).with_time_index(is_time_index);
    match column.with_default_constraint(default_constraint) {
        Ok(c) => Ok(c),
        Err(source) => Err(
            Error::InvalidDefault { column: column_def.name.value.clone(), source },
        ),
    }
}

/// A column type as it is sent over the wire.
#[derive(Clone, Copy, Debug, PartialEq, Eq, Hash, Structural)]
pub enum ColumnDataType {
    Boolean,
    Int8,
    Int16,
    Int32,
    Int64,
    Uint8,
    Uint16,
    Uint32,
    Uint64,
    Float32,
    Float64,
    Binary,
    String,
    Date,
    Datetime,
    TimestampSecond,
    TimestampMillisecond,
    TimestampMicrosecond,
    TimestampNanosecond,
}

/// The definition of a column as it is sent over the wire. The default
/// constraint is kept as it is; turning it into bytes is left to the sender.
#[derive(Clone, Debug, PartialEq, Eq)]
pub struct GrpcColumnDef {
    pub name: String,
    pub datatype: ColumnDataType,
    pub is_nullable: bool,
    pub default_constraint: Option<ColumnDefaultConstraint>,
}

/// The wire type of a column type; the null type and lists have none.
pub open spec fn wire_type_of(data_type: ConcreteDataType) -> Option<ColumnDataType> {
    match data_type {
        ConcreteDataType::Boolean(_) => Some(ColumnDataType::Boolean),
        ConcreteDataType::Int8(_) => Some(ColumnDataType::Int8),
        ConcreteDataType::Int16(_) => Some(ColumnDataType::Int16),
        ConcreteDataType::Int32(_) => Some(ColumnDataType::Int32),
        ConcreteDataType::Int64(_) => Some(ColumnDataType::Int64),
        ConcreteDataType::UInt8(_) => Some(ColumnDataType::Uint8),
        ConcreteDataType::UInt16(_) => Some(ColumnDataType::Uint16),
        ConcreteDataType::UInt32(_) => Some(ColumnDataType::Uint32),
        ConcreteDataType::UInt64(_) => Some(ColumnDataType::Uint64),
        ConcreteDataType::Float32(_) => Some(ColumnDataType::Float32),
        ConcreteDataType::Float64(_) => Some(ColumnDataType::Float64),
        ConcreteDataType::Binary(_) => Some(ColumnDataType::Binary),
        ConcreteDataType::String(_) => Some(ColumnDataType::String),
        ConcreteDataType::Date(_) => Some(ColumnDataType::Date),
        ConcreteDataType::DateTime(_) => Some(ColumnDataType::Datetime),
        ConcreteDataType::Timestamp(TimeUnit::Second) => Some(ColumnDataType::TimestampSecond),
        ConcreteDataType::Timestamp(TimeUnit::Millisecond) => Some(
            ColumnDataType::TimestampMillisecond,
        ),
        ConcreteDataType::Timestamp(TimeUnit::Microsecond) => Some(
            ColumnDataType::TimestampMicrosecond,
        ),
        ConcreteDataType::Timestamp(TimeUnit::Nanosecond) => Some(
            ColumnDataType::TimestampNanosecond,
        ),
        ConcreteDataType::Null(_) | ConcreteDataType::List(_) => None,
    }
}

/// The wire type of a column type.
pub fn wire_type(data_type: &ConcreteDataType) -> (r: Option<ColumnDataType>)
    ensures
        r == wire_type_of(*data_type),
{
    match data_type {
        ConcreteDataType::Boolean(_) => Some(ColumnDataType::Boolean),
        ConcreteDataType::Int8(_) => Some(ColumnDataType::Int8),
        ConcreteDataType::Int16(_) => Some(ColumnDataType::Int16),
        ConcreteDataType::Int32(_) => Some(ColumnDataType::Int32),
        ConcreteDataType::Int64(_) => Some(ColumnDataType::Int64),
        ConcreteDataType::UInt8(_) => Some(ColumnDataType::Uint8),
        ConcreteDataType::UInt16(_) => Some(ColumnDataType::Uint16),
        ConcreteDataType::UInt32(_) => Some(ColumnDataType::Uint32),
        ConcreteDataType::UInt64(_) => Some(ColumnDataType::Uint64),
        ConcreteDataType::Float32(_) => Some(ColumnDataType::Float32),
        ConcreteDataType::Float64(_) => Some(ColumnDataType::Float64),
        ConcreteDataType::Binary(_) => Some(ColumnDataType::Binary),
        ConcreteDataType::String(_) => Some(ColumnDataType::String),
        ConcreteDataType::Date(_) => Some(ColumnDataType::Date),
        ConcreteDataType::DateTime(_) => Some(ColumnDataType::Datetime),
        ConcreteDataType::Timestamp(TimeUnit::Second) => Some(ColumnDataType::TimestampSecond),
        ConcreteDataType::Timestamp(TimeUnit::Millisecond) => Some(
            ColumnDataType::TimestampMillisecond,
        ),
        ConcreteDataType::Timestamp(TimeUnit::Microsecond) => Some(
            ColumnDataType::TimestampMicrosecond,
        ),
        ConcreteDataType::Timestamp(TimeUnit::Nanosecond) => Some(
            ColumnDataType::TimestampNanosecond,
        ),
        ConcreteDataType::Null(_) | ConcreteDataType::List(_) => None,
    }
}

/// Whether `r` is the wire definition of the column that `col` defines:
/// the name and the wire type of the definition's type; nullable unless an
/// option forbids nulls; and the default that the options give.
pub open spec fn is_grpc_column_def(r: Result<GrpcColumnDef>, col: ColumnDef) -> bool {
    let name = col.name.value;
    match concrete_type_of(col.data_type) {
        None => r matches Err(Error::SqlTypeNotSupported { t }) && t.is_same(col.data_type),
        Some(data_type) => exists|d: Result<Option<ColumnDefaultConstraint>>|
            {
                &&& #[trigger] is_default_constraint(d, name@, data_type, col.options@)
                &&& match d {
                    Err(e) => r == Err::<GrpcColumnDef, Error>(e),
                    Ok(default_constraint) => match wire_type_of(data_type) {
                        Some(datatype) => r == Ok::<GrpcColumnDef, Error>(
                            GrpcColumnDef {
                                name,
                                datatype,
                                is_nullable: allows_null(col.options@),
                                default_constraint,
                            },
                        ),
                        None => r == Err::<GrpcColumnDef, Error>(
                            Error::ConvertToGrpcDataType { source: data_type },
                        ),
                    },
                }
            },
    }
}

/// Converts the definition of a column into its wire form.
pub fn sql_column_def_to_grpc_column_def(col: ColumnDef) -> (r: Result<GrpcColumnDef>)
    ensures
        is_grpc_column_def(r, col),
{
    let name = col.name.value.clone();
    let data_type = match sql_data_type_to_concrete_data_type(&col.data_type) {
        Ok(t) => t,
        Err(e) => {
            return Err(e);
        },
    };
    let is_nullable = no_not_null(&col.options);
    let d = parse_column_default_constraint(name.as_str(), &data_type, col.options.as_slice());
    let default_constraint = match d {
        Ok(c) => c,
        Err(e) => {
            return Err(e);
        },
    };
    match wire_type(&data_type) {
        Some(datatype) => Ok(GrpcColumnDef { name, datatype, is_nullable, default_constraint }),
        None => Err(Error::ConvertToGrpcDataType { source: data_type }),
    }
}

} // verus!
