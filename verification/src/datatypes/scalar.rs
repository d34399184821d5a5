//! Single values as the query engine hands them over.

use vstd::prelude::*;
use crate::datatypes::data_type::{
    BinaryType, BooleanType, ConcreteDataType, DateTimeType, DateType, Float32Type, Float64Type,
    Int16Type, Int32Type, Int64Type, Int8Type, NullType, StringType, TimeUnit, UInt16Type,
    UInt32Type, UInt64Type, UInt8Type,
};
use crate::datatypes::arrow::{from_arrow_type, ArrowDataType};
use crate::datatypes::value::{
    lemma_views_of_same, views_of, ListValue, Timestamp, Value, ValueView,
};

verus! {

/// A single value of the query engine; `None` inside is a null of that type.
/// A floating-point number is held by its bit pattern, and time zones are
/// left out.
#[derive(Debug, PartialEq, Eq)]
pub enum ScalarValue {
    Null,
    Boolean(Option<bool>),
    Float32(Option<u32>),
    Float64(Option<u64>),
    Decimal128,
    Int8(Option<i8>),
    Int16(Option<i16>),
    Int32(Option<i32>),
    Int64(Option<i64>),
    UInt8(Option<u8>),
    UInt16(Option<u16>),
    UInt32(Option<u32>),
    UInt64(Option<u64>),
    Utf8(Option<String>),
    LargeUtf8(Option<String>),
    Binary(Option<Vec<u8>>),
    FixedSizeBinary(i32, Option<Vec<u8>>),
    LargeBinary(Option<Vec<u8>>),
    /// The items of a list, if it is no null, and the wire type of the
    /// items.
    List(Option<Vec<ScalarValue>>, ArrowDataType),
    Date32(Option<i32>),
    Date64(Option<i64>),
    Time32Second,
    Time32Millisecond,
    Time64Microsecond,
    Time64Nanosecond,
    TimestampSecond(Option<i64>),
    TimestampMillisecond(Option<i64>),
    TimestampMicrosecond(Option<i64>),
    TimestampNanosecond(Option<i64>),
    IntervalYearMonth,
    IntervalDayTime,
    IntervalMonthDayNano,
    Struct,
    Dictionary,
}

/// What the first `n` of the scalars `items` stand for as values, in order,
/// if each of them stands for one.
pub open spec fn item_views(items: Seq<ScalarValue>, n: nat) -> Option<Seq<ValueView>>
    decreases items, n,
{
    if n == 0 || n > items.len() {
        Some(Seq::empty())
    } else {
        match (item_views(items, (n - 1) as nat), items[n - 1].as_constant()) {
            (Some(front), Some((_, v))) => Some(front.push(v)),
            _ => None,
        }
    }
}

/// Where one of the scalars stands for no value, the scalars together
/// stand for none.
pub proof fn lemma_item_views_none(items: Seq<ScalarValue>, at: int, n: nat)
    requires
        0 <= at < n <= items.len(),
        items[at].as_constant() is None,
    ensures
        item_views(items, n) is None,
    decreases n,
{
    if at < n - 1 {
        lemma_item_views_none(items, at, (n - 1) as nat);
    }
}

impl ScalarValue {
    /// The column type and the value that the scalar stands for, if it is of
    /// a kind that vectors can hold. A list stands for the list of what its
    /// items stand for, provided that each item and the type of the items
    /// have a counterpart.
    pub open spec fn as_constant(self) -> Option<(ConcreteDataType, ValueView)>
        decreases self,
    {
        match self {
            ScalarValue::List(items, item_type) => match from_arrow_type(item_type) {
                Some(t) => match items {
                    Some(list) => match item_views(list@, list@.len()) {
                        Some(views) => Some(
                            (
                                ConcreteDataType::List(t.spec_logical_type_id()),
                                ValueView::List(Some(views), t),
                            ),
                        ),
                        None => None,
                    },
                    None => Some((ConcreteDataType::List(t.spec_logical_type_id()), ValueView::Null)),
                },
                None => None,
            },
            ScalarValue::Null => Some((ConcreteDataType::Null(NullType), ValueView::Null)),
            ScalarValue::Boolean(v) => Some(
                (
                    ConcreteDataType::Boolean(BooleanType),
                    match v {
                        Some(x) => ValueView::Boolean(x),
                        None => ValueView::Null,
                    },
                ),
            ),
            ScalarValue::Float32(v) => Some(
                (
                    ConcreteDataType::Float32(Float32Type),
                    match v {
                        Some(x) => ValueView::Float32(x),
                        None => ValueView::Null,
                    },
                ),
            ),
            ScalarValue::Float64(v) => Some(
                (
                    ConcreteDataType::Float64(Float64Type),
                    match v {
                        Some(x) => ValueView::Float64(x),
                        None => ValueView::Null,
                    },
                ),
            ),
            ScalarValue::Int8(v) => Some(
                (
                    ConcreteDataType::Int8(Int8Type),
                    match v {
                        Some(x) => ValueView::Int8(x),
                        None => ValueView::Null,
                    },
                ),
            ),
            ScalarValue::Int16(v) => Some(
                (
                    ConcreteDataType::Int16(Int16Type),
                    match v {
                        Some(x) => ValueView::Int16(x),
                        None => ValueView::Null,
                    },
                ),
            ),
            ScalarValue::Int32(v) => Some(
                (
                    ConcreteDataType::Int32(Int32Type),
                    match v {
                        Some(x) => ValueView::Int32(x),
                        None => ValueView::Null,
                    },
                ),
            ),
            ScalarValue::Int64(v) => Some(
                (
                    ConcreteDataType::Int64(Int64Type),
                    match v {
                        Some(x) => ValueView::Int64(x),
                        None => ValueView::Null,
                    },
                ),
            ),
            ScalarValue::UInt8(v) => Some(
                (
                    ConcreteDataType::UInt8(UInt8Type),
                    match v {
                        Some(x) => ValueView::UInt8(x),
                        None => ValueView::Null,
                    },
                ),
            ),
            ScalarValue::UInt16(v) => Some(
                (
                    ConcreteDataType::UInt16(UInt16Type),
                    match v {
                        Some(x) => ValueView::UInt16(x),
                        None => ValueView::Null,
                    },
                ),
            ),
            ScalarValue::UInt32(v) => Some(
                (
                    ConcreteDataType::UInt32(UInt32Type),
                    match v {
                        Some(x) => ValueView::UInt32(x),
                        None => ValueView::Null,
                    },
                ),
            ),
            ScalarValue::UInt64(v) => Some(
                (
                    ConcreteDataType::UInt64(UInt64Type),
                    match v {
                        Some(x) => ValueView::UInt64(x),
                        None => ValueView::Null,
                    },
                ),
            ),
            ScalarValue::Utf8(v) | ScalarValue::LargeUtf8(v) => Some(
                (
                    ConcreteDataType::String(StringType),
                    match v {
                        Some(x) => ValueView::String(x@),
                        None => ValueView::Null,
                    },
                ),
            ),
            ScalarValue::Binary(v) | ScalarValue::LargeBinary(v) | ScalarValue::FixedSizeBinary(
                _,
                v,
            ) => Some(
                (
                    ConcreteDataType::Binary(BinaryType),
                    match v {
                        Some(x) => ValueView::Binary(x@),
                        None => ValueView::Null,
                    },
                ),
            ),
            ScalarValue::Date32(v) => Some(
                (
                    ConcreteDataType::Date(DateType),
                    match v {
                        Some(x) => ValueView::Date(x),
                        None => ValueView::Null,
                    },
                ),
            ),
            ScalarValue::Date64(v) => Some(
                (
                    ConcreteDataType::DateTime(DateTimeType),
                    match v {
                        Some(x) => ValueView::DateTime(x),
                        None => ValueView::Null,
                    },
                ),
            ),
            ScalarValue::TimestampSecond(v) => Some(
                (
                    ConcreteDataType::Timestamp(TimeUnit::Second),
                    match v {
                        Some(x) => ValueView::Timestamp(
                            Timestamp { value: x, unit: TimeUnit::Second },
                        ),
                        None => ValueView::Null,
                    },
                ),
            ),
            ScalarValue::TimestampMillisecond(v) => Some(
                (
                    ConcreteDataType::Timestamp(TimeUnit::Millisecond),
                    match v {
                        Some(x) => ValueView::Timestamp(
                            Timestamp { value: x, unit: TimeUnit::Millisecond },
                        ),
                        None => ValueView::Null,
                    },
                ),
            ),
            ScalarValue::TimestampMicrosecond(v) => Some(
                (
                    ConcreteDataType::Timestamp(TimeUnit::Microsecond),
                    match v {
                        Some(x) => ValueView::Timestamp(
                            Timestamp { value: x, unit: TimeUnit::Microsecond },
                        ),
                        None => ValueView::Null,
                    },
                ),
            ),
            ScalarValue::TimestampNanosecond(v) => Some(
                (
                    ConcreteDataType::Timestamp(TimeUnit::Nanosecond),
                    match v {
                        Some(x) => ValueView::Timestamp(
                            Timestamp { value: x, unit: TimeUnit::Nanosecond },
                        ),
                        None => ValueView::Null,
                    },
                ),
            ),
            _ => None,
        }
    }

    /// The name of the kind of the scalar, for messages.
    pub fn kind_name(&self) -> (name: &'static str)
        ensures
            name@ == self.spec_kind_name(),
    {
        match self {
            ScalarValue::Null => "Null",
            ScalarValue::Boolean(_) => "Boolean",
            ScalarValue::Float32(_) => "Float32",
            ScalarValue::Float64(_) => "Float64",
            ScalarValue::Decimal128 => "Decimal128",
            ScalarValue::Int8(_) => "Int8",
            ScalarValue::Int16(_) => "Int16",
            ScalarValue::Int32(_) => "Int32",
            ScalarValue::Int64(_) => "Int64",
            ScalarValue::UInt8(_) => "UInt8",
            ScalarValue::UInt16(_) => "UInt16",
            ScalarValue::UInt32(_) => "UInt32",
            ScalarValue::UInt64(_) => "UInt64",
            ScalarValue::Utf8(_) => "Utf8",
            ScalarValue::LargeUtf8(_) => "LargeUtf8",
            ScalarValue::Binary(_) => "Binary",
            ScalarValue::FixedSizeBinary(_, _) => "FixedSizeBinary",
            ScalarValue::LargeBinary(_) => "LargeBinary",
            ScalarValue::List(_, _) => "List",
            ScalarValue::Date32(_) => "Date32",
            ScalarValue::Date64(_) => "Date64",
            ScalarValue::Time32Second => "Time32Second",
            ScalarValue::Time32Millisecond => "Time32Millisecond",
            ScalarValue::Time64Microsecond => "Time64Microsecond",
            ScalarValue::Time64Nanosecond => "Time64Nanosecond",
            ScalarValue::TimestampSecond(_) => "TimestampSecond",
            ScalarValue::TimestampMillisecond(_) => "TimestampMillisecond",
            ScalarValue::TimestampMicrosecond(_) => "TimestampMicrosecond",
            ScalarValue::TimestampNanosecond(_) => "TimestampNanosecond",
            ScalarValue::IntervalYearMonth => "IntervalYearMonth",
            ScalarValue::IntervalDayTime => "IntervalDayTime",
            ScalarValue::IntervalMonthDayNano => "IntervalMonthDayNano",
            ScalarValue::Struct => "Struct",
            ScalarValue::Dictionary => "Dictionary",
        }
    }

    /// The name of the kind of the scalar: that of its variant.
    pub open spec fn spec_kind_name(self) -> Seq<char> {
        match self {
            ScalarValue::Null => "Null"@,
            ScalarValue::Boolean(_) => "Boolean"@,
            ScalarValue::Float32(_) => "Float32"@,
            ScalarValue::Float64(_) => "Float64"@,
            ScalarValue::Decimal128 => "Decimal128"@,
            ScalarValue::Int8(_) => "Int8"@,
            ScalarValue::Int16(_) => "Int16"@,
            ScalarValue::Int32(_) => "Int32"@,
            ScalarValue::Int64(_) => "Int64"@,
            ScalarValue::UInt8(_) => "UInt8"@,
            ScalarValue::UInt16(_) => "UInt16"@,
            ScalarValue::UInt32(_) => "UInt32"@,
            ScalarValue::UInt64(_) => "UInt64"@,
            ScalarValue::Utf8(_) => "Utf8"@,
            ScalarValue::LargeUtf8(_) => "LargeUtf8"@,
            ScalarValue::Binary(_) => "Binary"@,
            ScalarValue::FixedSizeBinary(_, _) => "FixedSizeBinary"@,
            ScalarValue::LargeBinary(_) => "LargeBinary"@,
            ScalarValue::List(_, _) => "List"@,
            ScalarValue::Date32(_) => "Date32"@,
            ScalarValue::Date64(_) => "Date64"@,
            ScalarValue::Time32Second => "Time32Second"@,
            ScalarValue::Time32Millisecond => "Time32Millisecond"@,
            ScalarValue::Time64Microsecond => "Time64Microsecond"@,
            ScalarValue::Time64Nanosecond => "Time64Nanosecond"@,
            ScalarValue::TimestampSecond(_) => "TimestampSecond"@,
            ScalarValue::TimestampMillisecond(_) => "TimestampMillisecond"@,
            ScalarValue::TimestampMicrosecond(_) => "TimestampMicrosecond"@,
            ScalarValue::TimestampNanosecond(_) => "TimestampNanosecond"@,
            ScalarValue::IntervalYearMonth => "IntervalYearMonth"@,
            ScalarValue::IntervalDayTime => "IntervalDayTime"@,
            ScalarValue::IntervalMonthDayNano => "IntervalMonthDayNano"@,
            ScalarValue::Struct => "Struct"@,
            ScalarValue::Dictionary => "Dictionary"@,
        }
    }

    /// Whether the scalar is a null, of any type.
    pub fn is_null(&self) -> (b: bool)
        ensures
            b == self.spec_is_null(),
    {
        match self {
            ScalarValue::Null => true,
            ScalarValue::Boolean(v) => v.is_none(),
            ScalarValue::Float32(v) => v.is_none(),
            ScalarValue::Float64(v) => v.is_none(),
            ScalarValue::Int8(v) => v.is_none(),
            ScalarValue::Int16(v) => v.is_none(),
            ScalarValue::Int32(v) => v.is_none(),
            ScalarValue::Int64(v) => v.is_none(),
            ScalarValue::UInt8(v) => v.is_none(),
            ScalarValue::UInt16(v) => v.is_none(),
            ScalarValue::UInt32(v) => v.is_none(),
            ScalarValue::UInt64(v) => v.is_none(),
            ScalarValue::Utf8(v) => v.is_none(),
            ScalarValue::LargeUtf8(v) => v.is_none(),
            ScalarValue::Binary(v) => v.is_none(),
            ScalarValue::FixedSizeBinary(_, v) => v.is_none(),
            ScalarValue::LargeBinary(v) => v.is_none(),
            ScalarValue::List(v, _) => v.is_none(),
            ScalarValue::Date32(v) => v.is_none(),
            ScalarValue::Date64(v) => v.is_none(),
            ScalarValue::TimestampSecond(v) => v.is_none(),
            ScalarValue::TimestampMillisecond(v) => v.is_none(),
            ScalarValue::TimestampMicrosecond(v) => v.is_none(),
            ScalarValue::TimestampNanosecond(v) => v.is_none(),
            _ => false,
        }
    }

    /// Whether the scalar is a null, of any type. The kinds that are not
    /// modelled in detail count as not null.
    pub open spec fn spec_is_null(self) -> bool {
        match self {
            ScalarValue::Null => true,
            ScalarValue::Boolean(v) => v is None,
            ScalarValue::Float32(v) => v is None,
            ScalarValue::Float64(v) => v is None,
            ScalarValue::Int8(v) => v is None,
            ScalarValue::Int16(v) => v is None,
            ScalarValue::Int32(v) => v is None,
            ScalarValue::Int64(v) => v is None,
            ScalarValue::UInt8(v) => v is None,
            ScalarValue::UInt16(v) => v is None,
            ScalarValue::UInt32(v) => v is None,
            ScalarValue::UInt64(v) => v is None,
            ScalarValue::Utf8(v) => v is None,
            ScalarValue::LargeUtf8(v) => v is None,
            ScalarValue::Binary(v) => v is None,
            ScalarValue::FixedSizeBinary(_, v) => v is None,
            ScalarValue::LargeBinary(v) => v is None,
            ScalarValue::List(v, _) => v is None,
            ScalarValue::Date32(v) => v is None,
            ScalarValue::Date64(v) => v is None,
            ScalarValue::TimestampSecond(v) => v is None,
            ScalarValue::TimestampMillisecond(v) => v is None,
            ScalarValue::TimestampMicrosecond(v) => v is None,
            ScalarValue::TimestampNanosecond(v) => v is None,
            _ => false,
        }
    }

    /// The column type and the value that the scalar stands for, if it is of
    /// a kind that vectors can hold.
    #[verifier::loop_isolation(false)]
    pub fn into_constant(self) -> (r: Option<(ConcreteDataType, Value)>)
        ensures
            match r {
                Some((t, v)) => self.as_constant() == Some((t, v@)),
                None => self.as_constant() is None,
            },
        decreases self,
    {
        match self {
            ScalarValue::List(items, item_type) => {
                let t = match ConcreteDataType::try_from_arrow(&item_type) {
                    Ok(t) => t,
                    Err(_) => {
                        return None;
                    },
                };
                let list = match items {
                    Some(list) => list,
                    None => {
                        return Some((ConcreteDataType::list_datatype(t), Value::Null));
                    },
                };
                let ghost whole = list;
                let ghost all = list@;
                let n = list.len();
                let mut rest = list;
                let mut stack: Vec<ScalarValue> = Vec::new();
                while rest.len() > 0
                    invariant
                        n == all.len(),
                        rest@.len() + stack@.len() == n,
                        rest@ == all.take(rest@.len() as int),
                        forall|k: int|
                            0 <= k < stack@.len() ==> (#[trigger] stack@[k]) == all[n - 1 - k],
                    decreases rest@.len(),
                {
                    let ghost before = stack@;
                    let ghost left = rest@;
                    match rest.pop() {
                        Some(item) => {
                            stack.push(item);
                        },
                        None => {},
                    }
                    proof {
                        assert(rest@ =~= all.take(rest@.len() as int));
                        assert forall|k: int| 0 <= k < stack@.len() implies (#[trigger] stack@[k])
                            == all[n - 1 - k] by {
                            if k < before.len() {
                                assert(stack@[k] == before[k]);
                            } else {
                                assert(stack@[k] == left[left.len() - 1]);
                            }
                        }
                    }
                }
                let mut values: Vec<Value> = Vec::new();
                while stack.len() > 0
                    invariant
                        n == all.len(),
                        values@.len() + stack@.len() == n,
                        forall|k: int|
                            0 <= k < stack@.len() ==> (#[trigger] stack@[k]) == all[n - 1 - k],
                        item_views(all, values@.len() as nat) == Some(
                            views_of(values@, values@.len() as nat),
                        ),
                    decreases stack@.len(),
                {
                    let ghost before = values@;
                    let ghost left = stack@;
                    let ghost at = values@.len() as int;
                    match stack.pop() {
                        Some(item) => {
                            proof {
                                assert(item == left[left.len() - 1]);
                                assert(item == all[at]);
                                vstd::std_specs::vec::axiom_vec_index_decreases(whole, at);
                            }
                            match item.into_constant() {
                                Some((_, v)) => {
                                    values.push(v);
                                    proof {
                                        lemma_views_of_same(before, values@, before.len());
                                        assert(values@[at] == v);
                                    }
                                },
                                None => {
                                    proof {
                                        lemma_item_views_none(all, at, n as nat);
                                    }
                                    return None;
                                },
                            }
                        },
                        None => {},
                    }
                    proof {
                        assert forall|k: int| 0 <= k < stack@.len() implies (#[trigger] stack@[k])
                            == all[n - 1 - k] by {
                            assert(stack@[k] == left[k]);
                        }
                    }
                }
                Some(
                    (
                        ConcreteDataType::list_datatype(t),
                        Value::List(ListValue::new(Some(Box::new(values)), t)),
                    ),
                )
            },
            ScalarValue::Null => Some((ConcreteDataType::Null(NullType), Value::Null)),
            ScalarValue::Boolean(v) => Some(
                (
                    ConcreteDataType::Boolean(BooleanType),
                    match v {
                        Some(x) => Value::Boolean(x),
                        None => Value::Null,
                    },
                ),
            ),
            ScalarValue::Float32(v) => Some(
                (
                    ConcreteDataType::Float32(Float32Type),
                    match v {
                        Some(x) => Value::Float32(x),
                        None => Value::Null,
                    },
                ),
            ),
            ScalarValue::Float64(v) => Some(
                (
                    ConcreteDataType::Float64(Float64Type),
                    match v {
                        Some(x) => Value::Float64(x),
                        None => Value::Null,
                    },
                ),
            ),
            ScalarValue::Int8(v) => Some(
                (
                    ConcreteDataType::Int8(Int8Type),
                    match v {
                        Some(x) => Value::Int8(x),
                        None => Value::Null,
                    },
                ),
            ),
            ScalarValue::Int16(v) => Some(
                (
                    ConcreteDataType::Int16(Int16Type),
                    match v {
                        Some(x) => Value::Int16(x),
                        None => Value::Null,
                    },
                ),
            ),
            ScalarValue::Int32(v) => Some(
                (
                    ConcreteDataType::Int32(Int32Type),
                    match v {
                        Some(x) => Value::Int32(x),
                        None => Value::Null,
                    },
                ),
            ),
            ScalarValue::Int64(v) => Some(
                (
                    ConcreteDataType::Int64(Int64Type),
                    match v {
                        Some(x) => Value::Int64(x),
                        None => Value::Null,
                    },
                ),
            ),
            ScalarValue::UInt8(v) => Some(
                (
                    ConcreteDataType::UInt8(UInt8Type),
                    match v {
                        Some(x) => Value::UInt8(x),
                        None => Value::Null,
                    },
                ),
            ),
            ScalarValue::UInt16(v) => Some(
                (
                    ConcreteDataType::UInt16(UInt16Type),
                    match v {
                        Some(x) => Value::UInt16(x),
                        None => Value::Null,
                    },
                ),
            ),
            ScalarValue::UInt32(v) => Some(
                (
                    ConcreteDataType::UInt32(UInt32Type),
                    match v {
                        Some(x) => Value::UInt32(x),
                        None => Value::Null,
                    },
                ),
            ),
            ScalarValue::UInt64(v) => Some(
                (
                    ConcreteDataType::UInt64(UInt64Type),
                    match v {
                        Some(x) => Value::UInt64(x),
                        None => Value::Null,
                    },
                ),
            ),
            ScalarValue::Utf8(v) | ScalarValue::LargeUtf8(v) => Some(
                (
                    ConcreteDataType::String(StringType),
                    match v {
                        Some(x) => Value::String(x),
                        None => Value::Null,
                    },
                ),
            ),
            ScalarValue::Binary(v) | ScalarValue::LargeBinary(v) | ScalarValue::FixedSizeBinary(
                _,
                v,
            ) => Some(
                (
                    ConcreteDataType::Binary(BinaryType),
                    match v {
                        Some(x) => Value::Binary(x),
                        None => Value::Null,
                    },
                ),
            ),
            ScalarValue::Date32(v) => Some(
                (
                    ConcreteDataType::Date(DateType),
                    match v {
                        Some(x) => Value::Date(x),
                        None => Value::Null,
                    },
                ),
            ),
            ScalarValue::Date64(v) => Some(
                (
                    ConcreteDataType::DateTime(DateTimeType),
                    match v {
                        Some(x) => Value::DateTime(x),
                        None => Value::Null,
                    },
                ),
            ),
            ScalarValue::TimestampSecond(v) => Some(
                (
                    ConcreteDataType::Timestamp(TimeUnit::Second),
                    match v {
                        Some(x) => Value::Timestamp(Timestamp { value: x, unit: TimeUnit::Second }),
                        None => Value::Null,
                    },
                ),
            ),
            ScalarValue::TimestampMillisecond(v) => Some(
                (
                    ConcreteDataType::Timestamp(TimeUnit::Millisecond),
                    match v {
                        Some(x) => Value::Timestamp(
                            Timestamp { value: x, unit: TimeUnit::Millisecond },
                        ),
                        None => Value::Null,
                    },
                ),
            ),
            ScalarValue::TimestampMicrosecond(v) => Some(
                (
                    ConcreteDataType::Timestamp(TimeUnit::Microsecond),
                    match v {
                        Some(x) => Value::Timestamp(
                            Timestamp { value: x, unit: TimeUnit::Microsecond },
                        ),
                        None => Value::Null,
                    },
                ),
            ),
            ScalarValue::TimestampNanosecond(v) => Some(
                (
                    ConcreteDataType::Timestamp(TimeUnit::Nanosecond),
                    match v {
                        Some(x) => Value::Timestamp(
                            Timestamp { value: x, unit: TimeUnit::Nanosecond },
                        ),
                        None => Value::Null,
                    },
                ),
            ),
            _ => None,
        }
    }
}

} // verus!
