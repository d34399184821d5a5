//! Single values of any column type.

use vstd::prelude::*;
use vstd::string::StringExecFns;
use crate::datatypes::error::{Error, Result};
use crate::datatypes::data_type::{
    BinaryType, BooleanType, ConcreteDataType, DateTimeType, DateType, Float32Type, Float64Type,
    Int16Type, Int32Type, Int64Type, Int8Type, NullType, StringType, TimeUnit, UInt16Type,
    UInt32Type, UInt64Type, UInt8Type,
};

verus! {

/// A point in time: a count of `unit`s since the Unix epoch.
#[derive(Clone, Copy, Debug, PartialEq, Eq, Hash, Structural)]
pub struct Timestamp {
    pub value: i64,
    pub unit: TimeUnit,
}

impl Timestamp {
    pub fn new(value: i64, unit: TimeUnit) -> (t: Timestamp)
        ensures
            t == (Timestamp { value, unit }),
    {
        Timestamp { value, unit }
    }

    pub fn value(&self) -> (v: i64)
        ensures
            v == self.value,
    {
        self.value
    }

    pub fn unit(&self) -> (u: TimeUnit)
        ensures
            u == self.unit,
    {
        self.unit
    }
}

/// How many nanoseconds one `unit` holds.
pub open spec fn nanos_per(unit: TimeUnit) -> int {
    match unit {
        TimeUnit::Second => 1_000_000_000,
        TimeUnit::Millisecond => 1_000_000,
        TimeUnit::Microsecond => 1_000,
        TimeUnit::Nanosecond => 1,
    }
}

/// A value of a column. A floating-point number is held by its IEEE-754 bit
/// pattern.
#[derive(Debug, PartialEq, Eq)]
pub enum Value {
    Null,
    Boolean(bool),
    UInt8(u8),
    UInt16(u16),
    UInt32(u32),
    UInt64(u64),
    Int8(i8),
    Int16(i16),
    Int32(i32),
    Int64(i64),
    Float32(u32),
    Float64(u64),
    String(String),
    Binary(Vec<u8>),
    Date(i32),
    DateTime(i64),
    Timestamp(Timestamp),
    List(ListValue),
}

/// A list of values of one type, as one value. A list without items is a
/// null list.
#[derive(Debug, PartialEq, Eq)]
pub struct ListValue {
    pub items: Option<Box<Vec<Value>>>,
    pub datatype: ConcreteDataType,
}

/// The mathematical content of a [`Value`].
pub enum ValueView {
    Null,
    Boolean(bool),
    UInt8(u8),
    UInt16(u16),
    UInt32(u32),
    UInt64(u64),
    Int8(i8),
    Int16(i16),
    Int32(i32),
    Int64(i64),
    Float32(u32),
    Float64(u64),
    String(Seq<char>),
    Binary(Seq<u8>),
    Date(i32),
    DateTime(i64),
    Timestamp(Timestamp),
    /// The contents of the items, if the list is no null, and the type of
    /// the items.
    List(Option<Seq<ValueView>>, ConcreteDataType),
}

/// The contents of the first `n` values of `items`, in order.
pub open spec fn views_of(items: Seq<Value>, n: nat) -> Seq<ValueView>
    decreases items, n,
{
    if n == 0 || n > items.len() {
        Seq::empty()
    } else {
        views_of(items, (n - 1) as nat).push(items[n - 1]@)
    }
}

impl View for Value {
    type V = ValueView;

    open spec fn view(&self) -> ValueView
        decreases self,
    {
        match *self {
            Value::Null => ValueView::Null,
            Value::Boolean(b) => ValueView::Boolean(b),
            Value::UInt8(v) => ValueView::UInt8(v),
            Value::UInt16(v) => ValueView::UInt16(v),
            Value::UInt32(v) => ValueView::UInt32(v),
            Value::UInt64(v) => ValueView::UInt64(v),
            Value::Int8(v) => ValueView::Int8(v),
            Value::Int16(v) => ValueView::Int16(v),
            Value::Int32(v) => ValueView::Int32(v),
            Value::Int64(v) => ValueView::Int64(v),
            Value::Float32(v) => ValueView::Float32(v),
            Value::Float64(v) => ValueView::Float64(v),
            Value::String(s) => ValueView::String(s@),
            Value::Binary(b) => ValueView::Binary(b@),
            Value::Date(v) => ValueView::Date(v),
            Value::DateTime(v) => ValueView::DateTime(v),
            Value::Timestamp(t) => ValueView::Timestamp(t),
            Value::List(list) => ValueView::List(
                match list.items {
                    Some(items) => Some(views_of((*items)@, (*items)@.len())),
                    None => None,
                },
                list.datatype,
            ),
        }
    }
}

impl ValueView {
    /// The type of the value; `Null` for the null value.
    pub open spec fn data_type(self) -> ConcreteDataType {
        match self {
            ValueView::Null => ConcreteDataType::Null(NullType),
            ValueView::Boolean(_) => ConcreteDataType::Boolean(BooleanType),
            ValueView::UInt8(_) => ConcreteDataType::UInt8(UInt8Type),
            ValueView::UInt16(_) => ConcreteDataType::UInt16(UInt16Type),
            ValueView::UInt32(_) => ConcreteDataType::UInt32(UInt32Type),
            ValueView::UInt64(_) => ConcreteDataType::UInt64(UInt64Type),
            ValueView::Int8(_) => ConcreteDataType::Int8(Int8Type),
            ValueView::Int16(_) => ConcreteDataType::Int16(Int16Type),
            ValueView::Int32(_) => ConcreteDataType::Int32(Int32Type),
            ValueView::Int64(_) => ConcreteDataType::Int64(Int64Type),
            ValueView::Float32(_) => ConcreteDataType::Float32(Float32Type),
            ValueView::Float64(_) => ConcreteDataType::Float64(Float64Type),
            ValueView::String(_) => ConcreteDataType::String(StringType),
            ValueView::Binary(_) => ConcreteDataType::Binary(BinaryType),
            ValueView::Date(_) => ConcreteDataType::Date(DateType),
            ValueView::DateTime(_) => ConcreteDataType::DateTime(DateTimeType),
            ValueView::Timestamp(t) => ConcreteDataType::Timestamp(t.unit),
            ValueView::List(_, item_type) => ConcreteDataType::List(
                item_type.spec_logical_type_id(),
            ),
        }
    }
}

impl Value {
    /// The type of the value; `Null` for the null value.
    pub fn data_type(&self) -> (t: ConcreteDataType)
        ensures
            t == self@.data_type(),
    {
        match self {
            Value::Null => ConcreteDataType::Null(NullType),
            Value::Boolean(_) => ConcreteDataType::Boolean(BooleanType),
            Value::UInt8(_) => ConcreteDataType::UInt8(UInt8Type),
            Value::UInt16(_) => ConcreteDataType::UInt16(UInt16Type),
            Value::UInt32(_) => ConcreteDataType::UInt32(UInt32Type),
            Value::UInt64(_) => ConcreteDataType::UInt64(UInt64Type),
            Value::Int8(_) => ConcreteDataType::Int8(Int8Type),
            Value::Int16(_) => ConcreteDataType::Int16(Int16Type),
            Value::Int32(_) => ConcreteDataType::Int32(Int32Type),
            Value::Int64(_) => ConcreteDataType::Int64(Int64Type),
            Value::Float32(_) => ConcreteDataType::Float32(Float32Type),
            Value::Float64(_) => ConcreteDataType::Float64(Float64Type),
            Value::String(_) => ConcreteDataType::String(StringType),
            Value::Binary(_) => ConcreteDataType::Binary(BinaryType),
            Value::Date(_) => ConcreteDataType::Date(DateType),
            Value::DateTime(_) => ConcreteDataType::DateTime(DateTimeType),
            Value::Timestamp(t) => ConcreteDataType::Timestamp(t.unit),
            Value::List(list) => ConcreteDataType::list_datatype(list.datatype),
        }
    }

    /// Whether this is the null value.
    pub fn is_null(&self) -> (b: bool)
        ensures
            b == (self@ is Null),
    {
        match self {
            Value::Null => true,
            _ => false,
        }
    }

    /// The list that the value is: none for the null value, and an error
    /// for a value that is no list.
    pub fn as_list(&self) -> (r: Result<Option<&ListValue>>)
        ensures
            match *self {
                Value::Null => r == Ok::<Option<&ListValue>, Error>(None),
                Value::List(list) => r == Ok::<Option<&ListValue>, Error>(Some(&list)),
                _ => r matches Err(Error::CastType { .. }),
            },
    {
        match self {
            Value::Null => Ok(None),
            Value::List(list) => Ok(Some(list)),
            _ => Err(Error::CastType { msg: String::from_str("the value is no list") }),
        }
    }

    /// A copy with the same content.
    pub fn duplicate(&self) -> (v: Value)
        ensures
            v@ == self@,
        decreases self,
    {
        match self {
            Value::Null => Value::Null,
            Value::Boolean(b) => Value::Boolean(*b),
            Value::UInt8(v) => Value::UInt8(*v),
            Value::UInt16(v) => Value::UInt16(*v),
            Value::UInt32(v) => Value::UInt32(*v),
            Value::UInt64(v) => Value::UInt64(*v),
            Value::Int8(v) => Value::Int8(*v),
            Value::Int16(v) => Value::Int16(*v),
            Value::Int32(v) => Value::Int32(*v),
            Value::Int64(v) => Value::Int64(*v),
            Value::Float32(v) => Value::Float32(*v),
            Value::Float64(v) => Value::Float64(*v),
            Value::String(s) => Value::String(s.clone()),
            Value::Binary(b) => Value::Binary(b.clone()),
            Value::Date(v) => Value::Date(*v),
            Value::DateTime(v) => Value::DateTime(*v),
            Value::Timestamp(t) => Value::Timestamp(*t),
            Value::List(list) => Value::List(list.duplicate()),
        }
    }
}

impl Clone for Value {
    fn clone(&self) -> (v: Value)
        ensures
            v@ == self@,
    {
        self.duplicate()
    }
}

impl Clone for ListValue {
    fn clone(&self) -> (list: ListValue)
        ensures
            Value::List(list)@ == Value::List(*self)@,
    {
        self.duplicate()
    }
}

/// Values with the same contents, one by one, have the same contents
/// together.
pub proof fn lemma_views_of_same(a: Seq<Value>, b: Seq<Value>, n: nat)
    requires
        n <= a.len(),
        n <= b.len(),
        forall|i: int| 0 <= i < n ==> (#[trigger] a[i])@ == b[i]@,
    ensures
        views_of(a, n) == views_of(b, n),
    decreases n,
{
    if n > 0 {
        lemma_views_of_same(a, b, (n - 1) as nat);
        assert(a[n - 1]@ == b[n - 1]@);
    }
}

impl ListValue {
    /// The list of the values `items` of the type `datatype`.
    pub fn new(items: Option<Box<Vec<Value>>>, datatype: ConcreteDataType) -> (list: ListValue)
        ensures
            list.items == items,
            list.datatype == datatype,
    {
        ListValue { items, datatype }
    }

    /// The items, if the list is no null.
    pub fn items(&self) -> (items: &Option<Box<Vec<Value>>>)
        ensures
            *items == self.items,
    {
        &self.items
    }

    /// The type of the items.
    pub fn datatype(&self) -> (datatype: &ConcreteDataType)
        ensures
            *datatype == self.datatype,
    {
        &self.datatype
    }

    /// A copy with the same content.
    #[verifier::loop_isolation(false)]
    pub fn duplicate(&self) -> (list: ListValue)
        ensures
            Value::List(list)@ == Value::List(*self)@,
        decreases self,
    {
        let items = match &self.items {
            Some(items) => {
                let mut copies: Vec<Value> = Vec::new();
                let mut i: usize = 0;
                while i < items.len()
                    invariant
                        i <= (**items)@.len(),
                        copies@.len() == i,
                        forall|j: int| 0 <= j < i ==> (#[trigger] copies@[j])@ == (**items)@[j]@,
                    decreases (**items)@.len() - i,
                {
                    proof {
                        vstd::std_specs::vec::axiom_vec_index_decreases(**items, i as int);
                    }
                    let copy = items[i].duplicate();
                    copies.push(copy);
                    i += 1;
                }
                proof {
                    lemma_views_of_same(copies@, (**items)@, copies@.len());
                }
                Some(Box::new(copies))
            },
            None => None,
        };
        ListValue { items, datatype: self.datatype }
    }
}

} // verus!
