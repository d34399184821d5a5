//! Columns of values: one typed vector per column type, the vector of any
//! type, and the checked casts between the two.

use std::sync::Arc;
use vstd::prelude::*;
use crate::datatypes::data_type::{
    BinaryType, BooleanType, ConcreteDataType, DateTimeType, DateType, Float32Type, Float64Type,
    Int16Type, Int32Type, Int64Type, Int8Type, NullType, StringType, TimeUnit, UInt16Type,
    UInt32Type, UInt64Type, UInt8Type,
};
use crate::datatypes::value::{ListValue, Timestamp, Value, ValueView};

verus! {

/// A single-precision number, held by its IEEE-754 bit pattern.
#[derive(Clone, Copy, Debug, PartialEq, Eq, Hash)]
pub struct Float32Bits(pub u32);

/// A double-precision number, held by its IEEE-754 bit pattern.
#[derive(Clone, Copy, Debug, PartialEq, Eq, Hash)]
pub struct Float64Bits(pub u64);

/// A date: a count of days since the epoch.
#[derive(Clone, Copy, Debug, PartialEq, Eq, Hash)]
pub struct Date(pub i32);

/// A date-time: a count of seconds since the epoch.
#[derive(Clone, Copy, Debug, PartialEq, Eq, Hash)]
pub struct DateTime(pub i64);

/// A timestamp in seconds.
#[derive(Clone, Copy, Debug, PartialEq, Eq, Hash)]
pub struct TimestampSecond(pub i64);

/// A timestamp in milliseconds.
#[derive(Clone, Copy, Debug, PartialEq, Eq, Hash)]
pub struct TimestampMillisecond(pub i64);

/// A timestamp in microseconds.
#[derive(Clone, Copy, Debug, PartialEq, Eq, Hash)]
pub struct TimestampMicrosecond(pub i64);

/// A timestamp in nanoseconds.
#[derive(Clone, Copy, Debug, PartialEq, Eq, Hash)]
pub struct TimestampNanosecond(pub i64);

impl TimestampMillisecond {
    /// The count of milliseconds.
    pub fn into_native(self) -> (v: i64)
        ensures
            v == self.0,
    {
        self.0
    }
}

/// An item type of fixed size, with the typed vector and the value that
/// belong to it.
pub trait Primitive: Copy + Sized {
    /// The content of the item as a value.
    spec fn value_view(self) -> ValueView;

    /// The column type of a vector of such items.
    spec fn column_type() -> ConcreteDataType;

    /// The name of the vector of such items.
    spec fn vector_name() -> Seq<char>;

    /// The name of the builder of such a vector.
    fn exec_builder_name() -> (name: &'static str)
        ensures
            name@ == Self::vector_name() + "Builder"@,
    ;

    /// The vector of any type that holds `vector`.
    spec fn wrap(vector: PrimitiveVector<Self>) -> Vector;

    /// The item as a value.
    fn to_value(self) -> (value: Value)
        ensures
            value@ == self.value_view(),
    ;

    /// `vector` as a vector of such items, if that is what it holds.
    fn unwrap_ref(vector: &Vector) -> (r: Option<&PrimitiveVector<Self>>)
        ensures
            match r {
                Some(v) => Self::wrap(*v) == *vector,
                None => forall|v: PrimitiveVector<Self>| Self::wrap(v) != *vector,
            },
    ;

    /// The name of the vector of such items.
    fn exec_vector_name() -> (name: &'static str)
        ensures
            name@ == Self::vector_name(),
    ;

    /// The builder of any type that holds `builder`.
    spec fn wrap_builder(builder: PrimitiveVectorBuilder<Self>) -> MutableVector;

    /// `vector` as a builder of such items, if that is what it holds. What
    /// is done to the builder that is handed out is done to `vector`.
    fn unwrap_builder_mut(vector: &mut MutableVector) -> (r: Option<&mut PrimitiveVectorBuilder<Self>>)
        ensures
            match r {
                Some(b) => Self::wrap_builder(*b) == *old(vector) && *final(vector)
                    == Self::wrap_builder(*final(b)),
                None => (forall|b: PrimitiveVectorBuilder<Self>|
                    Self::wrap_builder(b) != *old(vector)) && *final(vector) == *old(vector),
            },
    ;
}

/// A typed builder that [`MutableVector`] can hold.
pub trait ConcreteBuilder: Sized {
    /// The builder of any type that holds `self`.
    spec fn upcast(self) -> MutableVector;

    /// The name of the typed builder.
    spec fn kind_name() -> Seq<char>;

    /// `vector` as this typed builder, if that is what it holds. What is
    /// done to the builder that is handed out is done to `vector`.
    fn downcast_mut(vector: &mut MutableVector) -> (r: Option<&mut Self>)
        ensures
            match r {
                Some(b) => b.upcast() == *old(vector) && *final(vector) == final(b).upcast(),
                None => (forall|b: Self| b.upcast() != *old(vector)) && *final(vector) == *old(
                    vector,
                ),
            },
    ;

    /// The name of the typed builder.
    fn exec_kind_name() -> (name: &'static str)
        ensures
            name@ == Self::kind_name(),
    ;
}

/// A vector of items of fixed size that is being built.
#[derive(Clone, Debug, PartialEq, Eq)]
pub struct PrimitiveVectorBuilder<T> {
    pub values: Vec<Option<T>>,
}

impl<T> View for PrimitiveVectorBuilder<T> {
    type V = Seq<Option<T>>;

    open spec fn view(&self) -> Seq<Option<T>> {
        self.values@
    }
}

impl<T: Primitive> PrimitiveVectorBuilder<T> {
    /// A builder without items, with room for `capacity` of them.
    pub fn with_capacity(capacity: usize) -> (b: Self)
        ensures
            b@.len() == 0,
    {
        PrimitiveVectorBuilder { values: Vec::with_capacity(capacity) }
    }

    /// Adds `item` behind the items that are there.
    pub fn push(&mut self, item: Option<T>)
        ensures
            final(self)@ == old(self)@.push(item),
    {
        self.values.push(item);
    }

    pub fn len(&self) -> (n: usize)
        ensures
            n == self@.len(),
    {
        self.values.len()
    }

    /// The vector of the items that were added.
    pub fn finish(self) -> (v: PrimitiveVector<T>)
        ensures
            v@ == self@,
    {
        PrimitiveVector { values: self.values }
    }
}

impl<T: Primitive> ConcreteBuilder for PrimitiveVectorBuilder<T> {
    open spec fn upcast(self) -> MutableVector {
        T::wrap_builder(self)
    }

    open spec fn kind_name() -> Seq<char> {
        T::vector_name() + "Builder"@
    }

    fn downcast_mut(vector: &mut MutableVector) -> (r: Option<&mut Self>) {
        T::unwrap_builder_mut(vector)
    }

    fn exec_kind_name() -> (name: &'static str) {
        T::exec_builder_name()
    }
}

/// An item type, with the typed vector that holds such items.
pub trait Scalar: Sized {
    type VectorType: ConcreteVector;
}

/// A typed vector that [`Vector`] can hold.
pub trait ConcreteVector: Sized {
    /// The vector of any type that holds `self`.
    spec fn upcast(self) -> Vector;

    /// The name of the typed vector.
    spec fn kind_name() -> Seq<char>;

    /// `vector` as this typed vector, if that is what it holds.
    fn downcast_ref(vector: &Vector) -> (r: Option<&Self>)
        ensures
            match r {
                Some(v) => v.upcast() == *vector,
                None => forall|v: Self| v.upcast() != *vector,
            },
    ;

    /// The name of the typed vector.
    fn exec_kind_name() -> (name: &'static str)
        ensures
            name@ == Self::kind_name(),
    ;
}

/// A vector of items of fixed size; `None` is a null.
#[derive(Clone, Debug, PartialEq, Eq)]
pub struct PrimitiveVector<T> {
    pub values: Vec<Option<T>>,
}

impl<T> View for PrimitiveVector<T> {
    type V = Seq<Option<T>>;

    open spec fn view(&self) -> Seq<Option<T>> {
        self.values@
    }
}

impl<T: Primitive> PrimitiveVector<T> {
    /// The vector of the given items, nulls included.
    pub fn from_values(values: Vec<Option<T>>) -> (v: Self)
        ensures
            v@ == values@,
    {
        PrimitiveVector { values }
    }

    /// The vector of the given items, none of them null.
    pub fn from_vec(items: Vec<T>) -> (v: Self)
        ensures
            v@ == items@.map_values(|x: T| Some(x)),
    {
        let mut values: Vec<Option<T>> = Vec::new();
        let mut i: usize = 0;
        while i < items.len()
            invariant
                i <= items.len(),
                values@ == items@.take(i as int).map_values(|x: T| Some(x)),
            decreases items.len() - i,
        {
            values.push(Some(items[i]));
            proof {
                assert(items@.take(i + 1).map_values(|x: T| Some(x)) =~= items@.take(
                    i as int,
                ).map_values(|x: T| Some(x)).push(Some(items@[i as int])));
            }
            i += 1;
        }
        proof {
            assert(items@.take(items.len() as int) =~= items@);
        }
        PrimitiveVector { values }
    }

    pub fn len(&self) -> (n: usize)
        ensures
            n == self@.len(),
    {
        self.values.len()
    }

    /// The item at `index`; `None` for a null.
    pub fn get_data(&self, index: usize) -> (item: Option<T>)
        requires
            index < self@.len(),
        ensures
            item == self@[index as int],
    {
        self.values[index]
    }

    /// All items in order.
    pub fn iter_data(&self) -> (items: Vec<Option<T>>)
        ensures
            items@ == self@,
    {
        let mut items: Vec<Option<T>> = Vec::new();
        let mut i: usize = 0;
        while i < self.values.len()
            invariant
                i <= self.values.len(),
                items@ == self.values@.take(i as int),
            decreases self.values.len() - i,
        {
            items.push(self.values[i]);
            proof {
                assert(self.values@.take(i + 1) =~= self.values@.take(i as int).push(
                    self.values@[i as int],
                ));
            }
            i += 1;
        }
        proof {
            assert(self.values@.take(self.values.len() as int) =~= self.values@);
        }
        items
    }

    /// The content of the item at `index` as a value.
    pub open spec fn value_at(self, index: int) -> ValueView {
        match self@[index] {
            Some(x) => x.value_view(),
            None => ValueView::Null,
        }
    }

    /// The item at `index` as a value.
    pub fn get(&self, index: usize) -> (value: Value)
        requires
            index < self@.len(),
        ensures
            value@ == self.value_at(index as int),
    {
        match self.values[index] {
            Some(x) => x.to_value(),
            None => Value::Null,
        }
    }
}

impl<T: Primitive> ConcreteVector for PrimitiveVector<T> {
    open spec fn upcast(self) -> Vector {
        T::wrap(self)
    }

    open spec fn kind_name() -> Seq<char> {
        T::vector_name()
    }

    fn downcast_ref(vector: &Vector) -> (r: Option<&Self>) {
        T::unwrap_ref(vector)
    }

    fn exec_kind_name() -> (name: &'static str) {
        T::exec_vector_name()
    }
}

impl Primitive for bool {
    open spec fn value_view(self) -> ValueView {
        ValueView::Boolean(self)
    }

    open spec fn column_type() -> ConcreteDataType {
        ConcreteDataType::Boolean(BooleanType)
    }

    open spec fn vector_name() -> Seq<char> {
        "BooleanVector"@
    }

    open spec fn wrap(vector: PrimitiveVector<bool>) -> Vector {
        Vector::Boolean(vector)
    }

    fn to_value(self) -> (value: Value) {
        Value::Boolean(self)
    }

    fn unwrap_ref(vector: &Vector) -> (r: Option<&PrimitiveVector<bool>>) {
        match vector {
            Vector::Boolean(v) => Some(v),
            _ => None,
        }
    }

    fn exec_vector_name() -> (name: &'static str) {
        "BooleanVector"
    }

    fn exec_builder_name() -> (name: &'static str) {
        proof {
            reveal_strlit("BooleanVectorBuilder");
            reveal_strlit("BooleanVector");
            reveal_strlit("Builder");
            assert("BooleanVectorBuilder"@ =~= "BooleanVector"@ + "Builder"@);
        }
        "BooleanVectorBuilder"
    }

    open spec fn wrap_builder(builder: PrimitiveVectorBuilder<bool>) -> MutableVector {
        MutableVector::Boolean(builder)
    }

    fn unwrap_builder_mut(vector: &mut MutableVector) -> (r: Option<
        &mut PrimitiveVectorBuilder<bool>,
    >) {
        match vector {
            MutableVector::Boolean(b) => Some(b),
            _ => None,
        }
    }
}

pub type BooleanVectorBuilder = PrimitiveVectorBuilder<bool>;

impl Scalar for bool {
    type VectorType = PrimitiveVector<bool>;
}

pub type BooleanVector = PrimitiveVector<bool>;

impl Primitive for i8 {
    open spec fn value_view(self) -> ValueView {
        ValueView::Int8(self)
    }

    open spec fn column_type() -> ConcreteDataType {
        ConcreteDataType::Int8(Int8Type)
    }

    open spec fn vector_name() -> Seq<char> {
        "Int8Vector"@
    }

    open spec fn wrap(vector: PrimitiveVector<i8>) -> Vector {
        Vector::Int8(vector)
    }

    fn to_value(self) -> (value: Value) {
        Value::Int8(self)
    }

    fn unwrap_ref(vector: &Vector) -> (r: Option<&PrimitiveVector<i8>>) {
        match vector {
            Vector::Int8(v) => Some(v),
            _ => None,
        }
    }

    fn exec_vector_name() -> (name: &'static str) {
        "Int8Vector"
    }

    fn exec_builder_name() -> (name: &'static str) {
        proof {
            reveal_strlit("Int8VectorBuilder");
            reveal_strlit("Int8Vector");
            reveal_strlit("Builder");
            assert("Int8VectorBuilder"@ =~= "Int8Vector"@ + "Builder"@);
        }
        "Int8VectorBuilder"
    }

    open spec fn wrap_builder(builder: PrimitiveVectorBuilder<i8>) -> MutableVector {
        MutableVector::Int8(builder)
    }

    fn unwrap_builder_mut(vector: &mut MutableVector) -> (r: Option<
        &mut PrimitiveVectorBuilder<i8>,
    >) {
        match vector {
            MutableVector::Int8(b) => Some(b),
            _ => None,
        }
    }
}

pub type Int8VectorBuilder = PrimitiveVectorBuilder<i8>;

impl Scalar for i8 {
    type VectorType = PrimitiveVector<i8>;
}

pub type Int8Vector = PrimitiveVector<i8>;

impl Primitive for i16 {
    open spec fn value_view(self) -> ValueView {
        ValueView::Int16(self)
    }

    open spec fn column_type() -> ConcreteDataType {
        ConcreteDataType::Int16(Int16Type)
    }

    open spec fn vector_name() -> Seq<char> {
        "Int16Vector"@
    }

    open spec fn wrap(vector: PrimitiveVector<i16>) -> Vector {
        Vector::Int16(vector)
    }

    fn to_value(self) -> (value: Value) {
        Value::Int16(self)
    }

    fn unwrap_ref(vector: &Vector) -> (r: Option<&PrimitiveVector<i16>>) {
        match vector {
            Vector::Int16(v) => Some(v),
            _ => None,
        }
    }

    fn exec_vector_name() -> (name: &'static str) {
        "Int16Vector"
    }

    fn exec_builder_name() -> (name: &'static str) {
        proof {
            reveal_strlit("Int16VectorBuilder");
            reveal_strlit("Int16Vector");
            reveal_strlit("Builder");
            assert("Int16VectorBuilder"@ =~= "Int16Vector"@ + "Builder"@);
        }
        "Int16VectorBuilder"
    }

    open spec fn wrap_builder(builder: PrimitiveVectorBuilder<i16>) -> MutableVector {
        MutableVector::Int16(builder)
    }

    fn unwrap_builder_mut(vector: &mut MutableVector) -> (r: Option<
        &mut PrimitiveVectorBuilder<i16>,
    >) {
        match vector {
            MutableVector::Int16(b) => Some(b),
            _ => None,
        }
    }
}

pub type Int16VectorBuilder = PrimitiveVectorBuilder<i16>;

impl Scalar for i16 {
    type VectorType = PrimitiveVector<i16>;
}

pub type Int16Vector = PrimitiveVector<i16>;

impl Primitive for i32 {
    open spec fn value_view(self) -> ValueView {
        ValueView::Int32(self)
    }

    open spec fn column_type() -> ConcreteDataType {
        ConcreteDataType::Int32(Int32Type)
    }

    open spec fn vector_name() -> Seq<char> {
        "Int32Vector"@
    }

    open spec fn wrap(vector: PrimitiveVector<i32>) -> Vector {
        Vector::Int32(vector)
    }

    fn to_value(self) -> (value: Value) {
        Value::Int32(self)
    }

    fn unwrap_ref(vector: &Vector) -> (r: Option<&PrimitiveVector<i32>>) {
        match vector {
            Vector::Int32(v) => Some(v),
            _ => None,
        }
    }

    fn exec_vector_name() -> (name: &'static str) {
        "Int32Vector"
    }

    fn exec_builder_name() -> (name: &'static str) {
        proof {
            reveal_strlit("Int32VectorBuilder");
            reveal_strlit("Int32Vector");
            reveal_strlit("Builder");
            assert("Int32VectorBuilder"@ =~= "Int32Vector"@ + "Builder"@);
        }
        "Int32VectorBuilder"
    }

    open spec fn wrap_builder(builder: PrimitiveVectorBuilder<i32>) -> MutableVector {
        MutableVector::Int32(builder)
    }

    fn unwrap_builder_mut(vector: &mut MutableVector) -> (r: Option<
        &mut PrimitiveVectorBuilder<i32>,
    >) {
        match vector {
            MutableVector::Int32(b) => Some(b),
            _ => None,
        }
    }
}

pub type Int32VectorBuilder = PrimitiveVectorBuilder<i32>;

impl Scalar for i32 {
    type VectorType = PrimitiveVector<i32>;
}

pub type Int32Vector = PrimitiveVector<i32>;

impl Primitive for i64 {
    open spec fn value_view(self) -> ValueView {
        ValueView::Int64(self)
    }

    open spec fn column_type() -> ConcreteDataType {
        ConcreteDataType::Int64(Int64Type)
    }

    open spec fn vector_name() -> Seq<char> {
        "Int64Vector"@
    }

    open spec fn wrap(vector: PrimitiveVector<i64>) -> Vector {
        Vector::Int64(vector)
    }

    fn to_value(self) -> (value: Value) {
        Value::Int64(self)
    }

    fn unwrap_ref(vector: &Vector) -> (r: Option<&PrimitiveVector<i64>>) {
        match vector {
            Vector::Int64(v) => Some(v),
            _ => None,
        }
    }

    fn exec_vector_name() -> (name: &'static str) {
        "Int64Vector"
    }

    fn exec_builder_name() -> (name: &'static str) {
        proof {
            reveal_strlit("Int64VectorBuilder");
            reveal_strlit("Int64Vector");
            reveal_strlit("Builder");
            assert("Int64VectorBuilder"@ =~= "Int64Vector"@ + "Builder"@);
        }
        "Int64VectorBuilder"
    }

    open spec fn wrap_builder(builder: PrimitiveVectorBuilder<i64>) -> MutableVector {
        MutableVector::Int64(builder)
    }

    fn unwrap_builder_mut(vector: &mut MutableVector) -> (r: Option<
        &mut PrimitiveVectorBuilder<i64>,
    >) {
        match vector {
            MutableVector::Int64(b) => Some(b),
            _ => None,
        }
    }
}

pub type Int64VectorBuilder = PrimitiveVectorBuilder<i64>;

impl Scalar for i64 {
    type VectorType = PrimitiveVector<i64>;
}

pub type Int64Vector = PrimitiveVector<i64>;

impl Primitive for u8 {
    open spec fn value_view(self) -> ValueView {
        ValueView::UInt8(self)
    }

    open spec fn column_type() -> ConcreteDataType {
        ConcreteDataType::UInt8(UInt8Type)
    }

    open spec fn vector_name() -> Seq<char> {
        "UInt8Vector"@
    }

    open spec fn wrap(vector: PrimitiveVector<u8>) -> Vector {
        Vector::UInt8(vector)
    }

    fn to_value(self) -> (value: Value) {
        Value::UInt8(self)
    }

    fn unwrap_ref(vector: &Vector) -> (r: Option<&PrimitiveVector<u8>>) {
        match vector {
            Vector::UInt8(v) => Some(v),
            _ => None,
        }
    }

    fn exec_vector_name() -> (name: &'static str) {
        "UInt8Vector"
    }

    fn exec_builder_name() -> (name: &'static str) {
        proof {
            reveal_strlit("UInt8VectorBuilder");
            reveal_strlit("UInt8Vector");
            reveal_strlit("Builder");
            assert("UInt8VectorBuilder"@ =~= "UInt8Vector"@ + "Builder"@);
        }
        "UInt8VectorBuilder"
    }

    open spec fn wrap_builder(builder: PrimitiveVectorBuilder<u8>) -> MutableVector {
        MutableVector::UInt8(builder)
    }

    fn unwrap_builder_mut(vector: &mut MutableVector) -> (r: Option<
        &mut PrimitiveVectorBuilder<u8>,
    >) {
        match vector {
            MutableVector::UInt8(b) => Some(b),
            _ => None,
        }
    }
}

pub type UInt8VectorBuilder = PrimitiveVectorBuilder<u8>;

impl Scalar for u8 {
    type VectorType = PrimitiveVector<u8>;
}

pub type UInt8Vector = PrimitiveVector<u8>;

impl Primitive for u16 {
    open spec fn value_view(self) -> ValueView {
        ValueView::UInt16(self)
    }

    open spec fn column_type() -> ConcreteDataType {
        ConcreteDataType::UInt16(UInt16Type)
    }

    open spec fn vector_name() -> Seq<char> {
        "UInt16Vector"@
    }

    open spec fn wrap(vector: PrimitiveVector<u16>) -> Vector {
        Vector::UInt16(vector)
    }

    fn to_value(self) -> (value: Value) {
        Value::UInt16(self)
    }

    fn unwrap_ref(vector: &Vector) -> (r: Option<&PrimitiveVector<u16>>) {
        match vector {
            Vector::UInt16(v) => Some(v),
            _ => None,
        }
    }

    fn exec_vector_name() -> (name: &'static str) {
        "UInt16Vector"
    }

    fn exec_builder_name() -> (name: &'static str) {
        proof {
            reveal_strlit("UInt16VectorBuilder");
            reveal_strlit("UInt16Vector");
            reveal_strlit("Builder");
            assert("UInt16VectorBuilder"@ =~= "UInt16Vector"@ + "Builder"@);
        }
        "UInt16VectorBuilder"
    }

    open spec fn wrap_builder(builder: PrimitiveVectorBuilder<u16>) -> MutableVector {
        MutableVector::UInt16(builder)
    }

    fn unwrap_builder_mut(vector: &mut MutableVector) -> (r: Option<
        &mut PrimitiveVectorBuilder<u16>,
    >) {
        match vector {
            MutableVector::UInt16(b) => Some(b),
            _ => None,
        }
    }
}

pub type UInt16VectorBuilder = PrimitiveVectorBuilder<u16>;

impl Scalar for u16 {
    type VectorType = PrimitiveVector<u16>;
}

pub type UInt16Vector = PrimitiveVector<u16>;

impl Primitive for u32 {
    open spec fn value_view(self) -> ValueView {
        ValueView::UInt32(self)
    }

    open spec fn column_type() -> ConcreteDataType {
        ConcreteDataType::UInt32(UInt32Type)
    }

    open spec fn vector_name() -> Seq<char> {
        "UInt32Vector"@
    }

    open spec fn wrap(vector: PrimitiveVector<u32>) -> Vector {
        Vector::UInt32(vector)
    }

    fn to_value(self) -> (value: Value) {
        Value::UInt32(self)
    }

    fn unwrap_ref(vector: &Vector) -> (r: Option<&PrimitiveVector<u32>>) {
        match vector {
            Vector::UInt32(v) => Some(v),
            _ => None,
        }
    }

    fn exec_vector_name() -> (name: &'static str) {
        "UInt32Vector"
    }

    fn exec_builder_name() -> (name: &'static str) {
        proof {
            reveal_strlit("UInt32VectorBuilder");
            reveal_strlit("UInt32Vector");
            reveal_strlit("Builder");
            assert("UInt32VectorBuilder"@ =~= "UInt32Vector"@ + "Builder"@);
        }
        "UInt32VectorBuilder"
    }

    open spec fn wrap_builder(builder: PrimitiveVectorBuilder<u32>) -> MutableVector {
        MutableVector::UInt32(builder)
    }

    fn unwrap_builder_mut(vector: &mut MutableVector) -> (r: Option<
        &mut PrimitiveVectorBuilder<u32>,
    >) {
        match vector {
            MutableVector::UInt32(b) => Some(b),
            _ => None,
        }
    }
}

pub type UInt32VectorBuilder = PrimitiveVectorBuilder<u32>;

impl Scalar for u32 {
    type VectorType = PrimitiveVector<u32>;
}

pub type UInt32Vector = PrimitiveVector<u32>;

impl Primitive for u64 {
    open spec fn value_view(self) -> ValueView {
        ValueView::UInt64(self)
    }

    open spec fn column_type() -> ConcreteDataType {
        ConcreteDataType::UInt64(UInt64Type)
    }

    open spec fn vector_name() -> Seq<char> {
        "UInt64Vector"@
    }

    open spec fn wrap(vector: PrimitiveVector<u64>) -> Vector {
        Vector::UInt64(vector)
    }

    fn to_value(self) -> (value: Value) {
        Value::UInt64(self)
    }

    fn unwrap_ref(vector: &Vector) -> (r: Option<&PrimitiveVector<u64>>) {
        match vector {
            Vector::UInt64(v) => Some(v),
            _ => None,
        }
    }

    fn exec_vector_name() -> (name: &'static str) {
        "UInt64Vector"
    }

    fn exec_builder_name() -> (name: &'static str) {
        proof {
            reveal_strlit("UInt64VectorBuilder");
            reveal_strlit("UInt64Vector");
            reveal_strlit("Builder");
            assert("UInt64VectorBuilder"@ =~= "UInt64Vector"@ + "Builder"@);
        }
        "UInt64VectorBuilder"
    }

    open spec fn wrap_builder(builder: PrimitiveVectorBuilder<u64>) -> MutableVector {
        MutableVector::UInt64(builder)
    }

    fn unwrap_builder_mut(vector: &mut MutableVector) -> (r: Option<
        &mut PrimitiveVectorBuilder<u64>,
    >) {
        match vector {
            MutableVector::UInt64(b) => Some(b),
            _ => None,
        }
    }
}

pub type UInt64VectorBuilder = PrimitiveVectorBuilder<u64>;

impl Scalar for u64 {
    type VectorType = PrimitiveVector<u64>;
}

pub type UInt64Vector = PrimitiveVector<u64>;

impl Primitive for Float32Bits {
    open spec fn value_view(self) -> ValueView {
        ValueView::Float32(self.0)
    }

    open spec fn column_type() -> ConcreteDataType {
        ConcreteDataType::Float32(Float32Type)
    }

    open spec fn vector_name() -> Seq<char> {
        "Float32Vector"@
    }

    open spec fn wrap(vector: PrimitiveVector<Float32Bits>) -> Vector {
        Vector::Float32(vector)
    }

    fn to_value(self) -> (value: Value) {
        Value::Float32(self.0)
    }

    fn unwrap_ref(vector: &Vector) -> (r: Option<&PrimitiveVector<Float32Bits>>) {
        match vector {
            Vector::Float32(v) => Some(v),
            _ => None,
        }
    }

    fn exec_vector_name() -> (name: &'static str) {
        "Float32Vector"
    }

    fn exec_builder_name() -> (name: &'static str) {
        proof {
            reveal_strlit("Float32VectorBuilder");
            reveal_strlit("Float32Vector");
            reveal_strlit("Builder");
            assert("Float32VectorBuilder"@ =~= "Float32Vector"@ + "Builder"@);
        }
        "Float32VectorBuilder"
    }

    open spec fn wrap_builder(builder: PrimitiveVectorBuilder<Float32Bits>) -> MutableVector {
        MutableVector::Float32(builder)
    }

    fn unwrap_builder_mut(vector: &mut MutableVector) -> (r: Option<
        &mut PrimitiveVectorBuilder<Float32Bits>,
    >) {
        match vector {
            MutableVector::Float32(b) => Some(b),
            _ => None,
        }
    }
}

pub type Float32VectorBuilder = PrimitiveVectorBuilder<Float32Bits>;

impl Scalar for Float32Bits {
    type VectorType = PrimitiveVector<Float32Bits>;
}

pub type Float32Vector = PrimitiveVector<Float32Bits>;

impl Primitive for Float64Bits {
    open spec fn value_view(self) -> ValueView {
        ValueView::Float64(self.0)
    }

    open spec fn column_type() -> ConcreteDataType {
        ConcreteDataType::Float64(Float64Type)
    }

    open spec fn vector_name() -> Seq<char> {
        "Float64Vector"@
    }

    open spec fn wrap(vector: PrimitiveVector<Float64Bits>) -> Vector {
        Vector::Float64(vector)
    }

    fn to_value(self) -> (value: Value) {
        Value::Float64(self.0)
    }

    fn unwrap_ref(vector: &Vector) -> (r: Option<&PrimitiveVector<Float64Bits>>) {
        match vector {
            Vector::Float64(v) => Some(v),
            _ => None,
        }
    }

    fn exec_vector_name() -> (name: &'static str) {
        "Float64Vector"
    }

    fn exec_builder_name() -> (name: &'static str) {
        proof {
            reveal_strlit("Float64VectorBuilder");
            reveal_strlit("Float64Vector");
            reveal_strlit("Builder");
            assert("Float64VectorBuilder"@ =~= "Float64Vector"@ + "Builder"@);
        }
        "Float64VectorBuilder"
    }

    open spec fn wrap_builder(builder: PrimitiveVectorBuilder<Float64Bits>) -> MutableVector {
        MutableVector::Float64(builder)
    }

    fn unwrap_builder_mut(vector: &mut MutableVector) -> (r: Option<
        &mut PrimitiveVectorBuilder<Float64Bits>,
    >) {
        match vector {
            MutableVector::Float64(b) => Some(b),
            _ => None,
        }
    }
}

pub type Float64VectorBuilder = PrimitiveVectorBuilder<Float64Bits>;

impl Scalar for Float64Bits {
    type VectorType = PrimitiveVector<Float64Bits>;
}

pub type Float64Vector = PrimitiveVector<Float64Bits>;

impl Primitive for Date {
    open spec fn value_view(self) -> ValueView {
        ValueView::Date(self.0)
    }

    open spec fn column_type() -> ConcreteDataType {
        ConcreteDataType::Date(DateType)
    }

    open spec fn vector_name() -> Seq<char> {
        "DateVector"@
    }

    open spec fn wrap(vector: PrimitiveVector<Date>) -> Vector {
        Vector::Date(vector)
    }

    fn to_value(self) -> (value: Value) {
        Value::Date(self.0)
    }

    fn unwrap_ref(vector: &Vector) -> (r: Option<&PrimitiveVector<Date>>) {
        match vector {
            Vector::Date(v) => Some(v),
            _ => None,
        }
    }

    fn exec_vector_name() -> (name: &'static str) {
        "DateVector"
    }

    fn exec_builder_name() -> (name: &'static str) {
        proof {
            reveal_strlit("DateVectorBuilder");
            reveal_strlit("DateVector");
            reveal_strlit("Builder");
            assert("DateVectorBuilder"@ =~= "DateVector"@ + "Builder"@);
        }
        "DateVectorBuilder"
    }

    open spec fn wrap_builder(builder: PrimitiveVectorBuilder<Date>) -> MutableVector {
        MutableVector::Date(builder)
    }

    fn unwrap_builder_mut(vector: &mut MutableVector) -> (r: Option<
        &mut PrimitiveVectorBuilder<Date>,
    >) {
        match vector {
            MutableVector::Date(b) => Some(b),
            _ => None,
        }
    }
}

pub type DateVectorBuilder = PrimitiveVectorBuilder<Date>;

impl Scalar for Date {
    type VectorType = PrimitiveVector<Date>;
}

pub type DateVector = PrimitiveVector<Date>;

impl Primitive for DateTime {
    open spec fn value_view(self) -> ValueView {
        ValueView::DateTime(self.0)
    }

    open spec fn column_type() -> ConcreteDataType {
        ConcreteDataType::DateTime(DateTimeType)
    }

    open spec fn vector_name() -> Seq<char> {
        "DateTimeVector"@
    }

    open spec fn wrap(vector: PrimitiveVector<DateTime>) -> Vector {
        Vector::DateTime(vector)
    }

    fn to_value(self) -> (value: Value) {
        Value::DateTime(self.0)
    }

    fn unwrap_ref(vector: &Vector) -> (r: Option<&PrimitiveVector<DateTime>>) {
        match vector {
            Vector::DateTime(v) => Some(v),
            _ => None,
        }
    }

    fn exec_vector_name() -> (name: &'static str) {
        "DateTimeVector"
    }

    fn exec_builder_name() -> (name: &'static str) {
        proof {
            reveal_strlit("DateTimeVectorBuilder");
            reveal_strlit("DateTimeVector");
            reveal_strlit("Builder");
            assert("DateTimeVectorBuilder"@ =~= "DateTimeVector"@ + "Builder"@);
        }
        "DateTimeVectorBuilder"
    }

    open spec fn wrap_builder(builder: PrimitiveVectorBuilder<DateTime>) -> MutableVector {
        MutableVector::DateTime(builder)
    }

    fn unwrap_builder_mut(vector: &mut MutableVector) -> (r: Option<
        &mut PrimitiveVectorBuilder<DateTime>,
    >) {
        match vector {
            MutableVector::DateTime(b) => Some(b),
            _ => None,
        }
    }
}

pub type DateTimeVectorBuilder = PrimitiveVectorBuilder<DateTime>;

impl Scalar for DateTime {
    type VectorType = PrimitiveVector<DateTime>;
}

pub type DateTimeVector = PrimitiveVector<DateTime>;

impl Primitive for TimestampSecond {
    open spec fn value_view(self) -> ValueView {
        ValueView::Timestamp(Timestamp { value: self.0, unit: TimeUnit::Second })
    }

    open spec fn column_type() -> ConcreteDataType {
        ConcreteDataType::Timestamp(TimeUnit::Second)
    }

    open spec fn vector_name() -> Seq<char> {
        "TimestampSecondVector"@
    }

    open spec fn wrap(vector: PrimitiveVector<TimestampSecond>) -> Vector {
        Vector::TimestampSecond(vector)
    }

    fn to_value(self) -> (value: Value) {
        Value::Timestamp(Timestamp { value: self.0, unit: TimeUnit::Second })
    }

    fn unwrap_ref(vector: &Vector) -> (r: Option<&PrimitiveVector<TimestampSecond>>) {
        match vector {
            Vector::TimestampSecond(v) => Some(v),
            _ => None,
        }
    }

    fn exec_vector_name() -> (name: &'static str) {
        "TimestampSecondVector"
    }

    fn exec_builder_name() -> (name: &'static str) {
        proof {
            reveal_strlit("TimestampSecondVectorBuilder");
            reveal_strlit("TimestampSecondVector");
            reveal_strlit("Builder");
            assert("TimestampSecondVectorBuilder"@ =~= "TimestampSecondVector"@ + "Builder"@);
        }
        "TimestampSecondVectorBuilder"
    }

    open spec fn wrap_builder(builder: PrimitiveVectorBuilder<TimestampSecond>) -> MutableVector {
        MutableVector::TimestampSecond(builder)
    }

    fn unwrap_builder_mut(vector: &mut MutableVector) -> (r: Option<
        &mut PrimitiveVectorBuilder<TimestampSecond>,
    >) {
        match vector {
            MutableVector::TimestampSecond(b) => Some(b),
            _ => None,
        }
    }
}

pub type TimestampSecondVectorBuilder = PrimitiveVectorBuilder<TimestampSecond>;

impl Scalar for TimestampSecond {
    type VectorType = PrimitiveVector<TimestampSecond>;
}

pub type TimestampSecondVector = PrimitiveVector<TimestampSecond>;

impl Primitive for TimestampMillisecond {
    open spec fn value_view(self) -> ValueView {
        ValueView::Timestamp(Timestamp { value: self.0, unit: TimeUnit::Millisecond })
    }

    open spec fn column_type() -> ConcreteDataType {
        ConcreteDataType::Timestamp(TimeUnit::Millisecond)
    }

    open spec fn vector_name() -> Seq<char> {
        "TimestampMillisecondVector"@
    }

    open spec fn wrap(vector: PrimitiveVector<TimestampMillisecond>) -> Vector {
        Vector::TimestampMillisecond(vector)
    }

    fn to_value(self) -> (value: Value) {
        Value::Timestamp(Timestamp { value: self.0, unit: TimeUnit::Millisecond })
    }

    fn unwrap_ref(vector: &Vector) -> (r: Option<&PrimitiveVector<TimestampMillisecond>>) {
        match vector {
            Vector::TimestampMillisecond(v) => Some(v),
            _ => None,
        }
    }

    fn exec_vector_name() -> (name: &'static str) {
        "TimestampMillisecondVector"
    }

    fn exec_builder_name() -> (name: &'static str) {
        proof {
            reveal_strlit("TimestampMillisecondVectorBuilder");
            reveal_strlit("TimestampMillisecondVector");
            reveal_strlit("Builder");
            assert("TimestampMillisecondVectorBuilder"@ =~= "TimestampMillisecondVector"@ + "Builder"@);
        }
        "TimestampMillisecondVectorBuilder"
    }

    open spec fn wrap_builder(builder: PrimitiveVectorBuilder<TimestampMillisecond>) -> MutableVector {
        MutableVector::TimestampMillisecond(builder)
    }

    fn unwrap_builder_mut(vector: &mut MutableVector) -> (r: Option<
        &mut PrimitiveVectorBuilder<TimestampMillisecond>,
    >) {
        match vector {
            MutableVector::TimestampMillisecond(b) => Some(b),
            _ => None,
        }
    }
}

pub type TimestampMillisecondVectorBuilder = PrimitiveVectorBuilder<TimestampMillisecond>;

impl Scalar for TimestampMillisecond {
    type VectorType = PrimitiveVector<TimestampMillisecond>;
}

pub type TimestampMillisecondVector = PrimitiveVector<TimestampMillisecond>;

impl Primitive for TimestampMicrosecond {
    open spec fn value_view(self) -> ValueView {
        ValueView::Timestamp(Timestamp { value: self.0, unit: TimeUnit::Microsecond })
    }

    open spec fn column_type() -> ConcreteDataType {
        ConcreteDataType::Timestamp(TimeUnit::Microsecond)
    }

    open spec fn vector_name() -> Seq<char> {
        "TimestampMicrosecondVector"@
    }

    open spec fn wrap(vector: PrimitiveVector<TimestampMicrosecond>) -> Vector {
        Vector::TimestampMicrosecond(vector)
    }

    fn to_value(self) -> (value: Value) {
        Value::Timestamp(Timestamp { value: self.0, unit: TimeUnit::Microsecond })
    }

    fn unwrap_ref(vector: &Vector) -> (r: Option<&PrimitiveVector<TimestampMicrosecond>>) {
        match vector {
            Vector::TimestampMicrosecond(v) => Some(v),
            _ => None,
        }
    }

    fn exec_vector_name() -> (name: &'static str) {
        "TimestampMicrosecondVector"
    }

    fn exec_builder_name() -> (name: &'static str) {
        proof {
            reveal_strlit("TimestampMicrosecondVectorBuilder");
            reveal_strlit("TimestampMicrosecondVector");
            reveal_strlit("Builder");
            assert("TimestampMicrosecondVectorBuilder"@ =~= "TimestampMicrosecondVector"@ + "Builder"@);
        }
        "TimestampMicrosecondVectorBuilder"
    }

    open spec fn wrap_builder(builder: PrimitiveVectorBuilder<TimestampMicrosecond>) -> MutableVector {
        MutableVector::TimestampMicrosecond(builder)
    }

    fn unwrap_builder_mut(vector: &mut MutableVector) -> (r: Option<
        &mut PrimitiveVectorBuilder<TimestampMicrosecond>,
    >) {
        match vector {
            MutableVector::TimestampMicrosecond(b) => Some(b),
            _ => None,
        }
    }
}

pub type TimestampMicrosecondVectorBuilder = PrimitiveVectorBuilder<TimestampMicrosecond>;

impl Scalar for TimestampMicrosecond {
    type VectorType = PrimitiveVector<TimestampMicrosecond>;
}

pub type TimestampMicrosecondVector = PrimitiveVector<TimestampMicrosecond>;

impl Primitive for TimestampNanosecond {
    open spec fn value_view(self) -> ValueView {
        ValueView::Timestamp(Timestamp { value: self.0, unit: TimeUnit::Nanosecond })
    }

    open spec fn column_type() -> ConcreteDataType {
        ConcreteDataType::Timestamp(TimeUnit::Nanosecond)
    }

    open spec fn vector_name() -> Seq<char> {
        "TimestampNanosecondVector"@
    }

    open spec fn wrap(vector: PrimitiveVector<TimestampNanosecond>) -> Vector {
        Vector::TimestampNanosecond(vector)
    }

    fn to_value(self) -> (value: Value) {
        Value::Timestamp(Timestamp { value: self.0, unit: TimeUnit::Nanosecond })
    }

    fn unwrap_ref(vector: &Vector) -> (r: Option<&PrimitiveVector<TimestampNanosecond>>) {
        match vector {
            Vector::TimestampNanosecond(v) => Some(v),
            _ => None,
        }
    }

    fn exec_vector_name() -> (name: &'static str) {
        "TimestampNanosecondVector"
    }

    fn exec_builder_name() -> (name: &'static str) {
        proof {
            reveal_strlit("TimestampNanosecondVectorBuilder");
            reveal_strlit("TimestampNanosecondVector");
            reveal_strlit("Builder");
            assert("TimestampNanosecondVectorBuilder"@ =~= "TimestampNanosecondVector"@ + "Builder"@);
        }
        "TimestampNanosecondVectorBuilder"
    }

    open spec fn wrap_builder(builder: PrimitiveVectorBuilder<TimestampNanosecond>) -> MutableVector {
        MutableVector::TimestampNanosecond(builder)
    }

    fn unwrap_builder_mut(vector: &mut MutableVector) -> (r: Option<
        &mut PrimitiveVectorBuilder<TimestampNanosecond>,
    >) {
        match vector {
            MutableVector::TimestampNanosecond(b) => Some(b),
            _ => None,
        }
    }
}

pub type TimestampNanosecondVectorBuilder = PrimitiveVectorBuilder<TimestampNanosecond>;

impl Scalar for TimestampNanosecond {
    type VectorType = PrimitiveVector<TimestampNanosecond>;
}

pub type TimestampNanosecondVector = PrimitiveVector<TimestampNanosecond>;

/// A vector that holds nothing but nulls.
#[derive(Clone, Debug, PartialEq, Eq)]
pub struct NullVector {
    pub length: usize,
}

impl View for NullVector {
    type V = Seq<()>;

    open spec fn view(&self) -> Seq<()> {
        Seq::new(self.length as nat, |i: int| ())
    }
}

impl NullVector {
    pub fn new(length: usize) -> (v: NullVector)
        ensures
            v.length == length,
    {
        NullVector { length }
    }

    pub fn len(&self) -> (n: usize)
        ensures
            n == self@.len(),
    {
        self.length
    }
}

impl ConcreteVector for NullVector {
    open spec fn upcast(self) -> Vector {
        Vector::Null(self)
    }

    open spec fn kind_name() -> Seq<char> {
        "NullVector"@
    }

    fn downcast_ref(vector: &Vector) -> (r: Option<&NullVector>) {
        match vector {
            Vector::Null(v) => Some(v),
            _ => None,
        }
    }

    fn exec_kind_name() -> (name: &'static str) {
        "NullVector"
    }
}

/// A vector of strings; `None` is a null.
#[derive(Clone, Debug, PartialEq, Eq)]
pub struct StringVector {
    pub values: Vec<Option<String>>,
}

impl View for StringVector {
    type V = Seq<Option<Seq<char>>>;

    open spec fn view(&self) -> Seq<Option<Seq<char>>> {
        self.values@.map_values(
            |item: Option<String>|
                match item {
                    Some(s) => Some(s@),
                    None => None,
                },
        )
    }
}

impl StringVector {
    /// The vector of the given items, nulls included.
    pub fn from_values(values: Vec<Option<String>>) -> (v: StringVector)
        ensures
            v.values == values,
    {
        StringVector { values }
    }

    /// The vector of the given items, none of them null.
    pub fn from_vec(items: Vec<String>) -> (v: StringVector)
        ensures
            v@ == items@.map_values(|s: String| Some(s@)),
    {
        let mut values: Vec<Option<String>> = Vec::new();
        let mut i: usize = 0;
        while i < items.len()
            invariant
                i <= items.len(),
                values@.len() == i,
                forall|j: int|
                    0 <= j < i ==> (#[trigger] values@[j]) is Some && values@[j].unwrap()@
                        == items@[j]@,
            decreases items.len() - i,
        {
            values.push(Some(items[i].clone()));
            i += 1;
        }
        let v = StringVector { values };
        proof {
            assert(v@ =~= items@.map_values(|s: String| Some(s@)));
        }
        v
    }

    pub fn len(&self) -> (n: usize)
        ensures
            n == self@.len(),
    {
        self.values.len()
    }

    /// The item at `index`; `None` for a null.
    pub fn get_data(&self, index: usize) -> (item: Option<&str>)
        requires
            index < self@.len(),
        ensures
            match item {
                Some(s) => self@[index as int] == Some(s@),
                None => self@[index as int] is None,
            },
    {
        match &self.values[index] {
            Some(s) => Some(s.as_str()),
            None => None,
        }
    }

    /// The content of the item at `index` as a value.
    pub open spec fn value_at(self, index: int) -> ValueView {
        match self@[index] {
            Some(s) => ValueView::String(s),
            None => ValueView::Null,
        }
    }

    /// The item at `index` as a value.
    pub fn get(&self, index: usize) -> (value: Value)
        requires
            index < self@.len(),
        ensures
            value@ == self.value_at(index as int),
    {
        match &self.values[index] {
            Some(s) => Value::String(s.clone()),
            None => Value::Null,
        }
    }
}

impl ConcreteVector for StringVector {
    open spec fn upcast(self) -> Vector {
        Vector::String(self)
    }

    open spec fn kind_name() -> Seq<char> {
        "StringVector"@
    }

    fn downcast_ref(vector: &Vector) -> (r: Option<&StringVector>) {
        match vector {
            Vector::String(v) => Some(v),
            _ => None,
        }
    }

    fn exec_kind_name() -> (name: &'static str) {
        "StringVector"
    }
}

impl Scalar for String {
    type VectorType = StringVector;
}

/// A vector of byte strings; `None` is a null.
#[derive(Clone, Debug, PartialEq, Eq)]
pub struct BinaryVector {
    pub values: Vec<Option<Vec<u8>>>,
}

impl View for BinaryVector {
    type V = Seq<Option<Seq<u8>>>;

    open spec fn view(&self) -> Seq<Option<Seq<u8>>> {
        self.values@.map_values(
            |item: Option<Vec<u8>>|
                match item {
                    Some(b) => Some(b@),
                    None => None,
                },
        )
    }
}

impl BinaryVector {
    /// The vector of the given items, nulls included.
    pub fn from_values(values: Vec<Option<Vec<u8>>>) -> (v: BinaryVector)
        ensures
            v.values == values,
    {
        BinaryVector { values }
    }

    pub fn len(&self) -> (n: usize)
        ensures
            n == self@.len(),
    {
        self.values.len()
    }

    /// The content of the item at `index` as a value.
    pub open spec fn value_at(self, index: int) -> ValueView {
        match self@[index] {
            Some(b) => ValueView::Binary(b),
            None => ValueView::Null,
        }
    }

    /// The item at `index` as a value.
    pub fn get(&self, index: usize) -> (value: Value)
        requires
            index < self@.len(),
        ensures
            value@ == self.value_at(index as int),
    {
        match &self.values[index] {
            Some(b) => Value::Binary(b.clone()),
            None => Value::Null,
        }
    }
}

impl ConcreteVector for BinaryVector {
    open spec fn upcast(self) -> Vector {
        Vector::Binary(self)
    }

    open spec fn kind_name() -> Seq<char> {
        "BinaryVector"@
    }

    fn downcast_ref(vector: &Vector) -> (r: Option<&BinaryVector>) {
        match vector {
            Vector::Binary(v) => Some(v),
            _ => None,
        }
    }

    fn exec_kind_name() -> (name: &'static str) {
        "BinaryVector"
    }
}

/// A vector of lists whose items have one type; `None` is a null.
#[derive(Clone, Debug, PartialEq, Eq)]
pub struct ListVector {
    pub values: Vec<Option<ListValue>>,
    pub item_type: ConcreteDataType,
}

impl ListVector {
    /// The vector of the given lists, nulls included, whose items have the
    /// type `item_type`.
    pub fn from_values(values: Vec<Option<ListValue>>, item_type: ConcreteDataType) -> (v: ListVector)
        ensures
            v.values == values,
            v.item_type == item_type,
    {
        ListVector { values, item_type }
    }

    pub fn len(&self) -> (n: usize)
        ensures
            n == self.values@.len(),
    {
        self.values.len()
    }

    /// The content of the item at `index` as a value.
    pub open spec fn value_at(self, index: int) -> ValueView {
        match self.values@[index] {
            Some(list) => Value::List(list)@,
            None => ValueView::Null,
        }
    }

    /// The item at `index` as a value.
    pub fn get(&self, index: usize) -> (value: Value)
        requires
            index < self.values@.len(),
        ensures
            value@ == self.value_at(index as int),
    {
        match &self.values[index] {
            Some(list) => Value::List(list.duplicate()),
            None => Value::Null,
        }
    }
}

impl ConcreteVector for ListVector {
    open spec fn upcast(self) -> Vector {
        Vector::List(self)
    }

    open spec fn kind_name() -> Seq<char> {
        "ListVector"@
    }

    fn downcast_ref(vector: &Vector) -> (r: Option<&ListVector>) {
        match vector {
            Vector::List(v) => Some(v),
            _ => None,
        }
    }

    fn exec_kind_name() -> (name: &'static str) {
        "ListVector"
    }
}

/// A vector that repeats one value `length` times.
#[derive(Clone, Debug, PartialEq, Eq)]
pub struct ConstantVector {
    pub value: Value,
    pub data_type: ConcreteDataType,
    pub length: usize,
}

impl ConstantVector {
    /// The vector that holds `value`, of the type `data_type`, `length` times.
    pub fn new(value: Value, data_type: ConcreteDataType, length: usize) -> (v: ConstantVector)
        ensures
            v.value == value,
            v.data_type == data_type,
            v.length == length,
    {
        ConstantVector { value, data_type, length }
    }

    pub fn len(&self) -> (n: usize)
        ensures
            n == self.length,
    {
        self.length
    }
}

impl ConcreteVector for ConstantVector {
    open spec fn upcast(self) -> Vector {
        Vector::Constant(self)
    }

    open spec fn kind_name() -> Seq<char> {
        "ConstantVector"@
    }

    fn downcast_ref(vector: &Vector) -> (r: Option<&ConstantVector>) {
        match vector {
            Vector::Constant(v) => Some(v),
            _ => None,
        }
    }

    fn exec_kind_name() -> (name: &'static str) {
        "ConstantVector"
    }
}

/// A vector of any type.
#[derive(Clone, Debug, PartialEq, Eq)]
pub enum Vector {
    Null(NullVector),
    Boolean(PrimitiveVector<bool>),
    Int8(PrimitiveVector<i8>),
    Int16(PrimitiveVector<i16>),
    Int32(PrimitiveVector<i32>),
    Int64(PrimitiveVector<i64>),
    UInt8(PrimitiveVector<u8>),
    UInt16(PrimitiveVector<u16>),
    UInt32(PrimitiveVector<u32>),
    UInt64(PrimitiveVector<u64>),
    Float32(PrimitiveVector<Float32Bits>),
    Float64(PrimitiveVector<Float64Bits>),
    Date(PrimitiveVector<Date>),
    DateTime(PrimitiveVector<DateTime>),
    TimestampSecond(PrimitiveVector<TimestampSecond>),
    TimestampMillisecond(PrimitiveVector<TimestampMillisecond>),
    TimestampMicrosecond(PrimitiveVector<TimestampMicrosecond>),
    TimestampNanosecond(PrimitiveVector<TimestampNanosecond>),
    String(StringVector),
    Binary(BinaryVector),
    List(ListVector),
    Constant(ConstantVector),
}

/// A vector behind a shared pointer.
pub type VectorRef = Arc<Vector>;

/// A vector of any type of fixed-size items that is being built.
#[derive(Clone, Debug, PartialEq, Eq)]
pub enum MutableVector {
    Boolean(PrimitiveVectorBuilder<bool>),
    Int8(PrimitiveVectorBuilder<i8>),
    Int16(PrimitiveVectorBuilder<i16>),
    Int32(PrimitiveVectorBuilder<i32>),
    Int64(PrimitiveVectorBuilder<i64>),
    UInt8(PrimitiveVectorBuilder<u8>),
    UInt16(PrimitiveVectorBuilder<u16>),
    UInt32(PrimitiveVectorBuilder<u32>),
    UInt64(PrimitiveVectorBuilder<u64>),
    Float32(PrimitiveVectorBuilder<Float32Bits>),
    Float64(PrimitiveVectorBuilder<Float64Bits>),
    Date(PrimitiveVectorBuilder<Date>),
    DateTime(PrimitiveVectorBuilder<DateTime>),
    TimestampSecond(PrimitiveVectorBuilder<TimestampSecond>),
    TimestampMillisecond(PrimitiveVectorBuilder<TimestampMillisecond>),
    TimestampMicrosecond(PrimitiveVectorBuilder<TimestampMicrosecond>),
    TimestampNanosecond(PrimitiveVectorBuilder<TimestampNanosecond>),
}

impl MutableVector {
    pub open spec fn spec_data_type(self) -> ConcreteDataType {
        match self {
            MutableVector::Boolean(_) => ConcreteDataType::Boolean(BooleanType),
            MutableVector::Int8(_) => ConcreteDataType::Int8(Int8Type),
            MutableVector::Int16(_) => ConcreteDataType::Int16(Int16Type),
            MutableVector::Int32(_) => ConcreteDataType::Int32(Int32Type),
            MutableVector::Int64(_) => ConcreteDataType::Int64(Int64Type),
            MutableVector::UInt8(_) => ConcreteDataType::UInt8(UInt8Type),
            MutableVector::UInt16(_) => ConcreteDataType::UInt16(UInt16Type),
            MutableVector::UInt32(_) => ConcreteDataType::UInt32(UInt32Type),
            MutableVector::UInt64(_) => ConcreteDataType::UInt64(UInt64Type),
            MutableVector::Float32(_) => ConcreteDataType::Float32(Float32Type),
            MutableVector::Float64(_) => ConcreteDataType::Float64(Float64Type),
            MutableVector::Date(_) => ConcreteDataType::Date(DateType),
            MutableVector::DateTime(_) => ConcreteDataType::DateTime(DateTimeType),
            MutableVector::TimestampSecond(_) => ConcreteDataType::Timestamp(TimeUnit::Second),
            MutableVector::TimestampMillisecond(_) => ConcreteDataType::Timestamp(TimeUnit::Millisecond),
            MutableVector::TimestampMicrosecond(_) => ConcreteDataType::Timestamp(TimeUnit::Microsecond),
            MutableVector::TimestampNanosecond(_) => ConcreteDataType::Timestamp(TimeUnit::Nanosecond),
        }
    }

    /// The type of the items.
    pub fn data_type(&self) -> (t: ConcreteDataType)
        ensures
            t == self.spec_data_type(),
    {
        match self {
            MutableVector::Boolean(_) => ConcreteDataType::Boolean(BooleanType),
            MutableVector::Int8(_) => ConcreteDataType::Int8(Int8Type),
            MutableVector::Int16(_) => ConcreteDataType::Int16(Int16Type),
            MutableVector::Int32(_) => ConcreteDataType::Int32(Int32Type),
            MutableVector::Int64(_) => ConcreteDataType::Int64(Int64Type),
            MutableVector::UInt8(_) => ConcreteDataType::UInt8(UInt8Type),
            MutableVector::UInt16(_) => ConcreteDataType::UInt16(UInt16Type),
            MutableVector::UInt32(_) => ConcreteDataType::UInt32(UInt32Type),
            MutableVector::UInt64(_) => ConcreteDataType::UInt64(UInt64Type),
            MutableVector::Float32(_) => ConcreteDataType::Float32(Float32Type),
            MutableVector::Float64(_) => ConcreteDataType::Float64(Float64Type),
            MutableVector::Date(_) => ConcreteDataType::Date(DateType),
            MutableVector::DateTime(_) => ConcreteDataType::DateTime(DateTimeType),
            MutableVector::TimestampSecond(_) => ConcreteDataType::Timestamp(TimeUnit::Second),
            MutableVector::TimestampMillisecond(_) => ConcreteDataType::Timestamp(TimeUnit::Millisecond),
            MutableVector::TimestampMicrosecond(_) => ConcreteDataType::Timestamp(TimeUnit::Microsecond),
            MutableVector::TimestampNanosecond(_) => ConcreteDataType::Timestamp(TimeUnit::Nanosecond),
        }
    }

    pub open spec fn spec_len(self) -> nat {
        match self {
            MutableVector::Boolean(b) => b@.len(),
            MutableVector::Int8(b) => b@.len(),
            MutableVector::Int16(b) => b@.len(),
            MutableVector::Int32(b) => b@.len(),
            MutableVector::Int64(b) => b@.len(),
            MutableVector::UInt8(b) => b@.len(),
            MutableVector::UInt16(b) => b@.len(),
            MutableVector::UInt32(b) => b@.len(),
            MutableVector::UInt64(b) => b@.len(),
            MutableVector::Float32(b) => b@.len(),
            MutableVector::Float64(b) => b@.len(),
            MutableVector::Date(b) => b@.len(),
            MutableVector::DateTime(b) => b@.len(),
            MutableVector::TimestampSecond(b) => b@.len(),
            MutableVector::TimestampMillisecond(b) => b@.len(),
            MutableVector::TimestampMicrosecond(b) => b@.len(),
            MutableVector::TimestampNanosecond(b) => b@.len(),
        }
    }

    /// The number of items that were added.
    pub fn len(&self) -> (n: usize)
        ensures
            n == self.spec_len(),
    {
        match self {
            MutableVector::Boolean(b) => b.len(),
            MutableVector::Int8(b) => b.len(),
            MutableVector::Int16(b) => b.len(),
            MutableVector::Int32(b) => b.len(),
            MutableVector::Int64(b) => b.len(),
            MutableVector::UInt8(b) => b.len(),
            MutableVector::UInt16(b) => b.len(),
            MutableVector::UInt32(b) => b.len(),
            MutableVector::UInt64(b) => b.len(),
            MutableVector::Float32(b) => b.len(),
            MutableVector::Float64(b) => b.len(),
            MutableVector::Date(b) => b.len(),
            MutableVector::DateTime(b) => b.len(),
            MutableVector::TimestampSecond(b) => b.len(),
            MutableVector::TimestampMillisecond(b) => b.len(),
            MutableVector::TimestampMicrosecond(b) => b.len(),
            MutableVector::TimestampNanosecond(b) => b.len(),
        }
    }

    /// The vector of the items that were added.
    pub fn to_vector(self) -> (v: Vector)
        ensures
            v.spec_data_type() == self.spec_data_type(),
            v.spec_len() == self.spec_len(),
            forall|i: int| 0 <= i < self.spec_len() ==> v.value_at(i) == self.value_at(i),
    {
        match self {
            MutableVector::Boolean(b) => Vector::Boolean(b.finish()),
            MutableVector::Int8(b) => Vector::Int8(b.finish()),
            MutableVector::Int16(b) => Vector::Int16(b.finish()),
            MutableVector::Int32(b) => Vector::Int32(b.finish()),
            MutableVector::Int64(b) => Vector::Int64(b.finish()),
            MutableVector::UInt8(b) => Vector::UInt8(b.finish()),
            MutableVector::UInt16(b) => Vector::UInt16(b.finish()),
            MutableVector::UInt32(b) => Vector::UInt32(b.finish()),
            MutableVector::UInt64(b) => Vector::UInt64(b.finish()),
            MutableVector::Float32(b) => Vector::Float32(b.finish()),
            MutableVector::Float64(b) => Vector::Float64(b.finish()),
            MutableVector::Date(b) => Vector::Date(b.finish()),
            MutableVector::DateTime(b) => Vector::DateTime(b.finish()),
            MutableVector::TimestampSecond(b) => Vector::TimestampSecond(b.finish()),
            MutableVector::TimestampMillisecond(b) => Vector::TimestampMillisecond(b.finish()),
            MutableVector::TimestampMicrosecond(b) => Vector::TimestampMicrosecond(b.finish()),
            MutableVector::TimestampNanosecond(b) => Vector::TimestampNanosecond(b.finish()),
        }
    }

    /// The content of the item at `index`.
    pub open spec fn value_at(self, index: int) -> ValueView {
        match self {
            MutableVector::Boolean(b) => (PrimitiveVector { values: b.values }).value_at(index),
            MutableVector::Int8(b) => (PrimitiveVector { values: b.values }).value_at(index),
            MutableVector::Int16(b) => (PrimitiveVector { values: b.values }).value_at(index),
            MutableVector::Int32(b) => (PrimitiveVector { values: b.values }).value_at(index),
            MutableVector::Int64(b) => (PrimitiveVector { values: b.values }).value_at(index),
            MutableVector::UInt8(b) => (PrimitiveVector { values: b.values }).value_at(index),
            MutableVector::UInt16(b) => (PrimitiveVector { values: b.values }).value_at(index),
            MutableVector::UInt32(b) => (PrimitiveVector { values: b.values }).value_at(index),
            MutableVector::UInt64(b) => (PrimitiveVector { values: b.values }).value_at(index),
            MutableVector::Float32(b) => (PrimitiveVector { values: b.values }).value_at(index),
            MutableVector::Float64(b) => (PrimitiveVector { values: b.values }).value_at(index),
            MutableVector::Date(b) => (PrimitiveVector { values: b.values }).value_at(index),
            MutableVector::DateTime(b) => (PrimitiveVector { values: b.values }).value_at(index),
            MutableVector::TimestampSecond(b) => (PrimitiveVector { values: b.values }).value_at(index),
            MutableVector::TimestampMillisecond(b) => (PrimitiveVector { values: b.values }).value_at(index),
            MutableVector::TimestampMicrosecond(b) => (PrimitiveVector { values: b.values }).value_at(index),
            MutableVector::TimestampNanosecond(b) => (PrimitiveVector { values: b.values }).value_at(index),
        }
    }
}

impl Vector {
    pub open spec fn spec_len(self) -> nat {
        match self {
            Vector::Null(v) => v.length as nat,
            Vector::Constant(v) => v.length as nat,
            Vector::Boolean(v) => v@.len(),
            Vector::Int8(v) => v@.len(),
            Vector::Int16(v) => v@.len(),
            Vector::Int32(v) => v@.len(),
            Vector::Int64(v) => v@.len(),
            Vector::UInt8(v) => v@.len(),
            Vector::UInt16(v) => v@.len(),
            Vector::UInt32(v) => v@.len(),
            Vector::UInt64(v) => v@.len(),
            Vector::Float32(v) => v@.len(),
            Vector::Float64(v) => v@.len(),
            Vector::Date(v) => v@.len(),
            Vector::DateTime(v) => v@.len(),
            Vector::TimestampSecond(v) => v@.len(),
            Vector::TimestampMillisecond(v) => v@.len(),
            Vector::TimestampMicrosecond(v) => v@.len(),
            Vector::TimestampNanosecond(v) => v@.len(),
            Vector::String(v) => v@.len(),
            Vector::Binary(v) => v@.len(),
            Vector::List(v) => v.values@.len(),
        }
    }

    /// The number of items.
    pub fn len(&self) -> (n: usize)
        ensures
            n == self.spec_len(),
    {
        match self {
            Vector::Null(v) => v.len(),
            Vector::Boolean(v) => v.len(),
            Vector::Int8(v) => v.len(),
            Vector::Int16(v) => v.len(),
            Vector::Int32(v) => v.len(),
            Vector::Int64(v) => v.len(),
            Vector::UInt8(v) => v.len(),
            Vector::UInt16(v) => v.len(),
            Vector::UInt32(v) => v.len(),
            Vector::UInt64(v) => v.len(),
            Vector::Float32(v) => v.len(),
            Vector::Float64(v) => v.len(),
            Vector::Date(v) => v.len(),
            Vector::DateTime(v) => v.len(),
            Vector::TimestampSecond(v) => v.len(),
            Vector::TimestampMillisecond(v) => v.len(),
            Vector::TimestampMicrosecond(v) => v.len(),
            Vector::TimestampNanosecond(v) => v.len(),
            Vector::String(v) => v.len(),
            Vector::Binary(v) => v.len(),
            Vector::List(v) => v.len(),
            Vector::Constant(v) => v.len(),
        }
    }

    pub open spec fn spec_data_type(self) -> ConcreteDataType {
        match self {
            Vector::Constant(v) => v.data_type,
            Vector::Null(_) => ConcreteDataType::Null(NullType),
            Vector::Boolean(_) => ConcreteDataType::Boolean(BooleanType),
            Vector::Int8(_) => ConcreteDataType::Int8(Int8Type),
            Vector::Int16(_) => ConcreteDataType::Int16(Int16Type),
            Vector::Int32(_) => ConcreteDataType::Int32(Int32Type),
            Vector::Int64(_) => ConcreteDataType::Int64(Int64Type),
            Vector::UInt8(_) => ConcreteDataType::UInt8(UInt8Type),
            Vector::UInt16(_) => ConcreteDataType::UInt16(UInt16Type),
            Vector::UInt32(_) => ConcreteDataType::UInt32(UInt32Type),
            Vector::UInt64(_) => ConcreteDataType::UInt64(UInt64Type),
            Vector::Float32(_) => ConcreteDataType::Float32(Float32Type),
            Vector::Float64(_) => ConcreteDataType::Float64(Float64Type),
            Vector::Date(_) => ConcreteDataType::Date(DateType),
            Vector::DateTime(_) => ConcreteDataType::DateTime(DateTimeType),
            Vector::TimestampSecond(_) => ConcreteDataType::Timestamp(TimeUnit::Second),
            Vector::TimestampMillisecond(_) => ConcreteDataType::Timestamp(TimeUnit::Millisecond),
            Vector::TimestampMicrosecond(_) => ConcreteDataType::Timestamp(TimeUnit::Microsecond),
            Vector::TimestampNanosecond(_) => ConcreteDataType::Timestamp(TimeUnit::Nanosecond),
            Vector::String(_) => ConcreteDataType::String(StringType),
            Vector::Binary(_) => ConcreteDataType::Binary(BinaryType),
            Vector::List(v) => ConcreteDataType::List(v.item_type.spec_logical_type_id()),
        }
    }

    /// The type of the items.
    pub fn data_type(&self) -> (t: ConcreteDataType)
        ensures
            t == self.spec_data_type(),
    {
        match self {
            Vector::Constant(v) => v.data_type,
            Vector::Null(_) => ConcreteDataType::Null(NullType),
            Vector::Boolean(_) => ConcreteDataType::Boolean(BooleanType),
            Vector::Int8(_) => ConcreteDataType::Int8(Int8Type),
            Vector::Int16(_) => ConcreteDataType::Int16(Int16Type),
            Vector::Int32(_) => ConcreteDataType::Int32(Int32Type),
            Vector::Int64(_) => ConcreteDataType::Int64(Int64Type),
            Vector::UInt8(_) => ConcreteDataType::UInt8(UInt8Type),
            Vector::UInt16(_) => ConcreteDataType::UInt16(UInt16Type),
            Vector::UInt32(_) => ConcreteDataType::UInt32(UInt32Type),
            Vector::UInt64(_) => ConcreteDataType::UInt64(UInt64Type),
            Vector::Float32(_) => ConcreteDataType::Float32(Float32Type),
            Vector::Float64(_) => ConcreteDataType::Float64(Float64Type),
            Vector::Date(_) => ConcreteDataType::Date(DateType),
            Vector::DateTime(_) => ConcreteDataType::DateTime(DateTimeType),
            Vector::TimestampSecond(_) => ConcreteDataType::Timestamp(TimeUnit::Second),
            Vector::TimestampMillisecond(_) => ConcreteDataType::Timestamp(TimeUnit::Millisecond),
            Vector::TimestampMicrosecond(_) => ConcreteDataType::Timestamp(TimeUnit::Microsecond),
            Vector::TimestampNanosecond(_) => ConcreteDataType::Timestamp(TimeUnit::Nanosecond),
            Vector::String(_) => ConcreteDataType::String(StringType),
            Vector::Binary(_) => ConcreteDataType::Binary(BinaryType),
            Vector::List(v) => ConcreteDataType::list_datatype(v.item_type),
        }
    }

    pub open spec fn spec_vector_type_name(self) -> Seq<char> {
        match self {
            Vector::Null(_) => "NullVector"@,
            Vector::Boolean(_) => "BooleanVector"@,
            Vector::Int8(_) => "Int8Vector"@,
            Vector::Int16(_) => "Int16Vector"@,
            Vector::Int32(_) => "Int32Vector"@,
            Vector::Int64(_) => "Int64Vector"@,
            Vector::UInt8(_) => "UInt8Vector"@,
            Vector::UInt16(_) => "UInt16Vector"@,
            Vector::UInt32(_) => "UInt32Vector"@,
            Vector::UInt64(_) => "UInt64Vector"@,
            Vector::Float32(_) => "Float32Vector"@,
            Vector::Float64(_) => "Float64Vector"@,
            Vector::Date(_) => "DateVector"@,
            Vector::DateTime(_) => "DateTimeVector"@,
            Vector::TimestampSecond(_) => "TimestampSecondVector"@,
            Vector::TimestampMillisecond(_) => "TimestampMillisecondVector"@,
            Vector::TimestampMicrosecond(_) => "TimestampMicrosecondVector"@,
            Vector::TimestampNanosecond(_) => "TimestampNanosecondVector"@,
            Vector::String(_) => "StringVector"@,
            Vector::Binary(_) => "BinaryVector"@,
            Vector::List(_) => "ListVector"@,
            Vector::Constant(_) => "ConstantVector"@,
        }
    }

    /// The name of the typed vector that this vector holds.
    pub fn vector_type_name(&self) -> (name: &'static str)
        ensures
            name@ == self.spec_vector_type_name(),
    {
        match self {
            Vector::Null(_) => "NullVector",
            Vector::Boolean(_) => "BooleanVector",
            Vector::Int8(_) => "Int8Vector",
            Vector::Int16(_) => "Int16Vector",
            Vector::Int32(_) => "Int32Vector",
            Vector::Int64(_) => "Int64Vector",
            Vector::UInt8(_) => "UInt8Vector",
            Vector::UInt16(_) => "UInt16Vector",
            Vector::UInt32(_) => "UInt32Vector",
            Vector::UInt64(_) => "UInt64Vector",
            Vector::Float32(_) => "Float32Vector",
            Vector::Float64(_) => "Float64Vector",
            Vector::Date(_) => "DateVector",
            Vector::DateTime(_) => "DateTimeVector",
            Vector::TimestampSecond(_) => "TimestampSecondVector",
            Vector::TimestampMillisecond(_) => "TimestampMillisecondVector",
            Vector::TimestampMicrosecond(_) => "TimestampMicrosecondVector",
            Vector::TimestampNanosecond(_) => "TimestampNanosecondVector",
            Vector::String(_) => "StringVector",
            Vector::Binary(_) => "BinaryVector",
            Vector::List(_) => "ListVector",
            Vector::Constant(_) => "ConstantVector",
        }
    }

    /// The content of the item at `index`.
    pub open spec fn value_at(self, index: int) -> ValueView {
        match self {
            Vector::Null(_) => ValueView::Null,
            Vector::Constant(v) => v.value@,
            Vector::Boolean(v) => v.value_at(index),
            Vector::Int8(v) => v.value_at(index),
            Vector::Int16(v) => v.value_at(index),
            Vector::Int32(v) => v.value_at(index),
            Vector::Int64(v) => v.value_at(index),
            Vector::UInt8(v) => v.value_at(index),
            Vector::UInt16(v) => v.value_at(index),
            Vector::UInt32(v) => v.value_at(index),
            Vector::UInt64(v) => v.value_at(index),
            Vector::Float32(v) => v.value_at(index),
            Vector::Float64(v) => v.value_at(index),
            Vector::Date(v) => v.value_at(index),
            Vector::DateTime(v) => v.value_at(index),
            Vector::TimestampSecond(v) => v.value_at(index),
            Vector::TimestampMillisecond(v) => v.value_at(index),
            Vector::TimestampMicrosecond(v) => v.value_at(index),
            Vector::TimestampNanosecond(v) => v.value_at(index),
            Vector::String(v) => v.value_at(index),
            Vector::Binary(v) => v.value_at(index),
            Vector::List(v) => v.value_at(index),
        }
    }

    /// The item at `index`.
    pub fn get(&self, index: usize) -> (value: Value)
        requires
            index < self.spec_len(),
        ensures
            value@ == self.value_at(index as int),
    {
        match self {
            Vector::Null(_) => Value::Null,
            Vector::Constant(v) => v.value.duplicate(),
            Vector::Boolean(v) => v.get(index),
            Vector::Int8(v) => v.get(index),
            Vector::Int16(v) => v.get(index),
            Vector::Int32(v) => v.get(index),
            Vector::Int64(v) => v.get(index),
            Vector::UInt8(v) => v.get(index),
            Vector::UInt16(v) => v.get(index),
            Vector::UInt32(v) => v.get(index),
            Vector::UInt64(v) => v.get(index),
            Vector::Float32(v) => v.get(index),
            Vector::Float64(v) => v.get(index),
            Vector::Date(v) => v.get(index),
            Vector::DateTime(v) => v.get(index),
            Vector::TimestampSecond(v) => v.get(index),
            Vector::TimestampMillisecond(v) => v.get(index),
            Vector::TimestampMicrosecond(v) => v.get(index),
            Vector::TimestampNanosecond(v) => v.get(index),
            Vector::String(v) => v.get(index),
            Vector::Binary(v) => v.get(index),
            Vector::List(v) => v.get(index),
        }
    }
}

} // verus!
