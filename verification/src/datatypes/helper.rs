//! Checked casts from a vector of any type to a typed vector.

use std::sync::Arc;
use vstd::prelude::*;
use vstd::string::{StringExecFns, StringSliceAdditionalSpecFns};
use crate::datatypes::arrow::{from_arrow_type, ArrowArray, ArrowDataType};
use crate::datatypes::data_type::ConcreteDataType;
use crate::datatypes::error::{Error, Result};
use crate::datatypes::scalar::ScalarValue;
use crate::sharing::share;
use crate::datatypes::vectors::{
    ConcreteBuilder, ConcreteVector, ConstantVector, MutableVector, Scalar, StringVector, Vector,
    VectorRef,
};

verus! {

/// The message of a failed cast: the vector that was found, and the one that
/// was asked for.
pub open spec fn downcast_message(found: Seq<char>, expected: Seq<char>) -> Seq<char> {
    "downcast vector error, vector type: "@ + found + ", expected vector: "@ + expected
}

fn downcast_error(found: &str, expected: &str) -> (e: Error)
    ensures
        e matches Error::UnknownVector { msg } && msg@ == downcast_message(found@, expected@),
{
    let mut msg = String::from_str("downcast vector error, vector type: ");
    msg.append(found);
    msg.append(", expected vector: ");
    msg.append(expected);
    Error::UnknownVector { msg }
}

/// Whether each item of `names` matches the SQL `LIKE` pattern `pattern`,
/// in which `%` stands for any run of characters and `_` for one; `None` if
/// the pattern cannot be compiled.
pub uninterp spec fn like_mask(names: Seq<Seq<char>>, pattern: Seq<char>) -> Option<Seq<bool>>;

/// The texts of `names`.
pub open spec fn texts_of(names: Seq<String>) -> Seq<Seq<char>> {
    names.map_values(|s: String| s@)
}

/// The number of bytes that `names` take together.
pub open spec fn total_bytes(names: Seq<String>) -> int
    decreases names.len(),
{
    if names.len() == 0 {
        0
    } else {
        total_bytes(names.drop_last()) + vstd::utf8::encode_utf8(names.last()@).len()
    }
}

/// Matches each of `names` against the `LIKE` pattern `pattern`.
///
/// Trusted: this builds an array of the names and calls the kernel `like` of
/// `arrow` with the pattern as a scalar. The contract names the outcome, and
/// says that a mask has one item for each name, as the kernel evaluates the
/// pattern item by item. Building the arrays fails beyond `i32::MAX` bytes,
/// which the precondition leaves out.
#[verifier::external_body]
fn like_kernel(names: &Vec<String>, pattern: &str) -> (r: core::result::Result<Vec<bool>, String>)
    requires
        total_bytes(names@) <= i32::MAX,
        vstd::utf8::encode_utf8(pattern@).len() <= i32::MAX,
    ensures
        match r {
            Ok(mask) => like_mask(texts_of(names@), pattern@) == Some(mask@) && mask@.len()
                == names@.len(),
            Err(_) => like_mask(texts_of(names@), pattern@) is None,
        },
{
    let array = arrow::array::StringArray::from(names.clone());
    let scalar = arrow::array::StringArray::new_scalar(pattern);
    match arrow::compute::kernels::comparison::like(&array, &scalar) {
        Ok(mask) => Ok(mask.values().iter().collect()),
        Err(e) => Err(e.to_string()),
    }
}

/// Those of `names` whose item of `mask` is true, in the same order.
pub open spec fn selected(names: Seq<String>, mask: Seq<bool>) -> Seq<Seq<char>>
    decreases names.len(),
{
    if names.len() == 0 {
        Seq::empty()
    } else if mask[names.len() - 1] {
        selected(names.drop_last(), mask).push(names.last()@)
    } else {
        selected(names.drop_last(), mask)
    }
}

/// The vector of those of `names` whose item of `mask` is true.
pub fn filter_by_mask(names: &Vec<String>, mask: &Vec<bool>) -> (v: StringVector)
    requires
        mask@.len() == names@.len(),
    ensures
        v@ == selected(names@, mask@).map_values(|s: Seq<char>| Some(s)),
{
    let mut kept: Vec<String> = Vec::new();
    let mut i: usize = 0;
    while i < names.len()
        invariant
            i <= names@.len(),
            mask@.len() == names@.len(),
            texts_of(kept@) == selected(names@.take(i as int), mask@),
        decreases names@.len() - i,
    {
        proof {
            let upto = names@.take(i + 1);
            assert(upto.drop_last() =~= names@.take(i as int));
            assert(upto.last() == names@[i as int]);
        }
        if mask[i] {
            let ghost before = kept@;
            kept.push(names[i].clone());
            proof {
                assert(texts_of(kept@) =~= texts_of(before).push(names@[i as int]@));
            }
        }
        i += 1;
    }
    proof {
        assert(names@.take(names@.len() as int) =~= names@);
    }
    let v = StringVector::from_vec(kept);
    proof {
        assert(v@ =~= selected(names@, mask@).map_values(|s: Seq<char>| Some(s)));
    }
    v
}

/// Whether vectors are made of arrays of the wire type `t`.
pub open spec fn is_vector_type(t: ArrowDataType) -> bool {
    match t {
        ArrowDataType::Null
        | ArrowDataType::Boolean
        | ArrowDataType::LargeBinary
        | ArrowDataType::Int8
        | ArrowDataType::Int16
        | ArrowDataType::Int32
        | ArrowDataType::Int64
        | ArrowDataType::UInt8
        | ArrowDataType::UInt16
        | ArrowDataType::UInt32
        | ArrowDataType::UInt64
        | ArrowDataType::Float32
        | ArrowDataType::Float64
        | ArrowDataType::Utf8
        | ArrowDataType::Date32
        | ArrowDataType::Date64
        | ArrowDataType::List(_)
        | ArrowDataType::Timestamp(_) => true,
        _ => false,
    }
}

/// Why no vector is made of a wire array.
#[derive(Clone, Copy, Debug, PartialEq, Eq)]
pub enum VectorFault {
    /// No vector is made of arrays of that wire type.
    Unsupported,
    /// The items of the array are not of the type that it declares.
    Mismatch,
}

/// Why no vector is made of the wire array `array`, if none is.
pub open spec fn vector_fault(array: ArrowArray) -> Option<VectorFault> {
    if !is_vector_type(array.data_type) {
        Some(VectorFault::Unsupported)
    } else if Some(array.data.spec_data_type()) != from_arrow_type(array.data_type) {
        Some(VectorFault::Mismatch)
    } else {
        None
    }
}

/// The fault of the first of `arrays`, at `from` or later, of which no vector
/// is made.
pub open spec fn first_vector_fault(arrays: Seq<ArrowArray>, from: int) -> Option<VectorFault>
    decreases arrays.len() - from,
{
    if from < 0 || from >= arrays.len() {
        None
    } else if vector_fault(arrays[from]) is Some {
        vector_fault(arrays[from])
    } else {
        first_vector_fault(arrays, from + 1)
    }
}

/// Without a fault, a vector is made of every array.
pub proof fn lemma_no_vector_fault(arrays: Seq<ArrowArray>, from: int)
    requires
        0 <= from,
        first_vector_fault(arrays, from) is None,
    ensures
        forall|i: int| from <= i < arrays.len() ==> vector_fault(#[trigger] arrays[i]) is None,
    decreases arrays.len() - from,
{
    if from < arrays.len() {
        lemma_no_vector_fault(arrays, from + 1);
    }
}

/// Helper functions for vectors.
pub struct Helper;

impl Helper {
    /// `vector` as the typed vector `T`. Succeeds exactly when `vector` holds
    /// a `T`; the error names both vector types.
    pub fn check_get<T: ConcreteVector>(vector: &VectorRef) -> (r: Result<&T>)
        ensures
            match r {
                Ok(v) => v.upcast() == **vector,
                Err(e) => {
                    &&& forall|v: T| v.upcast() != **vector
                    &&& e matches Error::UnknownVector { msg }
                    &&& msg@ == downcast_message(vector.spec_vector_type_name(), T::kind_name())
                },
            },
    {
        match T::downcast_ref(vector) {
            Some(v) => Ok(v),
            None => Err(downcast_error(vector.vector_type_name(), T::exec_kind_name())),
        }
    }

    /// `vector` as the typed vector of the items `T`. Succeeds exactly when
    /// `vector` holds such a vector; the error names both vector types.
    pub fn check_get_scalar<T: Scalar>(vector: &VectorRef) -> (r: Result<&T::VectorType>)
        ensures
            match r {
                Ok(v) => v.upcast() == **vector,
                Err(e) => {
                    &&& forall|v: T::VectorType| v.upcast() != **vector
                    &&& e matches Error::UnknownVector { msg }
                    &&& msg@ == downcast_message(
                        vector.spec_vector_type_name(),
                        T::VectorType::kind_name(),
                    )
                },
            },
    {
        Self::check_get::<T::VectorType>(vector)
    }

    /// `vector` as the typed vector of the items `T`. Succeeds exactly when
    /// `vector` holds such a vector; the error names both vector types.
    pub fn check_get_scalar_vector<T: Scalar>(vector: &VectorRef) -> (r: Result<&T::VectorType>)
        ensures
            match r {
                Ok(v) => v.upcast() == **vector,
                Err(e) => {
                    &&& forall|v: T::VectorType| v.upcast() != **vector
                    &&& e matches Error::UnknownVector { msg }
                    &&& msg@ == downcast_message(
                        vector.spec_vector_type_name(),
                        T::VectorType::kind_name(),
                    )
                },
            },
    {
        Self::check_get::<T::VectorType>(vector)
    }

    /// `vector` as the typed builder `T`. Succeeds exactly when `vector`
    /// holds a `T`; what is then done to the builder that is handed out is
    /// done to `vector`. The error names the type of the items and the
    /// builder that was asked for.
    pub fn check_get_mutable_vector<T: ConcreteBuilder>(vector: &mut MutableVector) -> (r: Result<
        &mut T,
    >)
        ensures
            match r {
                Ok(b) => b.upcast() == *old(vector) && *final(vector) == final(b).upcast(),
                Err(e) => {
                    &&& forall|b: T| b.upcast() != *old(vector)
                    &&& *final(vector) == *old(vector)
                    &&& e matches Error::UnknownVector { msg }
                    &&& msg@ == downcast_message(
                        old(vector).spec_data_type().spec_name(),
                        T::kind_name(),
                    )
                },
            },
    {
        let ty = vector.data_type();
        match T::downcast_mut(vector) {
            Some(b) => Ok(b),
            None => Err(downcast_error(ty.name(), T::exec_kind_name())),
        }
    }

    /// The vector that holds the scalar `value` `length` times: for a list,
    /// the list of the values of its items. Fails exactly for the kinds of
    /// scalars that vectors cannot hold, and for a list with such an item
    /// or with items of a wire type without a counterpart.
    pub fn try_from_scalar_value(value: ScalarValue, length: usize) -> (r: Result<VectorRef>)
        ensures
            match value.as_constant() {
                Some((data_type, v)) => r matches Ok(vector) && (*vector matches Vector::Constant(
                    c,
                ) && c.value@ == v && c.data_type == data_type && c.length == length),
                None => if value matches ScalarValue::List(_, item_type) && from_arrow_type(
                    item_type,
                ) is None {
                    r matches Err(Error::UnsupportedArrowType { arrow_type }) && arrow_type@
                        == value->List_1.spec_name()
                } else {
                    r matches Err(Error::Conversion { from }) && from@
                        == "Unsupported scalar value: "@ + value.spec_kind_name()
                },
            },
    {
        match &value {
            ScalarValue::List(_, item_type) => {
                if ConcreteDataType::try_from_arrow(item_type).is_err() {
                    return Err(
                        Error::UnsupportedArrowType { arrow_type: String::from_str(item_type.name()) },
                    );
                }
            },
            _ => {},
        }
        let name = value.kind_name();
        match value.into_constant() {
            Some((data_type, v)) => Ok(
                Arc::new(Vector::Constant(ConstantVector::new(v, data_type, length))),
            ),
            None => {
                let mut from = String::from_str("Unsupported scalar value: ");
                from.append(name);
                Err(Error::Conversion { from })
            },
        }
    }

    /// The vector of the items of the wire array `array`. Fails for the wire
    /// types that no vector is made of, and for an array whose items are not
    /// of the type that it declares.
    pub fn try_into_vector(array: &ArrowArray) -> (r: Result<VectorRef>)
        ensures
            match vector_fault(*array) {
                Some(VectorFault::Unsupported) => r matches Err(Error::UnsupportedArrowType { .. }),
                Some(VectorFault::Mismatch) => r matches Err(Error::Conversion { .. }),
                None => r matches Ok(vector) && vector == array.data,
            },
    {
        let supported = match array.data_type {
            ArrowDataType::Null
            | ArrowDataType::Boolean
            | ArrowDataType::LargeBinary
            | ArrowDataType::Int8
            | ArrowDataType::Int16
            | ArrowDataType::Int32
            | ArrowDataType::Int64
            | ArrowDataType::UInt8
            | ArrowDataType::UInt16
            | ArrowDataType::UInt32
            | ArrowDataType::UInt64
            | ArrowDataType::Float32
            | ArrowDataType::Float64
            | ArrowDataType::Utf8
            | ArrowDataType::Date32
            | ArrowDataType::Date64
            | ArrowDataType::List(_)
            | ArrowDataType::Timestamp(_) => true,
            _ => false,
        };
        if !supported {
            return Err(
                Error::UnsupportedArrowType { arrow_type: String::from_str(array.data_type.name()) },
            );
        }
        match ConcreteDataType::try_from_arrow(&array.data_type) {
            Ok(expected) => {
                if array.data.data_type() != expected {
                    let mut from = String::from_str("array is not of its type ");
                    from.append(array.data_type.name());
                    return Err(Error::Conversion { from });
                }
                Ok(share(&array.data))
            },
            Err(e) => Err(e),
        }
    }

    /// The vectors of the items of the wire arrays `arrays`, in order, or
    /// the error of the first array that fails.
    pub fn try_into_vectors(arrays: &[ArrowArray]) -> (r: Result<Vec<VectorRef>>)
        ensures
            match first_vector_fault(arrays@, 0) {
                None => r matches Ok(vectors) && vectors@.len() == arrays@.len() && forall|i: int|
                    0 <= i < arrays@.len() ==> (#[trigger] vectors@[i]) == arrays@[i].data,
                Some(VectorFault::Unsupported) => r matches Err(
                    Error::UnsupportedArrowType { .. },
                ),
                Some(VectorFault::Mismatch) => r matches Err(Error::Conversion { .. }),
            },
    {
        let mut vectors: Vec<VectorRef> = Vec::new();
        let mut i: usize = 0;
        while i < arrays.len()
            invariant
                i <= arrays@.len(),
                vectors@.len() == i,
                first_vector_fault(arrays@, 0) == first_vector_fault(arrays@, i as int),
                forall|k: int| 0 <= k < i ==> (#[trigger] vectors@[k]) == arrays@[k].data,
            decreases arrays@.len() - i,
        {
            match Self::try_into_vector(&arrays[i]) {
                Ok(v) => {
                    vectors.push(v);
                },
                Err(e) => {
                    return Err(e);
                },
            }
            i += 1;
        }
        Ok(vectors)
    }

    /// Those of `names` that match the SQL `LIKE` pattern `s`, in order, as
    /// a vector of strings. Fails if the pattern cannot be compiled, or if
    /// the names or the pattern take more than `i32::MAX` bytes.
    pub fn like_utf8(names: Vec<String>, s: &str) -> (r: Result<VectorRef>)
        ensures
            if total_bytes(names@) > i32::MAX || vstd::utf8::encode_utf8(s@).len() > i32::MAX {
                r matches Err(Error::ArrowCompute { .. })
            } else {
                match like_mask(texts_of(names@), s@) {
                    Some(mask) => r matches Ok(vector) && (*vector matches Vector::String(v) && v@
                        == selected(names@, mask).map_values(|t: Seq<char>| Some(t))),
                    None => r matches Err(Error::ArrowCompute { .. }),
                }
            },
    {
        let limit: usize = 2_147_483_647;
        proof {
            assert(s.spec_bytes() == vstd::utf8::encode_utf8(s@));
        }
        if s.as_bytes().len() > limit {
            return Err(Error::ArrowCompute { source: String::from_str("offset overflow") });
        }
        let mut total: usize = 0;
        let mut i: usize = 0;
        while i < names.len()
            invariant
                i <= names@.len(),
                limit == 2_147_483_647,
                vstd::utf8::encode_utf8(s@).len() <= limit,
                total == total_bytes(names@.take(i as int)),
                total <= limit,
            decreases names@.len() - i,
        {
            proof {
                let upto = names@.take(i + 1);
                assert(upto.drop_last() =~= names@.take(i as int));
                assert(upto.last() == names@[i as int]);
                lemma_total_bytes_grows(names@, i + 1);
            }
            let name = names[i].as_str();
            proof {
                assert(name.spec_bytes() == vstd::utf8::encode_utf8(names@[i as int]@));
            }
            let len = name.as_bytes().len();
            if len > limit - total {
                return Err(Error::ArrowCompute { source: String::from_str("offset overflow") });
            }
            total = total + len;
            i += 1;
        }
        proof {
            assert(names@.take(names@.len() as int) =~= names@);
        }
        match like_kernel(&names, s) {
            Ok(mask) => Ok(Arc::new(Vector::String(filter_by_mask(&names, &mask)))),
            Err(source) => Err(Error::ArrowCompute { source }),
        }
    }
}

/// The bytes of the first `n` names are at most the bytes of all.
pub proof fn lemma_total_bytes_grows(names: Seq<String>, n: int)
    requires
        0 <= n <= names.len(),
    ensures
        0 <= total_bytes(names.take(n)) <= total_bytes(names),
    decreases names.len(),
{
    if n == names.len() {
        assert(names.take(n) =~= names);
        if names.len() > 0 {
            lemma_total_bytes_grows(names.drop_last(), n - 1);
            assert(names.drop_last().take(n - 1) =~= names.drop_last());
        }
    } else {
        lemma_total_bytes_grows(names.drop_last(), n);
        assert(names.drop_last().take(n) =~= names.take(n));
    }
}

} // verus!
