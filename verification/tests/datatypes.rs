use std::sync::Arc;

use greptime::common::time::{parse_date, parse_datetime, parse_timestamp};
use greptime::datatypes::arrow::{ArrowArray, ArrowDataType, ArrowField, ArrowSchema};
use greptime::datatypes::data_type::{ConcreteDataType, LogicalTypeId, TimeUnit};
use greptime::datatypes::error::{Error, StatusCode};
use greptime::datatypes::helper::Helper;
use greptime::datatypes::scalar::ScalarValue;
use greptime::datatypes::schema::{ColumnDefaultConstraint, ColumnSchema, Schema, CURRENT_TIMESTAMP};
use greptime::datatypes::value::{ListValue, Timestamp, Value};
use greptime::datatypes::vectors::{
    BinaryVector, BooleanVector, ConstantVector, Date, DateTime, DateTimeVector, DateVector,
    Float32Bits, Float32Vector, Float64Bits, Float64Vector, Int16Vector, Int32Vector,
    Int32VectorBuilder, Int64Vector, Int64VectorBuilder, Int8Vector, ListVector, MutableVector,
    NullVector, StringVector, TimestampMicrosecond, TimestampMicrosecondVector,
    TimestampMillisecond, TimestampMillisecondVector, TimestampNanosecond,
    TimestampNanosecondVector, TimestampSecond, TimestampSecondVector, UInt16Vector,
    UInt32Vector, UInt64Vector, UInt8Vector, Vector, VectorRef,
};

fn array(data_type: ArrowDataType, data: Vector) -> ArrowArray {
    ArrowArray {
        data_type,
        data: Arc::new(data),
    }
}

#[test]
pub fn test_error() {
    let err = Error::Serialize {
        source: "key must be a string".to_string(),
    };
    assert_eq!(StatusCode::Internal, err.status_code());
    assert_eq!(StatusCode::Internal, Error::NullDefault.status_code());
    assert!(StatusCode::is_success(0));
    assert!(!StatusCode::is_success(1003));
}

#[test]
fn test_try_into_vectors() {
    let arrays = vec![
        array(ArrowDataType::Int32, Vector::Int32(Int32Vector::from_vec(vec![1]))),
        array(ArrowDataType::Int32, Vector::Int32(Int32Vector::from_vec(vec![2]))),
        array(ArrowDataType::Int32, Vector::Int32(Int32Vector::from_vec(vec![3]))),
    ];
    let vectors = Helper::try_into_vectors(&arrays);
    assert!(vectors.is_ok());
    let vectors = vectors.unwrap();
    vectors.iter().for_each(|v| assert_eq!(1, v.len()));
    assert_eq!(Value::Int32(1), vectors[0].get(0));
    assert_eq!(Value::Int32(2), vectors[1].get(0));
    assert_eq!(Value::Int32(3), vectors[2].get(0));
}

#[test]
fn test_try_into_vectors_stops_at_first_failure() {
    let arrays = vec![
        array(ArrowDataType::Int32, Vector::Int32(Int32Vector::from_vec(vec![1]))),
        array(ArrowDataType::Float16, Vector::Null(NullVector::new(1))),
        array(ArrowDataType::Int64, Vector::Int32(Int32Vector::from_vec(vec![3]))),
    ];
    assert_eq!(
        Error::UnsupportedArrowType {
            arrow_type: "Float16".to_string()
        },
        Helper::try_into_vectors(&arrays).unwrap_err()
    );
    assert!(Helper::try_into_vectors(&[]).unwrap().is_empty());
}

#[test]
fn test_try_into_date_vector() {
    let vector = DateVector::from_values(vec![Some(Date(1)), Some(Date(2)), None]);
    let arrow_array = array(ArrowDataType::Date32, Vector::Date(vector.clone()));
    assert_eq!(ArrowDataType::Date32, arrow_array.data_type);
    let vector_converted = Helper::try_into_vector(&arrow_array).unwrap();
    assert_eq!(vector.len(), vector_converted.len());
    for i in 0..vector_converted.len() {
        assert_eq!(vector.get(i), vector_converted.get(i));
    }
    assert_eq!(Value::Date(2), vector_converted.get(1));
    assert_eq!(Value::Null, vector_converted.get(2));
}

#[test]
fn test_try_from_scalar_date_value() {
    let vector = Helper::try_from_scalar_value(ScalarValue::Date32(Some(42)), 3).unwrap();
    assert_eq!(ConcreteDataType::date_datatype(), vector.data_type());
    assert_eq!(3, vector.len());
    for i in 0..vector.len() {
        assert_eq!(Value::Date(42), vector.get(i));
    }
}

#[test]
fn test_try_from_scalar_datetime_value() {
    let vector = Helper::try_from_scalar_value(ScalarValue::Date64(Some(42)), 3).unwrap();
    assert_eq!(ConcreteDataType::datetime_datatype(), vector.data_type());
    assert_eq!(3, vector.len());
    for i in 0..vector.len() {
        assert_eq!(Value::DateTime(42), vector.get(i));
    }
}

#[test]
fn test_try_from_scalar_of_each_kind() {
    let constant = |value: ScalarValue| match &*Helper::try_from_scalar_value(value, 2).unwrap() {
        Vector::Constant(c) => (c.value.clone(), c.data_type, c.length),
        other => panic!("not a constant vector: {other:?}"),
    };
    assert_eq!(
        (Value::Null, ConcreteDataType::null_datatype(), 2),
        constant(ScalarValue::Null)
    );
    assert_eq!(
        (Value::Null, ConcreteDataType::int8_datatype(), 2),
        constant(ScalarValue::Int8(None))
    );
    assert_eq!(
        (
            Value::String("x".to_string()),
            ConcreteDataType::string_datatype(),
            2
        ),
        constant(ScalarValue::LargeUtf8(Some("x".to_string())))
    );
    assert_eq!(
        (Value::Binary(vec![1, 2]), ConcreteDataType::binary_datatype(), 2),
        constant(ScalarValue::FixedSizeBinary(2, Some(vec![1, 2])))
    );
    assert_eq!(
        (
            Value::Float64(1.5f64.to_bits()),
            ConcreteDataType::float64_datatype(),
            2
        ),
        constant(ScalarValue::Float64(Some(1.5f64.to_bits())))
    );
    assert_eq!(
        (
            Value::Timestamp(Timestamp::new(7, TimeUnit::Microsecond)),
            ConcreteDataType::timestamp_datatype(TimeUnit::Microsecond),
            2
        ),
        constant(ScalarValue::TimestampMicrosecond(Some(7)))
    );
    for unsupported in [
        ScalarValue::Decimal128,
        ScalarValue::IntervalDayTime,
        ScalarValue::Time64Nanosecond,
        ScalarValue::Struct,
    ] {
        let name = unsupported.kind_name();
        assert_eq!(
            Error::Conversion {
                from: format!("Unsupported scalar value: {name}")
            },
            Helper::try_from_scalar_value(unsupported, 1).unwrap_err()
        );
    }
}

#[test]
fn test_like_utf8() {
    fn assert_vector(expected: Vec<&str>, actual: &VectorRef) {
        let actual = Helper::check_get::<StringVector>(actual).unwrap();
        assert_eq!(
            *actual,
            StringVector::from_vec(expected.into_iter().map(|s| s.to_string()).collect())
        );
    }

    let names: Vec<String> = vec!["greptime", "hello", "public", "world"]
        .into_iter()
        .map(|x| x.to_string())
        .collect();

    let ret = Helper::like_utf8(names.clone(), "%ll%").unwrap();
    assert_vector(vec!["hello"], &ret);

    let ret = Helper::like_utf8(names.clone(), "%time").unwrap();
    assert_vector(vec!["greptime"], &ret);

    let ret = Helper::like_utf8(names.clone(), "%ld").unwrap();
    assert_vector(vec!["world"], &ret);

    let ret = Helper::like_utf8(names, "%").unwrap();
    assert_vector(vec!["greptime", "hello", "public", "world"], &ret);
}

#[test]
fn test_like_utf8_with_single_wildcard() {
    let names: Vec<String> = ["ab", "abc", "xbc", "b"].iter().map(|s| s.to_string()).collect();
    let ret = Helper::like_utf8(names.clone(), "_b%").unwrap();
    assert_eq!(
        Vector::String(StringVector::from_vec(vec![
            "ab".to_string(),
            "abc".to_string(),
            "xbc".to_string()
        ])),
        *ret
    );
    let ret = Helper::like_utf8(names, "nothing").unwrap();
    assert_eq!(0, ret.len());
    let ret = Helper::like_utf8(vec![], "%").unwrap();
    assert_eq!(0, ret.len());
}

fn check_try_into_vector(data_type: ArrowDataType, vector: Vector) {
    let array = array(data_type, vector.clone());
    let converted = Helper::try_into_vector(&array).unwrap();
    assert_eq!(vector, *converted);
}

#[test]
fn test_try_into_vector() {
    check_try_into_vector(ArrowDataType::Null, Vector::Null(NullVector::new(2)));
    check_try_into_vector(
        ArrowDataType::Boolean,
        Vector::Boolean(BooleanVector::from_vec(vec![true, false])),
    );
    check_try_into_vector(
        ArrowDataType::LargeBinary,
        Vector::Binary(BinaryVector::from_values(vec![
            Some("hello".as_bytes().to_vec()),
            Some("world".as_bytes().to_vec()),
        ])),
    );
    check_try_into_vector(
        ArrowDataType::Int8,
        Vector::Int8(Int8Vector::from_vec(vec![1, 2, 3])),
    );
    check_try_into_vector(
        ArrowDataType::Int16,
        Vector::Int16(Int16Vector::from_vec(vec![1, 2, 3])),
    );
    check_try_into_vector(
        ArrowDataType::Int32,
        Vector::Int32(Int32Vector::from_vec(vec![1, 2, 3])),
    );
    check_try_into_vector(
        ArrowDataType::Int64,
        Vector::Int64(Int64Vector::from_vec(vec![1, 2, 3])),
    );
    check_try_into_vector(
        ArrowDataType::UInt8,
        Vector::UInt8(UInt8Vector::from_vec(vec![1, 2, 3])),
    );
    check_try_into_vector(
        ArrowDataType::UInt16,
        Vector::UInt16(UInt16Vector::from_vec(vec![1, 2, 3])),
    );
    check_try_into_vector(
        ArrowDataType::UInt32,
        Vector::UInt32(UInt32Vector::from_vec(vec![1, 2, 3])),
    );
    check_try_into_vector(
        ArrowDataType::UInt64,
        Vector::UInt64(UInt64Vector::from_vec(vec![1, 2, 3])),
    );
    check_try_into_vector(
        ArrowDataType::Float32,
        Vector::Float32(Float32Vector::from_vec(vec![
            Float32Bits(1.0f32.to_bits()),
            Float32Bits(2.0f32.to_bits()),
            Float32Bits(3.0f32.to_bits()),
        ])),
    );
    check_try_into_vector(
        ArrowDataType::Float64,
        Vector::Float64(Float64Vector::from_vec(vec![
            Float64Bits(1.0f64.to_bits()),
            Float64Bits(2.0f64.to_bits()),
            Float64Bits(3.0f64.to_bits()),
        ])),
    );
    check_try_into_vector(
        ArrowDataType::Utf8,
        Vector::String(StringVector::from_vec(vec![
            "hello".to_string(),
            "world".to_string(),
        ])),
    );
    check_try_into_vector(
        ArrowDataType::Date32,
        Vector::Date(DateVector::from_vec(vec![Date(1), Date(2), Date(3)])),
    );
    check_try_into_vector(
        ArrowDataType::Date64,
        Vector::DateTime(DateTimeVector::from_vec(vec![
            DateTime(1),
            DateTime(2),
            DateTime(3),
        ])),
    );
    check_try_into_vector(
        ArrowDataType::List(LogicalTypeId::Int32),
        Vector::List(ListVector::from_values(
            vec![
                None,
                Some(ListValue::new(
                    Some(Box::new(vec![Value::Int32(6), Value::Int32(7)])),
                    ConcreteDataType::int32_datatype(),
                )),
            ],
            ConcreteDataType::int32_datatype(),
        )),
    );
    check_try_into_vector(
        ArrowDataType::Timestamp(TimeUnit::Second),
        Vector::TimestampSecond(TimestampSecondVector::from_vec(vec![
            TimestampSecond(1),
            TimestampSecond(2),
            TimestampSecond(3),
        ])),
    );
    check_try_into_vector(
        ArrowDataType::Timestamp(TimeUnit::Millisecond),
        Vector::TimestampMillisecond(TimestampMillisecondVector::from_vec(vec![
            TimestampMillisecond(1),
            TimestampMillisecond(2),
            TimestampMillisecond(3),
        ])),
    );
    check_try_into_vector(
        ArrowDataType::Timestamp(TimeUnit::Microsecond),
        Vector::TimestampMicrosecond(TimestampMicrosecondVector::from_vec(vec![
            TimestampMicrosecond(1),
            TimestampMicrosecond(2),
            TimestampMicrosecond(3),
        ])),
    );
    check_try_into_vector(
        ArrowDataType::Timestamp(TimeUnit::Nanosecond),
        Vector::TimestampNanosecond(TimestampNanosecondVector::from_vec(vec![
            TimestampNanosecond(1),
            TimestampNanosecond(2),
            TimestampNanosecond(3),
        ])),
    );
}

#[test]
fn test_try_from_list_value() {
    let value = ScalarValue::List(
        Some(vec![
            ScalarValue::Int32(Some(1)),
            ScalarValue::Int32(Some(2)),
        ]),
        ArrowDataType::Int32,
    );
    let vector = Helper::try_from_scalar_value(value, 3).unwrap();
    assert_eq!(
        ConcreteDataType::list_datatype(ConcreteDataType::int32_datatype()),
        vector.data_type()
    );
    assert_eq!(3, vector.len());
    for i in 0..vector.len() {
        let v = vector.get(i);
        let items = v.as_list().unwrap().unwrap().items().as_ref().unwrap();
        assert_eq!(vec![Value::Int32(1), Value::Int32(2)], **items);
    }
}

#[test]
fn test_try_from_list_value_edges() {
    // A null list, and a list with a null item.
    let vector =
        Helper::try_from_scalar_value(ScalarValue::List(None, ArrowDataType::Utf8), 2).unwrap();
    assert_eq!(
        ConcreteDataType::list_datatype(ConcreteDataType::string_datatype()),
        vector.data_type()
    );
    assert_eq!(Value::Null, vector.get(1));
    assert_eq!(Ok(None), Value::Null.as_list());
    assert!(Value::Int32(1).as_list().is_err());
    let vector = Helper::try_from_scalar_value(
        ScalarValue::List(
            Some(vec![ScalarValue::Utf8(None), ScalarValue::Utf8(Some("a".to_string()))]),
            ArrowDataType::Utf8,
        ),
        1,
    )
    .unwrap();
    assert_eq!(
        Value::List(ListValue::new(
            Some(Box::new(vec![Value::Null, Value::String("a".to_string())])),
            ConcreteDataType::string_datatype()
        )),
        vector.get(0)
    );
    // An item that vectors cannot hold, and items of a type without a
    // counterpart.
    assert_eq!(
        Error::Conversion {
            from: "Unsupported scalar value: List".to_string()
        },
        Helper::try_from_scalar_value(
            ScalarValue::List(
                Some(vec![ScalarValue::Int32(Some(1)), ScalarValue::Struct]),
                ArrowDataType::Int32
            ),
            1
        )
        .unwrap_err()
    );
    assert_eq!(
        Error::UnsupportedArrowType {
            arrow_type: "Duration".to_string()
        },
        Helper::try_from_scalar_value(ScalarValue::List(None, ArrowDataType::Duration), 1)
            .unwrap_err()
    );
    // A list vector gives its lists back.
    let list = || {
        ListValue::new(
            Some(Box::new(vec![Value::Int64(6)])),
            ConcreteDataType::int64_datatype(),
        )
    };
    let vector = Vector::List(ListVector::from_values(
        vec![Some(list()), None],
        ConcreteDataType::int64_datatype(),
    ));
    assert_eq!(2, vector.len());
    assert_eq!(Value::List(list()), vector.get(0));
    assert_eq!(Value::Null, vector.get(1));
    assert_eq!(
        ConcreteDataType::list_datatype(ConcreteDataType::int64_datatype()),
        vector.data_type()
    );
    assert_eq!(&ConcreteDataType::int64_datatype(), list().datatype());
}

#[test]
fn test_try_into_vector_rejects() {
    // A wire type that no vector is made of.
    let err = Helper::try_into_vector(&array(
        ArrowDataType::LargeUtf8,
        Vector::String(StringVector::from_vec(vec![])),
    ))
    .unwrap_err();
    assert_eq!(
        Error::UnsupportedArrowType {
            arrow_type: "LargeUtf8".to_string()
        },
        err
    );
    // An array that is not of the type it declares.
    let err = Helper::try_into_vector(&array(
        ArrowDataType::Int64,
        Vector::Int32(Int32Vector::from_vec(vec![1])),
    ))
    .unwrap_err();
    assert!(matches!(err, Error::Conversion { .. }));
}

#[test]
fn test_check_get() {
    let vector: VectorRef = Arc::new(Vector::Int64(Int64Vector::from_values(vec![
        Some(1),
        None,
        Some(3),
    ])));
    let typed = Helper::check_get::<Int64Vector>(&vector).unwrap();
    assert_eq!(vec![Some(1), None, Some(3)], typed.iter_data());
    assert_eq!(Some(3), typed.get_data(2));
    let typed = Helper::check_get_scalar::<i64>(&vector).unwrap();
    assert_eq!(3, typed.len());
    let typed = Helper::check_get_scalar_vector::<i64>(&vector).unwrap();
    assert_eq!(None, typed.get_data(1));

    let err = Helper::check_get::<Int32Vector>(&vector).unwrap_err();
    assert_eq!(
        Error::UnknownVector {
            msg: "downcast vector error, vector type: Int64Vector, expected vector: Int32Vector"
                .to_string()
        },
        err
    );
    let err = Helper::check_get_scalar::<String>(&vector).unwrap_err();
    assert_eq!(
        Error::UnknownVector {
            msg: "downcast vector error, vector type: Int64Vector, expected vector: StringVector"
                .to_string()
        },
        err
    );
    assert!(Helper::check_get_scalar_vector::<bool>(&vector).is_err());
    // A timestamp vector is no vector of 64-bit integers.
    let vector: VectorRef = Arc::new(Vector::TimestampMillisecond(
        TimestampMillisecondVector::from_vec(vec![TimestampMillisecond(5)]),
    ));
    assert!(Helper::check_get::<Int64Vector>(&vector).is_err());
    assert_eq!(
        5,
        Helper::check_get::<TimestampMillisecondVector>(&vector)
            .unwrap()
            .get_data(0)
            .unwrap()
            .into_native()
    );
    let vector: VectorRef = Arc::new(Vector::Constant(ConstantVector::new(
        Value::Int32(1),
        ConcreteDataType::int32_datatype(),
        4,
    )));
    assert_eq!(4, Helper::check_get::<ConstantVector>(&vector).unwrap().len());
}

#[test]
fn test_check_get_mutable_vector() {
    let mut builder = MutableVector::Int64(Int64VectorBuilder::with_capacity(2));
    {
        let typed = Helper::check_get_mutable_vector::<Int64VectorBuilder>(&mut builder).unwrap();
        typed.push(Some(1));
        typed.push(None);
    }
    assert_eq!(2, builder.len());
    let err = Helper::check_get_mutable_vector::<Int32VectorBuilder>(&mut builder).unwrap_err();
    assert_eq!(
        Error::UnknownVector {
            msg: "downcast vector error, vector type: Int64, expected vector: Int32VectorBuilder"
                .to_string()
        },
        err
    );
    assert_eq!(
        Vector::Int64(Int64Vector::from_values(vec![Some(1), None])),
        builder.to_vector()
    );
}

#[test]
fn test_default_constraint_validate() {
    let now = ColumnDefaultConstraint::Function(CURRENT_TIMESTAMP.to_string());
    assert!(now
        .validate(&ConcreteDataType::timestamp_millisecond_datatype(), false)
        .is_ok());
    assert_eq!(
        Err(Error::DefaultValueType {
            reason: "return value of the function must has timestamp type".to_string()
        }),
        now.validate(&ConcreteDataType::int64_datatype(), false)
    );
    let other = ColumnDefaultConstraint::Function("now()".to_string());
    assert_eq!(
        Err(Error::UnsupportedDefaultExpr {
            expr: "now()".to_string()
        }),
        other.validate(&ConcreteDataType::timestamp_millisecond_datatype(), false)
    );
    let null = ColumnDefaultConstraint::Value(Value::Null);
    assert!(null.validate(&ConcreteDataType::int64_datatype(), true).is_ok());
    assert_eq!(
        Err(Error::NullDefault),
        null.validate(&ConcreteDataType::int64_datatype(), false)
    );
    let five = ColumnDefaultConstraint::Value(Value::Int32(5));
    assert!(five.validate(&ConcreteDataType::int32_datatype(), false).is_ok());
    assert_eq!(
        Err(Error::DefaultValueType {
            reason: "column has type Int64 but default value has type Int32".to_string()
        }),
        five.validate(&ConcreteDataType::int64_datatype(), false)
    );
}

#[test]
fn test_schema() {
    let columns = vec![
        ColumnSchema::new("a".to_string(), ConcreteDataType::int32_datatype(), true),
        ColumnSchema::new(
            "ts".to_string(),
            ConcreteDataType::timestamp_millisecond_datatype(),
            false,
        ),
        ColumnSchema::new("a".to_string(), ConcreteDataType::string_datatype(), true),
    ];
    let schema = Schema::try_new(columns.clone(), Some(1), 3).unwrap();
    assert_eq!(3, schema.num_columns());
    assert_eq!(Some(1), schema.timestamp_index());
    assert_eq!(3, schema.version());
    // The first column of a name is the one that is found.
    assert_eq!(Some(0), schema.column_index_by_name("a"));
    assert_eq!(
        ConcreteDataType::int32_datatype(),
        schema.column_schema_by_name("a").unwrap().data_type
    );
    assert_eq!(None, schema.column_index_by_name("b"));
    assert_eq!(
        Err(Error::InvalidTimestampIndex { index: 0 }),
        Schema::try_new(columns.clone(), Some(0), 0)
    );
    assert_eq!(
        Err(Error::InvalidTimestampIndex { index: 3 }),
        Schema::try_new(columns, Some(3), 0)
    );
}

#[test]
fn test_arrow_schema_round_trip() {
    let columns = vec![
        ColumnSchema::new("a".to_string(), ConcreteDataType::binary_datatype(), true),
        ColumnSchema::new("b".to_string(), ConcreteDataType::date_datatype(), false),
        ColumnSchema::new(
            "c".to_string(),
            ConcreteDataType::list_datatype(ConcreteDataType::int32_datatype()),
            true,
        ),
    ];
    let schema = Schema::new(columns);
    let arrow = schema.arrow_schema();
    assert_eq!(
        vec![
            ArrowDataType::LargeBinary,
            ArrowDataType::Date32,
            ArrowDataType::List(LogicalTypeId::Int32)
        ],
        arrow.fields.iter().map(|f| f.data_type).collect::<Vec<_>>()
    );
    assert_eq!(schema, Schema::try_from_arrow(&arrow).unwrap());

    let unsupported = ArrowSchema {
        fields: vec![ArrowField {
            name: "x".to_string(),
            data_type: ArrowDataType::Decimal128,
            nullable: true,
        }],
    };
    assert_eq!(
        Error::UnsupportedArrowType {
            arrow_type: "Decimal128".to_string()
        },
        Schema::try_from_arrow(&unsupported).unwrap_err()
    );
    assert_eq!(
        Ok(ConcreteDataType::string_datatype()),
        ConcreteDataType::try_from_arrow(&ArrowDataType::LargeUtf8)
    );
}

#[test]
fn test_parse_date_and_time() {
    assert_eq!(Some(0), parse_date("1970-01-01"));
    assert_eq!(Some(-1), parse_date("1969-12-31"));
    assert_eq!(Some(19045), parse_date("2022-02-22"));
    assert_eq!(Some(11016), parse_date("2000-02-29"));
    assert_eq!(Some(-719162), parse_date("0001-01-01"));
    assert_eq!(Some(-719528), parse_date("0000-01-01"));
    assert_eq!(Some(2932896), parse_date("9999-12-31"));
    for bad in [
        "", "2022-2-22", "2022-02-30", "1900-02-29", "2022-13-01", "2022-00-10", "2022-01-00",
        "2022/01/01", "2022-01-01 ", "٢٠٢٢-٠١-٠١", "+022-01-01",
    ] {
        assert_eq!(None, parse_date(bad), "{bad}");
    }
    assert_eq!(Some(0), parse_datetime("1970-01-01 00:00:00"));
    assert_eq!(Some(1645488063), parse_datetime("2022-02-22 00:01:03"));
    assert_eq!(Some(86399), parse_datetime("1970-01-01 23:59:59"));
    for bad in [
        "2022-02-22 00:01:61",
        "2022-02-22 24:00:00",
        "2022-02-22 00:60:00",
        "2022-02-22T00:01:03",
        "2022-02-22 00:01:03Z",
        "2022-02-22 0:01:03",
    ] {
        assert_eq!(None, parse_datetime(bad), "{bad}");
    }
}

#[test]
fn test_parse_timestamp() {
    assert_eq!(Some(0), parse_timestamp("1970-01-01T00:00:00Z"));
    assert_eq!(Some(0), parse_timestamp("1970-01-01 00:00:00"));
    assert_eq!(
        Some(1645459261000000000),
        parse_timestamp("2022-02-22T00:01:01+08:00")
    );
    assert_eq!(
        Some(1643799600000000000),
        parse_timestamp("2022-02-02 19:00:00+08:00")
    );
    assert_eq!(
        Some(1234567890000000000),
        parse_timestamp("2009-02-13 23:31:30Z")
    );
    assert_eq!(
        Some(1663683403012345000),
        parse_timestamp("2022-09-20T14:16:43.012345Z")
    );
    assert_eq!(Some(500_000_000), parse_timestamp("1970-01-01T00:00:00.5"));
    assert_eq!(Some(123_456_789), parse_timestamp("1970-01-01T00:00:00.123456789Z"));
    assert_eq!(Some(-1), parse_timestamp("1969-12-31T23:59:59.999999999Z"));
    assert_eq!(
        Some(3_600_000_000_000),
        parse_timestamp("1970-01-01T00:00:00-01:00")
    );
    // The last and the first instant that fit 64 bits.
    assert_eq!(
        Some(i64::MAX),
        parse_timestamp("2262-04-11T23:47:16.854775807Z")
    );
    assert_eq!(None, parse_timestamp("2262-04-11T23:47:16.854775808Z"));
    assert_eq!(
        Some(i64::MIN + 1_000_000_000 - 224_192),
        parse_timestamp("1677-09-21T00:12:44.145Z")
    );
    assert_eq!(None, parse_timestamp("1677-09-21T00:12:43Z"));
    for bad in [
        "2022-02-22T00:01:01+08",
        "2022-02-22T00:01:01+0800",
        "2022-02-22T00:01:01.Z",
        "2022-02-22T00:01:01.0123456789Z",
        "2022-02-22T00:01:01z",
        "2022-02-22T00:01:01+24:00",
        "2022-02-22T00:01:01+08:60",
        "2022-02-22_00:01:01",
        "2022-02-22",
        "2022-02-22T00:01:01ZZ",
    ] {
        assert_eq!(None, parse_timestamp(bad), "{bad}");
    }
}

#[test]
fn test_names_of_kinds() {
    assert_eq!("Null", ScalarValue::Null.kind_name());
    assert_eq!("Utf8", ScalarValue::Utf8(None).kind_name());
    assert_eq!(
        "FixedSizeBinary",
        ScalarValue::FixedSizeBinary(2, Some(vec![1, 2])).kind_name()
    );
    assert_eq!(
        "TimestampMillisecond",
        ScalarValue::TimestampMillisecond(Some(1)).kind_name()
    );
    assert_eq!("IntervalMonthDayNano", ScalarValue::IntervalMonthDayNano.kind_name());
    assert_eq!("Dictionary", ScalarValue::Dictionary.kind_name());

    assert_eq!("Null", ArrowDataType::Null.name());
    assert_eq!(
        "Timestamp",
        ArrowDataType::Timestamp(TimeUnit::Second).name()
    );
    assert_eq!("List", ArrowDataType::List(LogicalTypeId::Int32).name());
    assert_eq!("LargeUtf8", ArrowDataType::LargeUtf8.name());
    assert_eq!("Decimal256", ArrowDataType::Decimal256.name());
    assert_eq!("Map", ArrowDataType::MapOfEntries.name());
}
