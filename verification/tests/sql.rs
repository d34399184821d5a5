use greptime::common::text::decimal_string;
use greptime::datatypes::data_type::{BooleanType, ConcreteDataType, TimeUnit};
use greptime::datatypes::error::Error as DataTypeError;
use greptime::datatypes::schema::ColumnDefaultConstraint;
use greptime::datatypes::value::{Timestamp, Value};
use greptime::sql::ast::{
    ColumnDef, ColumnOption, ColumnOptionDef, DataType as SqlDataType, Expr, Ident, ObjectName,
    TimezoneInfo, Value as SqlValue,
};
use greptime::sql::error::Error;
use greptime::sql::statements::{
    column_def_to_schema, parse_column_default_constraint, parse_hex_string, parse_sql_number,
    parse_string_to_value, sql_column_def_to_grpc_column_def, sql_data_type_to_concrete_data_type,
    sql_number_to_value, sql_value_to_value, table_idents_to_full_name, ColumnDataType,
};

fn check_type(sql_type: SqlDataType, data_type: ConcreteDataType) {
    assert_eq!(
        data_type,
        sql_data_type_to_concrete_data_type(&sql_type).unwrap()
    );
}

#[test]
pub fn test_sql_data_type_to_concrete_data_type() {
    check_type(
        SqlDataType::BigInt(None),
        ConcreteDataType::int64_datatype(),
    );
    check_type(SqlDataType::Int(None), ConcreteDataType::int32_datatype());
    check_type(
        SqlDataType::SmallInt(None),
        ConcreteDataType::int16_datatype(),
    );
    check_type(SqlDataType::Char(None), ConcreteDataType::string_datatype());
    check_type(
        SqlDataType::Varchar(None),
        ConcreteDataType::string_datatype(),
    );
    check_type(SqlDataType::Text, ConcreteDataType::string_datatype());
    check_type(SqlDataType::String, ConcreteDataType::string_datatype());
    check_type(
        SqlDataType::Float(None),
        ConcreteDataType::float32_datatype(),
    );
    check_type(SqlDataType::Double, ConcreteDataType::float64_datatype());
    check_type(SqlDataType::Boolean, ConcreteDataType::boolean_datatype());
    check_type(SqlDataType::Date, ConcreteDataType::date_datatype());
    check_type(
        SqlDataType::Custom(ObjectName(vec![Ident::new("datetime")]), vec![]),
        ConcreteDataType::datetime_datatype(),
    );
    check_type(
        SqlDataType::Timestamp(None, TimezoneInfo::Unspecified),
        ConcreteDataType::timestamp_millisecond_datatype(),
    );
    check_type(
        SqlDataType::Varbinary(None),
        ConcreteDataType::binary_datatype(),
    );
}

#[test]
fn test_unsupported_sql_data_types() {
    for t in [
        SqlDataType::TinyInt(None),
        SqlDataType::Real,
        SqlDataType::Uuid,
        SqlDataType::Custom(ObjectName(vec![Ident::new("point")]), vec![]),
        SqlDataType::Custom(
            ObjectName(vec![Ident::new("public"), Ident::new("datetime")]),
            vec![],
        ),
        SqlDataType::Custom(ObjectName(vec![]), vec![]),
    ] {
        let err = sql_data_type_to_concrete_data_type(&t).unwrap_err();
        assert_eq!(Error::SqlTypeNotSupported { t }, err);
    }
    check_type(
        SqlDataType::Custom(ObjectName(vec![Ident::new("DateTIME")]), vec![]),
        ConcreteDataType::datetime_datatype(),
    );
}

#[test]
fn test_sql_number_to_value() {
    // The text of a number for a floating-point column is handed back for
    // the caller to read.
    let v = sql_number_to_value(&ConcreteDataType::float64_datatype(), "3.0");
    assert_eq!(
        Err(Error::FloatNumber {
            text: "3.0".to_string()
        }),
        v
    );
    if let Err(Error::FloatNumber { text }) = v {
        assert_eq!(
            Value::Float64(3.0f64.to_bits()),
            Value::Float64(text.parse::<f64>().unwrap().to_bits())
        );
    }

    let v = sql_number_to_value(&ConcreteDataType::int32_datatype(), "999").unwrap();
    assert_eq!(Value::Int32(999), v);

    let v = sql_number_to_value(&ConcreteDataType::string_datatype(), "999");
    assert!(v.is_err(), "parse value error is: {v:?}");
}

#[test]
fn test_sql_number_of_every_integer_type() {
    let n = |t: ConcreteDataType, s: &str| sql_number_to_value(&t, s);
    assert_eq!(Value::UInt8(255), n(ConcreteDataType::uint8_datatype(), "255").unwrap());
    assert_eq!(Value::UInt16(65535), n(ConcreteDataType::uint16_datatype(), "65535").unwrap());
    assert_eq!(Value::UInt32(7), n(ConcreteDataType::uint32_datatype(), "+7").unwrap());
    assert_eq!(
        Value::UInt64(u64::MAX),
        n(ConcreteDataType::uint64_datatype(), "18446744073709551615").unwrap()
    );
    assert_eq!(Value::Int8(-128), n(ConcreteDataType::int8_datatype(), "-128").unwrap());
    assert_eq!(Value::Int16(-1), n(ConcreteDataType::int16_datatype(), "-1").unwrap());
    assert_eq!(Value::Int64(42), n(ConcreteDataType::int64_datatype(), "42").unwrap());
    // A number for a timestamp column is a plain 64-bit integer.
    assert_eq!(
        Value::Int64(1000),
        n(ConcreteDataType::timestamp_millisecond_datatype(), "1000").unwrap()
    );

    let err = n(ConcreteDataType::uint8_datatype(), "256").unwrap_err();
    assert_eq!(
        Error::ParseSqlValue {
            msg: "Fail to parse number 256, ParseIntError { kind: PosOverflow }".to_string()
        },
        err
    );
    let err = n(ConcreteDataType::int16_datatype(), "1x").unwrap_err();
    assert_eq!(
        Error::ParseSqlValue {
            msg: "Fail to parse number 1x, ParseIntError { kind: InvalidDigit }".to_string()
        },
        err
    );
    assert_eq!(
        Error::FloatNumber {
            text: "3.0".to_string()
        },
        n(ConcreteDataType::float64_datatype(), "3.0").unwrap_err()
    );
    assert_eq!(
        Error::FloatNumber {
            text: "3.0".to_string()
        },
        n(ConcreteDataType::float32_datatype(), "3.0").unwrap_err()
    );
    assert_eq!(Ok(12u32), parse_sql_number::<u32>("12"));
    assert!(parse_sql_number::<i32>("").is_err());
}

#[test]
fn test_sql_number_spelling() {
    // Zeros in front and a sign before the digits are read.
    assert_eq!(Ok(7u8), parse_sql_number::<u8>("0007"));
    assert_eq!(Ok(0u8), parse_sql_number::<u8>("+0"));
    assert_eq!(Ok(0i8), parse_sql_number::<i8>("-0"));
    assert_eq!(Ok(-7i32), parse_sql_number::<i32>("-007"));
    assert_eq!(Ok(127i8), parse_sql_number::<i8>("+127"));
    assert_eq!(Ok(i64::MIN), parse_sql_number::<i64>("-9223372036854775808"));
    assert_eq!(Ok(i64::MAX), parse_sql_number::<i64>("9223372036854775807"));
    // An unsigned number takes no `-`, not even before a zero.
    assert!(parse_sql_number::<u8>("-0").is_err());
    assert!(parse_sql_number::<u64>("-1").is_err());
    // A sign alone, two signs, blanks and other digits spell nothing.
    for text in ["", "+", "-", "+-1", "--1", "1-", " 1", "1 ", "1_000", "0x10", "१"] {
        assert!(parse_sql_number::<i64>(text).is_err(), "{text:?}");
        assert!(parse_sql_number::<u16>(text).is_err(), "{text:?}");
    }
    // One beyond either end of the type.
    assert!(parse_sql_number::<i8>("128").is_err());
    assert!(parse_sql_number::<i8>("-129").is_err());
    assert!(parse_sql_number::<u16>("65536").is_err());
    assert!(parse_sql_number::<i64>("9223372036854775808").is_err());
    assert!(parse_sql_number::<i64>("-9223372036854775809").is_err());
    assert!(parse_sql_number::<u64>("18446744073709551616").is_err());
}

#[test]
fn test_sql_value_to_value() {
    let sql_val = SqlValue::Null;
    assert_eq!(
        Value::Null,
        sql_value_to_value("a", &ConcreteDataType::float64_datatype(), &sql_val).unwrap()
    );

    let sql_val = SqlValue::Boolean(true);
    assert_eq!(
        Value::Boolean(true),
        sql_value_to_value("a", &ConcreteDataType::boolean_datatype(), &sql_val).unwrap()
    );

    let sql_val = SqlValue::Number("3.0".to_string(), false);
    assert_eq!(
        Err(Error::FloatNumber {
            text: "3.0".to_string()
        }),
        sql_value_to_value("a", &ConcreteDataType::float64_datatype(), &sql_val)
    );

    let sql_val = SqlValue::Number("3.0".to_string(), false);
    let v = sql_value_to_value("a", &ConcreteDataType::boolean_datatype(), &sql_val);
    assert!(v.is_err());
    assert!(format!("{v:?}")
        .contains("Fail to parse number 3.0, invalid column type: Boolean(BooleanType)"));

    let sql_val = SqlValue::Boolean(true);
    let v = sql_value_to_value("a", &ConcreteDataType::float64_datatype(), &sql_val);
    assert!(v.is_err());
    assert!(
        format!("{v:?}").contains(
            "column_name: \"a\", expect: Float64(Float64Type), actual: Boolean(BooleanType)"
        ),
        "v is {v:?}",
    );

    let sql_val = SqlValue::HexStringLiteral("48656c6c6f20776f726c6421".to_string());
    let v = sql_value_to_value("a", &ConcreteDataType::binary_datatype(), &sql_val).unwrap();
    assert_eq!(Value::Binary(b"Hello world!".to_vec()), v);

    let sql_val = SqlValue::HexStringLiteral("9AF".to_string());
    let v = sql_value_to_value("a", &ConcreteDataType::binary_datatype(), &sql_val);
    assert!(v.is_err());
    assert!(
        format!("{v:?}").contains("odd number of digits"),
        "v is {v:?}"
    );

    let sql_val = SqlValue::HexStringLiteral("AG".to_string());
    let v = sql_value_to_value("a", &ConcreteDataType::binary_datatype(), &sql_val);
    assert!(v.is_err());
    assert!(format!("{v:?}").contains("invalid character"), "v is {v:?}",);
}

#[test]
fn test_hex_string_details() {
    assert_eq!(Value::Binary(vec![]), parse_hex_string("").unwrap());
    assert_eq!(
        Value::Binary(vec![0x00, 0xff, 0xab, 0xcd]),
        parse_hex_string("00fFAbcD").unwrap()
    );
    assert_eq!(
        Error::ParseSqlValue {
            msg: "Fail to parse hex string to Byte: odd number of digits".to_string()
        },
        parse_hex_string("abc").unwrap_err()
    );
    // An odd length is reported before a bad digit.
    assert_eq!(
        Error::ParseSqlValue {
            msg: "Fail to parse hex string to Byte: odd number of digits".to_string()
        },
        parse_hex_string("zzz").unwrap_err()
    );
    // The first bad digit is the one that is reported.
    assert_eq!(
        Error::ParseSqlValue {
            msg: "Fail to parse hex string to Byte: invalid character 'x' at position 3"
                .to_string()
        },
        parse_hex_string("0a1xyz").unwrap_err()
    );
    // A position of several digits, and a character that is written with
    // an escape.
    assert_eq!(
        Error::ParseSqlValue {
            msg: "Fail to parse hex string to Byte: invalid character '\\'' at position 120"
                .to_string()
        },
        parse_hex_string(&format!("{}'0", "ab".repeat(60))).unwrap_err()
    );
    assert_eq!(
        Error::ParseSqlValue {
            msg: "Unsupported sql value".to_string()
        },
        sql_value_to_value(
            "a",
            &ConcreteDataType::string_datatype(),
            &SqlValue::Placeholder("?".to_string())
        )
        .unwrap_err()
    );
}

#[test]
fn test_decimal_string() {
    for n in [0usize, 1, 9, 10, 11, 99, 100, 101, 1_000, 65_535, 1_234_567_890, usize::MAX] {
        assert_eq!(n.to_string(), decimal_string(n));
    }
}

#[test]
pub fn test_parse_date_literal() {
    let value = sql_value_to_value(
        "date",
        &ConcreteDataType::date_datatype(),
        &SqlValue::DoubleQuotedString("2022-02-22".to_string()),
    )
    .unwrap();
    assert_eq!(ConcreteDataType::date_datatype(), value.data_type());
    if let Value::Date(d) = value {
        assert_eq!(19045, d);
    } else {
        unreachable!()
    }
}

#[test]
pub fn test_parse_datetime_literal() {
    let value = sql_value_to_value(
        "datetime_col",
        &ConcreteDataType::datetime_datatype(),
        &SqlValue::DoubleQuotedString("2022-02-22 00:01:03".to_string()),
    )
    .unwrap();
    assert_eq!(ConcreteDataType::datetime_datatype(), value.data_type());
    if let Value::DateTime(d) = value {
        assert_eq!(1645488063, d);
    } else {
        unreachable!()
    }
}

#[test]
pub fn test_parse_illegal_datetime_literal() {
    assert!(sql_value_to_value(
        "datetime_col",
        &ConcreteDataType::datetime_datatype(),
        &SqlValue::DoubleQuotedString("2022-02-22 00:01:61".to_string()),
    )
    .is_err());
}

#[test]
fn test_parse_timestamp_literal() {
    match parse_string_to_value(
        "timestamp_col",
        "2022-02-22T00:01:01+08:00".to_string(),
        &ConcreteDataType::timestamp_millisecond_datatype(),
    )
    .unwrap()
    {
        Value::Timestamp(ts) => {
            assert_eq!(1645459261000, ts.value());
            assert_eq!(TimeUnit::Millisecond, ts.unit());
        }
        _ => {
            unreachable!()
        }
    }

    match parse_string_to_value(
        "timestamp_col",
        "2022-02-22T00:01:01+08:00".to_string(),
        &ConcreteDataType::timestamp_datatype(TimeUnit::Second),
    )
    .unwrap()
    {
        Value::Timestamp(ts) => {
            assert_eq!(1645459261, ts.value());
            assert_eq!(TimeUnit::Second, ts.unit());
        }
        _ => {
            unreachable!()
        }
    }

    match parse_string_to_value(
        "timestamp_col",
        "2022-02-22T00:01:01+08:00".to_string(),
        &ConcreteDataType::timestamp_datatype(TimeUnit::Microsecond),
    )
    .unwrap()
    {
        Value::Timestamp(ts) => {
            assert_eq!(1645459261000000, ts.value());
            assert_eq!(TimeUnit::Microsecond, ts.unit());
        }
        _ => {
            unreachable!()
        }
    }

    match parse_string_to_value(
        "timestamp_col",
        "2022-02-22T00:01:01+08:00".to_string(),
        &ConcreteDataType::timestamp_datatype(TimeUnit::Nanosecond),
    )
    .unwrap()
    {
        Value::Timestamp(ts) => {
            assert_eq!(1645459261000000000, ts.value());
            assert_eq!(TimeUnit::Nanosecond, ts.unit());
        }
        _ => {
            unreachable!()
        }
    }

    assert!(parse_string_to_value(
        "timestamp_col",
        "2022-02-22T00:01:01+08".to_string(),
        &ConcreteDataType::timestamp_datatype(TimeUnit::Nanosecond),
    )
    .is_err());
}

#[test]
fn test_parse_string_of_each_kind() {
    assert_eq!(
        Value::String("x y".to_string()),
        parse_string_to_value("c", "x y".to_string(), &ConcreteDataType::string_datatype())
            .unwrap()
    );
    assert_eq!(
        Error::ColumnTypeMismatch {
            column_name: "c".to_string(),
            expect: ConcreteDataType::int32_datatype(),
            actual: ConcreteDataType::string_datatype(),
        },
        parse_string_to_value("c", "1".to_string(), &ConcreteDataType::int32_datatype())
            .unwrap_err()
    );
    assert_eq!(
        Error::ParseSqlValue {
            msg: "Failed to parse 2022-02-30 to Date value".to_string()
        },
        parse_string_to_value(
            "c",
            "2022-02-30".to_string(),
            &ConcreteDataType::date_datatype()
        )
        .unwrap_err()
    );
    assert_eq!(
        Error::ParseSqlValue {
            msg: "Failed to parse 2022-02-22T00:01:03 to DateTime value".to_string()
        },
        parse_string_to_value(
            "c",
            "2022-02-22T00:01:03".to_string(),
            &ConcreteDataType::datetime_datatype()
        )
        .unwrap_err()
    );
    assert_eq!(
        Error::ParseSqlValue {
            msg: "Failed to parse yesterday to Timestamp value".to_string()
        },
        parse_string_to_value(
            "c",
            "yesterday".to_string(),
            &ConcreteDataType::timestamp_millisecond_datatype()
        )
        .unwrap_err()
    );
    // Before the epoch the count is rounded towards zero.
    assert_eq!(
        Value::Timestamp(Timestamp::new(-1, TimeUnit::Second)),
        parse_string_to_value(
            "c",
            "1969-12-31 23:59:58.5Z".to_string(),
            &ConcreteDataType::timestamp_datatype(TimeUnit::Second)
        )
        .unwrap()
    );
}

#[test]
pub fn test_parse_column_default_constraint() {
    let bool_value = SqlValue::Boolean(true);

    let opts = vec![
        ColumnOptionDef {
            name: None,
            option: ColumnOption::Default(Expr::Value(bool_value)),
        },
        ColumnOptionDef {
            name: None,
            option: ColumnOption::NotNull,
        },
    ];

    let constraint =
        parse_column_default_constraint("coll", &ConcreteDataType::Boolean(BooleanType), &opts)
            .unwrap();

    assert!(matches!(
        constraint,
        Some(ColumnDefaultConstraint::Value(Value::Boolean(true)))
    ));
}

#[test]
fn test_default_constraint_of_each_kind() {
    let default = |expr: Expr| {
        vec![
            ColumnOptionDef {
                name: None,
                option: ColumnOption::Comment("c".to_string()),
            },
            ColumnOptionDef {
                name: None,
                option: ColumnOption::Default(expr),
            },
            ColumnOptionDef {
                name: None,
                option: ColumnOption::Default(Expr::Value(SqlValue::Null)),
            },
        ]
    };
    let t = ConcreteDataType::timestamp_millisecond_datatype();
    assert_eq!(Ok(None), parse_column_default_constraint("c", &t, &[]));
    // The text of a function is put in lower case.
    assert_eq!(
        Ok(Some(ColumnDefaultConstraint::Function(
            "current_timestamp()".to_string()
        ))),
        parse_column_default_constraint(
            "c",
            &t,
            &default(Expr::Function("CURRENT_TIMESTAMP()".to_string()))
        )
    );
    let expr = Expr::Identifier(Ident::new("other"));
    assert_eq!(
        Err(Error::UnsupportedDefaultValue {
            column_name: "c".to_string(),
            expr: expr.clone()
        }),
        parse_column_default_constraint("c", &t, &default(expr))
    );
    // The first default decides.
    assert_eq!(
        Ok(Some(ColumnDefaultConstraint::Value(Value::Int64(5)))),
        parse_column_default_constraint(
            "c",
            &t,
            &default(Expr::Value(SqlValue::Number("5".to_string(), false)))
        )
    );
}

#[test]
pub fn test_sql_column_def_to_grpc_column_def() {
    // test basic
    let column_def = ColumnDef {
        name: Ident::new("col"),
        data_type: SqlDataType::Double,
        collation: None,
        options: vec![],
    };

    let grpc_column_def = sql_column_def_to_grpc_column_def(column_def).unwrap();

    assert_eq!("col", grpc_column_def.name);
    assert!(grpc_column_def.is_nullable); // nullable when options are empty
    assert_eq!(ColumnDataType::Float64, grpc_column_def.datatype);
    assert!(grpc_column_def.default_constraint.is_none());

    // test not null
    let column_def = ColumnDef {
        name: Ident::new("col"),
        data_type: SqlDataType::Double,
        collation: None,
        options: vec![ColumnOptionDef {
            name: None,
            option: ColumnOption::NotNull,
        }],
    };

    let grpc_column_def = sql_column_def_to_grpc_column_def(column_def).unwrap();
    assert!(!grpc_column_def.is_nullable);
}

#[test]
pub fn test_column_def_to_schema() {
    let column_def = ColumnDef {
        name: Ident::new("col"),
        data_type: SqlDataType::Double,
        collation: None,
        options: vec![],
    };

    let column_schema = column_def_to_schema(&column_def, false).unwrap();

    assert_eq!("col", column_schema.name);
    assert_eq!(
        ConcreteDataType::float64_datatype(),
        column_schema.data_type
    );
    assert!(column_schema.is_nullable());
    assert!(!column_schema.is_time_index());

    let column_schema = column_def_to_schema(&column_def, true).unwrap();

    assert_eq!("col", column_schema.name);
    assert_eq!(
        ConcreteDataType::float64_datatype(),
        column_schema.data_type
    );
    assert!(!column_schema.is_nullable());
    assert!(column_schema.is_time_index());

    let column_def = ColumnDef {
        name: Ident::new("col2"),
        data_type: SqlDataType::String,
        collation: None,
        options: vec![ColumnOptionDef {
            name: None,
            option: ColumnOption::NotNull,
        }],
    };

    let column_schema = column_def_to_schema(&column_def, false).unwrap();

    assert_eq!("col2", column_schema.name);
    assert_eq!(ConcreteDataType::string_datatype(), column_schema.data_type);
    assert!(!column_schema.is_nullable());
    assert!(!column_schema.is_time_index());
}

#[test]
fn test_column_def_with_default() {
    let with = |data_type: SqlDataType, options: Vec<ColumnOption>| ColumnDef {
        name: Ident::new("c"),
        data_type,
        collation: None,
        options: options
            .into_iter()
            .map(|option| ColumnOptionDef { name: None, option })
            .collect(),
    };
    let number = |n: &str| ColumnOption::Default(Expr::Value(SqlValue::Number(n.to_string(), false)));

    let schema = column_def_to_schema(&with(SqlDataType::Int(None), vec![number("7")]), false)
        .unwrap();
    assert_eq!(
        Some(&ColumnDefaultConstraint::Value(Value::Int32(7))),
        schema.default_constraint()
    );

    // A null default needs a nullable column.
    let null = ColumnOption::Default(Expr::Value(SqlValue::Null));
    let err = column_def_to_schema(
        &with(SqlDataType::Int(None), vec![ColumnOption::NotNull, null.clone()]),
        false,
    )
    .unwrap_err();
    assert_eq!(
        Error::InvalidDefault {
            column: "c".to_string(),
            source: DataTypeError::NullDefault
        },
        err
    );
    assert!(column_def_to_schema(&with(SqlDataType::Int(None), vec![null]), false).is_ok());

    // A function must be current_timestamp() on a timestamp column.
    let now = ColumnOption::Default(Expr::Function("Current_Timestamp()".to_string()));
    let schema = column_def_to_schema(
        &with(
            SqlDataType::Timestamp(None, TimezoneInfo::Unspecified),
            vec![now.clone()],
        ),
        true,
    )
    .unwrap();
    assert_eq!(
        Some(&ColumnDefaultConstraint::Function(
            "current_timestamp()".to_string()
        )),
        schema.default_constraint()
    );
    let err = column_def_to_schema(&with(SqlDataType::Int(None), vec![now]), false).unwrap_err();
    assert!(matches!(
        err,
        Error::InvalidDefault {
            source: DataTypeError::DefaultValueType { .. },
            ..
        }
    ));
    let err = column_def_to_schema(
        &with(
            SqlDataType::Timestamp(None, TimezoneInfo::Unspecified),
            vec![ColumnOption::Default(Expr::Function("now()".to_string()))],
        ),
        false,
    )
    .unwrap_err();
    assert_eq!(
        Error::InvalidDefault {
            column: "c".to_string(),
            source: DataTypeError::UnsupportedDefaultExpr {
                expr: "now()".to_string()
            }
        },
        err
    );
    // The errors of the type and of the literal come through.
    assert!(matches!(
        column_def_to_schema(&with(SqlDataType::Uuid, vec![]), false).unwrap_err(),
        Error::SqlTypeNotSupported { .. }
    ));
    assert!(matches!(
        column_def_to_schema(&with(SqlDataType::Int(None), vec![number("x")]), false)
            .unwrap_err(),
        Error::ParseSqlValue { .. }
    ));
    // A timestamp column with a number as default: the number is a 64-bit
    // integer, which is not of the column's type.
    assert!(matches!(
        column_def_to_schema(
            &with(
                SqlDataType::Timestamp(None, TimezoneInfo::Unspecified),
                vec![number("5")]
            ),
            false
        )
        .unwrap_err(),
        Error::InvalidDefault { .. }
    ));
}

#[test]
fn test_table_idents_to_full_name() {
    let name = |parts: &[&str]| ObjectName(parts.iter().map(|p| Ident::new(p)).collect());
    let full = |c: &str, s: &str, t: &str| Ok((c.to_string(), s.to_string(), t.to_string()));
    assert_eq!(
        full("greptime", "public", "t"),
        table_idents_to_full_name(&name(&["t"]))
    );
    assert_eq!(
        full("greptime", "s", "t"),
        table_idents_to_full_name(&name(&["s", "t"]))
    );
    assert_eq!(
        full("c", "s", "t"),
        table_idents_to_full_name(&name(&["c", "s", "t"]))
    );
    assert_eq!(
        Err(Error::InvalidSql {
            msg: "expect table name to be <catalog>.<schema>.<table>, <schema>.<table> or <table>, actual: a.b.c.d"
                .to_string()
        }),
        table_idents_to_full_name(&name(&["a", "b", "c", "d"]))
    );
    assert_eq!(
        Err(Error::InvalidSql {
            msg: "expect table name to be <catalog>.<schema>.<table>, <schema>.<table> or <table>, actual: "
                .to_string()
        }),
        table_idents_to_full_name(&name(&[]))
    );
}
