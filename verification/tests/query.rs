use std::sync::Arc;

use greptime::datatypes::arrow::{ArrowArray, ArrowDataType, ArrowField, ArrowSchema};
use greptime::datatypes::data_type::{ConcreteDataType, TimeUnit};
use greptime::datatypes::scalar::ScalarValue;
use greptime::datatypes::schema::{ColumnSchema, Schema};
use greptime::datatypes::vectors::{Int32Vector, Vector};
use greptime::query::datafusion::{
    single_statement, DatafusionQueryEngine, Error as QueryError, Execution, StreamPlan,
};
use greptime::query::optimizer::{
    rewrite_each, string_to_timestamp_ms, timestamp_to_timestamp_ms_expr, Expr, LogicalPlan,
    NoCast, Operator, PlanAction, PlanKind, ScalarCast, TypeConversionRule, TypeConverter,
};
use greptime::query::physical_plan::{
    DfPhysicalPlan, DfPhysicalPlanAdapter, Error as PlanError, Partitioning, PhysicalPlanAdapter,
};
use greptime::recordbatch::adapter::{
    ArrowError, AsyncRecordBatchStreamAdapter, DataFusionError, DfRecordBatch,
    DfRecordBatchStreamAdapter, DfSendableRecordBatchStream, FutureStream, Polled,
    RecordBatchStreamAdapter, SendableRecordBatchStream,
};
use greptime::recordbatch::batch::{Error as BatchError, RecordBatch, RecordBatches};

fn column(name: &str) -> Expr {
    Expr::Column(name.to_string())
}

fn utf8(text: &str) -> Expr {
    Expr::Literal(ScalarValue::Utf8(Some(text.to_string())))
}

fn binary(left: Expr, op: Operator, right: Expr) -> Expr {
    Expr::BinaryExpr {
        left: Box::new(left),
        op,
        right: Box::new(right),
    }
}

fn schema_of(fields: &[(&str, ArrowDataType)]) -> Arc<ArrowSchema> {
    Arc::new(ArrowSchema {
        fields: fields
            .iter()
            .map(|(name, data_type)| ArrowField {
                name: name.to_string(),
                data_type: *data_type,
                nullable: true,
            })
            .collect(),
    })
}

fn converter(fields: &[(&str, ArrowDataType)]) -> TypeConverter<NoCast> {
    TypeConverter {
        schemas: vec![schema_of(fields)],
        caster: NoCast,
    }
}

#[test]
fn test_string_to_timestamp_ms() {
    assert!(matches!(
        string_to_timestamp_ms("2022-02-02 19:00:00+08:00").unwrap(),
        ScalarValue::TimestampMillisecond(Some(1643799600000))
    ));
    assert!(matches!(
        string_to_timestamp_ms("2009-02-13 23:31:30Z").unwrap(),
        ScalarValue::TimestampMillisecond(Some(1234567890000))
    ));
}

#[test]
fn test_string_to_timestamp_ms_edges() {
    assert!(matches!(
        string_to_timestamp_ms("not a time").unwrap_err(),
        DataFusionError::External(_)
    ));
    // Before the epoch the count is rounded towards zero.
    assert_eq!(
        ScalarValue::TimestampMillisecond(Some(0)),
        string_to_timestamp_ms("1969-12-31T23:59:59.9995Z").unwrap()
    );
    assert_eq!(
        ScalarValue::TimestampMillisecond(Some(-1)),
        string_to_timestamp_ms("1969-12-31T23:59:59.999Z").unwrap()
    );
}

#[test]
fn test_timestamp_to_timestamp_ms_expr() {
    assert!(matches!(
        timestamp_to_timestamp_ms_expr(123, TimeUnit::Second),
        Expr::Literal(ScalarValue::TimestampMillisecond(Some(123000)))
    ));

    assert!(matches!(
        timestamp_to_timestamp_ms_expr(123, TimeUnit::Millisecond),
        Expr::Literal(ScalarValue::TimestampMillisecond(Some(123)))
    ));

    assert!(matches!(
        timestamp_to_timestamp_ms_expr(123, TimeUnit::Microsecond),
        Expr::Literal(ScalarValue::TimestampMillisecond(Some(0)))
    ));

    assert!(matches!(
        timestamp_to_timestamp_ms_expr(1230, TimeUnit::Microsecond),
        Expr::Literal(ScalarValue::TimestampMillisecond(Some(1)))
    ));

    assert!(matches!(
        timestamp_to_timestamp_ms_expr(123000, TimeUnit::Microsecond),
        Expr::Literal(ScalarValue::TimestampMillisecond(Some(123)))
    ));

    assert!(matches!(
        timestamp_to_timestamp_ms_expr(1230, TimeUnit::Nanosecond),
        Expr::Literal(ScalarValue::TimestampMillisecond(Some(0)))
    ));
    assert!(matches!(
        timestamp_to_timestamp_ms_expr(123_000_000, TimeUnit::Nanosecond),
        Expr::Literal(ScalarValue::TimestampMillisecond(Some(123)))
    ));
}

#[test]
fn test_timestamp_to_timestamp_ms_expr_edges() {
    let ms = |val: i64, unit: TimeUnit| match timestamp_to_timestamp_ms_expr(val, unit) {
        Expr::Literal(ScalarValue::TimestampMillisecond(Some(v))) => v,
        other => panic!("{other:?}"),
    };
    assert_eq!(-1, ms(-1999, TimeUnit::Microsecond));
    assert_eq!(0, ms(-999, TimeUnit::Microsecond));
    assert_eq!(-9223372036854, ms(i64::MIN, TimeUnit::Nanosecond));
    assert_eq!(i64::MAX.wrapping_mul(1000), ms(i64::MAX, TimeUnit::Second));
    assert_eq!(i64::MIN, ms(i64::MIN, TimeUnit::Millisecond));
}

#[test]
fn test_convert_timestamp_str() {
    let mut converter = converter(&[("ts", ArrowDataType::Timestamp(TimeUnit::Millisecond))]);

    assert_eq!(
        binary(
            column("ts"),
            Operator::Gt,
            Expr::Literal(ScalarValue::TimestampMillisecond(Some(1599514949000)))
        ),
        converter
            .mutate(binary(
                column("ts"),
                Operator::Gt,
                utf8("2020-09-08T05:42:29+08:00")
            ))
            .unwrap()
    );
}

#[test]
fn test_convert_bool() {
    let col_name = "is_valid";
    let mut converter = converter(&[(col_name, ArrowDataType::Boolean)]);

    assert_eq!(
        binary(
            column(col_name),
            Operator::Eq,
            Expr::Literal(ScalarValue::Boolean(Some(true)))
        ),
        converter
            .mutate(binary(column(col_name), Operator::Eq, utf8("true")))
            .unwrap()
    );
}

#[test]
fn test_mutate_of_each_kind() {
    let mut c = converter(&[
        ("ts", ArrowDataType::Timestamp(TimeUnit::Second)),
        ("ok", ArrowDataType::Boolean),
        ("n", ArrowDataType::Int32),
    ]);
    // The literal may stand on the left.
    assert_eq!(
        binary(
            Expr::Literal(ScalarValue::Boolean(Some(false))),
            Operator::NotEq,
            column("ok")
        ),
        c.mutate(binary(utf8("FALSE"), Operator::NotEq, column("ok")))
            .unwrap()
    );
    // A string that is no boolean gives a null, which is refused.
    assert!(matches!(
        c.mutate(binary(column("ok"), Operator::Eq, utf8("maybe")))
            .unwrap_err(),
        DataFusionError::Plan(_)
    ));
    // A string that is no timestamp is refused.
    assert!(matches!(
        c.mutate(binary(column("ts"), Operator::Lt, utf8("yesterday")))
            .unwrap_err(),
        DataFusionError::External(_)
    ));
    // Other casts are left to the caster, which here supports none.
    assert!(matches!(
        c.mutate(binary(column("n"), Operator::Eq, utf8("1"))).unwrap_err(),
        DataFusionError::ArrowError(ArrowError::ComputeError(_))
    ));
    // Nothing is converted where no side is a known column, where both are,
    // or where the operator does not compare.
    assert_eq!(
        binary(column("unknown"), Operator::Eq, utf8("true")),
        c.mutate(binary(column("unknown"), Operator::Eq, utf8("true")))
            .unwrap()
    );
    assert_eq!(
        binary(column("ok"), Operator::Eq, column("ts")),
        c.mutate(binary(column("ok"), Operator::Eq, column("ts")))
            .unwrap()
    );
    assert_eq!(
        binary(column("ok"), Operator::And, utf8("true")),
        c.mutate(binary(column("ok"), Operator::And, utf8("true")))
            .unwrap()
    );
    // Timestamp literals become milliseconds; nulls stay.
    assert_eq!(
        Expr::Literal(ScalarValue::TimestampMillisecond(Some(5000))),
        c.mutate(Expr::Literal(ScalarValue::TimestampSecond(Some(5))))
            .unwrap()
    );
    assert_eq!(
        Expr::Literal(ScalarValue::TimestampSecond(None)),
        c.mutate(Expr::Literal(ScalarValue::TimestampSecond(None)))
            .unwrap()
    );
    assert_eq!(column("ts"), c.mutate(column("ts")).unwrap());

    let between = |low: Expr, high: Expr| Expr::Between {
        expr: Box::new(column("ts")),
        negated: true,
        low: Box::new(low),
        high: Box::new(high),
    };
    let ms = |v: i64| Expr::Literal(ScalarValue::TimestampMillisecond(Some(v)));
    assert_eq!(
        between(ms(0), ms(1000)),
        c.mutate(between(
            utf8("1970-01-01T00:00:00Z"),
            utf8("1970-01-01T00:00:01Z")
        ))
        .unwrap()
    );
    assert!(c
        .mutate(between(utf8("1970-01-01T00:00:00Z"), utf8("later")))
        .is_err());

    let in_list = |list: Vec<Expr>| Expr::InList {
        expr: Box::new(column("ok")),
        list,
        negated: false,
    };
    assert_eq!(
        in_list(vec![
            Expr::Literal(ScalarValue::Boolean(Some(true))),
            column("n"),
            Expr::Literal(ScalarValue::Boolean(Some(false))),
        ]),
        c.mutate(in_list(vec![utf8("true"), column("n"), utf8("false")]))
            .unwrap()
    );
    assert_eq!(in_list(vec![]), c.mutate(in_list(vec![])).unwrap());
    assert!(c.mutate(in_list(vec![utf8("true"), utf8("x")])).is_err());
}

#[test]
fn test_column_type_takes_the_first_schema() {
    let c = TypeConverter {
        schemas: vec![
            schema_of(&[("a", ArrowDataType::Int8)]),
            schema_of(&[("a", ArrowDataType::Utf8), ("b", ArrowDataType::Boolean)]),
        ],
        caster: NoCast,
    };
    assert_eq!(Some(ArrowDataType::Int8), c.column_type(&column("a")));
    assert_eq!(Some(ArrowDataType::Boolean), c.column_type(&column("b")));
    assert_eq!(None, c.column_type(&column("c")));
    assert_eq!(None, c.column_type(&utf8("a")));
    assert!(NoCast
        .cast(&ScalarValue::Int8(Some(1)), &ArrowDataType::Int16)
        .is_err());
}

#[test]
fn test_type_conversion_rule() {
    let rule = TypeConversionRule;
    assert_eq!("TypeConversionRule", rule.name());
    for kind in [
        PlanKind::Subquery,
        PlanKind::SubqueryAlias,
        PlanKind::CreateView,
        PlanKind::CreateCatalogSchema,
        PlanKind::CreateCatalog,
        PlanKind::EmptyRelation,
        PlanKind::Prepare,
    ] {
        assert_eq!(PlanAction::Keep, rule.action(kind));
    }
    for kind in [
        PlanKind::Filter,
        PlanKind::TableScan,
        PlanKind::Projection,
        PlanKind::Join,
        PlanKind::Values,
        PlanKind::Analyze,
    ] {
        assert_eq!(PlanAction::Rewrite, rule.action(kind));
    }
}

fn ms(value: i64) -> Expr {
    Expr::Literal(ScalarValue::TimestampMillisecond(Some(value)))
}

/// A cast that hands a timestamp in milliseconds on to a column of
/// timestamps in milliseconds, and supports nothing else.
struct MillisOnly;

impl ScalarCast for MillisOnly {
    fn outcome(&self, value: ScalarValue, target: ArrowDataType) -> Option<ScalarValue> {
        match (value, target) {
            (
                ScalarValue::TimestampMillisecond(v),
                ArrowDataType::Timestamp(TimeUnit::Millisecond),
            ) => Some(ScalarValue::TimestampMillisecond(v)),
            _ => None,
        }
    }

    fn cast(
        &self,
        value: &ScalarValue,
        target: &ArrowDataType,
    ) -> Result<ScalarValue, DataFusionError> {
        match (value, target) {
            (
                ScalarValue::TimestampMillisecond(v),
                ArrowDataType::Timestamp(TimeUnit::Millisecond),
            ) => Ok(ScalarValue::TimestampMillisecond(*v)),
            _ => Err(DataFusionError::Plan("unsupported cast".to_string())),
        }
    }
}

fn millis_converter(fields: &[(&str, ArrowDataType)]) -> TypeConverter<MillisOnly> {
    TypeConverter {
        schemas: vec![schema_of(fields)],
        caster: MillisOnly,
    }
}

#[test]
fn test_rewrite_reaches_every_part() {
    let mut c = millis_converter(&[
        ("ts", ArrowDataType::Timestamp(TimeUnit::Millisecond)),
        ("ok", ArrowDataType::Boolean),
    ]);
    // A comparison below a negation and a conjunction.
    let written = Expr::Not(Box::new(binary(
        binary(column("ts"), Operator::Gt, utf8("1970-01-01T00:00:01Z")),
        Operator::And,
        binary(utf8("TRUE"), Operator::Eq, column("ok")),
    )));
    let expected = Expr::Not(Box::new(binary(
        binary(column("ts"), Operator::Gt, ms(1000)),
        Operator::And,
        binary(
            Expr::Literal(ScalarValue::Boolean(Some(true))),
            Operator::Eq,
            column("ok"),
        ),
    )));
    assert_eq!(expected, c.rewrite(written).unwrap());

    // A timestamp literal in seconds below a test for null; `mutate` alone
    // leaves it as it is.
    let written = || {
        Expr::IsNull(Box::new(Expr::Literal(ScalarValue::TimestampSecond(Some(
            3,
        )))))
    };
    assert_eq!(Expr::IsNull(Box::new(ms(3000))), c.rewrite(written()).unwrap());
    assert_eq!(written(), c.mutate(written()).unwrap());

    // The bounds of a range and the items of a list, which are themselves
    // rewritten first.
    let between = Expr::Between {
        expr: Box::new(column("ts")),
        negated: true,
        low: Box::new(Expr::Literal(ScalarValue::TimestampSecond(Some(1)))),
        high: Box::new(utf8("1970-01-01 00:00:02")),
    };
    assert_eq!(
        Expr::Between {
            expr: Box::new(column("ts")),
            negated: true,
            low: Box::new(ms(1000)),
            high: Box::new(ms(2000)),
        },
        c.rewrite(between).unwrap()
    );
    let in_list = Expr::InList {
        expr: Box::new(column("ts")),
        list: vec![
            utf8("1970-01-01T00:00:03Z"),
            Expr::Literal(ScalarValue::TimestampMicrosecond(Some(4_000_999))),
            utf8("1970-01-01T00:00:05Z"),
        ],
        negated: false,
    };
    assert_eq!(
        Expr::InList {
            expr: Box::new(column("ts")),
            list: vec![ms(3000), ms(4000), ms(5000)],
            negated: false,
        },
        c.rewrite(in_list).unwrap()
    );

    // What has no parts and is no timestamp stays.
    assert_eq!(column("ts"), c.rewrite(column("ts")).unwrap());
    assert_eq!(
        Expr::Other("now()".to_string()),
        c.rewrite(Expr::Other("now()".to_string())).unwrap()
    );
}

#[test]
fn test_rewrite_fails_on_the_first_bad_part() {
    let mut c = converter(&[("ts", ArrowDataType::Timestamp(TimeUnit::Millisecond))]);
    let bad = || binary(column("ts"), Operator::Lt, utf8("yesterday"));
    assert!(c.mutate(bad()).is_err());
    assert!(c.rewrite(Expr::Not(Box::new(bad()))).is_err());
    assert!(c
        .rewrite(binary(column("ts"), Operator::Or, bad()))
        .is_err());
    assert!(c
        .rewrite(Expr::InList {
            expr: Box::new(column("ts")),
            list: vec![utf8("1970-01-01T00:00:03Z"), Expr::IsNull(Box::new(bad()))],
            negated: false,
        })
        .is_err());
    // The converter is as it was.
    assert_eq!(
        binary(column("ts"), Operator::Lt, ms(0)),
        c.rewrite(binary(column("ts"), Operator::Lt, utf8("1970-01-01T00:00:00Z")))
            .unwrap()
    );
}

#[test]
fn test_rewrite_each_keeps_the_order() {
    let mut c = converter(&[("ts", ArrowDataType::Timestamp(TimeUnit::Millisecond))]);
    let list = vec![
        Expr::Literal(ScalarValue::TimestampSecond(Some(1))),
        column("ts"),
        Expr::Literal(ScalarValue::TimestampNanosecond(Some(2_000_000))),
    ];
    assert_eq!(
        vec![ms(1000), column("ts"), ms(2)],
        rewrite_each(&mut c, list).unwrap()
    );
    assert_eq!(Vec::<Expr>::new(), rewrite_each(&mut c, vec![]).unwrap());
    assert!(rewrite_each(
        &mut c,
        vec![
            column("ts"),
            binary(column("ts"), Operator::Eq, utf8("soon"))
        ]
    )
    .is_err());
}

fn node(
    kind: PlanKind,
    schema: &[(&str, ArrowDataType)],
    expressions: Vec<Expr>,
    inputs: Vec<LogicalPlan>,
) -> LogicalPlan {
    LogicalPlan {
        kind,
        schemas: vec![schema_of(schema)],
        expressions,
        inputs,
    }
}

#[test]
fn test_try_optimize() {
    let ts = [("ts", ArrowDataType::Timestamp(TimeUnit::Millisecond))];
    let ok = [("ok", ArrowDataType::Boolean)];
    let scan = |filter: Expr| node(PlanKind::TableScan, &ts, vec![filter], vec![]);
    let plan = node(
        PlanKind::Projection,
        &ok,
        vec![column("ok")],
        vec![
            node(
                PlanKind::Filter,
                &ok,
                // `ts` is no column of this node's schema: the text stays.
                vec![
                    binary(column("ok"), Operator::Eq, utf8("false")),
                    binary(column("ts"), Operator::Eq, utf8("1970-01-01T00:00:01Z")),
                ],
                vec![scan(binary(
                    column("ts"),
                    Operator::GtEq,
                    utf8("1970-01-01T00:00:01Z"),
                ))],
            ),
            // A kept node stays with all that is below it.
            node(
                PlanKind::SubqueryAlias,
                &ts,
                vec![],
                vec![scan(binary(
                    column("ts"),
                    Operator::GtEq,
                    utf8("1970-01-01T00:00:01Z"),
                ))],
            ),
        ],
    );
    let expected = node(
        PlanKind::Projection,
        &ok,
        vec![column("ok")],
        vec![
            node(
                PlanKind::Filter,
                &ok,
                vec![
                    binary(
                        column("ok"),
                        Operator::Eq,
                        Expr::Literal(ScalarValue::Boolean(Some(false))),
                    ),
                    binary(column("ts"), Operator::Eq, utf8("1970-01-01T00:00:01Z")),
                ],
                vec![scan(binary(column("ts"), Operator::GtEq, ms(1000)))],
            ),
            node(
                PlanKind::SubqueryAlias,
                &ts,
                vec![],
                vec![scan(binary(
                    column("ts"),
                    Operator::GtEq,
                    utf8("1970-01-01T00:00:01Z"),
                ))],
            ),
        ],
    );
    let rule = TypeConversionRule;
    assert_eq!(Some(expected), rule.try_optimize(plan, NoCast).unwrap());
}

#[test]
fn test_try_optimize_fails_with_a_bad_literal() {
    let ts = [("ts", ArrowDataType::Timestamp(TimeUnit::Millisecond))];
    let bad = || binary(column("ts"), Operator::Lt, utf8("yesterday"));
    let rule = TypeConversionRule;
    // In the node itself.
    assert!(rule
        .try_optimize(node(PlanKind::Filter, &ts, vec![bad()], vec![]), NoCast)
        .is_err());
    // Below it.
    assert!(rule
        .try_optimize(
            node(
                PlanKind::Limit,
                &ts,
                vec![],
                vec![node(PlanKind::TableScan, &ts, vec![bad()], vec![])]
            ),
            NoCast
        )
        .is_err());
    // Below a kept node nothing is read.
    let kept = || {
        node(
            PlanKind::Subquery,
            &ts,
            vec![bad()],
            vec![node(PlanKind::TableScan, &ts, vec![bad()], vec![])],
        )
    };
    assert_eq!(Some(kept()), rule.try_optimize(kept(), NoCast).unwrap());
}

fn int_schema(name: &str) -> Arc<Schema> {
    Arc::new(Schema::new(vec![ColumnSchema::new(
        name.to_string(),
        ConcreteDataType::int32_datatype(),
        false,
    )]))
}

fn int_batch(schema: &Arc<Schema>, values: Vec<i32>) -> RecordBatch {
    RecordBatch::new(
        schema.clone(),
        vec![Arc::new(Vector::Int32(Int32Vector::from_vec(values)))],
    )
    .unwrap()
}

fn df_batch(values: Vec<i32>) -> DfRecordBatch {
    int_batch(&int_schema("a"), values).into_df_record_batch()
}

#[test]
fn test_record_batch_new() {
    let schema = int_schema("a");
    let column = |values: Vec<i32>| Arc::new(Vector::Int32(Int32Vector::from_vec(values)));
    assert!(RecordBatch::new(schema.clone(), vec![column(vec![1])]).is_ok());
    assert!(matches!(
        RecordBatch::new(schema.clone(), vec![]).unwrap_err(),
        BatchError::NewDfRecordBatch { .. }
    ));
    let wide = Arc::new(Schema::new(vec![
        ColumnSchema::new("a".to_string(), ConcreteDataType::int32_datatype(), false),
        ColumnSchema::new("b".to_string(), ConcreteDataType::int32_datatype(), false),
    ]));
    assert!(RecordBatch::new(wide.clone(), vec![column(vec![1]), column(vec![1, 2])]).is_err());
    let batch = RecordBatch::new(wide, vec![column(vec![1, 2]), column(vec![3, 4])]).unwrap();
    assert_eq!(2, batch.num_columns());
    assert_eq!(2, batch.num_rows());
    let other = Arc::new(Schema::new(vec![ColumnSchema::new(
        "a".to_string(),
        ConcreteDataType::int64_datatype(),
        false,
    )]));
    assert!(RecordBatch::new(other, vec![column(vec![1])]).is_err());
}

#[test]
fn test_execute_physical_plan() {
    let schema = int_schema("a");
    let df_plan = Arc::new(DfPhysicalPlan {
        schema: Arc::new(schema.arrow_schema()),
        children: vec![],
        partitions: vec![vec![df_batch(vec![1]), df_batch(vec![2, 3])]],
    });
    let plan = PhysicalPlanAdapter::new(schema.clone(), df_plan);
    assert_eq!(
        Partitioning::UnknownPartitioning(1),
        plan.output_partitioning()
    );
    let mut stream = plan.execute(0).unwrap();
    assert_eq!((2, Some(2)), stream.size_hint());
    let mut rows = Vec::new();
    while let Polled::Ready(Some(batch)) = stream.poll_next() {
        let batch = batch.unwrap();
        assert_eq!(*schema, *batch.schema);
        for i in 0..batch.num_rows() {
            rows.push(batch.column(0).get(i));
        }
    }
    assert_eq!(
        vec![
            greptime::datatypes::value::Value::Int32(1),
            greptime::datatypes::value::Value::Int32(2),
            greptime::datatypes::value::Value::Int32(3)
        ],
        rows
    );
    assert!(matches!(
        plan.execute(1).unwrap_err(),
        PlanError::GeneralDataFusion { .. }
    ));
}

#[test]
fn test_physical_plan_adapter() {
    let df_schema = Arc::new(ArrowSchema {
        fields: vec![ArrowField {
            name: "name".to_string(),
            data_type: ArrowDataType::Utf8,
            nullable: true,
        }],
    });
    let child = Arc::new(DfPhysicalPlan {
        schema: df_schema.clone(),
        children: vec![],
        partitions: vec![],
    });
    let df_plan = Arc::new(DfPhysicalPlan {
        schema: df_schema.clone(),
        children: vec![child.clone()],
        partitions: vec![vec![], vec![]],
    });
    let plan = PhysicalPlanAdapter::new(
        Arc::new(Schema::try_from_arrow(&df_schema).unwrap()),
        df_plan.clone(),
    );
    assert_eq!(df_plan, plan.df_plan());
    let children = plan.children();
    assert_eq!(1, children.len());
    assert_eq!(child, children[0].df_plan());
    assert_eq!(plan.schema(), children[0].schema());

    let df_plan = DfPhysicalPlanAdapter(Arc::new(plan));
    assert_eq!(*df_schema, df_plan.schema());
    assert_eq!(2, df_plan.output_partitioning().partition_count());
    assert!(df_plan.output_ordering().is_none());
}

#[test]
fn test_df_record_batch_stream_adapter() {
    let schema = int_schema("a");
    let stream = SendableRecordBatchStream {
        schema: schema.clone(),
        items: vec![
            Err(BatchError::External {
                source: "late".to_string(),
            }),
            Ok(int_batch(&schema, vec![7])),
        ],
    };
    let mut adapter = DfRecordBatchStreamAdapter::new(stream);
    assert_eq!(schema.arrow_schema(), adapter.schema());
    assert_eq!((2, Some(2)), adapter.size_hint());
    match adapter.poll_next() {
        Polled::Ready(Some(Ok(batch))) => {
            assert_eq!(1, batch.columns.len());
            assert_eq!(ArrowDataType::Int32, batch.columns[0].data_type);
            assert_eq!(
                Vector::Int32(Int32Vector::from_vec(vec![7])),
                *batch.columns[0].data
            );
        }
        other => panic!("{other:?}"),
    }
    assert_eq!(
        Polled::Ready(Some(Err(ArrowError::ExternalError(BatchError::External {
            source: "late".to_string()
        })))),
        adapter.poll_next()
    );
    assert_eq!(Polled::Ready(None), adapter.poll_next());
    assert_eq!(Polled::Ready(None), adapter.poll_next());
}

#[test]
fn test_record_batch_stream_adapter() {
    let arrow = Arc::new(int_schema("a").arrow_schema());
    let bad_column = DfRecordBatch {
        schema: arrow.clone(),
        columns: vec![ArrowArray {
            data_type: ArrowDataType::Float16,
            data: Arc::new(Vector::Int32(Int32Vector::from_vec(vec![1]))),
        }],
    };
    let stream = DfSendableRecordBatchStream {
        schema: arrow.clone(),
        items: vec![
            Ok(bad_column),
            Err(ArrowError::ComputeError("boom".to_string())),
            Ok(df_batch(vec![1, 2])),
        ],
    };
    let mut adapter = RecordBatchStreamAdapter::try_new(stream).unwrap();
    assert_eq!(int_schema("a"), adapter.schema());
    match adapter.poll_next() {
        Polled::Ready(Some(Ok(batch))) => assert_eq!(2, batch.num_rows()),
        other => panic!("{other:?}"),
    }
    assert!(matches!(
        adapter.poll_next(),
        Polled::Ready(Some(Err(BatchError::PollStream { .. })))
    ));
    assert!(matches!(
        adapter.poll_next(),
        Polled::Ready(Some(Err(BatchError::NewDfRecordBatch { .. })))
    ));
    assert_eq!(Polled::Ready(None), adapter.poll_next());

    let unsupported = DfSendableRecordBatchStream {
        schema: Arc::new(ArrowSchema {
            fields: vec![ArrowField {
                name: "x".to_string(),
                data_type: ArrowDataType::Interval,
                nullable: false,
            }],
        }),
        items: vec![],
    };
    assert!(matches!(
        RecordBatchStreamAdapter::try_new(unsupported).unwrap_err(),
        BatchError::SchemaConversion { .. }
    ));
}

#[test]
fn test_async_recordbatch_stream_adaptor() {
    let schema = int_schema("a");
    let arrow = Arc::new(schema.arrow_schema());
    let batch1 = int_batch(&schema, vec![1]);
    let batch2 = int_batch(&schema, vec![2]);

    let success_stream = FutureStream {
        pending_polls: 2,
        outcome: Ok(DfSendableRecordBatchStream {
            schema: arrow.clone(),
            items: vec![
                Ok(batch1.duplicate().into_df_record_batch()),
                Ok(batch2.duplicate().into_df_record_batch()),
            ],
        }),
    };
    let mut adapter = AsyncRecordBatchStreamAdapter::new(schema.clone(), success_stream);
    assert_eq!((0, None), adapter.size_hint());
    assert_eq!(Polled::Pending, adapter.poll_next());
    assert_eq!(Polled::Pending, adapter.poll_next());
    let mut collected = Vec::new();
    while let Polled::Ready(Some(item)) = adapter.poll_next() {
        collected.push(item.unwrap());
    }
    assert_eq!(
        RecordBatches::try_new(schema.clone(), collected).unwrap(),
        RecordBatches::try_new(schema.clone(), vec![batch2.clone(), batch1.clone()]).unwrap()
    );
    assert_eq!(Polled::Ready(None), adapter.poll_next());

    let poll_err_stream = FutureStream {
        pending_polls: 0,
        outcome: Ok(DfSendableRecordBatchStream {
            schema: arrow.clone(),
            items: vec![
                Ok(batch1.duplicate().into_df_record_batch()),
                Err(ArrowError::ExternalError(BatchError::External {
                    source: "Unknown".to_string(),
                })),
            ],
        }),
    };
    let mut adapter = AsyncRecordBatchStreamAdapter::new(schema.clone(), poll_err_stream);
    match adapter.poll_next() {
        Polled::Ready(Some(Err(e))) => {
            assert!(matches!(e, BatchError::PollStream { .. }));
            assert_eq!(
                e.message(),
                "Failed to poll stream, source: External error: External error, source: Unknown"
            );
        }
        other => panic!("{other:?}"),
    }
    assert_eq!(Polled::Ready(Some(Ok(batch1.duplicate()))), adapter.poll_next());
    assert_eq!(Polled::Ready(None), adapter.poll_next());

    let failed_to_init_stream = FutureStream {
        pending_polls: 1,
        outcome: Err(DataFusionError::External(
            BatchError::External {
                source: "Internal".to_string(),
            }
            .message(),
        )),
    };
    let mut adapter = AsyncRecordBatchStreamAdapter::new(schema.clone(), failed_to_init_stream);
    assert_eq!(Polled::Pending, adapter.poll_next());
    match adapter.poll_next() {
        Polled::Ready(Some(Err(e))) => {
            assert!(matches!(e, BatchError::InitRecordbatchStream { .. }));
            assert_eq!(
                e.message(),
                "Failed to init Recordbatch stream, source: External error: External error, source: Internal"
            );
        }
        other => panic!("{other:?}"),
    }
    assert_eq!(Polled::Ready(None), adapter.poll_next());
    assert_eq!(Polled::Ready(None), adapter.poll_next());
}

#[test]
fn test_sql_to_statement() {
    let engine = DatafusionQueryEngine::new();
    assert_eq!("datafusion", engine.name());
    let statement = engine
        .sql_to_statement("select sum(number) from numbers limit 20")
        .unwrap();
    assert_eq!(
        "SELECT sum(number) FROM numbers LIMIT 20",
        statement.to_string()
    );
    assert_eq!(
        QueryError::MultipleStatements {
            sql: "select 1; select 2".to_string()
        },
        engine.sql_to_statement("select 1; select 2").unwrap_err()
    );
    assert_eq!(
        QueryError::MultipleStatements { sql: "".to_string() },
        engine.sql_to_statement("").unwrap_err()
    );
    assert!(matches!(
        engine.sql_to_statement("select (").unwrap_err(),
        QueryError::ParseSql { .. }
    ));
    assert!(single_statement("x", vec![]).is_err());
}

#[test]
fn test_execute_stream() {
    let engine = DatafusionQueryEngine::new();
    assert_eq!(StreamPlan::Empty, engine.stream_plan(0));
    assert_eq!(StreamPlan::Single, engine.stream_plan(1));
    assert_eq!(StreamPlan::Coalesce, engine.stream_plan(2));

    let schema = int_schema("a");
    let plan_of = |partitions: Vec<Vec<DfRecordBatch>>| {
        engine
            .create_physical_plan(Arc::new(DfPhysicalPlan {
                schema: Arc::new(schema.arrow_schema()),
                children: vec![],
                partitions,
            }))
            .unwrap()
    };
    assert_eq!(
        Execution::Empty,
        engine.execute_stream(&plan_of(vec![])).unwrap()
    );
    // Several partitions come out as one stream, one partition after the
    // other, each batch once.
    match engine
        .execute_stream(&plan_of(vec![
            vec![df_batch(vec![1]), df_batch(vec![2, 3])],
            vec![],
            vec![df_batch(vec![4])],
        ]))
        .unwrap()
    {
        Execution::Stream(mut stream) => {
            assert_eq!(schema, stream.schema());
            for expected in [vec![1], vec![2, 3], vec![4]] {
                assert_eq!(
                    Polled::Ready(Some(Ok(int_batch(&schema, expected)))),
                    stream.poll_next()
                );
            }
            assert_eq!(Polled::Ready(None), stream.poll_next());
            assert_eq!(Polled::Ready(None), stream.poll_next());
        }
        other => panic!("{other:?}"),
    }
    match engine.execute_stream(&plan_of(vec![vec![], vec![]])).unwrap() {
        Execution::Stream(mut stream) => assert_eq!(Polled::Ready(None), stream.poll_next()),
        other => panic!("{other:?}"),
    }
    match engine
        .execute_stream(&plan_of(vec![vec![df_batch(vec![4, 5])]]))
        .unwrap()
    {
        Execution::Stream(mut stream) => {
            assert_eq!(schema, stream.schema());
            assert_eq!(
                Polled::Ready(Some(Ok(int_batch(&schema, vec![4, 5])))),
                stream.poll_next()
            );
            assert_eq!(Polled::Ready(None), stream.poll_next());
        }
        other => panic!("{other:?}"),
    }
    // A plan whose wire schema does not convert cannot be run.
    let unconverted = PhysicalPlanAdapter::new(
        schema.clone(),
        Arc::new(DfPhysicalPlan {
            schema: Arc::new(ArrowSchema {
                fields: vec![ArrowField {
                    name: "x".to_string(),
                    data_type: ArrowDataType::Struct,
                    nullable: false,
                }],
            }),
            children: vec![],
            partitions: vec![vec![], vec![]],
        }),
    );
    assert!(matches!(
        engine.execute_stream(&unconverted).unwrap_err(),
        QueryError::ExecutePhysicalPlan {
            source: PlanError::ConvertDfRecordBatchStream { .. }
        }
    ));
    assert!(matches!(
        unconverted.execute(5).unwrap_err(),
        PlanError::GeneralDataFusion { .. }
    ));
    let unsupported = Arc::new(DfPhysicalPlan {
        schema: Arc::new(ArrowSchema {
            fields: vec![ArrowField {
                name: "x".to_string(),
                data_type: ArrowDataType::Struct,
                nullable: false,
            }],
        }),
        children: vec![],
        partitions: vec![],
    });
    assert!(matches!(
        engine.create_physical_plan(unsupported).err().unwrap(),
        QueryError::ConvertSchema { .. }
    ));
}
