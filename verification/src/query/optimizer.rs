//! The rule that converts literals of a logical plan to the types of the
//! columns they are compared with: a string that is compared with a
//! timestamp column becomes a timestamp in milliseconds, a string that is
//! compared with a boolean column becomes a boolean, and every timestamp
//! literal becomes one in milliseconds.

use vstd::prelude::*;
use crate::common::text::{boolean_of_text, boolean_spelled, lowercase_of, to_lowercase};
use crate::common::time::{parse_timestamp, timestamp_value};
use crate::datatypes::arrow::{ArrowDataType, ArrowField, ArrowSchema, ArrowSchemaRef};
use crate::datatypes::data_type::TimeUnit;
use crate::datatypes::scalar::ScalarValue;
use crate::recordbatch::adapter::{ArrowError, DataFusionError};

verus! {

pub type Result<T> = core::result::Result<T, DataFusionError>;

/// An operator of a binary expression.
#[derive(Clone, Copy, Debug, PartialEq, Eq)]
pub enum Operator {
    Eq,
    NotEq,
    Lt,
    LtEq,
    Gt,
    GtEq,
    Plus,
    Minus,
    Multiply,
    Divide,
    Modulo,
    And,
    Or,
    Like,
    NotLike,
}

impl Operator {
    /// Whether the operator compares its two sides.
    pub fn is_comparison(&self) -> (b: bool)
        ensures
            b == self.spec_is_comparison(),
    {
        match self {
            Operator::Eq
            | Operator::NotEq
            | Operator::Lt
            | Operator::LtEq
            | Operator::Gt
            | Operator::GtEq => true,
            _ => false,
        }
    }

    pub open spec fn spec_is_comparison(self) -> bool {
        self is Eq || self is NotEq || self is Lt || self is LtEq || self is Gt || self is GtEq
    }
}

/// An expression of a logical plan.
#[derive(Debug, PartialEq, Eq)]
pub enum Expr {
    /// A column, by its name.
    Column(String),
    /// A literal.
    Literal(ScalarValue),
    BinaryExpr { left: Box<Expr>, op: Operator, right: Box<Expr> },
    Not(Box<Expr>),
    IsNull(Box<Expr>),
    Between { expr: Box<Expr>, negated: bool, low: Box<Expr>, high: Box<Expr> },
    InList { expr: Box<Expr>, list: Vec<Expr>, negated: bool },
    /// Any other expression without parts, as it is written.
    Other(String),
}

/// The timestamp in milliseconds that the count `val` of `unit`s stands for.
/// Seconds are multiplied, with wrap-around on overflow; smaller units are
/// divided, rounding towards zero.
pub open spec fn to_millis(val: i64, unit: TimeUnit) -> i64 {
    match unit {
        TimeUnit::Second => vstd::wrapping::i64_specs::wrapping_mul(val, 1_000),
        TimeUnit::Millisecond => val,
        TimeUnit::Microsecond => truncated_div(val as int, 1_000) as i64,
        TimeUnit::Nanosecond => truncated_div(truncated_div(val as int, 1_000), 1_000) as i64,
    }
}

/// The quotient of `a` by the positive `b`, rounded towards zero.
pub open spec fn truncated_div(a: int, b: int) -> int {
    if a >= 0 {
        a / b
    } else {
        -((-a) / b)
    }
}

fn divide(a: i64, b: i64) -> (q: i64)
    requires
        b >= 2,
    ensures
        q == truncated_div(a as int, b as int),
{
    let wide = a as i128;
    let by = b as i128;
    if wide >= 0 {
        (wide / by) as i64
    } else {
        let positive = (-wide) / by;
        (-positive) as i64
    }
}

/// The literal of the timestamp in milliseconds that the count `val` of
/// `unit`s stands for.
pub fn timestamp_to_timestamp_ms_expr(val: i64, unit: TimeUnit) -> (e: Expr)
    ensures
        e == Expr::Literal(ScalarValue::TimestampMillisecond(Some(to_millis(val, unit)))),
{
    let timestamp = match unit {
        TimeUnit::Second => val.wrapping_mul(1_000),
        TimeUnit::Millisecond => val,
        TimeUnit::Microsecond => divide(val, 1_000),
        TimeUnit::Nanosecond => divide(divide(val, 1_000), 1_000),
    };
    Expr::Literal(ScalarValue::TimestampMillisecond(Some(timestamp)))
}

/// The timestamp in milliseconds that `string` spells. Fails exactly when
/// the string spells no timestamp.
pub fn string_to_timestamp_ms(string: &str) -> (r: Result<ScalarValue>)
    ensures
        match timestamp_value(vstd::utf8::encode_utf8(string@)) {
            Some(nanos) => r == Ok::<ScalarValue, DataFusionError>(
                ScalarValue::TimestampMillisecond(
                    Some(truncated_div(nanos, 1_000_000) as i64),
                ),
            ),
            None => r matches Err(DataFusionError::External(_)),
        },
{
    match parse_timestamp(string) {
        Some(nanos) => Ok(ScalarValue::TimestampMillisecond(Some(divide(nanos, 1_000_000)))),
        None => Err(DataFusionError::External(String::from_str("Failed to parse timestamp"))),
    }
}

/// Casts scalars between types in the way of the wire format.
pub trait ScalarCast {
    /// What casting `value` to `target` gives, if the cast goes through.
    spec fn outcome(&self, value: ScalarValue, target: ArrowDataType) -> Option<ScalarValue>;

    /// Casts `value` to `target`.
    fn cast(&self, value: &ScalarValue, target: &ArrowDataType) -> (r: Result<ScalarValue>)
        ensures
            match r {
                Ok(v) => self.outcome(*value, *target) == Some(v),
                Err(_) => self.outcome(*value, *target) is None,
            },
    ;
}

/// A cast that supports nothing: every cast fails.
#[derive(Clone, Copy, Debug, PartialEq, Eq)]
pub struct NoCast;

impl ScalarCast for NoCast {
    open spec fn outcome(&self, value: ScalarValue, target: ArrowDataType) -> Option<ScalarValue> {
        None
    }

    fn cast(&self, value: &ScalarValue, target: &ArrowDataType) -> (r: Result<ScalarValue>) {
        Err(
            DataFusionError::ArrowError(
                ArrowError::ComputeError(String::from_str("casts are not supported")),
            ),
        )
    }
}

/// The type of the first field of `fields`, at `from` or later, that has
/// the name `name`.
pub open spec fn field_type(fields: Seq<ArrowField>, name: Seq<char>, from: int) -> Option<
    ArrowDataType,
>
    decreases fields.len() - from,
{
    if from < 0 || from >= fields.len() {
        None
    } else if fields[from].name@ == name {
        Some(fields[from].data_type)
    } else {
        field_type(fields, name, from + 1)
    }
}

/// The type of the column `name` in the first of the schemas, at `from` or
/// later, that has such a column.
pub open spec fn type_in_schemas(schemas: Seq<ArrowSchemaRef>, name: Seq<char>, from: int) -> Option<
    ArrowDataType,
>
    decreases schemas.len() - from,
{
    if from < 0 || from >= schemas.len() {
        None
    } else if field_type(schemas[from].fields@, name, 0) is Some {
        field_type(schemas[from].fields@, name, 0)
    } else {
        type_in_schemas(schemas, name, from + 1)
    }
}

/// The type of the expression, if it is a column that one of the schemas
/// has.
pub open spec fn column_type_of(schemas: Seq<ArrowSchemaRef>, expr: Expr) -> Option<ArrowDataType> {
    match expr {
        Expr::Column(name) => type_in_schemas(schemas, name@, 0),
        _ => None,
    }
}

/// Converts the literals of expressions to the types of the columns that
/// they are compared with.
pub struct TypeConverter<C: ScalarCast> {
    /// The schemas in which columns are looked up, in this order.
    pub schemas: Vec<ArrowSchemaRef>,
    /// The cast for the literals that this converter does not read itself.
    pub caster: C,
}

fn find_field(schema: &ArrowSchema, name: &String) -> (r: Option<ArrowDataType>)
    ensures
        r == field_type(schema.fields@, name@, 0),
{
    let mut i: usize = 0;
    while i < schema.fields.len()
        invariant
            i <= schema.fields@.len(),
            field_type(schema.fields@, name@, 0) == field_type(schema.fields@, name@, i as int),
        decreases schema.fields@.len() - i,
    {
        if schema.fields[i].name == *name {
            return Some(schema.fields[i].data_type);
        }
        i += 1;
    }
    None
}

impl<C: ScalarCast> TypeConverter<C> {
    /// The type of the expression, if it is a column that one of the
    /// schemas has.
    #[verifier::loop_isolation(false)]
    pub fn column_type(&self, expr: &Expr) -> (r: Option<ArrowDataType>)
        ensures
            r == column_type_of(self.schemas@, *expr),
    {
        match expr {
            Expr::Column(name) => {
                let mut i: usize = 0;
                while i < self.schemas.len()
                    invariant
                        i <= self.schemas@.len(),
                        type_in_schemas(self.schemas@, name@, 0) == type_in_schemas(
                            self.schemas@,
                            name@,
                            i as int,
                        ),
                    decreases self.schemas@.len() - i,
                {
                    let found = find_field(&self.schemas[i], name);
                    if found.is_some() {
                        return found;
                    }
                    i += 1;
                }
                None
            },
            _ => None,
        }
    }

    /// What casting the literal `value` to the type `target` gives, if the
    /// cast goes through: a string becomes the timestamp in milliseconds
    /// that it spells, for a timestamp; for a boolean, `true` and `false`,
    /// in any case, become that boolean, and any other string the null
    /// boolean; every other cast is left to the caster.
    pub open spec fn cast_of(&self, value: ScalarValue, target: ArrowDataType) -> Option<ScalarValue> {
        match (target, value) {
            (ArrowDataType::Timestamp(_), ScalarValue::Utf8(Some(v))) => match timestamp_value(
                vstd::utf8::encode_utf8(v@),
            ) {
                Some(nanos) => Some(
                    ScalarValue::TimestampMillisecond(
                        Some(truncated_div(nanos, 1_000_000) as i64),
                    ),
                ),
                None => None,
            },
            (ArrowDataType::Boolean, ScalarValue::Utf8(Some(v))) => Some(
                ScalarValue::Boolean(boolean_spelled(lowercase_of(v@))),
            ),
            _ => self.caster.outcome(value, target),
        }
    }

    /// Casts the literal `value` to the type `target`.
    pub fn cast_scalar_value(&self, value: &ScalarValue, target_type: &ArrowDataType) -> (r: Result<
        ScalarValue,
    >)
        ensures
            match r {
                Ok(v) => self.cast_of(*value, *target_type) == Some(v),
                Err(e) => self.cast_of(*value, *target_type) is None && self.is_literal_fault(
                    *value,
                    *target_type,
                    e,
                ),
            },
    {
        match (target_type, value) {
            (ArrowDataType::Timestamp(_), ScalarValue::Utf8(Some(v))) => string_to_timestamp_ms(
                v.as_str(),
            ),
            (ArrowDataType::Boolean, ScalarValue::Utf8(Some(v))) => {
                let lower = to_lowercase(v.as_str());
                Ok(ScalarValue::Boolean(boolean_of_text(lower.as_str())))
            },
            _ => self.caster.cast(value, target_type),
        }
    }

    /// The literal that `value` becomes for a column of the type `target`,
    /// if there is one: the cast must go through and must not give a null.
    pub open spec fn literal_for(&self, value: ScalarValue, target: ArrowDataType) -> Option<
        ScalarValue,
    > {
        match self.cast_of(value, target) {
            Some(v) => if v.spec_is_null() {
                None
            } else {
                Some(v)
            },
            None => None,
        }
    }

    /// Whether `e` is the error for the literal `value`, which has no
    /// counterpart in a column of the type `target`: a literal that casts to
    /// a null is refused with a planning error; a text that spells no
    /// timestamp gives an external error; any other error is the caster's.
    pub open spec fn is_literal_fault(
        &self,
        value: ScalarValue,
        target: ArrowDataType,
        e: DataFusionError,
    ) -> bool {
        match self.cast_of(value, target) {
            Some(v) => v.spec_is_null() && e is Plan,
            None => (target is Timestamp && value matches ScalarValue::Utf8(Some(_))) ==> e is External,
        }
    }

    /// Whether `e` is the error for the two sides of a comparison of which
    /// one is a literal without a counterpart in the column on the other
    /// side.
    pub open spec fn is_conversion_fault(&self, left: Expr, right: Expr, e: DataFusionError) -> bool {
        match (column_type_of(self.schemas@, left), column_type_of(self.schemas@, right)) {
            (Some(t), None) => right matches Expr::Literal(value) && self.is_literal_fault(
                value,
                t,
                e,
            ),
            (None, Some(t)) => left matches Expr::Literal(value) && self.is_literal_fault(
                value,
                t,
                e,
            ),
            _ => false,
        }
    }

    fn convert_literal(&self, value: &ScalarValue, target: &ArrowDataType) -> (r: Result<ScalarValue>)
        ensures
            match r {
                Ok(v) => self.literal_for(*value, *target) == Some(v),
                Err(e) => self.literal_for(*value, *target) is None && self.is_literal_fault(
                    *value,
                    *target,
                    e,
                ),
            },
    {
        match self.cast_scalar_value(value, target) {
            Ok(v) => {
                if v.is_null() {
                    Err(DataFusionError::Plan(String::from_str("the value is invalid for the column")))
                } else {
                    Ok(v)
                }
            },
            Err(e) => Err(e),
        }
    }

    /// What the two sides of a comparison become, if the conversion goes
    /// through: where exactly one side is a column of a known type and the
    /// other a literal, the literal is converted to that type; all else
    /// stays as it is.
    pub open spec fn converted(&self, left: Expr, right: Expr) -> Option<(Expr, Expr)> {
        match (column_type_of(self.schemas@, left), column_type_of(self.schemas@, right)) {
            (Some(t), None) => match right {
                Expr::Literal(value) => match self.literal_for(value, t) {
                    Some(v) => Some((left, Expr::Literal(v))),
                    None => None,
                },
                _ => Some((left, right)),
            },
            (None, Some(t)) => match left {
                Expr::Literal(value) => match self.literal_for(value, t) {
                    Some(v) => Some((Expr::Literal(v), right)),
                    None => None,
                },
                _ => Some((left, right)),
            },
            _ => Some((left, right)),
        }
    }

    /// Converts the two sides of a comparison.
    pub fn convert_type(&self, left: Expr, right: Expr) -> (r: Result<(Expr, Expr)>)
        ensures
            match r {
                Ok(pair) => self.converted(left, right) == Some(pair),
                Err(e) => self.converted(left, right) is None && self.is_conversion_fault(
                    left,
                    right,
                    e,
                ),
            },
    {
        let left_type = self.column_type(&left);
        let right_type = self.column_type(&right);
        match (left_type, right_type) {
            (Some(t), None) => match right {
                Expr::Literal(value) => match self.convert_literal(&value, &t) {
                    Ok(v) => Ok((left, Expr::Literal(v))),
                    Err(e) => Err(e),
                },
                other => Ok((left, other)),
            },
            (None, Some(t)) => match left {
                Expr::Literal(value) => match self.convert_literal(&value, &t) {
                    Ok(v) => Ok((Expr::Literal(v), right)),
                    Err(e) => Err(e),
                },
                other => Ok((other, right)),
            },
            _ => Ok((left, right)),
        }
    }

    /// What an item of a list becomes that is compared with `expr`, if the
    /// conversion goes through.
    pub open spec fn converted_item(&self, expr: Expr, item: Expr) -> Option<Expr> {
        match (column_type_of(self.schemas@, expr), column_type_of(self.schemas@, item)) {
            (Some(t), None) => match item {
                Expr::Literal(value) => match self.literal_for(value, t) {
                    Some(v) => Some(Expr::Literal(v)),
                    None => None,
                },
                _ => Some(item),
            },
            (None, Some(t)) => match expr {
                Expr::Literal(value) => match self.literal_for(value, t) {
                    Some(_) => Some(item),
                    None => None,
                },
                _ => Some(item),
            },
            _ => Some(item),
        }
    }

    fn convert_item(&self, expr: &Expr, item: Expr) -> (r: Result<Expr>)
        ensures
            match r {
                Ok(e) => self.converted_item(*expr, item) == Some(e),
                Err(e) => self.converted_item(*expr, item) is None && self.is_conversion_fault(
                    *expr,
                    item,
                    e,
                ),
            },
    {
        let left_type = self.column_type(expr);
        let right_type = self.column_type(&item);
        match (left_type, right_type) {
            (Some(t), None) => match item {
                Expr::Literal(value) => match self.convert_literal(&value, &t) {
                    Ok(v) => Ok(Expr::Literal(v)),
                    Err(e) => Err(e),
                },
                other => Ok(other),
            },
            (None, Some(t)) => match expr {
                Expr::Literal(value) => match self.convert_literal(value, &t) {
                    Ok(_) => Ok(item),
                    Err(e) => Err(e),
                },
                _ => Ok(item),
            },
            _ => Ok(item),
        }
    }

    /// Whether `r` is what the expression `expr` becomes: the two sides of
    /// a comparison are converted; so are the value and the bounds of a
    /// `BETWEEN`, and the items of a list against its value; a timestamp
    /// literal becomes one in milliseconds; all else stays as it is. The
    /// first literal without a counterpart gives the error.
    pub open spec fn is_mutation(&self, expr: Expr, r: Result<Expr>) -> bool {
        match expr {
            Expr::BinaryExpr { left, op, right } => if op.spec_is_comparison() {
                match self.converted(*left, *right) {
                    Some((l, rr)) => r == Ok::<Expr, DataFusionError>(
                        Expr::BinaryExpr { left: Box::new(l), op, right: Box::new(rr) },
                    ),
                    None => r matches Err(e) && self.is_conversion_fault(*left, *right, e),
                }
            } else {
                r == Ok::<Expr, DataFusionError>(expr)
            },
            Expr::Between { expr: value, negated, low, high } => match self.converted(*value, *low) {
                Some((v1, l1)) => match self.converted(v1, *high) {
                    Some((v2, h1)) => r == Ok::<Expr, DataFusionError>(
                        Expr::Between {
                            expr: Box::new(v2),
                            negated,
                            low: Box::new(l1),
                            high: Box::new(h1),
                        },
                    ),
                    None => r matches Err(e) && self.is_conversion_fault(v1, *high, e),
                },
                None => r matches Err(e) && self.is_conversion_fault(*value, *low, e),
            },
            Expr::InList { expr: value, list, negated } => if forall|i: int|
                0 <= i < list@.len() ==> self.converted_item(*value, #[trigger] list@[i]) is Some {
                r matches Ok(Expr::InList { expr: v2, list: l2, negated: n2 }) && v2 == value && n2
                    == negated && l2@.len() == list@.len() && forall|i: int|
                    0 <= i < list@.len() ==> self.converted_item(*value, list@[i]) == Some(
                        #[trigger] l2@[i],
                    )
            } else {
                r matches Err(e) && exists|i: int|
                    0 <= i < list@.len() && self.converted_item(*value, #[trigger] list@[i]) is None
                        && self.is_conversion_fault(*value, list@[i], e) && forall|j: int|
                        0 <= j < i ==> self.converted_item(*value, #[trigger] list@[j]) is Some
            },
            Expr::Literal(ScalarValue::TimestampSecond(Some(i))) => r == Ok::<Expr, DataFusionError>(
                Expr::Literal(ScalarValue::TimestampMillisecond(Some(to_millis(i, TimeUnit::Second)))),
            ),
            Expr::Literal(ScalarValue::TimestampMillisecond(Some(i))) => r == Ok::<
                Expr,
                DataFusionError,
            >(Expr::Literal(ScalarValue::TimestampMillisecond(Some(i)))),
            Expr::Literal(ScalarValue::TimestampMicrosecond(Some(i))) => r == Ok::<
                Expr,
                DataFusionError,
            >(
                Expr::Literal(
                    ScalarValue::TimestampMillisecond(Some(to_millis(i, TimeUnit::Microsecond))),
                ),
            ),
            Expr::Literal(ScalarValue::TimestampNanosecond(Some(i))) => r == Ok::<
                Expr,
                DataFusionError,
            >(
                Expr::Literal(
                    ScalarValue::TimestampMillisecond(Some(to_millis(i, TimeUnit::Nanosecond))),
                ),
            ),
            _ => r == Ok::<Expr, DataFusionError>(expr),
        }
    }

    /// Converts the literals of the expression `expr`, not of its parts.
    #[verifier::loop_isolation(false)]
    #[verifier::rlimit(60)]
    pub fn mutate(&mut self, expr: Expr) -> (r: Result<Expr>)
        ensures
            *final(self) == *old(self),
            old(self).is_mutation(expr, r),
    {
        match expr {
            Expr::BinaryExpr { left, op, right } => {
                if op.is_comparison() {
                    match self.convert_type(*left, *right) {
                        Ok((l, rr)) => Ok(
                            Expr::BinaryExpr { left: Box::new(l), op, right: Box::new(rr) },
                        ),
                        Err(e) => Err(e),
                    }
                } else {
                    Ok(Expr::BinaryExpr { left, op, right })
                }
            },
            Expr::Between { expr, negated, low, high } => {
                let (v1, l1) = match self.convert_type(*expr, *low) {
                    Ok(pair) => pair,
                    Err(e) => {
                        return Err(e);
                    },
                };
                let (v2, h1) = match self.convert_type(v1, *high) {
                    Ok(pair) => pair,
                    Err(e) => {
                        return Err(e);
                    },
                };
                Ok(
                    Expr::Between {
                        expr: Box::new(v2),
                        negated,
                        low: Box::new(l1),
                        high: Box::new(h1),
                    },
                )
            },
            Expr::InList { expr, list, negated } => {
                let ghost all = list@;
                let n = list.len();
                let mut stack = reversed(list);
                let mut converted: Vec<Expr> = Vec::new();
                while stack.len() > 0
                    invariant
                        n == all.len(),
                        converted@.len() + stack@.len() == n,
                        forall|k: int|
                            0 <= k < stack@.len() ==> (#[trigger] stack@[k]) == all[n - 1 - k],
                        forall|k: int|
                            0 <= k < converted@.len() ==> self.converted_item(*expr, all[k])
                                == Some(#[trigger] converted@[k]),
                    decreases stack@.len(),
                {
                    let ghost before = converted@;
                    let ghost left = stack@;
                    let ghost at = converted@.len() as int;
                    match stack.pop() {
                        Some(item) => {
                            proof {
                                assert(item == left[left.len() - 1]);
                                assert(item == all[at]);
                            }
                            match self.convert_item(&expr, item) {
                                Ok(e) => {
                                    converted.push(e);
                                },
                                Err(e) => {
                                    proof {
                                        assert(self.converted_item(*expr, all[at]) is None);
                                        assert(self.is_conversion_fault(*expr, all[at], e));
                                        assert forall|j: int| 0 <= j < at implies self.converted_item(
                                            *expr,
                                            #[trigger] all[j],
                                        ) is Some by {
                                            assert(self.converted_item(*expr, all[j]) == Some(
                                                converted@[j],
                                            ));
                                        }
                                    }
                                    return Err(e);
                                },
                            }
                        },
                        None => {},
                    }
                    proof {
                        assert forall|k: int| 0 <= k < stack@.len() implies (#[trigger] stack@[k])
                            == all[n - 1 - k] by {
                            assert(stack@[k] == left[k]);
                        }
                        assert forall|k: int| 0 <= k < converted@.len() implies self.converted_item(
                            *expr,
                            all[k],
                        ) == Some(#[trigger] converted@[k]) by {
                            if k < before.len() {
                                assert(converted@[k] == before[k]);
                            }
                        }
                    }
                }
                proof {
                    assert forall|k: int| 0 <= k < all.len() implies self.converted_item(
                        *expr,
                        #[trigger] all[k],
                    ) is Some by {
                        assert(self.converted_item(*expr, all[k]) == Some(converted@[k]));
                    }
                }
                Ok(Expr::InList { expr, list: converted, negated })
            },
            Expr::Literal(value) => match value {
                ScalarValue::TimestampSecond(Some(i)) => Ok(
                    timestamp_to_timestamp_ms_expr(i, TimeUnit::Second),
                ),
                ScalarValue::TimestampMillisecond(Some(i)) => Ok(
                    timestamp_to_timestamp_ms_expr(i, TimeUnit::Millisecond),
                ),
                ScalarValue::TimestampMicrosecond(Some(i)) => Ok(
                    timestamp_to_timestamp_ms_expr(i, TimeUnit::Microsecond),
                ),
                ScalarValue::TimestampNanosecond(Some(i)) => Ok(
                    timestamp_to_timestamp_ms_expr(i, TimeUnit::Nanosecond),
                ),
                other => Ok(Expr::Literal(other)),
            },
            other => Ok(other),
        }
    }
}

impl<C: ScalarCast> TypeConverter<C> {
    /// Whether converting the expression `expr` by itself fails.
    pub open spec fn mutation_fails(&self, expr: Expr) -> bool {
        exists|e: DataFusionError| self.is_mutation(expr, Err::<Expr, DataFusionError>(e))
    }

    /// Whether `r` is what rewriting makes of the expression `expr`: its
    /// parts are rewritten first, from left to right, and then the
    /// expression that is made of the rewritten parts is converted.
    pub open spec fn rewrites_to(&self, expr: Expr, r: Expr) -> bool
        decreases expr,
    {
        match expr {
            Expr::BinaryExpr { left, op, right } => exists|l: Expr, rr: Expr|
                self.rewrites_to(*left, l) && self.rewrites_to(*right, rr) && #[trigger] self.is_mutation(
                    Expr::BinaryExpr { left: Box::new(l), op, right: Box::new(rr) },
                    Ok::<Expr, DataFusionError>(r),
                ),
            Expr::Not(inner) => exists|x: Expr|
                self.rewrites_to(*inner, x) && #[trigger] self.is_mutation(
                    Expr::Not(Box::new(x)),
                    Ok::<Expr, DataFusionError>(r),
                ),
            Expr::IsNull(inner) => exists|x: Expr|
                self.rewrites_to(*inner, x) && #[trigger] self.is_mutation(
                    Expr::IsNull(Box::new(x)),
                    Ok::<Expr, DataFusionError>(r),
                ),
            Expr::Between { expr: value, negated, low, high } => exists|v: Expr, l: Expr, h: Expr|
                self.rewrites_to(*value, v) && self.rewrites_to(*low, l) && self.rewrites_to(
                    *high,
                    h,
                ) && #[trigger] self.is_mutation(
                    Expr::Between {
                        expr: Box::new(v),
                        negated,
                        low: Box::new(l),
                        high: Box::new(h),
                    },
                    Ok::<Expr, DataFusionError>(r),
                ),
            Expr::InList { expr: value, list, negated } => exists|v: Expr, items: Vec<Expr>|
                self.rewrites_to(*value, v) && self.rewrites_each(list@, items@)
                    && #[trigger] self.is_mutation(
                    Expr::InList { expr: Box::new(v), list: items, negated },
                    Ok::<Expr, DataFusionError>(r),
                ),
            _ => self.is_mutation(expr, Ok::<Expr, DataFusionError>(r)),
        }
    }

    /// Whether the expressions `items` are what rewriting makes of the
    /// expressions `list`, each of its own.
    pub open spec fn rewrites_each(&self, list: Seq<Expr>, items: Seq<Expr>) -> bool
        decreases list,
    {
        items.len() == list.len() && forall|i: int|
            0 <= i < list.len() ==> self.rewrites_to(list[i], #[trigger] items[i])
    }

    /// Whether rewriting the expression `expr` fails: rewriting one of its
    /// parts fails, or its parts are rewritten and converting the expression
    /// that is made of them fails.
    pub open spec fn rewrite_fails(&self, expr: Expr) -> bool
        decreases expr,
    {
        match expr {
            Expr::BinaryExpr { left, op, right } => self.rewrite_fails(*left) || self.rewrite_fails(
                *right,
            ) || exists|l: Expr, rr: Expr|
                self.rewrites_to(*left, l) && self.rewrites_to(*right, rr)
                    && #[trigger] self.mutation_fails(
                    Expr::BinaryExpr { left: Box::new(l), op, right: Box::new(rr) },
                ),
            Expr::Not(inner) => self.rewrite_fails(*inner) || exists|x: Expr|
                self.rewrites_to(*inner, x) && #[trigger] self.mutation_fails(Expr::Not(Box::new(x))),
            Expr::IsNull(inner) => self.rewrite_fails(*inner) || exists|x: Expr|
                self.rewrites_to(*inner, x) && #[trigger] self.mutation_fails(
                    Expr::IsNull(Box::new(x)),
                ),
            Expr::Between { expr: value, negated, low, high } => self.rewrite_fails(*value)
                || self.rewrite_fails(*low) || self.rewrite_fails(*high) || exists|
                v: Expr,
                l: Expr,
                h: Expr,
            |
                self.rewrites_to(*value, v) && self.rewrites_to(*low, l) && self.rewrites_to(
                    *high,
                    h,
                ) && #[trigger] self.mutation_fails(
                    Expr::Between {
                        expr: Box::new(v),
                        negated,
                        low: Box::new(l),
                        high: Box::new(h),
                    },
                ),
            Expr::InList { expr: value, list, negated } => self.rewrite_fails(*value)
                || (exists|i: int| 0 <= i < list@.len() && self.rewrite_fails(#[trigger] list@[i]))
                || exists|v: Expr, items: Vec<Expr>|
                self.rewrites_to(*value, v) && self.rewrites_each(list@, items@)
                    && #[trigger] self.mutation_fails(
                    Expr::InList { expr: Box::new(v), list: items, negated },
                ),
            _ => self.mutation_fails(expr),
        }
    }

    /// Rewrites the expression `expr`: its parts first, from left to right,
    /// then the expression itself. The first failure ends the rewriting.
    #[verifier::loop_isolation(false)]
    pub fn rewrite(&mut self, expr: Expr) -> (r: Result<Expr>)
        ensures
            *final(self) == *old(self),
            match r {
                Ok(x) => old(self).rewrites_to(expr, x),
                Err(_) => old(self).rewrite_fails(expr),
            },
        decreases expr,
    {
        let ghost this = *self;
        match expr {
            Expr::BinaryExpr { left, op, right } => {
                let l = match self.rewrite(*left) {
                    Ok(l) => l,
                    Err(e) => {
                        return Err(e);
                    },
                };
                let rr = match self.rewrite(*right) {
                    Ok(rr) => rr,
                    Err(e) => {
                        return Err(e);
                    },
                };
                let ghost made = Expr::BinaryExpr { left: Box::new(l), op, right: Box::new(rr) };
                let r = self.mutate(Expr::BinaryExpr { left: Box::new(l), op, right: Box::new(rr) });
                proof {
                    assert(this.rewrites_to(*left, l) && this.rewrites_to(*right, rr));
                    if r is Err {
                        assert(this.is_mutation(made, Err::<Expr, DataFusionError>(r->Err_0)));
                        assert(this.mutation_fails(made));
                    } else {
                        assert(this.is_mutation(made, Ok::<Expr, DataFusionError>(r->Ok_0)));
                    }
                }
                r
            },
            Expr::Not(inner) => {
                let x = match self.rewrite(*inner) {
                    Ok(x) => x,
                    Err(e) => {
                        return Err(e);
                    },
                };
                let ghost made = Expr::Not(Box::new(x));
                let r = self.mutate(Expr::Not(Box::new(x)));
                proof {
                    assert(this.rewrites_to(*inner, x));
                    if r is Err {
                        assert(this.is_mutation(made, Err::<Expr, DataFusionError>(r->Err_0)));
                        assert(this.mutation_fails(made));
                    } else {
                        assert(this.is_mutation(made, Ok::<Expr, DataFusionError>(r->Ok_0)));
                    }
                }
                r
            },
            Expr::IsNull(inner) => {
                let x = match self.rewrite(*inner) {
                    Ok(x) => x,
                    Err(e) => {
                        return Err(e);
                    },
                };
                let ghost made = Expr::IsNull(Box::new(x));
                let r = self.mutate(Expr::IsNull(Box::new(x)));
                proof {
                    assert(this.rewrites_to(*inner, x));
                    if r is Err {
                        assert(this.is_mutation(made, Err::<Expr, DataFusionError>(r->Err_0)));
                        assert(this.mutation_fails(made));
                    } else {
                        assert(this.is_mutation(made, Ok::<Expr, DataFusionError>(r->Ok_0)));
                    }
                }
                r
            },
            Expr::Between { expr: value, negated, low, high } => {
                let v = match self.rewrite(*value) {
                    Ok(v) => v,
                    Err(e) => {
                        return Err(e);
                    },
                };
                let l = match self.rewrite(*low) {
                    Ok(l) => l,
                    Err(e) => {
                        return Err(e);
                    },
                };
                let h = match self.rewrite(*high) {
                    Ok(h) => h,
                    Err(e) => {
                        return Err(e);
                    },
                };
                let ghost made = Expr::Between {
                    expr: Box::new(v),
                    negated,
                    low: Box::new(l),
                    high: Box::new(h),
                };
                let r = self.mutate(
                    Expr::Between { expr: Box::new(v), negated, low: Box::new(l), high: Box::new(h) },
                );
                proof {
                    assert(this.rewrites_to(*value, v) && this.rewrites_to(*low, l)
                        && this.rewrites_to(*high, h));
                    if r is Err {
                        assert(this.is_mutation(made, Err::<Expr, DataFusionError>(r->Err_0)));
                        assert(this.mutation_fails(made));
                    } else {
                        assert(this.is_mutation(made, Ok::<Expr, DataFusionError>(r->Ok_0)));
                    }
                }
                r
            },
            Expr::InList { expr: value, list, negated } => {
                let v = match self.rewrite(*value) {
                    Ok(v) => v,
                    Err(e) => {
                        return Err(e);
                    },
                };
                let ghost all = list@;
                let ghost whole = list;
                let n = list.len();
                let mut stack = reversed(list);
                let mut items: Vec<Expr> = Vec::new();
                while stack.len() > 0
                    invariant
                        *self == this,
                        n == all.len(),
                        items@.len() + stack@.len() == n,
                        forall|k: int|
                            0 <= k < stack@.len() ==> (#[trigger] stack@[k]) == all[n - 1 - k],
                        forall|k: int|
                            0 <= k < items@.len() ==> this.rewrites_to(all[k], #[trigger] items@[k]),
                    decreases stack@.len(),
                {
                    let ghost before = items@;
                    let ghost left = stack@;
                    let ghost at = items@.len() as int;
                    match stack.pop() {
                        Some(item) => {
                            proof {
                                assert(item == left[left.len() - 1]);
                                assert(item == all[at]);
                                vstd::std_specs::vec::axiom_vec_index_decreases(whole, at);
                            }
                            match self.rewrite(item) {
                                Ok(x) => {
                                    items.push(x);
                                },
                                Err(e) => {
                                    proof {
                                        assert(this.rewrite_fails(all[at]));
                                    }
                                    return Err(e);
                                },
                            }
                        },
                        None => {},
                    }
                    proof {
                        assert forall|k: int| 0 <= k < stack@.len() implies (#[trigger] stack@[k])
                            == all[n - 1 - k] by {
                            assert(stack@[k] == left[k]);
                        }
                        assert forall|k: int| 0 <= k < items@.len() implies this.rewrites_to(
                            all[k],
                            #[trigger] items@[k],
                        ) by {
                            if k < before.len() {
                                assert(items@[k] == before[k]);
                            }
                        }
                    }
                }
                let ghost made = Expr::InList { expr: Box::new(v), list: items, negated };
                let r = self.mutate(Expr::InList { expr: Box::new(v), list: items, negated });
                proof {
                    assert(this.rewrites_to(*value, v));
                    assert(this.rewrites_each(all, items@));
                    if r is Err {
                        assert(this.is_mutation(made, Err::<Expr, DataFusionError>(r->Err_0)));
                        assert(this.mutation_fails(made));
                    } else {
                        assert(this.is_mutation(made, Ok::<Expr, DataFusionError>(r->Ok_0)));
                    }
                }
                r
            },
            other => {
                let r = self.mutate(other);
                proof {
                    if r is Err {
                        assert(this.is_mutation(expr, Err::<Expr, DataFusionError>(r->Err_0)));
                    } else {
                        assert(this.is_mutation(expr, Ok::<Expr, DataFusionError>(r->Ok_0)));
                    }
                }
                r
            },
        }
    }
}

/// The kinds of nodes of a logical plan.
#[derive(Clone, Copy, Debug, PartialEq, Eq)]
pub enum PlanKind {
    Projection,
    Filter,
    Window,
    Aggregate,
    Sort,
    Join,
    CrossJoin,
    Repartition,
    Union,
    TableScan,
    EmptyRelation,
    Subquery,
    SubqueryAlias,
    Limit,
    CreateExternalTable,
    CreateMemoryTable,
    CreateView,
    CreateCatalogSchema,
    CreateCatalog,
    DropTable,
    DropView,
    Values,
    Explain,
    Analyze,
    Extension,
    Distinct,
    SetVariable,
    Prepare,
}

/// What the rule does to a node of a plan.
#[derive(Clone, Copy, Debug, PartialEq, Eq)]
pub enum PlanAction {
    /// The node stays as it is, with all that is below it.
    Keep,
    /// The expressions of the node are rewritten, and the rule goes on with
    /// its inputs.
    Rewrite,
}

/// A node of a logical plan, with the nodes below it.
#[derive(Debug, PartialEq, Eq)]
pub struct LogicalPlan {
    /// What the node does.
    pub kind: PlanKind,
    /// The schemas in which the columns of the node's expressions are
    /// looked up, in this order.
    pub schemas: Vec<ArrowSchemaRef>,
    /// The expressions of the node: the predicate of a filter, the filters
    /// of a table scan, the items of a projection.
    pub expressions: Vec<Expr>,
    /// The nodes that this node reads from.
    pub inputs: Vec<LogicalPlan>,
}

/// The rule that converts literals of a plan to the types of the columns
/// they are compared with.
pub struct TypeConversionRule;

impl TypeConversionRule {
    /// The name of the rule.
    pub fn name(&self) -> (name: &'static str)
        ensures
            name@ == "TypeConversionRule"@,
    {
        "TypeConversionRule"
    }

    /// What the rule does to a node of the kind `kind`: subqueries, the
    /// creation of views, catalogs and schemas, empty relations and
    /// prepared statements are kept; every other node is rewritten.
    pub open spec fn action_of(kind: PlanKind) -> PlanAction {
        if kind is Subquery || kind is SubqueryAlias || kind is CreateView
            || kind is CreateCatalogSchema || kind is CreateCatalog || kind is EmptyRelation
            || kind is Prepare {
            PlanAction::Keep
        } else {
            PlanAction::Rewrite
        }
    }

    /// What the rule does to a node of the kind `kind`.
    pub fn action(&self, kind: PlanKind) -> (action: PlanAction)
        ensures
            action == Self::action_of(kind),
    {
        match kind {
            PlanKind::Subquery
            | PlanKind::SubqueryAlias
            | PlanKind::CreateView
            | PlanKind::CreateCatalogSchema
            | PlanKind::CreateCatalog
            | PlanKind::EmptyRelation
            | PlanKind::Prepare => PlanAction::Keep,
            _ => PlanAction::Rewrite,
        }
    }

    /// Whether `r` is what the rule makes of the plan `plan`, with `caster`
    /// for the casts: a node that is kept stays as it is, with all that is
    /// below it; of any other node the expressions are rewritten against
    /// the node's schemas, and the rule is applied to each of its inputs.
    pub open spec fn optimizes_to<C: ScalarCast>(caster: C, plan: LogicalPlan, r: LogicalPlan) -> bool
        decreases plan,
    {
        if Self::action_of(plan.kind) is Keep {
            r == plan
        } else {
            &&& r.kind == plan.kind
            &&& r.schemas == plan.schemas
            &&& (TypeConverter { schemas: plan.schemas, caster }).rewrites_each(
                plan.expressions@,
                r.expressions@,
            )
            &&& r.inputs@.len() == plan.inputs@.len()
            &&& forall|i: int|
                0 <= i < plan.inputs@.len() ==> Self::optimizes_to(
                    caster,
                    plan.inputs@[i],
                    #[trigger] r.inputs@[i],
                )
        }
    }

    /// Whether the rule fails on the plan `plan`: the node is not kept, and
    /// the rule fails on one of its inputs or rewriting one of its
    /// expressions fails.
    pub open spec fn optimize_fails<C: ScalarCast>(caster: C, plan: LogicalPlan) -> bool
        decreases plan,
    {
        &&& Self::action_of(plan.kind) is Rewrite
        &&& {
            ||| exists|i: int|
                0 <= i < plan.inputs@.len() && Self::optimize_fails(
                    caster,
                    #[trigger] plan.inputs@[i],
                )
            ||| exists|i: int|
                0 <= i < plan.expressions@.len() && (TypeConverter {
                    schemas: plan.schemas,
                    caster,
                }).rewrite_fails(#[trigger] plan.expressions@[i])
        }
    }

    /// Applies the rule to the plan `plan`, with `caster` for the casts. A
    /// filter has its predicate rewritten before the rule goes on with its
    /// input; every other node has its inputs done first, from left to
    /// right. The first failure ends the work.
    pub fn try_optimize<C: ScalarCast>(&self, plan: LogicalPlan, caster: C) -> (r: Result<
        Option<LogicalPlan>,
    >)
        ensures
            match r {
                Ok(Some(p)) => Self::optimizes_to(caster, plan, p),
                Ok(None) => false,
                Err(_) => Self::optimize_fails(caster, plan),
            },
    {
        let mut converter = TypeConverter { schemas: Vec::new(), caster };
        match self.optimize(&mut converter, plan) {
            Ok(p) => Ok(Some(p)),
            Err(e) => Err(e),
        }
    }

    #[verifier::loop_isolation(false)]
    fn optimize<C: ScalarCast>(&self, converter: &mut TypeConverter<C>, plan: LogicalPlan) -> (r: Result<
        LogicalPlan,
    >)
        ensures
            final(converter).caster == old(converter).caster,
            match r {
                Ok(p) => Self::optimizes_to(old(converter).caster, plan, p),
                Err(_) => Self::optimize_fails(old(converter).caster, plan),
            },
        decreases plan,
    {
        let ghost caster = converter.caster;
        let ghost whole = plan;
        match self.action(plan.kind) {
            PlanAction::Keep => {
                return Ok(plan);
            },
            PlanAction::Rewrite => {},
        }
        let LogicalPlan { kind, schemas, expressions, inputs } = plan;
        let ghost this = TypeConverter { schemas, caster };
        let predicate_first = match kind {
            PlanKind::Filter => true,
            _ => false,
        };
        let mut expressions = expressions;
        let mut schemas = schemas;
        if predicate_first {
            converter.schemas = schemas;
            expressions = match rewrite_each(converter, expressions) {
                Ok(items) => items,
                Err(e) => {
                    return Err(e);
                },
            };
            schemas = Vec::new();
            core::mem::swap(&mut converter.schemas, &mut schemas);
        }
        let ghost all = inputs@;
        let n = inputs.len();
        let mut stack = reversed(inputs);
        let mut done: Vec<LogicalPlan> = Vec::new();
        while stack.len() > 0
            invariant
                converter.caster == caster,
                n == all.len(),
                done@.len() + stack@.len() == n,
                forall|k: int| 0 <= k < stack@.len() ==> (#[trigger] stack@[k]) == all[n - 1 - k],
                forall|k: int|
                    0 <= k < done@.len() ==> Self::optimizes_to(caster, all[k], #[trigger] done@[k]),
            decreases stack@.len(),
        {
            let ghost before = done@;
            let ghost left = stack@;
            let ghost at = done@.len() as int;
            match stack.pop() {
                Some(input) => {
                    proof {
                        assert(input == left[left.len() - 1]);
                        assert(input == all[at]);
                        vstd::std_specs::vec::axiom_vec_index_decreases(whole.inputs, at);
                    }
                    match self.optimize(converter, input) {
                        Ok(p) => {
                            done.push(p);
                        },
                        Err(e) => {
                            proof {
                                assert(Self::optimize_fails(caster, whole.inputs@[at]));
                            }
                            return Err(e);
                        },
                    }
                },
                None => {},
            }
            proof {
                assert forall|k: int| 0 <= k < stack@.len() implies (#[trigger] stack@[k]) == all[n
                    - 1 - k] by {
                    assert(stack@[k] == left[k]);
                }
                assert forall|k: int| 0 <= k < done@.len() implies Self::optimizes_to(
                    caster,
                    all[k],
                    #[trigger] done@[k],
                ) by {
                    if k < before.len() {
                        assert(done@[k] == before[k]);
                    }
                }
            }
        }
        if !predicate_first {
            converter.schemas = schemas;
            expressions = match rewrite_each(converter, expressions) {
                Ok(items) => items,
                Err(e) => {
                    return Err(e);
                },
            };
            schemas = Vec::new();
            core::mem::swap(&mut converter.schemas, &mut schemas);
        }
        Ok(LogicalPlan { kind, schemas, expressions, inputs: done })
    }
}

/// The items of `items`, the last one first.
fn reversed<T>(items: Vec<T>) -> (stack: Vec<T>)
    ensures
        stack@.len() == items@.len(),
        forall|k: int| 0 <= k < stack@.len() ==> (#[trigger] stack@[k]) == items@[items@.len() - 1 - k],
{
    let ghost all = items@;
    let mut rest = items;
    let mut stack: Vec<T> = Vec::new();
    while rest.len() > 0
        invariant
            rest@.len() + stack@.len() == all.len(),
            rest@ == all.take(rest@.len() as int),
            forall|k: int| 0 <= k < stack@.len() ==> (#[trigger] stack@[k]) == all[all.len() - 1 - k],
        decreases rest@.len(),
    {
        let ghost before = stack@;
        let ghost left = rest@;
        match rest.pop() {
            Some(item) => {
                stack.push(item);
            },
            None => {},
        }
        proof {
            assert(rest@ =~= all.take(rest@.len() as int));
            assert forall|k: int| 0 <= k < stack@.len() implies (#[trigger] stack@[k]) == all[all.len()
                - 1 - k] by {
                if k < before.len() {
                    assert(stack@[k] == before[k]);
                } else {
                    assert(stack@[k] == left[left.len() - 1]);
                }
            }
        }
    }
    stack
}

/// Rewrites each of the expressions `list`, from left to right. The first
/// failure ends the work.
#[verifier::loop_isolation(false)]
pub fn rewrite_each<C: ScalarCast>(converter: &mut TypeConverter<C>, list: Vec<Expr>) -> (r: Result<
    Vec<Expr>,
>)
    ensures
        *final(converter) == *old(converter),
        match r {
            Ok(items) => old(converter).rewrites_each(list@, items@),
            Err(_) => exists|i: int|
                0 <= i < list@.len() && old(converter).rewrite_fails(#[trigger] list@[i]),
        },
{
    let ghost this = *converter;
    let ghost all = list@;
    let n = list.len();
    let mut stack = reversed(list);
    let mut items: Vec<Expr> = Vec::new();
    while stack.len() > 0
        invariant
            *converter == this,
            n == all.len(),
            items@.len() + stack@.len() == n,
            forall|k: int| 0 <= k < stack@.len() ==> (#[trigger] stack@[k]) == all[n - 1 - k],
            forall|k: int| 0 <= k < items@.len() ==> this.rewrites_to(all[k], #[trigger] items@[k]),
        decreases stack@.len(),
    {
        let ghost before = items@;
        let ghost left = stack@;
        let ghost at = items@.len() as int;
        match stack.pop() {
            Some(item) => {
                proof {
                    assert(item == left[left.len() - 1]);
                    assert(item == all[at]);
                }
                match converter.rewrite(item) {
                    Ok(x) => {
                        items.push(x);
                    },
                    Err(e) => {
                        proof {
                            assert(this.rewrite_fails(all[at]));
                        }
                        return Err(e);
                    },
                }
            },
            None => {},
        }
        proof {
            assert forall|k: int| 0 <= k < stack@.len() implies (#[trigger] stack@[k]) == all[n - 1
                - k] by {
                assert(stack@[k] == left[k]);
            }
            assert forall|k: int| 0 <= k < items@.len() implies this.rewrites_to(
                all[k],
                #[trigger] items@[k],
            ) by {
                if k < before.len() {
                    assert(items@[k] == before[k]);
                }
            }
        }
    }
    Ok(items)
}

} // verus!
