//! Write batches: the puts and deletes of one commit, checked against the
//! schema when they are added.

use vstd::prelude::*;
use crate::datatypes::data_type::{ConcreteDataType, Int64Type, TimeUnit, UInt64Type};
use crate::datatypes::schema::{ColumnSchema, Schema};
use crate::datatypes::vectors::{PrimitiveVector, TimestampMillisecond, Vector};
use crate::storage::column_map::{position_of, lemma_position_of, ColumnMap, NamedColumn};
use crate::storage::error::{Error, Result};
use crate::storage::memtable::OpType;
use crate::storage::metadata::is_version_column;

verus! {

/// The most rows that one batch may hold.
pub const MAX_BATCH_SIZE: usize = 1_000_000;

/// One row of a batch: what to do to which key, and the value of a put.
#[derive(Clone, Copy, Debug, PartialEq, Eq)]
pub struct RowOp {
    pub op: OpType,
    pub key: i64,
    pub value: Option<i64>,
}

/// How the rows of a schema are laid out: the timestamp comes first, the
/// version column second if there is one, the value last.
#[derive(Clone, Copy, Debug, PartialEq, Eq)]
pub struct RowLayout {
    pub has_version: bool,
    pub value_index: usize,
}

/// The part that a column plays in a row.
#[derive(Clone, Copy, Debug, PartialEq, Eq)]
pub enum ColumnRole {
    Timestamp,
    Version,
    Value,
}

/// What is wrong with the columns of a mutation. An index is the position of
/// the column among those handed in.
#[derive(Clone, Copy, Debug, PartialEq, Eq)]
pub enum Fault {
    UnknownColumn(usize),
    TypeMismatch(usize),
    NotKeyColumn(usize),
    MissingTimestamp,
    LenNotEquals(usize),
    TimestampNull,
    VersionNull,
    ValueNull,
    MissingValue,
    BatchTooLarge,
}

/// The layout of the rows of a schema, where the engine can store them: a
/// millisecond timestamp as the only key, an optional version column, and one
/// 64-bit integer value, all under different names.
pub open spec fn layout_of(schema: Schema) -> Option<RowLayout> {
    let cols = schema.column_schemas@;
    if schema.timestamp_index != Some(0usize) {
        None
    } else if cols.len() == 2 && cols[0].data_type == ConcreteDataType::Timestamp(
        TimeUnit::Millisecond,
    ) && cols[1].data_type == ConcreteDataType::Int64(Int64Type) && cols[0].name@ != cols[1].name@ {
        Some(RowLayout { has_version: false, value_index: 1 })
    } else if cols.len() == 3 && cols[0].data_type == ConcreteDataType::Timestamp(
        TimeUnit::Millisecond,
    ) && is_version_column(cols[1]) && cols[2].data_type == ConcreteDataType::Int64(Int64Type) && cols[0].name@
        != cols[1].name@ && cols[0].name@ != cols[2].name@ && cols[1].name@ != cols[2].name@ {
        Some(RowLayout { has_version: true, value_index: 2 })
    } else {
        None
    }
}

/// The layout of the rows of `schema`, where the engine can store them.
pub fn row_layout(schema: &Schema) -> (r: Option<RowLayout>)
    ensures
        r == layout_of(*schema),
{
    let cols = &schema.column_schemas;
    match schema.timestamp_index {
        Some(i) => {
            if i != 0 {
                return None;
            }
        },
        None => {
            return None;
        },
    }
    let millis = ConcreteDataType::Timestamp(TimeUnit::Millisecond);
    if cols.len() == 2 {
        if cols[0].data_type == millis && cols[1].data_type == ConcreteDataType::Int64(Int64Type)
            && cols[0].name != cols[1].name {
            Some(RowLayout { has_version: false, value_index: 1 })
        } else {
            None
        }
    } else if cols.len() == 3 {
        let version = String::from_str(crate::storage::metadata::VERSION_COLUMN_NAME);
        let is_version = cols[1].name == version && cols[1].data_type == ConcreteDataType::UInt64(UInt64Type)
            && !cols[1].is_nullable && !cols[1].is_time_index && cols[1].default_constraint.is_none();
        if cols[0].data_type == millis && is_version && cols[2].data_type == ConcreteDataType::Int64(Int64Type)
            && cols[0].name != cols[1].name && cols[0].name != cols[2].name && cols[1].name
            != cols[2].name {
            Some(RowLayout { has_version: true, value_index: 2 })
        } else {
            None
        }
    } else {
        None
    }
}

/// The part that a column named `name` plays in a row.
pub open spec fn role_of(cols: Seq<ColumnSchema>, layout: RowLayout, name: Seq<char>) -> Option<
    ColumnRole,
> {
    if name == cols[0].name@ {
        Some(ColumnRole::Timestamp)
    } else if layout.has_version && name == cols[1].name@ {
        Some(ColumnRole::Version)
    } else if name == cols[layout.value_index as int].name@ {
        Some(ColumnRole::Value)
    } else {
        None
    }
}

/// Whether `vector` has the type that the part asks for.
pub open spec fn fits(role: ColumnRole, vector: Vector) -> bool {
    match role {
        ColumnRole::Timestamp => vector is TimestampMillisecond,
        ColumnRole::Version => vector is UInt64,
        ColumnRole::Value => vector is Int64,
    }
}

/// What is wrong with the column at `index` by itself, if anything.
pub open spec fn entry_fault(
    cols: Seq<ColumnSchema>,
    layout: RowLayout,
    data: Seq<NamedColumn>,
    deleting: bool,
    index: int,
) -> Option<Fault> {
    match role_of(cols, layout, data[index].name@) {
        None => Some(Fault::UnknownColumn(index as usize)),
        Some(role) => if !fits(role, *data[index].vector) {
            Some(Fault::TypeMismatch(index as usize))
        } else if deleting && role == ColumnRole::Value {
            Some(Fault::NotKeyColumn(index as usize))
        } else {
            None
        },
    }
}

/// The first fault of a column by itself, at `from` or later.
pub open spec fn first_entry_fault(
    cols: Seq<ColumnSchema>,
    layout: RowLayout,
    data: Seq<NamedColumn>,
    deleting: bool,
    from: int,
) -> Option<Fault>
    decreases data.len() - from,
{
    if from < 0 || from >= data.len() {
        None
    } else if entry_fault(cols, layout, data, deleting, from) is Some {
        entry_fault(cols, layout, data, deleting, from)
    } else {
        first_entry_fault(cols, layout, data, deleting, from + 1)
    }
}

/// The first column, at `from` or later, whose length is not `n`.
pub open spec fn first_len_fault(data: Seq<NamedColumn>, n: nat, from: int) -> Option<Fault>
    decreases data.len() - from,
{
    if from < 0 || from >= data.len() {
        None
    } else if data[from].vector.spec_len() != n {
        Some(Fault::LenNotEquals(from as usize))
    } else {
        first_len_fault(data, n, from + 1)
    }
}

/// The vector of the column `name`, if the data has it.
pub open spec fn column_of_data(data: Seq<NamedColumn>, name: Seq<char>) -> Option<Vector> {
    match position_of(data, name) {
        Some(i) => Some(*data[i].vector),
        None => None,
    }
}

/// Whether some item of `items` is a null.
pub open spec fn has_null<T>(items: Seq<Option<T>>) -> bool {
    exists|i: int| 0 <= i < items.len() && (#[trigger] items[i]) is None
}

/// What is wrong with the columns `data` of a put (or, if `deleting`, of the
/// keys of a delete), for a batch that holds `existing` rows already. The
/// checks come in this order: each column by itself (known, of the right
/// type, a key if deleting), the timestamp column being there, the columns'
/// lengths, nulls in columns that must have none, a lacking value column that
/// must not be null, and the size of the batch.
pub open spec fn fault_of(
    cols: Seq<ColumnSchema>,
    layout: RowLayout,
    data: Seq<NamedColumn>,
    deleting: bool,
    existing: nat,
) -> Option<Fault> {
    let by_itself = first_entry_fault(cols, layout, data, deleting, 0);
    if by_itself is Some {
        by_itself
    } else {
        match column_of_data(data, cols[0].name@) {
            Some(Vector::TimestampMillisecond(ts)) => {
                let by_len = first_len_fault(data, ts@.len(), 0);
                let version = column_of_data(data, cols[1].name@);
                let value = column_of_data(data, cols[layout.value_index as int].name@);
                let value_nullable = cols[layout.value_index as int].is_nullable;
                if by_len is Some {
                    by_len
                } else if has_null(ts@) {
                    Some(Fault::TimestampNull)
                } else if layout.has_version && (version matches Some(Vector::UInt64(v)) && has_null(
                    v@,
                )) {
                    Some(Fault::VersionNull)
                } else if !deleting && !value_nullable && (value matches Some(Vector::Int64(v))
                    && has_null(v@)) {
                    Some(Fault::ValueNull)
                } else if !deleting && !value_nullable && value is None {
                    Some(Fault::MissingValue)
                } else if existing + ts@.len() > MAX_BATCH_SIZE {
                    Some(Fault::BatchTooLarge)
                } else {
                    None
                }
            },
            _ => Some(Fault::MissingTimestamp),
        }
    }
}

/// The rows that the columns of a put stand for.
pub open spec fn put_rows(
    ts: Seq<Option<TimestampMillisecond>>,
    value: Option<Seq<Option<i64>>>,
) -> Seq<RowOp> {
    Seq::new(
        ts.len(),
        |i: int|
            RowOp {
                op: OpType::Put,
                key: ts[i].unwrap().0,
                value: match value {
                    Some(v) => v[i],
                    None => None,
                },
            },
    )
}

/// The rows that the keys of a delete stand for.
pub open spec fn delete_rows(ts: Seq<Option<TimestampMillisecond>>) -> Seq<RowOp> {
    Seq::new(ts.len(), |i: int| RowOp { op: OpType::Delete, key: ts[i].unwrap().0, value: None })
}

/// The rows that faultless columns stand for.
pub open spec fn rows_of(
    cols: Seq<ColumnSchema>,
    layout: RowLayout,
    data: Seq<NamedColumn>,
    deleting: bool,
) -> Seq<RowOp> {
    match column_of_data(data, cols[0].name@) {
        Some(Vector::TimestampMillisecond(ts)) => if deleting {
            delete_rows(ts@)
        } else {
            match column_of_data(data, cols[layout.value_index as int].name@) {
                Some(Vector::Int64(v)) => put_rows(ts@, Some(v@)),
                _ => put_rows(ts@, None),
            }
        },
        _ => Seq::empty(),
    }
}

/// Whether the error `e` reports the fault `f` of the columns `data`.
pub open spec fn reports(
    e: Error,
    f: Fault,
    cols: Seq<ColumnSchema>,
    layout: RowLayout,
    data: Seq<NamedColumn>,
) -> bool {
    match f {
        Fault::UnknownColumn(i) => e matches Error::UnknownColumn { name } && name == data[i as int].name,
        Fault::TypeMismatch(i) => e matches Error::TypeMismatch { name } && name == data[i as int].name,
        Fault::NotKeyColumn(i) => e matches Error::NotKeyColumn { name } && name == data[i as int].name,
        Fault::MissingTimestamp => e is MissingTimestamp,
        Fault::LenNotEquals(i) => e matches Error::LenNotEquals { name, expect, given } && name
            == data[i as int].name && given == data[i as int].vector.spec_len() && (column_of_data(
            data,
            cols[0].name@,
        ) matches Some(ts) && expect == ts.spec_len()),
        Fault::TimestampNull => e matches Error::HasNull { name } && name == cols[0].name,
        Fault::VersionNull => e matches Error::HasNull { name } && name == cols[1].name,
        Fault::ValueNull => e matches Error::HasNull { name } && name
            == cols[layout.value_index as int].name,
        Fault::MissingValue => e matches Error::MissingColumn { name } && name
            == cols[layout.value_index as int].name,
        Fault::BatchTooLarge => e is BatchTooLarge,
    }
}

fn find_entry_fault(cols: &Vec<ColumnSchema>, layout: RowLayout, data: &ColumnMap, deleting: bool) -> (f:
    Option<Fault>)
    requires
        data.well_formed(),
        cols@.len() > layout.value_index >= 1,
        layout.has_version ==> cols@.len() > 1,
    ensures
        f == first_entry_fault(cols@, layout, data@, deleting, 0),
{
    let mut i: usize = 0;
    while i < data.len()
        invariant
            i <= data@.len(),
            cols@.len() > layout.value_index >= 1,
            first_entry_fault(cols@, layout, data@, deleting, 0) == first_entry_fault(
                cols@,
                layout,
                data@,
                deleting,
                i as int,
            ),
        decreases data@.len() - i,
    {
        let column = data.get_index(i);
        let role = if column.name == cols[0].name {
            Some(ColumnRole::Timestamp)
        } else if layout.has_version && column.name == cols[1].name {
            Some(ColumnRole::Version)
        } else if column.name == cols[layout.value_index].name {
            Some(ColumnRole::Value)
        } else {
            None
        };
        match role {
            None => {
                return Some(Fault::UnknownColumn(i));
            },
            Some(ColumnRole::Timestamp) => {
                match &*column.vector {
                    Vector::TimestampMillisecond(_) => {},
                    _ => {
                        return Some(Fault::TypeMismatch(i));
                    },
                }
            },
            Some(ColumnRole::Version) => {
                match &*column.vector {
                    Vector::UInt64(_) => {},
                    _ => {
                        return Some(Fault::TypeMismatch(i));
                    },
                }
            },
            Some(ColumnRole::Value) => {
                match &*column.vector {
                    Vector::Int64(_) => {},
                    _ => {
                        return Some(Fault::TypeMismatch(i));
                    },
                }
                if deleting {
                    return Some(Fault::NotKeyColumn(i));
                }
            },
        }
        i += 1;
    }
    None
}

fn find_len_fault(data: &ColumnMap, n: usize) -> (f: Option<Fault>)
    ensures
        f == first_len_fault(data@, n as nat, 0),
{
    let mut i: usize = 0;
    while i < data.len()
        invariant
            i <= data@.len(),
            first_len_fault(data@, n as nat, 0) == first_len_fault(data@, n as nat, i as int),
        decreases data@.len() - i,
    {
        if data.get_index(i).vector.len() != n {
            return Some(Fault::LenNotEquals(i));
        }
        i += 1;
    }
    None
}

fn any_null<T: crate::datatypes::vectors::Primitive>(vector: &PrimitiveVector<T>) -> (b: bool)
    ensures
        b == has_null(vector@),
{
    let mut i: usize = 0;
    while i < vector.len()
        invariant
            i <= vector@.len(),
            forall|j: int| 0 <= j < i ==> (#[trigger] vector@[j]) is Some,
        decreases vector@.len() - i,
    {
        if vector.get_data(i).is_none() {
            return true;
        }
        i += 1;
    }
    false
}

/// What is wrong with the columns of a mutation, if anything.
fn find_fault(
    cols: &Vec<ColumnSchema>,
    layout: RowLayout,
    data: &ColumnMap,
    deleting: bool,
    existing: usize,
) -> (f: Option<Fault>)
    requires
        data.well_formed(),
        cols@.len() > layout.value_index >= 1,
        layout.has_version ==> cols@.len() > 1,
    ensures
        f == fault_of(cols@, layout, data@, deleting, existing as nat),
{
    let by_itself = find_entry_fault(cols, layout, data, deleting);
    if by_itself.is_some() {
        return by_itself;
    }
    let ts = match data.get(cols[0].name.as_str()) {
        Some(v) => match &**v {
            Vector::TimestampMillisecond(ts) => ts,
            _ => {
                return Some(Fault::MissingTimestamp);
            },
        },
        None => {
            return Some(Fault::MissingTimestamp);
        },
    };
    let n = ts.len();
    let by_len = find_len_fault(data, n);
    if by_len.is_some() {
        return by_len;
    }
    if any_null(ts) {
        return Some(Fault::TimestampNull);
    }
    if layout.has_version {
        match data.get(cols[1].name.as_str()) {
            Some(v) => match &**v {
                Vector::UInt64(version) => {
                    if any_null(version) {
                        return Some(Fault::VersionNull);
                    }
                },
                _ => {},
            },
            None => {},
        }
    }
    let value_column = &cols[layout.value_index];
    if !deleting && !value_column.is_nullable {
        match data.get(value_column.name.as_str()) {
            Some(v) => match &**v {
                Vector::Int64(value) => {
                    if any_null(value) {
                        return Some(Fault::ValueNull);
                    }
                },
                _ => {},
            },
            None => {
                return Some(Fault::MissingValue);
            },
        }
    }
    if n > MAX_BATCH_SIZE || existing > MAX_BATCH_SIZE - n {
        return Some(Fault::BatchTooLarge);
    }
    None
}

fn to_error(f: Fault, cols: &Vec<ColumnSchema>, layout: RowLayout, data: &ColumnMap) -> (e: Error)
    requires
        data.well_formed(),
        cols@.len() > layout.value_index >= 1,
        cols@.len() > 1,
        match f {
            Fault::UnknownColumn(i) | Fault::TypeMismatch(i) | Fault::NotKeyColumn(i) | Fault::LenNotEquals(i) => i
                < data@.len(),
            _ => true,
        },
        f is LenNotEquals ==> column_of_data(data@, cols@[0].name@) is Some,
    ensures
        reports(e, f, cols@, layout, data@),
{
    match f {
        Fault::UnknownColumn(i) => Error::UnknownColumn { name: data.get_index(i).name.clone() },
        Fault::TypeMismatch(i) => Error::TypeMismatch { name: data.get_index(i).name.clone() },
        Fault::NotKeyColumn(i) => Error::NotKeyColumn { name: data.get_index(i).name.clone() },
        Fault::MissingTimestamp => Error::MissingTimestamp,
        Fault::LenNotEquals(i) => {
            let expect = match data.get(cols[0].name.as_str()) {
                Some(ts) => ts.len(),
                None => 0,
            };
            Error::LenNotEquals {
                name: data.get_index(i).name.clone(),
                expect,
                given: data.get_index(i).vector.len(),
            }
        },
        Fault::TimestampNull => Error::HasNull { name: cols[0].name.clone() },
        Fault::VersionNull => Error::HasNull { name: cols[1].name.clone() },
        Fault::ValueNull => Error::HasNull { name: cols[layout.value_index].name.clone() },
        Fault::MissingValue => Error::MissingColumn { name: cols[layout.value_index].name.clone() },
        Fault::BatchTooLarge => Error::BatchTooLarge,
    }
}

/// The puts and deletes of one commit, as rows in the order in which they were
/// added. Rows only get in through [`WriteBatch::put`] and
/// [`WriteBatch::delete`], which check them against the schema.
#[derive(Clone, Debug, PartialEq, Eq)]
pub struct WriteBatch {
    pub schema: Schema,
    pub rows: Vec<RowOp>,
}

impl WriteBatch {
    /// An empty batch for rows of `schema`.
    pub fn new(schema: Schema) -> (b: WriteBatch)
        ensures
            b.schema == schema,
            b.rows@.len() == 0,
    {
        WriteBatch { schema, rows: Vec::new() }
    }

    pub fn schema(&self) -> (s: &Schema)
        ensures
            *s == self.schema,
    {
        &self.schema
    }

    /// The rows of the batch, in the order in which they were added.
    pub fn rows(&self) -> (r: &Vec<RowOp>)
        ensures
            *r == self.rows,
    {
        &self.rows
    }

    pub fn is_empty(&self) -> (b: bool)
        ensures
            b == (self.rows@.len() == 0),
    {
        self.rows.len() == 0
    }

    /// What adding the columns `data` to this batch comes to: the rows that
    /// are added, or the fault that keeps all of them out.
    pub open spec fn outcome(self, data: Seq<NamedColumn>, deleting: bool) -> core::result::Result<
        Seq<RowOp>,
        Option<Fault>,
    > {
        match layout_of(self.schema) {
            None => Err(None),
            Some(layout) => match fault_of(
                self.schema.column_schemas@,
                layout,
                data,
                deleting,
                self.rows@.len(),
            ) {
                Some(f) => Err(Some(f)),
                None => Ok(rows_of(self.schema.column_schemas@, layout, data, deleting)),
            },
        }
    }

    fn add(&mut self, data: &ColumnMap, deleting: bool) -> (r: Result<()>)
        requires
            data.well_formed(),
        ensures
            final(self).schema == old(self).schema,
            match old(self).outcome(data@, deleting) {
                Ok(rows) => r is Ok && final(self).rows@ == old(self).rows@ + rows,
                Err(None) => r == Err::<(), Error>(Error::UnsupportedLayout) && final(self).rows
                    == old(self).rows,
                Err(Some(f)) => final(self).rows == old(self).rows && r is Err && reports(
                    r->Err_0,
                    f,
                    old(self).schema.column_schemas@,
                    layout_of(old(self).schema).unwrap(),
                    data@,
                ),
            },
    {
        let layout = match row_layout(&self.schema) {
            Some(l) => l,
            None => {
                return Err(Error::UnsupportedLayout);
            },
        };
        let cols = &self.schema.column_schemas;
        match find_fault(cols, layout, data, deleting, self.rows.len()) {
            Some(f) => {
                proof {
                    lemma_fault_in_range(cols@, layout, data@, deleting, self.rows@.len());
                }
                return Err(to_error(f, cols, layout, data));
            },
            None => {},
        }
        let ts = match data.get(cols[0].name.as_str()) {
            Some(v) => match &**v {
                Vector::TimestampMillisecond(ts) => ts,
                _ => {
                    return Err(Error::MissingTimestamp);
                },
            },
            None => {
                return Err(Error::MissingTimestamp);
            },
        };
        let value = if deleting {
            None
        } else {
            match data.get(cols[layout.value_index].name.as_str()) {
                Some(v) => match &**v {
                    Vector::Int64(value) => Some(value),
                    _ => None,
                },
                None => None,
            }
        };
        let ghost before = self.rows@;
        let ghost schema = self.schema;
        let ghost wanted = rows_of(cols@, layout, data@, deleting);
        proof {
            lemma_len_fault(data@, ts@.len(), 0);
            if value is Some {
                lemma_position_of(data@, cols@[layout.value_index as int].name@);
            }
        }
        let mut i: usize = 0;
        while i < ts.len()
            invariant
                i <= ts@.len(),
                wanted.len() == ts@.len(),
                !has_null(ts@),
                value matches Some(v) ==> v@.len() == ts@.len(),
                wanted == if deleting {
                    delete_rows(ts@)
                } else {
                    match value {
                        Some(v) => put_rows(ts@, Some(v@)),
                        None => put_rows(ts@, None),
                    }
                },
                self.rows@ == before + wanted.take(i as int),
                self.schema == schema,
            decreases ts@.len() - i,
        {
            let key = match ts.get_data(i) {
                Some(t) => t.0,
                None => 0,
            };
            let row = if deleting {
                RowOp { op: OpType::Delete, key, value: None }
            } else {
                RowOp {
                    op: OpType::Put,
                    key,
                    value: match value {
                        Some(v) => v.get_data(i),
                        None => None,
                    },
                }
            };
            self.rows.push(row);
            proof {
                assert(ts@[i as int] is Some);
                assert(wanted.take(i + 1) =~= wanted.take(i as int).push(wanted[i as int]));
                assert(self.rows@ =~= before + wanted.take(i + 1));
            }
            i += 1;
        }
        proof {
            assert(wanted.take(ts@.len() as int) =~= wanted);
        }
        Ok(())
    }

    /// Adds the rows that the columns `data` stand for, as puts. Either all
    /// of them are added, or none and the error says what is wrong with the
    /// columns.
    pub fn put(&mut self, data: ColumnMap) -> (r: Result<()>)
        requires
            data.well_formed(),
        ensures
            final(self).schema == old(self).schema,
            match old(self).outcome(data@, false) {
                Ok(rows) => r is Ok && final(self).rows@ == old(self).rows@ + rows,
                Err(None) => r == Err::<(), Error>(Error::UnsupportedLayout) && final(self).rows
                    == old(self).rows,
                Err(Some(f)) => final(self).rows == old(self).rows && r is Err && reports(
                    r->Err_0,
                    f,
                    old(self).schema.column_schemas@,
                    layout_of(old(self).schema).unwrap(),
                    data@,
                ),
            },
    {
        self.add(&data, false)
    }

    /// Adds a delete for each of the keys that the columns `keys` stand for.
    /// Either all of them are added, or none and the error says what is
    /// wrong with the columns.
    pub fn delete(&mut self, keys: ColumnMap) -> (r: Result<()>)
        requires
            keys.well_formed(),
        ensures
            final(self).schema == old(self).schema,
            match old(self).outcome(keys@, true) {
                Ok(rows) => r is Ok && final(self).rows@ == old(self).rows@ + rows,
                Err(None) => r == Err::<(), Error>(Error::UnsupportedLayout) && final(self).rows
                    == old(self).rows,
                Err(Some(f)) => final(self).rows == old(self).rows && r is Err && reports(
                    r->Err_0,
                    f,
                    old(self).schema.column_schemas@,
                    layout_of(old(self).schema).unwrap(),
                    keys@,
                ),
            },
    {
        self.add(&keys, true)
    }
}

/// A fault that names a column names one of those handed in.
proof fn lemma_fault_in_range(
    cols: Seq<ColumnSchema>,
    layout: RowLayout,
    data: Seq<NamedColumn>,
    deleting: bool,
    existing: nat,
)
    ensures
        match fault_of(cols, layout, data, deleting, existing) {
            Some(Fault::UnknownColumn(i)) | Some(Fault::TypeMismatch(i)) | Some(
                Fault::NotKeyColumn(i),
            ) | Some(Fault::LenNotEquals(i)) => i < data.len(),
            _ => true,
        },
        fault_of(cols, layout, data, deleting, existing) is Some && fault_of(
            cols,
            layout,
            data,
            deleting,
            existing,
        )->Some_0 is LenNotEquals ==> column_of_data(data, cols[0].name@) is Some,
{
    lemma_entry_fault(cols, layout, data, deleting, 0);
    match column_of_data(data, cols[0].name@) {
        Some(Vector::TimestampMillisecond(ts)) => {
            lemma_len_fault(data, ts@.len(), 0);
        },
        _ => {},
    }
}

proof fn lemma_entry_fault(
    cols: Seq<ColumnSchema>,
    layout: RowLayout,
    data: Seq<NamedColumn>,
    deleting: bool,
    from: int,
)
    requires
        0 <= from,
    ensures
        match first_entry_fault(cols, layout, data, deleting, from) {
            Some(Fault::UnknownColumn(i)) | Some(Fault::TypeMismatch(i)) | Some(
                Fault::NotKeyColumn(i),
            ) => i < data.len(),
            Some(_) => false,
            None => true,
        },
    decreases data.len() - from,
{
    if from < data.len() {
        lemma_entry_fault(cols, layout, data, deleting, from + 1);
    }
}

/// Without a fault of length, every column at `from` or later has the
/// length `n`.
proof fn lemma_len_fault(data: Seq<NamedColumn>, n: nat, from: int)
    requires
        0 <= from,
    ensures
        match first_len_fault(data, n, from) {
            Some(Fault::LenNotEquals(i)) => i < data.len(),
            Some(_) => false,
            None => forall|j: int| from <= j < data.len() ==> (#[trigger] data[j]).vector.spec_len() == n,
        },
    decreases data.len() - from,
{
    if from < data.len() {
        lemma_len_fault(data, n, from + 1);
    }
}

} // verus!
