//! The description of a region: its name and its columns.

use std::sync::Arc;
use vstd::prelude::*;
use crate::datatypes::data_type::{ConcreteDataType, LogicalTypeId, TimeUnit, UInt64Type};
use crate::datatypes::schema::{ColumnSchema, Schema};
use crate::storage::error::{Error, Result};

verus! {

/// The name of the timestamp column of every region.
pub const TIMESTAMP_NAME: &'static str = "timestamp";

/// The name of the version column, where a region has one.
pub const VERSION_COLUMN_NAME: &'static str = "__version";

/// A column as the creator of a region describes it.
#[derive(Clone, Debug, PartialEq, Eq)]
pub struct ColumnDescriptor {
    pub name: String,
    pub data_type: ConcreteDataType,
    pub is_nullable: bool,
}

/// A region as its creator describes it.
#[derive(Clone, Debug, PartialEq, Eq)]
pub struct RegionDescriptor {
    pub name: String,
    /// The key columns that come before the timestamp.
    pub key_columns: Vec<ColumnDescriptor>,
    /// The timestamp column, the last part of the key.
    pub timestamp: ColumnDescriptor,
    pub enable_version_column: bool,
    pub value_columns: Vec<ColumnDescriptor>,
}

/// Builds the description of a region with a millisecond timestamp column
/// named [`TIMESTAMP_NAME`].
pub struct RegionDescBuilder {
    pub name: String,
    pub key_columns: Vec<ColumnDescriptor>,
    pub enable_version_column: bool,
    pub value_columns: Vec<ColumnDescriptor>,
}

impl RegionDescBuilder {
    pub fn new(name: &str) -> (b: RegionDescBuilder)
        ensures
            b.name@ == name@,
            b.key_columns@.len() == 0,
            b.value_columns@.len() == 0,
            !b.enable_version_column,
    {
        RegionDescBuilder {
            name: name.to_string(),
            key_columns: Vec::new(),
            enable_version_column: false,
            value_columns: Vec::new(),
        }
    }

    pub fn enable_version_column(self, enable: bool) -> (b: RegionDescBuilder)
        ensures
            b == (RegionDescBuilder { enable_version_column: enable, ..self }),
    {
        RegionDescBuilder { enable_version_column: enable, ..self }
    }

    /// Adds a key column `(name, type, nullable)` behind those already there.
    pub fn push_key_column(self, column: (&str, LogicalTypeId, bool)) -> (b: RegionDescBuilder)
        ensures
            b.name == self.name,
            b.enable_version_column == self.enable_version_column,
            b.value_columns == self.value_columns,
            b.key_columns@.len() == self.key_columns@.len() + 1,
            b.key_columns@.drop_last() == self.key_columns@,
            b.key_columns@.last().name@ == column.0@,
            b.key_columns@.last().data_type == ConcreteDataType::spec_from_logical_type_id(
                column.1,
            ),
            b.key_columns@.last().is_nullable == column.2,
    {
        let mut key_columns = self.key_columns;
        let ghost before = key_columns@;
        key_columns.push(
            ColumnDescriptor {
                name: column.0.to_string(),
                data_type: ConcreteDataType::from_logical_type_id(column.1),
                is_nullable: column.2,
            },
        );
        proof {
            assert(key_columns@.drop_last() =~= before);
        }
        RegionDescBuilder {
            name: self.name,
            key_columns,
            enable_version_column: self.enable_version_column,
            value_columns: self.value_columns,
        }
    }

    /// Adds a value column `(name, type, nullable)` behind those already
    /// there.
    pub fn push_value_column(self, column: (&str, LogicalTypeId, bool)) -> (b: RegionDescBuilder)
        ensures
            b.name == self.name,
            b.enable_version_column == self.enable_version_column,
            b.key_columns == self.key_columns,
            b.value_columns@.len() == self.value_columns@.len() + 1,
            b.value_columns@.drop_last() == self.value_columns@,
            b.value_columns@.last().name@ == column.0@,
            b.value_columns@.last().data_type == ConcreteDataType::spec_from_logical_type_id(
                column.1,
            ),
            b.value_columns@.last().is_nullable == column.2,
    {
        let mut value_columns = self.value_columns;
        let ghost before = value_columns@;
        value_columns.push(
            ColumnDescriptor {
                name: column.0.to_string(),
                data_type: ConcreteDataType::from_logical_type_id(column.1),
                is_nullable: column.2,
            },
        );
        proof {
            assert(value_columns@.drop_last() =~= before);
        }
        RegionDescBuilder {
            name: self.name,
            key_columns: self.key_columns,
            enable_version_column: self.enable_version_column,
            value_columns,
        }
    }

    /// The description, with the timestamp column added.
    pub fn build(self) -> (d: RegionDescriptor)
        ensures
            d.name == self.name,
            d.key_columns == self.key_columns,
            d.value_columns == self.value_columns,
            d.enable_version_column == self.enable_version_column,
            d.timestamp.name@ == TIMESTAMP_NAME@,
            d.timestamp.data_type == ConcreteDataType::Timestamp(TimeUnit::Millisecond),
            !d.timestamp.is_nullable,
    {
        RegionDescriptor {
            name: self.name,
            key_columns: self.key_columns,
            timestamp: ColumnDescriptor {
                name: TIMESTAMP_NAME.to_string(),
                data_type: ConcreteDataType::Timestamp(TimeUnit::Millisecond),
                is_nullable: false,
            },
            enable_version_column: self.enable_version_column,
            value_columns: self.value_columns,
        }
    }
}

/// The column of a schema that a described column becomes.
pub open spec fn column_of(d: ColumnDescriptor, is_time_index: bool) -> ColumnSchema {
    ColumnSchema {
        name: d.name,
        data_type: d.data_type,
        is_nullable: d.is_nullable,
        is_time_index,
        default_constraint: None,
    }
}

/// Whether `column` is the version column.
pub open spec fn is_version_column(column: ColumnSchema) -> bool {
    &&& column.name@ == VERSION_COLUMN_NAME@
    &&& column.data_type == ConcreteDataType::UInt64(UInt64Type)
    &&& !column.is_nullable
    &&& !column.is_time_index
    &&& column.default_constraint is None
}

/// Whether `columns` are the described columns in the order of a region's
/// schema: the key columns, the timestamp, the version column if there is
/// one, the value columns.
pub open spec fn is_layout_of(columns: Seq<ColumnSchema>, d: RegionDescriptor) -> bool {
    let keys = d.key_columns@.len() as int;
    let extra: int = if d.enable_version_column {
        1
    } else {
        0
    };
    &&& columns.len() == keys + 1 + extra + d.value_columns@.len()
    &&& forall|i: int| 0 <= i < keys ==> columns[i] == column_of(#[trigger] d.key_columns@[i], false)
    &&& columns[keys] == column_of(d.timestamp, true)
    &&& d.enable_version_column ==> is_version_column(columns[keys + 1])
    &&& forall|i: int|
        0 <= i < d.value_columns@.len() ==> columns[keys + 1 + extra + i] == column_of(
            #[trigger] d.value_columns@[i],
            false,
        )
}

/// The names of the columns of the described region, in the order of its
/// schema.
pub open spec fn layout_names(d: RegionDescriptor) -> Seq<Seq<char>> {
    d.key_columns@.map_values(|c: ColumnDescriptor| c.name@) + seq![d.timestamp.name@] + (
    if d.enable_version_column {
        seq![VERSION_COLUMN_NAME@]
    } else {
        Seq::empty()
    }) + d.value_columns@.map_values(|c: ColumnDescriptor| c.name@)
}

/// Whether no two of `columns` have the same name.
pub open spec fn distinct_names(columns: Seq<ColumnSchema>) -> bool {
    forall|i: int, j: int|
        0 <= i < j < columns.len() ==> (#[trigger] columns[i]).name@ != (#[trigger] columns[j]).name@
}

/// The immutable description of a region. An alteration makes a new one.
#[derive(Clone, Debug, PartialEq, Eq)]
pub struct RegionMetadata {
    pub name: String,
    /// All columns: the key columns, the timestamp, the version column if
    /// there is one, the value columns.
    pub schema: Schema,
    /// How many key columns stand before the timestamp.
    pub num_key_columns: usize,
    pub enable_version_column: bool,
    /// The version of the schema; an alteration raises it.
    pub version: u32,
}

/// A region's metadata behind a shared pointer.
pub type RegionMetadataRef = Arc<RegionMetadata>;

fn to_column(d: &ColumnDescriptor, is_time_index: bool) -> (c: ColumnSchema)
    ensures
        c == column_of(*d, is_time_index),
{
    ColumnSchema {
        name: d.name.clone(),
        data_type: d.data_type,
        is_nullable: d.is_nullable,
        is_time_index,
        default_constraint: None,
    }
}

/// The index of the first column whose name occurs again later.
fn find_repeated(columns: &Vec<ColumnSchema>) -> (r: Option<usize>)
    ensures
        match r {
            Some(i) => i < columns@.len() && exists|j: int|
                i < j < columns@.len() && columns@[i as int].name@ == columns@[j].name@,
            None => distinct_names(columns@),
        },
{
    let mut i: usize = 0;
    while i < columns.len()
        invariant
            i <= columns.len(),
            forall|a: int, b: int|
                0 <= a < i && a < b < columns@.len() ==> (#[trigger] columns@[a]).name@ != (
                #[trigger] columns@[b]).name@,
        decreases columns.len() - i,
    {
        let mut j: usize = i + 1;
        while j < columns.len()
            invariant
                i < j <= columns.len(),
                forall|b: int| i < b < j ==> columns@[i as int].name@ != (#[trigger] columns@[b]).name@,
            decreases columns.len() - j,
        {
            if columns[i].name == columns[j].name {
                return Some(i);
            }
            j += 1;
        }
        i += 1;
    }
    None
}

impl RegionMetadata {
    /// Whether the metadata is what a description yields: the timestamp
    /// column where the key columns end, and no name twice.
    pub open spec fn well_formed(self) -> bool {
        &&& self.schema.timestamp_index == Some(self.num_key_columns)
        &&& self.num_key_columns < self.schema.column_schemas@.len()
        &&& distinct_names(self.schema.column_schemas@)
    }

    /// The metadata of the described region, at version 0. Fails exactly
    /// when two columns have the same name, with the first name that occurs
    /// again.
    pub fn try_from_descriptor(desc: RegionDescriptor) -> (r: Result<RegionMetadata>)
        requires
            desc.key_columns@.len() + desc.value_columns@.len() + 2 <= usize::MAX,
        ensures
            match r {
                Ok(m) => {
                    &&& m.well_formed()
                    &&& m.name == desc.name
                    &&& m.version == 0
                    &&& m.schema.version == 0
                    &&& m.num_key_columns == desc.key_columns@.len()
                    &&& m.enable_version_column == desc.enable_version_column
                    &&& is_layout_of(m.schema.column_schemas@, desc)
                    &&& layout_names(desc).no_duplicates()
                },
                Err(e) => {
                    &&& e is ColumnNameExists
                    &&& !layout_names(desc).no_duplicates()
                },
            },
    {
        let mut columns: Vec<ColumnSchema> = Vec::new();
        let mut i: usize = 0;
        while i < desc.key_columns.len()
            invariant
                i <= desc.key_columns.len(),
                columns@.len() == i,
                forall|j: int|
                    0 <= j < i ==> columns@[j] == column_of(#[trigger] desc.key_columns@[j], false),
            decreases desc.key_columns.len() - i,
        {
            columns.push(to_column(&desc.key_columns[i], false));
            i += 1;
        }
        let num_key_columns = columns.len();
        columns.push(to_column(&desc.timestamp, true));
        if desc.enable_version_column {
            columns.push(
                ColumnSchema {
                    name: VERSION_COLUMN_NAME.to_string(),
                    data_type: ConcreteDataType::UInt64(UInt64Type),
                    is_nullable: false,
                    is_time_index: false,
                    default_constraint: None,
                },
            );
        }
        let base = columns.len();
        let mut k: usize = 0;
        while k < desc.value_columns.len()
            invariant
                k <= desc.value_columns.len(),
                num_key_columns == desc.key_columns@.len(),
                base == num_key_columns + 1 + (if desc.enable_version_column {
                    1int
                } else {
                    0int
                }),
                base + desc.value_columns@.len() <= usize::MAX,
                columns@.len() == base + k,
                forall|j: int|
                    0 <= j < num_key_columns ==> columns@[j] == column_of(
                        #[trigger] desc.key_columns@[j],
                        false,
                    ),
                columns@[num_key_columns as int] == column_of(desc.timestamp, true),
                desc.enable_version_column ==> is_version_column(columns@[num_key_columns + 1]),
                forall|j: int|
                    0 <= j < k ==> columns@[base + j] == column_of(
                        #[trigger] desc.value_columns@[j],
                        false,
                    ),
            decreases desc.value_columns.len() - k,
        {
            columns.push(to_column(&desc.value_columns[k], false));
            k += 1;
        }
        proof {
            assert(is_layout_of(columns@, desc));
            let names = layout_names(desc);
            assert(names.len() == columns@.len());
            assert forall|j: int| 0 <= j < names.len() implies (#[trigger] columns@[j]).name@
                == names[j] by {
                if j < num_key_columns {
                    assert(columns@[j] == column_of(desc.key_columns@[j], false));
                } else if j >= base {
                    assert(columns@[base + (j - base)] == column_of(
                        desc.value_columns@[j - base],
                        false,
                    ));
                }
            }
        }
        match find_repeated(&columns) {
            Some(i) => {
                proof {
                    let j = choose|j: int|
                        i < j < columns@.len() && columns@[i as int].name@ == columns@[j].name@;
                    let names = layout_names(desc);
                    assert(names[i as int] == names[j]);
                }
                Err(Error::ColumnNameExists { name: columns[i].name.clone() })
            },
            None => {
                proof {
                    let names = layout_names(desc);
                    assert forall|a: int, b: int|
                        0 <= a < names.len() && 0 <= b < names.len() && a != b implies names[a]
                        != names[b] by {
                        if a < b {
                            assert(columns@[a].name@ != columns@[b].name@);
                        } else {
                            assert(columns@[b].name@ != columns@[a].name@);
                        }
                    }
                }
                Ok(
                RegionMetadata {
                    name: desc.name,
                    schema: Schema {
                        column_schemas: columns,
                        timestamp_index: Some(num_key_columns),
                        version: 0,
                    },
                    num_key_columns,
                    enable_version_column: desc.enable_version_column,
                    version: 0,
                },
            )
            },
        }
    }

    pub fn name(&self) -> (n: &str)
        ensures
            n@ == self.name@,
    {
        self.name.as_str()
    }

    pub fn schema(&self) -> (s: &Schema)
        ensures
            *s == self.schema,
    {
        &self.schema
    }

    pub fn version(&self) -> (v: u32)
        ensures
            v == self.version,
    {
        self.version
    }
}

} // verus!
