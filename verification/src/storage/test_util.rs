//! Ready-made metadata, batches and stores, and a small driver that writes
//! to and scans a region whose rows are a timestamp and one value `v0`.

use std::sync::Arc;
use vstd::prelude::*;
use vstd::string::StringExecFns;
use crate::datatypes::data_type::{ConcreteDataType, Int64Type, LogicalTypeId, TimeUnit, UInt64Type};
use crate::datatypes::schema::{ColumnSchema, Schema};
use crate::datatypes::vectors::{
    Int64Vector, PrimitiveVector, TimestampMillisecond, TimestampMillisecondVector, Vector,
    VectorRef,
};
use crate::storage::column_map::{position_of, ColumnMap, NamedColumn};
use crate::storage::error::{Error, Result};
use crate::storage::flush::{FlushSchedulerImpl, SizeBasedStrategy};
use crate::storage::manifest::{RegionEdit, RegionManifest};
use crate::storage::memtable::{entries_of, is_scan_of, Entry, OpType, SequenceNumber};
use crate::storage::metadata::{
    column_of, is_version_column, RegionDescBuilder, RegionMetadata, TIMESTAMP_NAME,
    VERSION_COLUMN_NAME,
};
use crate::storage::region::{
    same_column, same_columns, ReadContext, RegionImpl, StoreConfig, WriteContext, WriteResponse,
};
use crate::storage::snapshot::{is_chunk_column, Chunk, ScanRequest};
use crate::storage::sst::{AccessLayer, FileMeta};
use crate::storage::version::DefaultMemtableBuilder;
use crate::storage::wal::{LogStore, MemoryLogStore};
use crate::storage::write_batch::{
    delete_rows, entry_fault, first_entry_fault, first_len_fault, has_null, layout_of, put_rows,
    Fault, MAX_BATCH_SIZE, RowLayout, RowOp, WriteBatch,
};

verus! {

/// The name of the value column of the test regions.
pub const VALUE_NAME: &'static str = "v0";

/// The three column names differ from each other.
pub proof fn lemma_names_differ()
    ensures
        TIMESTAMP_NAME@ != VALUE_NAME@,
        TIMESTAMP_NAME@ != VERSION_COLUMN_NAME@,
        VERSION_COLUMN_NAME@ != VALUE_NAME@,
{
    reveal_strlit("timestamp");
    reveal_strlit("__version");
    reveal_strlit("v0");
    assert("timestamp"@.len() == 9);
    assert("v0"@.len() == 2);
    assert("__version"@.len() == 9);
    assert("timestamp"@[0] == 't');
    assert("__version"@[0] == '_');
}

/// The directory of the log store below `store_dir`.
pub fn log_store_dir(store_dir: &str) -> (dir: String)
    ensures
        dir@ == store_dir@ + "/logstore"@,
{
    let mut dir = String::from_str(store_dir);
    dir.append("/logstore");
    dir
}

/// The directory of the files of the region `region_name` below
/// `parent_dir`.
pub fn region_sst_dir(parent_dir: &str, region_name: &str) -> (dir: String)
    ensures
        dir@ == parent_dir@ + region_name@ + "/sst/"@,
{
    let mut dir = String::from_str(parent_dir);
    dir.append(region_name);
    dir.append("/sst/");
    dir
}

/// The directory of the manifest of the region `region_name` below
/// `parent_dir`.
pub fn region_manifest_dir(parent_dir: &str, region_name: &str) -> (dir: String)
    ensures
        dir@ == parent_dir@ + region_name@ + "/manifest/"@,
{
    let mut dir = String::from_str(parent_dir);
    dir.append(region_name);
    dir.append("/manifest/");
    dir
}

/// Fresh stores for a test: an empty log in memory, no files, an empty
/// manifest, an idle scheduler and the default flush strategy.
pub fn new_store_config() -> (config: StoreConfig<MemoryLogStore>)
    ensures
        config.log_store.log().len() == 0,
        config.log_store.capacity == usize::MAX,
        config.sst_layer.files@.len() == 0,
        config.manifest.records@.len() == 0,
        config.manifest.capacity == usize::MAX,
        config.flush_scheduler.in_flight is None,
        config.flush_strategy.max_write_buffer_size
            == crate::storage::flush::DEFAULT_WRITE_BUFFER_SIZE,
{
    StoreConfig {
        log_store: MemoryLogStore::new(),
        sst_layer: AccessLayer::new(),
        manifest: RegionManifest::new(),
        memtable_builder: DefaultMemtableBuilder {  },
        flush_scheduler: FlushSchedulerImpl::new(),
        flush_strategy: SizeBasedStrategy::default(),
    }
}

/// Whether `schema` is the schema of the test regions without a version
/// column: the millisecond timestamp, then the nullable value `v0`.
pub open spec fn is_test_schema(schema: Schema) -> bool {
    let cols = schema.column_schemas@;
    &&& schema.timestamp_index == Some(0usize)
    &&& cols.len() == 2
    &&& cols[0].name@ == TIMESTAMP_NAME@
    &&& cols[0].data_type == ConcreteDataType::Timestamp(TimeUnit::Millisecond)
    &&& !cols[0].is_nullable
    &&& cols[0].is_time_index
    &&& cols[1].name@ == VALUE_NAME@
    &&& cols[1].data_type == ConcreteDataType::Int64(Int64Type)
    &&& cols[1].is_nullable
    &&& !cols[1].is_time_index
}

/// Whether `schema` is the schema of the test regions with a version column
/// between the timestamp and the value.
pub open spec fn is_versioned_test_schema(schema: Schema) -> bool {
    let cols = schema.column_schemas@;
    &&& schema.timestamp_index == Some(0usize)
    &&& cols.len() == 3
    &&& cols[0].name@ == TIMESTAMP_NAME@
    &&& cols[0].data_type == ConcreteDataType::Timestamp(TimeUnit::Millisecond)
    &&& !cols[0].is_nullable
    &&& cols[0].is_time_index
    &&& is_version_column(cols[1])
    &&& cols[2].name@ == VALUE_NAME@
    &&& cols[2].data_type == ConcreteDataType::Int64(Int64Type)
    &&& cols[2].is_nullable
    &&& !cols[2].is_time_index
}

/// The metadata of a region with the columns (timestamp, v0), and a version
/// column between them if `enable_version_column`.
pub fn new_metadata(region_name: &str, enable_version_column: bool) -> (m: RegionMetadata)
    ensures
        m.well_formed(),
        m.name@ == region_name@,
        m.version == 0,
        m.enable_version_column == enable_version_column,
        if enable_version_column {
            is_versioned_test_schema(m.schema)
        } else {
            is_test_schema(m.schema)
        },
{
    let desc = RegionDescBuilder::new(region_name).enable_version_column(
        enable_version_column,
    ).push_value_column((VALUE_NAME, LogicalTypeId::Int64, true)).build();
    let ghost described = desc;
    match RegionMetadata::try_from_descriptor(desc) {
        Ok(m) => {
            proof {
                assert(m.schema.column_schemas@[0] == column_of(described.timestamp, true));
                assert(described.value_columns@[0] == described.value_columns@.last());
                if enable_version_column {
                    assert(m.schema.column_schemas@[0int + 1 + 1 + 0] == column_of(
                        described.value_columns@[0],
                        false,
                    ));
                } else {
                    assert(m.schema.column_schemas@[0int + 1 + 0 + 0] == column_of(
                        described.value_columns@[0],
                        false,
                    ));
                }
            }
            m
        },
        Err(_) => {
            proof {
                lemma_names_differ();
                let names = crate::storage::metadata::layout_names(described);
                assert(described.value_columns@[0] == described.value_columns@.last());
                if enable_version_column {
                    assert(names =~= seq![TIMESTAMP_NAME@, VERSION_COLUMN_NAME@, VALUE_NAME@]);
                } else {
                    assert(names =~= seq![TIMESTAMP_NAME@, VALUE_NAME@]);
                }
                assert(names.no_duplicates());
            }
            vstd::pervasive::unreached()
        },
    }
}

/// An empty batch for the test regions: rows of (timestamp, v0), with a
/// version column between them if `enable_version_column`.
pub fn new_write_batch_for_test(enable_version_column: bool) -> (batch: WriteBatch)
    ensures
        batch.rows@.len() == 0,
        if enable_version_column {
            is_versioned_test_schema(batch.schema)
        } else {
            is_test_schema(batch.schema)
        },
{
    let mut columns: Vec<ColumnSchema> = Vec::new();
    columns.push(
        ColumnSchema {
            name: String::from_str(TIMESTAMP_NAME),
            data_type: ConcreteDataType::Timestamp(TimeUnit::Millisecond),
            is_nullable: false,
            is_time_index: true,
            default_constraint: None,
        },
    );
    if enable_version_column {
        columns.push(
            ColumnSchema {
                name: String::from_str(VERSION_COLUMN_NAME),
                data_type: ConcreteDataType::UInt64(UInt64Type),
                is_nullable: false,
                is_time_index: false,
                default_constraint: None,
            },
        );
    }
    columns.push(
        ColumnSchema {
            name: String::from_str(VALUE_NAME),
            data_type: ConcreteDataType::Int64(Int64Type),
            is_nullable: true,
            is_time_index: false,
            default_constraint: None,
        },
    );
    WriteBatch::new(Schema { column_schemas: columns, timestamp_index: Some(0), version: 0 })
}

/// Whether `data` are the columns of a put of the rows `rows`: the
/// timestamps under [`TIMESTAMP_NAME`], then the values under
/// [`VALUE_NAME`].
pub open spec fn is_put_data(data: Seq<NamedColumn>, rows: Seq<(TimestampMillisecond, Option<i64>)>) -> bool {
    &&& data.len() == 2
    &&& data[0].name@ == TIMESTAMP_NAME@
    &&& *data[0].vector matches Vector::TimestampMillisecond(ts) && ts@ == rows.map_values(
        |r: (TimestampMillisecond, Option<i64>)| Some(r.0),
    )
    &&& data[1].name@ == VALUE_NAME@
    &&& *data[1].vector matches Vector::Int64(v) && v@ == rows.map_values(
        |r: (TimestampMillisecond, Option<i64>)| r.1,
    )
}

/// Whether `data` is the column of the keys `keys` of a delete: the
/// timestamps under [`TIMESTAMP_NAME`].
pub open spec fn is_delete_data(data: Seq<NamedColumn>, keys: Seq<TimestampMillisecond>) -> bool {
    &&& data.len() == 1
    &&& data[0].name@ == TIMESTAMP_NAME@
    &&& *data[0].vector matches Vector::TimestampMillisecond(ts) && ts@ == keys.map_values(
        |k: TimestampMillisecond| Some(k),
    )
}

/// The columns of a put of the rows `data`.
pub fn new_put_data(data: &[(TimestampMillisecond, Option<i64>)]) -> (put_data: ColumnMap)
    ensures
        put_data.well_formed(),
        is_put_data(put_data@, data@),
{
    let mut put_data = ColumnMap::with_capacity(2);
    let mut timestamps: Vec<Option<TimestampMillisecond>> = Vec::new();
    let mut values: Vec<Option<i64>> = Vec::new();
    let mut i: usize = 0;
    while i < data.len()
        invariant
            i <= data@.len(),
            timestamps@ == data@.take(i as int).map_values(
                |r: (TimestampMillisecond, Option<i64>)| Some(r.0),
            ),
            values@ == data@.take(i as int).map_values(
                |r: (TimestampMillisecond, Option<i64>)| r.1,
            ),
        decreases data@.len() - i,
    {
        timestamps.push(Some(data[i].0));
        values.push(data[i].1);
        proof {
            assert(data@.take(i + 1).map_values(
                |r: (TimestampMillisecond, Option<i64>)| Some(r.0),
            ) =~= data@.take(i as int).map_values(
                |r: (TimestampMillisecond, Option<i64>)| Some(r.0),
            ).push(Some(data@[i as int].0)));
            assert(data@.take(i + 1).map_values(|r: (TimestampMillisecond, Option<i64>)| r.1)
                =~= data@.take(i as int).map_values(
                |r: (TimestampMillisecond, Option<i64>)| r.1,
            ).push(data@[i as int].1));
        }
        i += 1;
    }
    proof {
        assert(data@.take(data@.len() as int) =~= data@);
        lemma_names_differ();
    }
    let timestamps: VectorRef = Arc::new(
        Vector::TimestampMillisecond(TimestampMillisecondVector::from_values(timestamps)),
    );
    let values: VectorRef = Arc::new(Vector::Int64(Int64Vector::from_values(values)));
    put_data.insert(String::from_str(TIMESTAMP_NAME), timestamps);
    proof {
        assert(put_data.column(VALUE_NAME@) is None) by {
            reveal_with_fuel(position_of, 2);
        }
    }
    put_data.insert(String::from_str(VALUE_NAME), values);
    put_data
}

/// The column of the keys `keys` of a delete.
pub fn new_delete_data(keys: &[TimestampMillisecond]) -> (delete_data: ColumnMap)
    ensures
        delete_data.well_formed(),
        is_delete_data(delete_data@, keys@),
{
    let mut delete_data = ColumnMap::new();
    let mut timestamps: Vec<Option<TimestampMillisecond>> = Vec::new();
    let mut i: usize = 0;
    while i < keys.len()
        invariant
            i <= keys@.len(),
            timestamps@ == keys@.take(i as int).map_values(|k: TimestampMillisecond| Some(k)),
        decreases keys@.len() - i,
    {
        timestamps.push(Some(keys[i]));
        proof {
            assert(keys@.take(i + 1).map_values(|k: TimestampMillisecond| Some(k)) =~= keys@.take(
                i as int,
            ).map_values(|k: TimestampMillisecond| Some(k)).push(Some(keys@[i as int])));
        }
        i += 1;
    }
    proof {
        assert(keys@.take(keys@.len() as int) =~= keys@);
    }
    let timestamps: VectorRef = Arc::new(
        Vector::TimestampMillisecond(TimestampMillisecondVector::from_values(timestamps)),
    );
    delete_data.insert(String::from_str(TIMESTAMP_NAME), timestamps);
    delete_data
}

/// Appends the rows of `chunk` to `dst`. The chunk must hold two columns of
/// one length: timestamps without a null, then values.
pub fn append_chunk_to(chunk: &Chunk, dst: &mut Vec<(i64, Option<i64>)>)
    requires
        chunk.columns@.len() == 2,
        *chunk.columns@[0] matches Vector::TimestampMillisecond(ts) && (
        *chunk.columns@[1] matches Vector::Int64(v) && ts@.len() == v@.len() && forall|i: int|
            0 <= i < ts@.len() ==> (#[trigger] ts@[i]) is Some),
    ensures
        *chunk.columns@[0] matches Vector::TimestampMillisecond(ts) && (
        *chunk.columns@[1] matches Vector::Int64(v) && final(dst)@ == old(dst)@ + Seq::new(
            ts@.len(),
            |i: int| (ts@[i]->Some_0.0, v@[i]),
        )),
{
    let ghost before = dst@;
    match (&*chunk.columns[0], &*chunk.columns[1]) {
        (Vector::TimestampMillisecond(timestamps), Vector::Int64(values)) => {
            let mut i: usize = 0;
            while i < timestamps.len()
                invariant
                    i <= timestamps@.len(),
                    timestamps@.len() == values@.len(),
                    forall|j: int| 0 <= j < timestamps@.len() ==> (#[trigger] timestamps@[j]) is Some,
                    dst@ == before + Seq::new(
                        i as nat,
                        |j: int| (timestamps@[j]->Some_0.0, values@[j]),
                    ),
                decreases timestamps@.len() - i,
            {
                let ts = match timestamps.get_data(i) {
                    Some(t) => t.into_native(),
                    None => 0,
                };
                dst.push((ts, values.get_data(i)));
                proof {
                    assert(dst@ =~= before + Seq::new(
                        (i + 1) as nat,
                        |j: int| (timestamps@[j]->Some_0.0, values@[j]),
                    ));
                }
                i += 1;
            }
        },
        _ => {},
    }
}

/// The metadata of the region "region-name" with the columns (timestamp,
/// v0).
pub fn build_region_meta() -> (m: RegionMetadata)
    ensures
        m.well_formed(),
        is_test_schema(m.schema),
{
    new_metadata("region-name", false)
}

/// An edit that flushes up to `sequence`, adds the files named
/// `files_to_add` and removes those named `files_to_remove`, all of level 0.
pub fn build_region_edit(sequence: SequenceNumber, files_to_add: &[&str], files_to_remove: &[&str]) -> (edit:
    RegionEdit)
    ensures
        edit.region_version == 0,
        edit.flushed_sequence == sequence,
        edit.files_to_add@.len() == files_to_add@.len(),
        forall|i: int|
            0 <= i < files_to_add@.len() ==> (#[trigger] edit.files_to_add@[i]).file_name@
                == files_to_add@[i]@ && edit.files_to_add@[i].level == 0,
        edit.files_to_remove@.len() == files_to_remove@.len(),
        forall|i: int|
            0 <= i < files_to_remove@.len() ==> (#[trigger] edit.files_to_remove@[i]).file_name@
                == files_to_remove@[i]@ && edit.files_to_remove@[i].level == 0,
{
    let mut add: Vec<FileMeta> = Vec::new();
    let mut i: usize = 0;
    while i < files_to_add.len()
        invariant
            i <= files_to_add@.len(),
            add@.len() == i,
            forall|j: int|
                0 <= j < i ==> (#[trigger] add@[j]).file_name@ == files_to_add@[j]@ && add@[j].level
                    == 0,
        decreases files_to_add@.len() - i,
    {
        add.push(FileMeta { file_name: String::from_str(files_to_add[i]), level: 0 });
        i += 1;
    }
    let mut remove: Vec<FileMeta> = Vec::new();
    let mut k: usize = 0;
    while k < files_to_remove.len()
        invariant
            k <= files_to_remove@.len(),
            remove@.len() == k,
            forall|j: int|
                0 <= j < k ==> (#[trigger] remove@[j]).file_name@ == files_to_remove@[j]@
                    && remove@[j].level == 0,
        decreases files_to_remove@.len() - k,
    {
        remove.push(FileMeta { file_name: String::from_str(files_to_remove[k]), level: 0 });
        k += 1;
    }
    RegionEdit { region_version: 0, flushed_sequence: sequence, files_to_add: add, files_to_remove: remove }
}

/// The rows that a put of `data` stands for.
pub open spec fn put_ops(data: Seq<(i64, Option<i64>)>) -> Seq<RowOp> {
    Seq::new(data.len(), |i: int| RowOp { op: OpType::Put, key: data[i].0, value: data[i].1 })
}

/// The rows that a delete of `keys` stands for.
pub open spec fn delete_ops(keys: Seq<i64>) -> Seq<RowOp> {
    Seq::new(keys.len(), |i: int| RowOp { op: OpType::Delete, key: keys[i], value: None })
}

/// The timestamps that a column holds.
spec fn timestamps_in(column: NamedColumn) -> PrimitiveVector<TimestampMillisecond> {
    column.vector->TimestampMillisecond_0
}

/// The values that a column holds.
spec fn values_in(column: NamedColumn) -> PrimitiveVector<i64> {
    column.vector->Int64_0
}

/// What adding the columns of a put to an empty test batch comes to: the
/// rows, unless there are too many.
proof fn lemma_put_outcome(
    batch: WriteBatch,
    data: Seq<NamedColumn>,
    rows: Seq<(TimestampMillisecond, Option<i64>)>,
)
    requires
        is_test_schema(batch.schema),
        batch.rows@.len() == 0,
        is_put_data(data, rows),
    ensures
        batch.outcome(data, false) == if rows.len() > MAX_BATCH_SIZE {
            Err::<Seq<RowOp>, Option<Fault>>(Some(Fault::BatchTooLarge))
        } else {
            Ok::<Seq<RowOp>, Option<Fault>>(
                Seq::new(
                    rows.len(),
                    |i: int| RowOp { op: OpType::Put, key: rows[i].0.0, value: rows[i].1 },
                ),
            )
        },
{
    lemma_names_differ();
    let cols = batch.schema.column_schemas@;
    let layout = RowLayout { has_version: false, value_index: 1 };
    assert(layout_of(batch.schema) == Some(layout));
    assert(entry_fault(cols, layout, data, false, 0) is None);
    assert(entry_fault(cols, layout, data, false, 1) is None);
    assert(first_entry_fault(cols, layout, data, false, 0) is None) by {
        reveal_with_fuel(first_entry_fault, 3);
    }
    assert(position_of(data, TIMESTAMP_NAME@) == Some(0int)) by {
        reveal_with_fuel(position_of, 3);
    }
    assert(position_of(data, VALUE_NAME@) == Some(1int)) by {
        reveal_with_fuel(position_of, 3);
    }
    let ts = timestamps_in(data[0]);
    let v = values_in(data[1]);
    assert(first_len_fault(data, ts@.len(), 0) is None) by {
        reveal_with_fuel(first_len_fault, 3);
    }
    assert(!has_null(ts@));
    if rows.len() <= MAX_BATCH_SIZE {
        assert(put_rows(ts@, Some(v@)) =~= Seq::new(
            rows.len(),
            |i: int| RowOp { op: OpType::Put, key: rows[i].0.0, value: rows[i].1 },
        ));
    }
}

/// What adding the column of the keys of a delete to an empty test batch
/// comes to: the rows, unless there are too many.
proof fn lemma_delete_outcome(batch: WriteBatch, data: Seq<NamedColumn>, keys: Seq<TimestampMillisecond>)
    requires
        is_test_schema(batch.schema),
        batch.rows@.len() == 0,
        is_delete_data(data, keys),
    ensures
        batch.outcome(data, true) == if keys.len() > MAX_BATCH_SIZE {
            Err::<Seq<RowOp>, Option<Fault>>(Some(Fault::BatchTooLarge))
        } else {
            Ok::<Seq<RowOp>, Option<Fault>>(
                Seq::new(
                    keys.len(),
                    |i: int| RowOp { op: OpType::Delete, key: keys[i].0, value: None },
                ),
            )
        },
{
    lemma_names_differ();
    let cols = batch.schema.column_schemas@;
    let layout = RowLayout { has_version: false, value_index: 1 };
    assert(layout_of(batch.schema) == Some(layout));
    assert(entry_fault(cols, layout, data, true, 0) is None);
    assert(first_entry_fault(cols, layout, data, true, 0) is None) by {
        reveal_with_fuel(first_entry_fault, 2);
    }
    assert(position_of(data, TIMESTAMP_NAME@) == Some(0int)) by {
        reveal_with_fuel(position_of, 2);
    }
    let ts = timestamps_in(data[0]);
    assert(first_len_fault(data, ts@.len(), 0) is None) by {
        reveal_with_fuel(first_len_fault, 2);
    }
    assert(!has_null(ts@));
    if keys.len() <= MAX_BATCH_SIZE {
        assert(delete_rows(ts@) =~= Seq::new(
            keys.len(),
            |i: int| RowOp { op: OpType::Delete, key: keys[i].0, value: None },
        ));
    }
}

/// Drives a region whose rows are (timestamp, v0): the timestamp is the key,
/// v0 the value.
pub struct TesterBase<S: LogStore> {
    pub region: RegionImpl<S>,
    pub write_ctx: WriteContext,
    pub read_ctx: ReadContext,
}

impl<S: LogStore> TesterBase<S> {
    pub fn with_region(region: RegionImpl<S>) -> (tester: TesterBase<S>)
        ensures
            tester.region == region,
    {
        TesterBase { region, write_ctx: WriteContext {  }, read_ctx: ReadContext {  } }
    }

    /// Whether writing the rows `ops` to the region goes through: there are
    /// not too many, the region has the columns (timestamp, v0), sequence
    /// numbers are left, and the log has room.
    pub open spec fn accepts(&self, ops: Seq<RowOp>) -> bool {
        &&& ops.len() <= MAX_BATCH_SIZE
        &&& is_test_schema(self.region.version.metadata.schema)
        &&& (ops.len() == 0 || (self.region.committed_sequence + ops.len() <= u64::MAX
            && self.region.wal.accepts(
            entries_of(ops, (self.region.committed_sequence + 1) as u64),
        )))
    }

    fn write_rows(&mut self, batch: WriteBatch) -> (r: Result<WriteResponse>)
        requires
            old(self).region.well_formed(),
            is_test_schema(batch.schema),
            batch.rows@.len() <= MAX_BATCH_SIZE,
        ensures
            final(self).region.well_formed(),
            final(self).region.version.metadata == old(self).region.version.metadata,
            final(self).region.version.files == old(self).region.version.files,
            final(self).region.manifest == old(self).region.manifest,
            final(self).region.sst_layer == old(self).region.sst_layer,
            final(self).region.flush_strategy == old(self).region.flush_strategy,
            r is Ok <==> old(self).accepts(batch.rows@),
            match r {
                Ok(response) => {
                    &&& response.affected_rows == batch.rows@.len()
                    &&& final(self).region.entries() == old(self).region.entries() + entries_of(
                        batch.rows@,
                        (old(self).region.committed_sequence + 1) as u64,
                    )
                    &&& final(self).region.committed_sequence == old(self).region.committed_sequence
                        + batch.rows@.len()
                    &&& forall|next: Seq<Entry>|
                        old(self).region.wal.accepts(
                            entries_of(
                                batch.rows@,
                                (old(self).region.committed_sequence + 1) as u64,
                            ) + next,
                        ) ==> #[trigger] final(self).region.wal.accepts(next)
                },
                Err(_) => {
                    &&& final(self).region.entries() == old(self).region.entries()
                    &&& final(self).region.committed_sequence == old(self).region.committed_sequence
                    &&& forall|next: Seq<Entry>|
                        #[trigger] final(self).region.wal.accepts(next) == old(
                            self,
                        ).region.wal.accepts(next)
                },
            },
    {
        proof {
            let a = batch.schema;
            let b = self.region.version.metadata.schema;
            if same_columns(a, b) {
                assert(same_column(a.column_schemas@[0], b.column_schemas@[0]));
                assert(same_column(a.column_schemas@[1], b.column_schemas@[1]));
            }
            if is_test_schema(b) {
                assert forall|i: int| 0 <= i < a.column_schemas@.len() implies same_column(
                    #[trigger] a.column_schemas@[i],
                    b.column_schemas@[i],
                ) by {
                    if i == 0 {
                    } else {
                        assert(i == 1);
                    }
                }
            }
        }
        self.region.write(&self.write_ctx, batch)
    }

    /// Puts the rows `data`, each a timestamp and a value. Either all rows
    /// are written, under the next sequence numbers, or none.
    pub fn put(&mut self, data: &[(i64, Option<i64>)]) -> (r: Result<WriteResponse>)
        requires
            old(self).region.well_formed(),
        ensures
            final(self).region.well_formed(),
            final(self).region.version.metadata == old(self).region.version.metadata,
            final(self).region.version.files == old(self).region.version.files,
            final(self).region.manifest == old(self).region.manifest,
            final(self).region.sst_layer == old(self).region.sst_layer,
            final(self).region.flush_strategy == old(self).region.flush_strategy,
            r is Ok <==> old(self).accepts(put_ops(data@)),
            match r {
                Ok(response) => {
                    &&& response.affected_rows == data@.len()
                    &&& final(self).region.entries() == old(self).region.entries() + entries_of(
                        put_ops(data@),
                        (old(self).region.committed_sequence + 1) as u64,
                    )
                    &&& final(self).region.committed_sequence == old(self).region.committed_sequence
                        + data@.len()
                    &&& forall|next: Seq<Entry>|
                        old(self).region.wal.accepts(
                            entries_of(
                                put_ops(data@),
                                (old(self).region.committed_sequence + 1) as u64,
                            ) + next,
                        ) ==> #[trigger] final(self).region.wal.accepts(next)
                },
                Err(_) => {
                    &&& final(self).region.entries() == old(self).region.entries()
                    &&& final(self).region.committed_sequence == old(self).region.committed_sequence
                    &&& forall|next: Seq<Entry>|
                        #[trigger] final(self).region.wal.accepts(next) == old(
                            self,
                        ).region.wal.accepts(next)
                },
            },
    {
        let mut rows: Vec<(TimestampMillisecond, Option<i64>)> = Vec::new();
        let mut i: usize = 0;
        while i < data.len()
            invariant
                i <= data@.len(),
                rows@ == Seq::new(i as nat, |j: int| (TimestampMillisecond(data@[j].0), data@[j].1)),
            decreases data@.len() - i,
        {
            rows.push((TimestampMillisecond(data[i].0), data[i].1));
            proof {
                assert(rows@ =~= Seq::new(
                    (i + 1) as nat,
                    |j: int| (TimestampMillisecond(data@[j].0), data@[j].1),
                ));
            }
            i += 1;
        }
        let mut batch = new_write_batch_for_test(false);
        let put_data = new_put_data(rows.as_slice());
        proof {
            lemma_put_outcome(batch, put_data@, rows@);
            assert(Seq::new(
                rows@.len(),
                |i: int| RowOp { op: OpType::Put, key: rows@[i].0.0, value: rows@[i].1 },
            ) =~= put_ops(data@));
        }
        match batch.put(put_data) {
            Ok(()) => {},
            Err(e) => {
                return Err(e);
            },
        }
        proof {
            assert(batch.rows@ =~= put_ops(data@));
        }
        self.write_rows(batch)
    }

    /// Puts the rows `data` as [`TesterBase::put`] does.
    pub fn put_inner(&mut self, data: &[(i64, Option<i64>)]) -> (r: Result<WriteResponse>)
        requires
            old(self).region.well_formed(),
        ensures
            final(self).region.well_formed(),
            final(self).region.version.metadata == old(self).region.version.metadata,
            final(self).region.version.files == old(self).region.version.files,
            final(self).region.manifest == old(self).region.manifest,
            final(self).region.sst_layer == old(self).region.sst_layer,
            final(self).region.flush_strategy == old(self).region.flush_strategy,
            r is Ok <==> old(self).accepts(put_ops(data@)),
            match r {
                Ok(response) => {
                    &&& response.affected_rows == data@.len()
                    &&& final(self).region.entries() == old(self).region.entries() + entries_of(
                        put_ops(data@),
                        (old(self).region.committed_sequence + 1) as u64,
                    )
                    &&& final(self).region.committed_sequence == old(self).region.committed_sequence
                        + data@.len()
                    &&& forall|next: Seq<Entry>|
                        old(self).region.wal.accepts(
                            entries_of(
                                put_ops(data@),
                                (old(self).region.committed_sequence + 1) as u64,
                            ) + next,
                        ) ==> #[trigger] final(self).region.wal.accepts(next)
                },
                Err(_) => {
                    &&& final(self).region.entries() == old(self).region.entries()
                    &&& final(self).region.committed_sequence == old(self).region.committed_sequence
                    &&& forall|next: Seq<Entry>|
                        #[trigger] final(self).region.wal.accepts(next) == old(
                            self,
                        ).region.wal.accepts(next)
                },
            },
    {
        self.put(data)
    }

    /// Deletes the rows with the timestamps `keys`. Either a delete is
    /// written for each key, under the next sequence numbers, or for none.
    pub fn delete(&mut self, keys: &[i64]) -> (r: Result<WriteResponse>)
        requires
            old(self).region.well_formed(),
        ensures
            final(self).region.well_formed(),
            final(self).region.version.metadata == old(self).region.version.metadata,
            final(self).region.version.files == old(self).region.version.files,
            final(self).region.manifest == old(self).region.manifest,
            final(self).region.sst_layer == old(self).region.sst_layer,
            final(self).region.flush_strategy == old(self).region.flush_strategy,
            r is Ok <==> old(self).accepts(delete_ops(keys@)),
            match r {
                Ok(response) => {
                    &&& response.affected_rows == keys@.len()
                    &&& final(self).region.entries() == old(self).region.entries() + entries_of(
                        delete_ops(keys@),
                        (old(self).region.committed_sequence + 1) as u64,
                    )
                    &&& final(self).region.committed_sequence == old(self).region.committed_sequence
                        + keys@.len()
                    &&& forall|next: Seq<Entry>|
                        old(self).region.wal.accepts(
                            entries_of(
                                delete_ops(keys@),
                                (old(self).region.committed_sequence + 1) as u64,
                            ) + next,
                        ) ==> #[trigger] final(self).region.wal.accepts(next)
                },
                Err(_) => {
                    &&& final(self).region.entries() == old(self).region.entries()
                    &&& final(self).region.committed_sequence == old(self).region.committed_sequence
                    &&& forall|next: Seq<Entry>|
                        #[trigger] final(self).region.wal.accepts(next) == old(
                            self,
                        ).region.wal.accepts(next)
                },
            },
    {
        let mut timestamps: Vec<TimestampMillisecond> = Vec::new();
        let mut i: usize = 0;
        while i < keys.len()
            invariant
                i <= keys@.len(),
                timestamps@ == Seq::new(i as nat, |j: int| TimestampMillisecond(keys@[j])),
            decreases keys@.len() - i,
        {
            timestamps.push(TimestampMillisecond(keys[i]));
            proof {
                assert(timestamps@ =~= Seq::new(
                    (i + 1) as nat,
                    |j: int| TimestampMillisecond(keys@[j]),
                ));
            }
            i += 1;
        }
        let mut batch = new_write_batch_for_test(false);
        let delete_data = new_delete_data(timestamps.as_slice());
        proof {
            lemma_delete_outcome(batch, delete_data@, timestamps@);
            assert(Seq::new(
                timestamps@.len(),
                |i: int| RowOp { op: OpType::Delete, key: timestamps@[i].0, value: None },
            ) =~= delete_ops(keys@));
        }
        match batch.delete(delete_data) {
            Ok(()) => {},
            Err(e) => {
                return Err(e);
            },
        }
        proof {
            assert(batch.rows@ =~= delete_ops(keys@));
        }
        self.write_rows(batch)
    }

    pub fn committed_sequence(&self) -> (s: SequenceNumber)
        ensures
            s == self.region.committed_sequence,
    {
        self.region.committed_sequence()
    }

    /// Replays the log of the region into a fresh memtable, as
    /// [`RegionImpl::replay`] does.
    pub fn replay_inner(&mut self, recovered_metadata: crate::storage::manifest::RecoveredMetadataMap)
        requires
            old(self).region.wal.inv(),
        ensures
            final(self).region.wal == old(self).region.wal,
            final(self).region.version.files == old(self).region.version.files,
            final(self).region.version.flushed_sequence == old(self).region.version.flushed_sequence,
            final(self).region.version.immutable is None,
            final(self).region.version.mutable@ == crate::storage::wal::entries_after(
                old(self).region.wal.log(),
                old(self).region.version.flushed_sequence,
            ),
    {
        self.region.replay(recovered_metadata)
    }

    /// Scans all data: every row that is visible now, ascending in the
    /// timestamp. That is exactly the last put of each key, with deleted keys
    /// absent: the rows list the map that results from applying all
    /// mutations of the region in order. The region must have the two columns
    /// (timestamp, v0).
    pub fn full_scan(&self) -> (r: Result<Vec<(i64, Option<i64>)>>)
        requires
            self.region.well_formed(),
        ensures
            match r {
                Ok(rows) => {
                    &&& self.region.version.metadata.schema.column_schemas@.len() == 2
                    &&& is_scan_of(rows@, self.region.entries(), self.region.committed_sequence)
                    &&& crate::storage::memtable::is_listing(
                        rows@,
                        crate::storage::memtable::replay_map(self.region.entries()),
                    )
                },
                Err(e) => self.region.version.metadata.schema.column_schemas@.len() != 2 && e
                    == Error::UnsupportedLayout,
            },
    {
        if self.region.version.metadata.schema.column_schemas.len() != 2 {
            return Err(Error::UnsupportedLayout);
        }
        let snapshot = match self.region.snapshot(&self.read_ctx) {
            Ok(s) => s,
            Err(e) => {
                return Err(e);
            },
        };
        let response = match snapshot.scan(&self.read_ctx, ScanRequest::default()) {
            Ok(r) => r,
            Err(e) => {
                return Err(e);
            },
        };
        let mut reader = response.reader;
        let ghost rows = reader.rows@;
        let mut dst: Vec<(i64, Option<i64>)> = Vec::new();
        loop
            invariant
                self.region.version.metadata.schema.column_schemas@.len() == 2,
                reader.metadata == self.region.version.metadata,
                reader.projection@ == Seq::new(2, |i: int| i as usize),
                reader.rows@ == rows,
                reader.position <= rows.len(),
                dst@ == rows.take(reader.position as int),
            ensures
                dst@ == rows,
            decreases rows.len() - reader.position,
        {
            let ghost from = reader.position as int;
            let ghost before = dst@;
            match reader.next_chunk() {
                Ok(Some(chunk)) => {
                    let ghost part = rows.subrange(from, reader.position as int);
                    proof {
                        assert(reader.projection@[0] == 0 && reader.projection@[1] == 1);
                        assert(is_chunk_column(*chunk.columns@[0], part, 2, 0));
                        assert(is_chunk_column(*chunk.columns@[1], part, 2, 1));
                    }
                    append_chunk_to(&chunk, &mut dst);
                    proof {
                        assert(dst@ =~= before + part);
                        assert(dst@ =~= rows.take(reader.position as int));
                    }
                },
                _ => {
                    proof {
                        assert(rows.take(rows.len() as int) =~= rows);
                    }
                    break ;
                },
            }
        }
        proof {
            crate::storage::memtable::lemma_scan_of_all(
                self.region.entries(),
                self.region.committed_sequence,
                dst@,
            );
        }
        Ok(dst)
    }
}

} // verus!
