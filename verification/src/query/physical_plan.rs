//! Physical plans of the query engine, and the adapter that runs one as a
//! plan of this crate.

use std::sync::Arc;
use vstd::prelude::*;
use crate::datatypes::arrow::{
    from_arrow_type, is_column_of_field, is_field_of_column, ArrowSchema, ArrowSchemaRef,
};
use crate::datatypes::schema::SchemaRef;
use crate::recordbatch::adapter::{
    ArrowError, DataFusionError, DfRecordBatch, DfSendableRecordBatchStream,
    RecordBatchStreamAdapter,
};
use crate::sharing::share;

verus! {

/// What can go wrong when plans are adapted and run.
#[derive(Clone, Debug, PartialEq, Eq)]
pub enum Error {
    /// The query engine failed.
    GeneralDataFusion { source: DataFusionError },
    /// The stream of a plan could not be adapted.
    ConvertDfRecordBatchStream { source: crate::recordbatch::batch::Error },
    /// A wire schema does not convert.
    ConvertArrowSchema { source: crate::datatypes::error::Error },
}

pub type Result<T> = core::result::Result<T, Error>;

/// How the output of a plan is split into partitions.
#[derive(Clone, Copy, Debug, PartialEq, Eq)]
pub enum Partitioning {
    RoundRobinBatch(usize),
    Hash(usize),
    UnknownPartitioning(usize),
}

impl Partitioning {
    /// The number of partitions.
    pub fn partition_count(&self) -> (n: usize)
        ensures
            n == self.spec_partition_count(),
    {
        match self {
            Partitioning::RoundRobinBatch(n) => *n,
            Partitioning::Hash(n) => *n,
            Partitioning::UnknownPartitioning(n) => *n,
        }
    }

    pub open spec fn spec_partition_count(self) -> usize {
        match self {
            Partitioning::RoundRobinBatch(n) => n,
            Partitioning::Hash(n) => n,
            Partitioning::UnknownPartitioning(n) => n,
        }
    }
}

/// A physical plan of the query engine: its schema, its children, and the
/// batches that each of its partitions yields, in order.
#[derive(Clone, Debug, PartialEq, Eq)]
pub struct DfPhysicalPlan {
    pub schema: ArrowSchemaRef,
    pub children: Vec<Arc<DfPhysicalPlan>>,
    pub partitions: Vec<Vec<DfRecordBatch>>,
}

/// Whether `item` is the batch `batch`, with the same schema and columns.
pub open spec fn is_copy_of(
    item: core::result::Result<DfRecordBatch, ArrowError>,
    batch: DfRecordBatch,
) -> bool {
    item matches Ok(b) && b.schema == batch.schema && b.columns@ == batch.columns@
}

fn duplicate_batch(batch: &DfRecordBatch) -> (copy: DfRecordBatch)
    ensures
        copy.schema == batch.schema,
        copy.columns@ == batch.columns@,
{
    let mut columns: Vec<crate::datatypes::arrow::ArrowArray> = Vec::new();
    let mut i: usize = 0;
    while i < batch.columns.len()
        invariant
            i <= batch.columns@.len(),
            columns@ == batch.columns@.take(i as int),
        decreases batch.columns@.len() - i,
    {
        let column = &batch.columns[i];
        columns.push(
            crate::datatypes::arrow::ArrowArray {
                data_type: column.data_type,
                data: share(&column.data),
            },
        );
        proof {
            assert(batch.columns@.take(i + 1) =~= batch.columns@.take(i as int).push(
                batch.columns@[i as int],
            ));
        }
        i += 1;
    }
    proof {
        assert(batch.columns@.take(batch.columns@.len() as int) =~= batch.columns@);
    }
    DfRecordBatch { schema: share(&batch.schema), columns }
}

/// Whether every field of the wire schema `schema` has a type with a
/// counterpart.
pub open spec fn converts(schema: ArrowSchema) -> bool {
    forall|i: int|
        0 <= i < schema.fields@.len() ==> from_arrow_type(
            (#[trigger] schema.fields@[i]).data_type,
        ) is Some
}

/// Whether the stream `stream`, of the schema `schema`, yields the batches
/// `batches` in their order, each once, and then ends.
pub open spec fn yields(
    stream: DfSendableRecordBatchStream,
    schema: ArrowSchemaRef,
    batches: Seq<DfRecordBatch>,
) -> bool {
    &&& stream.schema == schema
    &&& stream.items@.len() == batches.len()
    &&& forall|i: int|
        0 <= i < batches.len() ==> is_copy_of(
            #[trigger] stream.items@[i],
            batches[batches.len() - 1 - i],
        )
}

/// The batches of the partitions from `from` on, one partition after the
/// other.
pub open spec fn merged_from(partitions: Seq<Vec<DfRecordBatch>>, from: int) -> Seq<DfRecordBatch>
    decreases partitions.len() - from,
{
    if from < 0 || from >= partitions.len() {
        Seq::empty()
    } else {
        partitions[from]@ + merged_from(partitions, from + 1)
    }
}

impl DfPhysicalPlan {
    /// The partitioning of the output: as many partitions as the plan has,
    /// split in an unknown way.
    pub fn output_partitioning(&self) -> (p: Partitioning)
        ensures
            p == Partitioning::UnknownPartitioning(self.partitions@.len() as usize),
            p.spec_partition_count() == self.partitions@.len(),
    {
        Partitioning::UnknownPartitioning(self.partitions.len())
    }

    /// The stream of the batches of the partition `partition`. Fails exactly
    /// when the plan has no such partition.
    pub fn execute(&self, partition: usize) -> (r: core::result::Result<
        DfSendableRecordBatchStream,
        DataFusionError,
    >)
        ensures
            match r {
                Ok(stream) => partition < self.partitions@.len() && yields(
                    stream,
                    self.schema,
                    self.partitions@[partition as int]@,
                ),
                Err(e) => partition >= self.partitions@.len() && e is Execution,
            },
    {
        if partition >= self.partitions.len() {
            return Err(DataFusionError::Execution(String::from_str("no such partition")));
        }
        let batches = &self.partitions[partition];
        let mut items: Vec<core::result::Result<DfRecordBatch, ArrowError>> = Vec::new();
        let mut i: usize = batches.len();
        while i > 0
            invariant
                i <= batches@.len(),
                items@.len() == batches@.len() - i,
                forall|k: int|
                    0 <= k < items@.len() ==> is_copy_of(
                        #[trigger] items@[k],
                        batches@[batches@.len() - 1 - k],
                    ),
            decreases i,
        {
            items.push(Ok(duplicate_batch(&batches[i - 1])));
            i -= 1;
        }
        Ok(DfSendableRecordBatchStream { schema: share(&self.schema), items })
    }

    /// The one stream of the batches of all partitions: those of the first
    /// partition, then those of the second, and so on, each batch once.
    pub fn execute_all(&self) -> (stream: DfSendableRecordBatchStream)
        ensures
            yields(stream, self.schema, merged_from(self.partitions@, 0)),
    {
        let mut items: Vec<core::result::Result<DfRecordBatch, ArrowError>> = Vec::new();
        let mut p: usize = self.partitions.len();
        while p > 0
            invariant
                p <= self.partitions@.len(),
                items@.len() == merged_from(self.partitions@, p as int).len(),
                forall|k: int|
                    0 <= k < items@.len() ==> is_copy_of(
                        #[trigger] items@[k],
                        merged_from(self.partitions@, p as int)[items@.len() - 1 - k],
                    ),
            decreases p,
        {
            let batches = &self.partitions[p - 1];
            let ghost done = items@;
            let ghost rest = merged_from(self.partitions@, p as int);
            let mut i: usize = batches.len();
            while i > 0
                invariant
                    i <= batches@.len(),
                    done.len() == rest.len(),
                    items@.len() == done.len() + batches@.len() - i,
                    forall|k: int| 0 <= k < done.len() ==> (#[trigger] items@[k]) == done[k],
                    forall|k: int|
                        done.len() <= k < items@.len() ==> is_copy_of(
                            #[trigger] items@[k],
                            batches@[batches@.len() - 1 - (k - done.len())],
                        ),
                decreases i,
            {
                items.push(Ok(duplicate_batch(&batches[i - 1])));
                i -= 1;
            }
            proof {
                let all = merged_from(self.partitions@, p - 1);
                assert(all =~= batches@ + rest);
                assert forall|k: int| 0 <= k < items@.len() implies is_copy_of(
                    #[trigger] items@[k],
                    all[items@.len() - 1 - k],
                ) by {
                    if k < done.len() {
                        assert(items@[k] == done[k]);
                        assert(all[items@.len() - 1 - k] == rest[done.len() - 1 - k]);
                    } else {
                        assert(all[items@.len() - 1 - k] == batches@[batches@.len() - 1 - (k
                            - done.len())]);
                    }
                }
            }
            p -= 1;
        }
        DfSendableRecordBatchStream { schema: share(&self.schema), items }
    }
}

/// Runs a plan of the query engine as a plan of this crate, under a schema
/// of this crate.
#[derive(Debug)]
pub struct PhysicalPlanAdapter {
    schema: SchemaRef,
    df_plan: Arc<DfPhysicalPlan>,
}

impl PhysicalPlanAdapter {
    pub closed spec fn spec_schema(&self) -> SchemaRef {
        self.schema
    }

    pub closed spec fn spec_df_plan(&self) -> Arc<DfPhysicalPlan> {
        self.df_plan
    }

    pub fn new(schema: SchemaRef, df_plan: Arc<DfPhysicalPlan>) -> (adapter: PhysicalPlanAdapter)
        ensures
            adapter.spec_schema() == schema,
            adapter.spec_df_plan() == df_plan,
    {
        PhysicalPlanAdapter { schema, df_plan }
    }

    /// The plan of the query engine that the adapter runs.
    pub fn df_plan(&self) -> (plan: Arc<DfPhysicalPlan>)
        ensures
            plan == self.spec_df_plan(),
    {
        share(&self.df_plan)
    }

    /// The schema of the plan.
    pub fn schema(&self) -> (schema: SchemaRef)
        ensures
            schema == self.spec_schema(),
    {
        share(&self.schema)
    }

    /// The partitioning of the output: that of the plan that is run.
    pub fn output_partitioning(&self) -> (p: Partitioning)
        ensures
            p == Partitioning::UnknownPartitioning(
                self.spec_df_plan().partitions@.len() as usize,
            ),
            p.spec_partition_count() == self.spec_df_plan().partitions@.len(),
    {
        self.df_plan.output_partitioning()
    }

    /// The children of the plan: an adapter, under the schema of this one,
    /// for each child of the plan that is run.
    pub fn children(&self) -> (children: Vec<PhysicalPlanAdapter>)
        ensures
            children@.len() == self.spec_df_plan().children@.len(),
            forall|i: int|
                0 <= i < children@.len() ==> (#[trigger] children@[i]).spec_schema()
                    == self.spec_schema() && children@[i].spec_df_plan()
                    == self.spec_df_plan().children@[i],
    {
        let mut children: Vec<PhysicalPlanAdapter> = Vec::new();
        let mut i: usize = 0;
        while i < self.df_plan.children.len()
            invariant
                i <= self.df_plan.children@.len(),
                children@.len() == i,
                forall|j: int|
                    0 <= j < i ==> (#[trigger] children@[j]).schema == self.schema
                        && children@[j].df_plan == self.df_plan.children@[j],
            decreases self.df_plan.children@.len() - i,
        {
            children.push(
                PhysicalPlanAdapter::new(share(&self.schema), share(&self.df_plan.children[i])),
            );
            i += 1;
        }
        children
    }

    /// Whether `adapter` is the stream, as a stream of this crate, that
    /// yields the batches `batches` of the plan that is run.
    pub open spec fn is_stream_of(&self, adapter: RecordBatchStreamAdapter, batches: Seq<DfRecordBatch>) -> bool {
        &&& yields(adapter.stream, self.spec_df_plan().schema, batches)
        &&& adapter.schema.column_schemas@.len() == self.spec_df_plan().schema.fields@.len()
        &&& forall|i: int|
            0 <= i < self.spec_df_plan().schema.fields@.len() ==> is_column_of_field(
                #[trigger] adapter.schema.column_schemas@[i],
                self.spec_df_plan().schema.fields@[i],
            )
    }

    /// Runs the partition `partition`: the stream of the plan that is run,
    /// adapted to a stream of this crate. Fails exactly when the plan has no
    /// such partition, or when its wire schema does not convert.
    pub fn execute(&self, partition: usize) -> (r: Result<RecordBatchStreamAdapter>)
        ensures
            if partition >= self.spec_df_plan().partitions@.len() {
                r matches Err(Error::GeneralDataFusion { source }) && source is Execution
            } else if !converts(*self.spec_df_plan().schema) {
                r matches Err(Error::ConvertDfRecordBatchStream { source })
                    && source is SchemaConversion
            } else {
                r matches Ok(adapter) && self.is_stream_of(
                    adapter,
                    self.spec_df_plan().partitions@[partition as int]@,
                )
            },
    {
        let stream = match self.df_plan.execute(partition) {
            Ok(stream) => stream,
            Err(source) => {
                return Err(Error::GeneralDataFusion { source });
            },
        };
        match RecordBatchStreamAdapter::try_new(stream) {
            Ok(adapter) => {
                proof {
                    let fields = self.df_plan.schema.fields@;
                    assert forall|i: int| 0 <= i < fields.len() implies from_arrow_type(
                        (#[trigger] fields[i]).data_type,
                    ) is Some by {
                        assert(is_column_of_field(adapter.schema.column_schemas@[i], fields[i]));
                    }
                }
                Ok(adapter)
            },
            Err(source) => Err(Error::ConvertDfRecordBatchStream { source }),
        }
    }

    /// Runs all partitions as one stream, one partition after the other.
    /// Fails exactly when the wire schema of the plan does not convert.
    pub fn execute_all(&self) -> (r: Result<RecordBatchStreamAdapter>)
        ensures
            if !converts(*self.spec_df_plan().schema) {
                r matches Err(Error::ConvertDfRecordBatchStream { source })
                    && source is SchemaConversion
            } else {
                r matches Ok(adapter) && self.is_stream_of(
                    adapter,
                    merged_from(self.spec_df_plan().partitions@, 0),
                )
            },
    {
        match RecordBatchStreamAdapter::try_new(self.df_plan.execute_all()) {
            Ok(adapter) => {
                proof {
                    let fields = self.df_plan.schema.fields@;
                    assert forall|i: int| 0 <= i < fields.len() implies from_arrow_type(
                        (#[trigger] fields[i]).data_type,
                    ) is Some by {
                        assert(is_column_of_field(adapter.schema.column_schemas@[i], fields[i]));
                    }
                }
                Ok(adapter)
            },
            Err(source) => Err(Error::ConvertDfRecordBatchStream { source }),
        }
    }
}

/// Presents a plan of this crate to the query engine.
#[derive(Debug)]
pub struct DfPhysicalPlanAdapter(pub Arc<PhysicalPlanAdapter>);

impl DfPhysicalPlanAdapter {
    /// The wire schema of the plan.
    pub fn schema(&self) -> (schema: ArrowSchema)
        ensures
            schema.fields@.len() == self.0.spec_schema().column_schemas@.len(),
            forall|i: int|
                0 <= i < schema.fields@.len() ==> is_field_of_column(
                    #[trigger] schema.fields@[i],
                    self.0.spec_schema().column_schemas@[i],
                ),
    {
        self.0.schema().arrow_schema()
    }

    /// The partitioning of the output: that of the plan.
    pub fn output_partitioning(&self) -> (p: Partitioning)
        ensures
            p == Partitioning::UnknownPartitioning(
                self.0.spec_df_plan().partitions@.len() as usize,
            ),
            p.spec_partition_count() == self.0.spec_df_plan().partitions@.len(),
    {
        self.0.output_partitioning()
    }

    /// The output is in no known order.
    pub fn output_ordering(&self) -> (ordering: Option<Vec<String>>)
        ensures
            ordering is None,
    {
        None
    }
}

} // verus!
