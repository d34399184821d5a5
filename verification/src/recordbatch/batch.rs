//! Record batches: rows of one schema, column by column.

use vstd::prelude::*;
use vstd::string::StringExecFns;
use crate::datatypes::schema::{Schema, SchemaRef};
use crate::datatypes::vectors::VectorRef;
use crate::sharing::share;

verus! {

/// What can go wrong with record batches and their streams.
#[derive(Clone, Debug, PartialEq, Eq)]
pub enum Error {
    /// The columns do not fit the schema, or differ in length.
    NewDfRecordBatch { reason: String },
    /// A schema of the wire cannot be converted.
    SchemaConversion { source: crate::datatypes::error::Error },
    /// Polling a stream failed.
    PollStream { source: String },
    /// A stream could not be set up.
    InitRecordbatchStream { source: String },
    /// The schemas of the batches differ.
    CreateRecordBatches { reason: String },
    /// An error of another layer.
    External { source: String },
}

pub type Result<T> = core::result::Result<T, Error>;

impl Error {
    /// The text of the error: what went wrong, and the text of what caused
    /// it.
    pub open spec fn spec_message(self) -> Seq<char> {
        match self {
            Error::NewDfRecordBatch { reason } => "Fail to create record batch, reason: "@ + reason@,
            Error::SchemaConversion { source } => "Failed to convert Arrow schema"@,
            Error::PollStream { source } => "Failed to poll stream, source: "@ + source@,
            Error::InitRecordbatchStream { source } => "Failed to init Recordbatch stream, source: "@
                + source@,
            Error::CreateRecordBatches { reason } => "Failed to create RecordBatches, reason: "@
                + reason@,
            Error::External { source } => "External error, source: "@ + source@,
        }
    }

    /// The text of the error.
    pub fn message(&self) -> (text: String)
        ensures
            text@ == self.spec_message(),
    {
        match self {
            Error::NewDfRecordBatch { reason } => {
                let mut text = String::from_str("Fail to create record batch, reason: ");
                text.append(reason.as_str());
                text
            },
            Error::SchemaConversion { source } => String::from_str("Failed to convert Arrow schema"),
            Error::PollStream { source } => {
                let mut text = String::from_str("Failed to poll stream, source: ");
                text.append(source.as_str());
                text
            },
            Error::InitRecordbatchStream { source } => {
                let mut text = String::from_str("Failed to init Recordbatch stream, source: ");
                text.append(source.as_str());
                text
            },
            Error::CreateRecordBatches { reason } => {
                let mut text = String::from_str("Failed to create RecordBatches, reason: ");
                text.append(reason.as_str());
                text
            },
            Error::External { source } => {
                let mut text = String::from_str("External error, source: ");
                text.append(source.as_str());
                text
            },
        }
    }
}

/// Some rows of one schema, column by column.
#[derive(Clone, Debug, PartialEq, Eq)]
pub struct RecordBatch {
    pub schema: SchemaRef,
    pub columns: Vec<VectorRef>,
}

/// Whether `columns` can be the columns of a batch of `schema`: one column
/// for each column of the schema, of its type, and all of one length.
pub open spec fn fits_schema(schema: Schema, columns: Seq<VectorRef>) -> bool {
    &&& columns.len() == schema.column_schemas@.len()
    &&& forall|i: int|
        0 <= i < columns.len() ==> (#[trigger] columns[i]).spec_data_type()
            == schema.column_schemas@[i].data_type
    &&& forall|i: int|
        0 <= i < columns.len() ==> (#[trigger] columns[i]).spec_len() == columns[0].spec_len()
}

impl RecordBatch {
    /// The batch of the given columns. Fails exactly when the columns do not
    /// fit the schema.
    pub fn new(schema: SchemaRef, columns: Vec<VectorRef>) -> (r: Result<RecordBatch>)
        ensures
            match r {
                Ok(batch) => fits_schema(*schema, columns@) && batch == (RecordBatch {
                    schema,
                    columns,
                }),
                Err(e) => !fits_schema(*schema, columns@) && e is NewDfRecordBatch,
            },
    {
        if columns.len() != schema.column_schemas.len() {
            return Err(
                Error::NewDfRecordBatch {
                    reason: String::from_str("the number of columns is not that of the schema"),
                },
            );
        }
        let mut i: usize = 0;
        while i < columns.len()
            invariant
                i <= columns@.len(),
                columns@.len() == schema.column_schemas@.len(),
                forall|j: int|
                    0 <= j < i ==> (#[trigger] columns@[j]).spec_data_type()
                        == schema.column_schemas@[j].data_type,
                forall|j: int|
                    0 <= j < i ==> (#[trigger] columns@[j]).spec_len() == columns@[0].spec_len(),
            decreases columns@.len() - i,
        {
            if columns[i].data_type() != schema.column_schemas[i].data_type {
                return Err(
                    Error::NewDfRecordBatch {
                        reason: String::from_str("a column has another type than the schema gives it"),
                    },
                );
            }
            if columns[i].len() != columns[0].len() {
                return Err(
                    Error::NewDfRecordBatch {
                        reason: String::from_str("the columns differ in length"),
                    },
                );
            }
            i += 1;
        }
        Ok(RecordBatch { schema, columns })
    }

    pub fn num_columns(&self) -> (n: usize)
        ensures
            n == self.columns@.len(),
    {
        self.columns.len()
    }

    /// The number of rows: the length of the first column, 0 without
    /// columns.
    pub fn num_rows(&self) -> (n: usize)
        ensures
            n == if self.columns@.len() == 0 {
                0
            } else {
                self.columns@[0].spec_len()
            },
    {
        if self.columns.len() == 0 {
            0
        } else {
            self.columns[0].len()
        }
    }

    /// The column at `index`.
    pub fn column(&self, index: usize) -> (c: &VectorRef)
        requires
            index < self.columns@.len(),
        ensures
            *c == self.columns@[index as int],
    {
        &self.columns[index]
    }

    /// A batch that shares the schema and the columns of this one.
    pub fn duplicate(&self) -> (batch: RecordBatch)
        ensures
            batch.schema == self.schema,
            batch.columns@ == self.columns@,
    {
        let mut columns: Vec<VectorRef> = Vec::new();
        let mut i: usize = 0;
        while i < self.columns.len()
            invariant
                i <= self.columns@.len(),
                columns@ == self.columns@.take(i as int),
            decreases self.columns@.len() - i,
        {
            columns.push(share(&self.columns[i]));
            proof {
                assert(self.columns@.take(i + 1) =~= self.columns@.take(i as int).push(
                    self.columns@[i as int],
                ));
            }
            i += 1;
        }
        proof {
            assert(self.columns@.take(self.columns@.len() as int) =~= self.columns@);
        }
        RecordBatch { schema: share(&self.schema), columns }
    }
}

/// Batches of one schema.
#[derive(Clone, Debug, PartialEq, Eq)]
pub struct RecordBatches {
    pub schema: SchemaRef,
    pub batches: Vec<RecordBatch>,
}

impl RecordBatches {
    /// The given batches under `schema`.
    pub fn try_new(schema: SchemaRef, batches: Vec<RecordBatch>) -> (r: Result<RecordBatches>)
        ensures
            r == Ok::<RecordBatches, Error>(RecordBatches { schema, batches }),
    {
        Ok(RecordBatches { schema, batches })
    }

    /// No batches, under a schema without columns.
    pub fn empty() -> (r: RecordBatches)
        ensures
            r.batches@.len() == 0,
            r.schema.column_schemas@.len() == 0,
    {
        RecordBatches { schema: std::sync::Arc::new(Schema::new(Vec::new())), batches: Vec::new() }
    }

    pub fn schema(&self) -> (s: SchemaRef)
        ensures
            s == self.schema,
    {
        share(&self.schema)
    }

    /// The batches, in order.
    pub fn take(self) -> (batches: Vec<RecordBatch>)
        ensures
            batches == self.batches,
    {
        self.batches
    }
}

} // verus!
