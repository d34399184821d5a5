//! Adapters between the two kinds of record batch streams: those of this
//! crate, and those of the query engine, which carry wire batches.
//!
//! A stream here is a stack of items that are ready: polling pops the next
//! one.

use std::sync::Arc;
use vstd::prelude::*;
use crate::datatypes::arrow::{
    from_arrow_type, is_column_of_field, is_field_of_column, to_arrow_type, ArrowArray,
    ArrowSchema, ArrowSchemaRef,
};
use crate::datatypes::helper::{first_vector_fault, lemma_no_vector_fault, Helper};
use crate::datatypes::schema::{Schema, SchemaRef};

use crate::recordbatch::batch::{Error, RecordBatch, Result};
use crate::sharing::share;

verus! {

/// What polling finds.
#[derive(Debug, PartialEq, Eq)]
pub enum Polled<T> {
    /// Nothing is ready yet.
    Pending,
    /// The next item is ready.
    Ready(T),
}

/// An error of the wire format.
#[derive(Clone, Debug, PartialEq, Eq)]
pub enum ArrowError {
    /// An error of this crate's streams, carried through.
    ExternalError(Error),
    /// An error of a computation.
    ComputeError(String),
}

/// An error of the query engine.
#[derive(Clone, Debug, PartialEq, Eq)]
pub enum DataFusionError {
    ArrowError(ArrowError),
    Plan(String),
    Execution(String),
    External(String),
}

impl ArrowError {
    /// The text of the error.
    pub open spec fn spec_message(self) -> Seq<char> {
        match self {
            ArrowError::ExternalError(e) => "External error: "@ + e.spec_message(),
            ArrowError::ComputeError(reason) => "Compute error: "@ + reason@,
        }
    }

    /// The text of the error.
    pub fn message(&self) -> (text: String)
        ensures
            text@ == self.spec_message(),
    {
        match self {
            ArrowError::ExternalError(e) => {
                let mut text = String::from_str("External error: ");
                let source = e.message();
                text.append(source.as_str());
                text
            },
            ArrowError::ComputeError(reason) => {
                let mut text = String::from_str("Compute error: ");
                text.append(reason.as_str());
                text
            },
        }
    }
}

impl DataFusionError {
    /// The text of the error.
    pub open spec fn spec_message(self) -> Seq<char> {
        match self {
            DataFusionError::ArrowError(e) => "Arrow error: "@ + e.spec_message(),
            DataFusionError::Plan(reason) => "Error during planning: "@ + reason@,
            DataFusionError::Execution(reason) => "Execution error: "@ + reason@,
            DataFusionError::External(reason) => "External error: "@ + reason@,
        }
    }

    /// The text of the error.
    pub fn message(&self) -> (text: String)
        ensures
            text@ == self.spec_message(),
    {
        match self {
            DataFusionError::ArrowError(e) => {
                let mut text = String::from_str("Arrow error: ");
                let source = e.message();
                text.append(source.as_str());
                text
            },
            DataFusionError::Plan(reason) => {
                let mut text = String::from_str("Error during planning: ");
                text.append(reason.as_str());
                text
            },
            DataFusionError::Execution(reason) => {
                let mut text = String::from_str("Execution error: ");
                text.append(reason.as_str());
                text
            },
            DataFusionError::External(reason) => {
                let mut text = String::from_str("External error: ");
                text.append(reason.as_str());
                text
            },
        }
    }
}

/// A batch of the wire format.
#[derive(Clone, Debug, PartialEq, Eq)]
pub struct DfRecordBatch {
    pub schema: ArrowSchemaRef,
    pub columns: Vec<ArrowArray>,
}

/// A stream of batches of this crate: the schema, and the items that are
/// ready, the next one last.
#[derive(Debug, PartialEq, Eq)]
pub struct SendableRecordBatchStream {
    pub schema: SchemaRef,
    pub items: Vec<Result<RecordBatch>>,
}

/// A stream of wire batches: the schema, and the items that are ready, the
/// next one last.
#[derive(Debug, PartialEq, Eq)]
pub struct DfSendableRecordBatchStream {
    pub schema: ArrowSchemaRef,
    pub items: Vec<core::result::Result<DfRecordBatch, ArrowError>>,
}

impl SendableRecordBatchStream {
    /// The next item, if one is left.
    pub fn poll_next(&mut self) -> (r: Polled<Option<Result<RecordBatch>>>)
        ensures
            final(self).schema == old(self).schema,
            match r {
                Polled::Ready(Some(item)) => old(self).items@.len() > 0 && item == old(
                    self,
                ).items@.last() && final(self).items@ == old(self).items@.drop_last(),
                Polled::Ready(None) => old(self).items@.len() == 0 && final(self).items@ == old(
                    self,
                ).items@,
                Polled::Pending => false,
            },
    {
        let ghost before = self.items@;
        let item = self.items.pop();
        proof {
            if before.len() > 0 {
                assert(self.items@ =~= before.drop_last());
            }
        }
        Polled::Ready(item)
    }

    /// How many items are left, at least and at most.
    pub fn size_hint(&self) -> (hint: (usize, Option<usize>))
        ensures
            hint == (self.items@.len() as usize, Some(self.items@.len() as usize)),
    {
        (self.items.len(), Some(self.items.len()))
    }
}

impl DfSendableRecordBatchStream {
    /// The next item, if one is left.
    pub fn poll_next(&mut self) -> (r: Polled<Option<core::result::Result<DfRecordBatch, ArrowError>>>)
        ensures
            final(self).schema == old(self).schema,
            match r {
                Polled::Ready(Some(item)) => old(self).items@.len() > 0 && item == old(
                    self,
                ).items@.last() && final(self).items@ == old(self).items@.drop_last(),
                Polled::Ready(None) => old(self).items@.len() == 0 && final(self).items@ == old(
                    self,
                ).items@,
                Polled::Pending => false,
            },
    {
        let ghost before = self.items@;
        let item = self.items.pop();
        proof {
            if before.len() > 0 {
                assert(self.items@ =~= before.drop_last());
            }
        }
        Polled::Ready(item)
    }

    /// How many items are left, at least and at most.
    pub fn size_hint(&self) -> (hint: (usize, Option<usize>))
        ensures
            hint == (self.items@.len() as usize, Some(self.items@.len() as usize)),
    {
        (self.items.len(), Some(self.items.len()))
    }
}

/// Whether `df` is the wire batch that `batch` is sent as: the wire schema
/// of its schema, and its columns under their wire types.
pub open spec fn is_df_batch_of(df: DfRecordBatch, batch: RecordBatch) -> bool {
    &&& df.schema.fields@.len() == batch.schema.column_schemas@.len()
    &&& forall|i: int|
        0 <= i < df.schema.fields@.len() ==> is_field_of_column(
            #[trigger] df.schema.fields@[i],
            batch.schema.column_schemas@[i],
        )
    &&& df.columns@.len() == batch.columns@.len()
    &&& forall|i: int|
        0 <= i < df.columns@.len() ==> (#[trigger] df.columns@[i]).data == batch.columns@[i]
            && df.columns@[i].data_type == to_arrow_type(batch.columns@[i].spec_data_type())
}

impl RecordBatch {
    /// This batch as a wire batch.
    pub fn into_df_record_batch(self) -> (df: DfRecordBatch)
        ensures
            is_df_batch_of(df, self),
    {
        let schema = Arc::new(self.schema.arrow_schema());
        let mut columns: Vec<ArrowArray> = Vec::new();
        let mut i: usize = 0;
        while i < self.columns.len()
            invariant
                i <= self.columns@.len(),
                columns@.len() == i,
                forall|j: int|
                    0 <= j < i ==> (#[trigger] columns@[j]).data == self.columns@[j]
                        && columns@[j].data_type == to_arrow_type(
                        self.columns@[j].spec_data_type(),
                    ),
            decreases self.columns@.len() - i,
        {
            let column = share(&self.columns[i]);
            columns.push(ArrowArray { data_type: column.data_type().as_arrow_type(), data: column });
            i += 1;
        }
        DfRecordBatch { schema, columns }
    }

    /// The batch of `schema` that holds the columns of the wire batch `df`.
    /// Fails exactly when a column is of a wire type that no vector is made
    /// of, or is not of the type that it declares.
    pub fn try_from_df_record_batch(schema: SchemaRef, df: DfRecordBatch) -> (r: Result<RecordBatch>)
        ensures
            is_batch_of(r, schema, df),
    {
        proof {
            if first_vector_fault(df.columns@, 0) is None {
                lemma_no_vector_fault(df.columns@, 0);
            }
        }
        match Helper::try_into_vectors(df.columns.as_slice()) {
            Ok(columns) => Ok(RecordBatch { schema, columns }),
            Err(_) => Err(
                Error::NewDfRecordBatch {
                    reason: String::from_str("a column of the wire batch is no vector"),
                },
            ),
        }
    }
}

/// Whether `r` is the batch of `schema` that holds the columns of the wire
/// batch `df`, or the error that one of the columns is no vector.
pub open spec fn is_batch_of(r: Result<RecordBatch>, schema: SchemaRef, df: DfRecordBatch) -> bool {
    match first_vector_fault(df.columns@, 0) {
        None => r matches Ok(batch) && batch.schema == schema && batch.columns@.len()
            == df.columns@.len() && forall|i: int|
            0 <= i < df.columns@.len() ==> (#[trigger] batch.columns@[i]) == df.columns@[i].data,
        Some(_) => r matches Err(Error::NewDfRecordBatch { .. }),
    }
}

/// Turns a stream of this crate into a stream of wire batches.
#[derive(Debug, PartialEq, Eq)]
pub struct DfRecordBatchStreamAdapter {
    pub stream: SendableRecordBatchStream,
}

impl DfRecordBatchStreamAdapter {
    pub fn new(stream: SendableRecordBatchStream) -> (adapter: DfRecordBatchStreamAdapter)
        ensures
            adapter.stream == stream,
    {
        DfRecordBatchStreamAdapter { stream }
    }

    /// The wire schema of the stream.
    pub fn schema(&self) -> (schema: ArrowSchema)
        ensures
            schema.fields@.len() == self.stream.schema.column_schemas@.len(),
            forall|i: int|
                0 <= i < schema.fields@.len() ==> is_field_of_column(
                    #[trigger] schema.fields@[i],
                    self.stream.schema.column_schemas@[i],
                ),
    {
        self.stream.schema.arrow_schema()
    }

    /// The next item of the stream, for the wire: a batch as a wire batch,
    /// an error wrapped as an external error.
    pub fn poll_next(&mut self) -> (r: Polled<Option<core::result::Result<DfRecordBatch, ArrowError>>>)
        ensures
            final(self).stream.schema == old(self).stream.schema,
            if old(self).stream.items@.len() == 0 {
                r == Polled::Ready(None::<core::result::Result<DfRecordBatch, ArrowError>>)
                    && final(self).stream.items@ == old(self).stream.items@
            } else {
                &&& final(self).stream.items@ == old(self).stream.items@.drop_last()
                &&& match old(self).stream.items@.last() {
                    Ok(batch) => r matches Polled::Ready(Some(Ok(df))) && is_df_batch_of(df, batch),
                    Err(e) => r == Polled::Ready(
                        Some(Err::<DfRecordBatch, ArrowError>(ArrowError::ExternalError(e))),
                    ),
                }
            },
    {
        match self.stream.poll_next() {
            Polled::Pending => Polled::Pending,
            Polled::Ready(Some(item)) => match item {
                Ok(batch) => Polled::Ready(Some(Ok(batch.into_df_record_batch()))),
                Err(e) => Polled::Ready(Some(Err(ArrowError::ExternalError(e)))),
            },
            Polled::Ready(None) => Polled::Ready(None),
        }
    }

    /// How many items are left, at least and at most.
    pub fn size_hint(&self) -> (hint: (usize, Option<usize>))
        ensures
            hint == (self.stream.items@.len() as usize, Some(self.stream.items@.len() as usize)),
    {
        self.stream.size_hint()
    }
}

/// What the next item of a stream of wire batches comes to for a stream of
/// `schema`: a batch as a batch of this crate, an error as a poll error
/// that holds the text of the error.
pub fn convert_item(
    schema: SchemaRef,
    item: Option<core::result::Result<DfRecordBatch, ArrowError>>,
) -> (r: Option<Result<RecordBatch>>)
    ensures
        match item {
            None => r is None,
            Some(Err(e)) => r matches Some(Err(Error::PollStream { source })) && source@
                == e.spec_message(),
            Some(Ok(df)) => r matches Some(converted) && is_batch_of(converted, schema, df),
        },
{
    match item {
        None => None,
        Some(Err(e)) => Some(Err(Error::PollStream { source: e.message() })),
        Some(Ok(df)) => Some(RecordBatch::try_from_df_record_batch(schema, df)),
    }
}

/// Turns a stream of wire batches into a stream of this crate.
#[derive(Debug, PartialEq, Eq)]
pub struct RecordBatchStreamAdapter {
    pub schema: SchemaRef,
    pub stream: DfSendableRecordBatchStream,
}

impl RecordBatchStreamAdapter {
    /// The adapter of `stream`, under the schema that the wire schema of the
    /// stream converts to. Fails exactly when that schema does not convert.
    pub fn try_new(stream: DfSendableRecordBatchStream) -> (r: Result<RecordBatchStreamAdapter>)
        ensures
            match r {
                Ok(adapter) => {
                    &&& adapter.stream == stream
                    &&& adapter.schema.column_schemas@.len() == stream.schema.fields@.len()
                    &&& forall|i: int|
                        0 <= i < stream.schema.fields@.len() ==> is_column_of_field(
                            #[trigger] adapter.schema.column_schemas@[i],
                            stream.schema.fields@[i],
                        )
                },
                Err(e) => e is SchemaConversion && exists|i: int|
                    0 <= i < stream.schema.fields@.len() && from_arrow_type(
                        (#[trigger] stream.schema.fields@[i]).data_type,
                    ) is None,
            },
    {
        match Schema::try_from_arrow(&stream.schema) {
            Ok(schema) => Ok(RecordBatchStreamAdapter { schema: Arc::new(schema), stream }),
            Err(source) => Err(Error::SchemaConversion { source }),
        }
    }

    pub fn schema(&self) -> (s: SchemaRef)
        ensures
            s == self.schema,
    {
        share(&self.schema)
    }

    /// The next item of the stream, as an item of this crate.
    pub fn poll_next(&mut self) -> (r: Polled<Option<Result<RecordBatch>>>)
        ensures
            final(self).schema == old(self).schema,
            final(self).stream.schema == old(self).stream.schema,
            r is Ready,
            if old(self).stream.items@.len() == 0 {
                r->Ready_0 is None && final(self).stream.items@ == old(self).stream.items@
            } else {
                &&& final(self).stream.items@ == old(self).stream.items@.drop_last()
                &&& r->Ready_0 is Some
                &&& (old(self).stream.items@.last() matches Err(e) ==> (r->Ready_0 matches Some(
                    Err(Error::PollStream { source }),
                ) && source@ == e.spec_message()))
                &&& (old(self).stream.items@.last() matches Ok(df) ==> (r->Ready_0 matches Some(
                    converted,
                ) && is_batch_of(converted, old(self).schema, df)))
            },
    {
        match self.stream.poll_next() {
            Polled::Pending => Polled::Pending,
            Polled::Ready(item) => Polled::Ready(convert_item(share(&self.schema), item)),
        }
    }

    /// How many items are left, at least and at most.
    pub fn size_hint(&self) -> (hint: (usize, Option<usize>))
        ensures
            hint == (self.stream.items@.len() as usize, Some(self.stream.items@.len() as usize)),
    {
        self.stream.size_hint()
    }
}

/// A stream of wire batches that is still being set up: it is pending for
/// some polls, then it is there, or has failed.
#[derive(Debug, PartialEq, Eq)]
pub struct FutureStream {
    pub pending_polls: usize,
    pub outcome: core::result::Result<DfSendableRecordBatchStream, DataFusionError>,
}

/// How far a stream that is set up lazily has come.
#[derive(Debug, PartialEq, Eq)]
pub enum AsyncRecordBatchStreamAdapterState {
    Uninit(FutureStream),
    Ready(DfSendableRecordBatchStream),
    Failed,
}

/// Turns a stream of wire batches that is set up lazily into a stream of
/// this crate.
#[derive(Debug, PartialEq, Eq)]
pub struct AsyncRecordBatchStreamAdapter {
    pub schema: SchemaRef,
    pub state: AsyncRecordBatchStreamAdapterState,
}

impl AsyncRecordBatchStreamAdapter {
    pub fn new(schema: SchemaRef, stream: FutureStream) -> (adapter: AsyncRecordBatchStreamAdapter)
        ensures
            adapter.schema == schema,
            adapter.state == AsyncRecordBatchStreamAdapterState::Uninit(stream),
    {
        AsyncRecordBatchStreamAdapter {
            schema,
            state: AsyncRecordBatchStreamAdapterState::Uninit(stream),
        }
    }

    pub fn schema(&self) -> (s: SchemaRef)
        ensures
            s == self.schema,
    {
        share(&self.schema)
    }

    /// Polls the stream. While the stream is being set up, this is pending.
    /// If setting up fails, that error is the one item of the stream, and
    /// the stream ends after it. Once the stream is there, its items are
    /// handed on, as items of this crate.
    pub fn poll_next(&mut self) -> (r: Polled<Option<Result<RecordBatch>>>)
        ensures
            final(self).schema == old(self).schema,
            match old(self).state {
                AsyncRecordBatchStreamAdapterState::Failed => r == Polled::Ready(
                    None::<Result<RecordBatch>>,
                ) && final(self).state == old(self).state,
                AsyncRecordBatchStreamAdapterState::Uninit(future) => if future.pending_polls > 0 {
                    r == Polled::<Option<Result<RecordBatch>>>::Pending && final(self).state
                        == AsyncRecordBatchStreamAdapterState::Uninit(
                        FutureStream {
                            pending_polls: (future.pending_polls - 1) as usize,
                            outcome: future.outcome,
                        },
                    )
                } else {
                    match future.outcome {
                        Err(e) => (r matches Polled::Ready(
                            Some(Err(Error::InitRecordbatchStream { source })),
                        ) && source@ == e.spec_message()) && final(self).state
                            == AsyncRecordBatchStreamAdapterState::Failed,
                        Ok(stream) => final(self).state matches AsyncRecordBatchStreamAdapterState::Ready(
                            after,
                        ) && is_poll_of(r, old(self).schema, stream, after),
                    }
                },
                AsyncRecordBatchStreamAdapterState::Ready(stream) => final(self).state matches AsyncRecordBatchStreamAdapterState::Ready(
                    after,
                ) && is_poll_of(r, old(self).schema, stream, after),
            },
    {
        let mut state = AsyncRecordBatchStreamAdapterState::Failed;
        core::mem::swap(&mut self.state, &mut state);
        match state {
            AsyncRecordBatchStreamAdapterState::Failed => Polled::Ready(None),
            AsyncRecordBatchStreamAdapterState::Uninit(future) => {
                if future.pending_polls > 0 {
                    self.state = AsyncRecordBatchStreamAdapterState::Uninit(
                        FutureStream {
                            pending_polls: future.pending_polls - 1,
                            outcome: future.outcome,
                        },
                    );
                    return Polled::Pending;
                }
                match future.outcome {
                    Ok(mut stream) => {
                        let item = stream.poll_next();
                        self.state = AsyncRecordBatchStreamAdapterState::Ready(stream);
                        match item {
                            Polled::Pending => Polled::Pending,
                            Polled::Ready(item) => Polled::Ready(
                                convert_item(share(&self.schema), item),
                            ),
                        }
                    },
                    Err(e) => {
                        self.state = AsyncRecordBatchStreamAdapterState::Failed;
                        Polled::Ready(Some(Err(Error::InitRecordbatchStream { source: e.message() })))
                    },
                }
            },
            AsyncRecordBatchStreamAdapterState::Ready(mut stream) => {
                let item = stream.poll_next();
                self.state = AsyncRecordBatchStreamAdapterState::Ready(stream);
                match item {
                    Polled::Pending => Polled::Pending,
                    Polled::Ready(item) => Polled::Ready(convert_item(share(&self.schema), item)),
                }
            },
        }
    }

    /// Nothing is known of how many items a stream holds that is set up
    /// lazily.
    pub fn size_hint(&self) -> (hint: (usize, Option<usize>))
        ensures
            hint == (0usize, None::<usize>),
    {
        (0, None)
    }
}

/// Whether `r` is what polling the stream `before` gives under the schema
/// `schema`, and `after` what is left of the stream then: the next batch as
/// a batch of this crate, an error as a poll error, nothing at the end.
pub open spec fn is_poll_of(
    r: Polled<Option<Result<RecordBatch>>>,
    schema: SchemaRef,
    before: DfSendableRecordBatchStream,
    after: DfSendableRecordBatchStream,
) -> bool {
    &&& after.schema == before.schema
    &&& r is Ready
    &&& if before.items@.len() == 0 {
        r->Ready_0 is None && after.items@ == before.items@
    } else {
        &&& after.items@ == before.items@.drop_last()
        &&& r->Ready_0 is Some
        &&& (before.items@.last() matches Err(e) ==> (r->Ready_0 matches Some(
            Err(Error::PollStream { source }),
        ) && source@ == e.spec_message()))
        &&& (before.items@.last() matches Ok(df) ==> (r->Ready_0 matches Some(converted)
            && is_batch_of(converted, schema, df)))
    }
}

} // verus!
