//! The query engine, as far as it decides: that a query is one statement,
//! under which schema a plan runs, and how the partitions of a plan become
//! one stream.

use std::sync::Arc;
use vstd::prelude::*;
use crate::datatypes::arrow::{from_arrow_type, is_column_of_field};
use crate::datatypes::schema::Schema;
use crate::query::physical_plan::{converts, merged_from, DfPhysicalPlan, PhysicalPlanAdapter};
use crate::recordbatch::adapter::RecordBatchStreamAdapter;

verus! {

/// A parsed SQL statement.
#[verifier::external_type_specification]
#[verifier::external_body]
pub struct ExStatement(sqlparser::ast::Statement);

/// What can go wrong in the query engine.
#[derive(Clone, Debug, PartialEq, Eq)]
pub enum Error {
    /// The text is no SQL.
    ParseSql { source: String },
    /// The text holds no statement, or more than one.
    MultipleStatements { sql: String },
    /// The wire schema of a plan does not convert.
    ConvertSchema { source: crate::datatypes::error::Error },
    /// A plan could not be run.
    ExecutePhysicalPlan { source: crate::query::physical_plan::Error },
}

pub type Result<T> = core::result::Result<T, Error>;

/// How many statements the SQL text `sql` holds; `None` if it cannot be
/// parsed.
pub uninterp spec fn statement_count(sql: Seq<char>) -> Option<nat>;

/// Parses SQL text into statements.
///
/// Trusted: this calls `Parser::parse_sql` of `sqlparser` with the generic
/// dialect, and renders an error as text. The contract only names how many
/// statements there are.
#[verifier::external_body]
fn parse_sql(sql: &str) -> (r: core::result::Result<Vec<sqlparser::ast::Statement>, String>)
    ensures
        match r {
            Ok(statements) => statement_count(sql@) == Some(statements@.len()),
            Err(_) => statement_count(sql@) is None,
        },
{
    let dialect = sqlparser::dialect::GenericDialect {  };
    match sqlparser::parser::Parser::parse_sql(&dialect, sql) {
        Ok(statements) => Ok(statements),
        Err(e) => Err(e.to_string()),
    }
}

/// The one statement of `statements`, which were parsed from `sql`. Fails
/// exactly when there is no statement, or more than one.
pub fn single_statement(sql: &str, statements: Vec<sqlparser::ast::Statement>) -> (r: Result<
    sqlparser::ast::Statement,
>)
    ensures
        match r {
            Ok(statement) => statements@.len() == 1 && statement == statements@[0],
            Err(e) => statements@.len() != 1 && (e matches Error::MultipleStatements { sql: s } && s@
                == sql@),
        },
{
    let mut statements = statements;
    if statements.len() != 1 {
        return Err(Error::MultipleStatements { sql: String::from_str(sql) });
    }
    match statements.pop() {
        Some(statement) => Ok(statement),
        None => Err(Error::MultipleStatements { sql: String::from_str(sql) }),
    }
}

/// How the partitions of a plan become one stream.
#[derive(Clone, Copy, Debug, PartialEq, Eq)]
pub enum StreamPlan {
    /// The plan has no partition: the stream is empty.
    Empty,
    /// The plan has one partition: it is the stream.
    Single,
    /// The plan has several partitions: they are merged into one.
    Coalesce,
}

/// The query engine.
pub struct DatafusionQueryEngine {}

impl DatafusionQueryEngine {
    pub fn new() -> (engine: DatafusionQueryEngine) {
        DatafusionQueryEngine {  }
    }

    /// The name of the engine.
    pub fn name(&self) -> (name: &'static str)
        ensures
            name@ == "datafusion"@,
    {
        "datafusion"
    }

    /// The statement that the SQL text `sql` is. Fails exactly when the text
    /// cannot be parsed, or is not exactly one statement.
    pub fn sql_to_statement(&self, sql: &str) -> (r: Result<sqlparser::ast::Statement>)
        ensures
            match statement_count(sql@) {
                None => r matches Err(Error::ParseSql { .. }),
                Some(n) => if n == 1 {
                    r is Ok
                } else {
                    r matches Err(Error::MultipleStatements { sql: s }) && s@ == sql@
                },
            },
    {
        match parse_sql(sql) {
            Ok(statements) => single_statement(sql, statements),
            Err(source) => Err(Error::ParseSql { source }),
        }
    }

    /// The plan of this crate that runs the plan `df_plan` of the query
    /// engine, under the schema that the wire schema of the plan converts
    /// to. Fails exactly when that schema does not convert.
    pub fn create_physical_plan(&self, df_plan: Arc<DfPhysicalPlan>) -> (r: Result<PhysicalPlanAdapter>)
        ensures
            match r {
                Ok(plan) => {
                    &&& plan.spec_df_plan() == df_plan
                    &&& plan.spec_schema().column_schemas@.len() == df_plan.schema.fields@.len()
                    &&& forall|i: int|
                        0 <= i < df_plan.schema.fields@.len() ==> is_column_of_field(
                            #[trigger] plan.spec_schema().column_schemas@[i],
                            df_plan.schema.fields@[i],
                        )
                },
                Err(e) => e is ConvertSchema && exists|i: int|
                    0 <= i < df_plan.schema.fields@.len() && from_arrow_type(
                        (#[trigger] df_plan.schema.fields@[i]).data_type,
                    ) is None,
            },
    {
        match Schema::try_from_arrow(&df_plan.schema) {
            Ok(schema) => Ok(PhysicalPlanAdapter::new(Arc::new(schema), df_plan)),
            Err(source) => Err(Error::ConvertSchema { source }),
        }
    }

    /// How the `partition_count` partitions of a plan become one stream.
    pub fn stream_plan(&self, partition_count: usize) -> (plan: StreamPlan)
        ensures
            plan == if partition_count == 0 {
                StreamPlan::Empty
            } else if partition_count == 1 {
                StreamPlan::Single
            } else {
                StreamPlan::Coalesce
            },
    {
        if partition_count == 0 {
            StreamPlan::Empty
        } else if partition_count == 1 {
            StreamPlan::Single
        } else {
            StreamPlan::Coalesce
        }
    }

    /// Runs a plan as one stream: nothing for a plan without partitions, the
    /// stream of its partition for a plan with one, and for a plan with
    /// several the one stream of all partitions, each batch once. Fails
    /// exactly when there is something to run and the wire schema of the
    /// plan does not convert.
    pub fn execute_stream(&self, plan: &PhysicalPlanAdapter) -> (r: Result<Execution>)
        ensures
            if plan.spec_df_plan().partitions@.len() == 0 {
                r matches Ok(Execution::Empty)
            } else if !converts(*plan.spec_df_plan().schema) {
                r matches Err(Error::ExecutePhysicalPlan { source })
                    && source is ConvertDfRecordBatchStream
            } else {
                r matches Ok(Execution::Stream(stream)) && plan.is_stream_of(
                    stream,
                    if plan.spec_df_plan().partitions@.len() == 1 {
                        plan.spec_df_plan().partitions@[0]@
                    } else {
                        merged_from(plan.spec_df_plan().partitions@, 0)
                    },
                )
            },
    {
        match self.stream_plan(plan.output_partitioning().partition_count()) {
            StreamPlan::Empty => Ok(Execution::Empty),
            StreamPlan::Single => match plan.execute(0) {
                Ok(stream) => Ok(Execution::Stream(stream)),
                Err(source) => Err(Error::ExecutePhysicalPlan { source }),
            },
            StreamPlan::Coalesce => match plan.execute_all() {
                Ok(stream) => Ok(Execution::Stream(stream)),
                Err(source) => Err(Error::ExecutePhysicalPlan { source }),
            },
        }
    }
}

/// What running a plan as one stream comes to.
#[derive(Debug, PartialEq, Eq)]
pub enum Execution {
    /// The plan yields nothing.
    Empty,
    /// The stream of the plan.
    Stream(RecordBatchStreamAdapter),
}

} // verus!
