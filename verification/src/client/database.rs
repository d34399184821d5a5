//! One database on a server: the requests that go to it, and the output that
//! its answers come to.

use vstd::prelude::*;
use crate::client::error::{Error, GrpcError, Result};
use crate::datatypes::error::StatusCode;
use crate::datatypes::schema::SchemaRef;
use crate::recordbatch::batch::{RecordBatch, RecordBatches};
use crate::sharing::share;

verus! {

/// The connection to a server, by the addresses of its peers.
#[derive(Clone, Debug, PartialEq, Eq)]
pub struct Client {
    pub peers: Vec<String>,
}

/// A request to insert rows into a table.
#[derive(Clone, Debug, PartialEq, Eq)]
pub struct InsertRequest {
    pub table_name: String,
    pub row_count: u32,
}

/// A query: SQL text, or an encoded logical plan.
#[derive(Clone, Debug, PartialEq, Eq)]
pub enum Query {
    Sql(String),
    LogicalPlan(Vec<u8>),
}

/// A request to run a query.
#[derive(Clone, Debug, PartialEq, Eq)]
pub struct QueryRequest {
    pub query: Option<Query>,
}

/// A request to create a table.
#[derive(Clone, Debug, PartialEq, Eq)]
pub struct CreateTableExpr {
    pub table_name: String,
}

/// A request to alter a table.
#[derive(Clone, Debug, PartialEq, Eq)]
pub struct AlterExpr {
    pub table_name: String,
}

/// A request to drop a table.
#[derive(Clone, Debug, PartialEq, Eq)]
pub struct DropTableExpr {
    pub table_name: String,
}

/// A statement of the data definition language.
#[derive(Clone, Debug, PartialEq, Eq)]
pub enum DdlExpr {
    CreateTable(CreateTableExpr),
    Alter(AlterExpr),
    DropTable(DropTableExpr),
}

/// A request to change the definition of data.
#[derive(Clone, Debug, PartialEq, Eq)]
pub struct DdlRequest {
    pub expr: Option<DdlExpr>,
}

/// What a request asks for.
#[derive(Clone, Debug, PartialEq, Eq)]
pub enum Request {
    Insert(InsertRequest),
    Query(QueryRequest),
    Ddl(DdlRequest),
}

/// One request to a database.
#[derive(Clone, Debug, PartialEq, Eq)]
pub struct ObjectExpr {
    pub request: Option<Request>,
}

/// Some requests to the database `name`.
#[derive(Clone, Debug, PartialEq, Eq)]
pub struct DatabaseRequest {
    pub name: String,
    pub exprs: Vec<ObjectExpr>,
}

/// The head of an answer: the numeric status code, and the message of an
/// error.
#[derive(Clone, Debug, PartialEq, Eq)]
pub struct ResultHeader {
    pub code: u32,
    pub err_msg: String,
}

/// One message of an answer, decoded.
#[derive(Clone, Debug, PartialEq, Eq)]
pub enum FlightMessage {
    Schema(SchemaRef),
    Recordbatch(RecordBatch),
    AffectedRows(usize),
}

/// The answer to one request, with its messages decoded, or with the error
/// of decoding them.
#[derive(Debug, PartialEq, Eq)]
pub struct ObjectResult {
    pub header: Option<ResultHeader>,
    pub flight_messages: core::result::Result<Vec<FlightMessage>, GrpcError>,
}

/// One database on a server.
#[derive(Clone, Debug)]
pub struct Database {
    name: String,
    client: Client,
}

impl Database {
    pub closed spec fn spec_name(&self) -> Seq<char> {
        self.name@
    }

    pub closed spec fn spec_client(&self) -> Client {
        self.client
    }

    /// The database `name` behind `client`.
    pub fn new(name: &str, client: Client) -> (db: Database)
        ensures
            db.spec_name() == name@,
            db.spec_client() == client,
    {
        Database { name: String::from_str(name), client }
    }

    /// The name of the database.
    pub fn name(&self) -> (n: &str)
        ensures
            n@ == self.spec_name(),
    {
        self.name.as_str()
    }

    /// The request that inserts rows.
    pub fn insert(&self, request: InsertRequest) -> (expr: ObjectExpr)
        ensures
            expr == (ObjectExpr { request: Some(Request::Insert(request)) }),
    {
        ObjectExpr { request: Some(Request::Insert(request)) }
    }

    /// The request that runs the SQL text `sql`.
    pub fn sql(&self, sql: &str) -> (expr: ObjectExpr)
        ensures
            expr.request matches Some(Request::Query(q)) && (q.query matches Some(Query::Sql(s)) && s@
                == sql@),
    {
        self.do_query(QueryRequest { query: Some(Query::Sql(String::from_str(sql))) })
    }

    /// The request that runs the encoded logical plan `logical_plan`.
    pub fn logical_plan(&self, logical_plan: Vec<u8>) -> (expr: ObjectExpr)
        ensures
            expr == (ObjectExpr {
                request: Some(
                    Request::Query(QueryRequest { query: Some(Query::LogicalPlan(logical_plan)) }),
                ),
            }),
    {
        self.do_query(QueryRequest { query: Some(Query::LogicalPlan(logical_plan)) })
    }

    fn do_query(&self, request: QueryRequest) -> (expr: ObjectExpr)
        ensures
            expr == (ObjectExpr { request: Some(Request::Query(request)) }),
    {
        ObjectExpr { request: Some(Request::Query(request)) }
    }

    /// The request that creates a table.
    pub fn create(&self, expr: CreateTableExpr) -> (request: ObjectExpr)
        ensures
            request == (ObjectExpr {
                request: Some(Request::Ddl(DdlRequest { expr: Some(DdlExpr::CreateTable(expr)) })),
            }),
    {
        ObjectExpr { request: Some(Request::Ddl(DdlRequest { expr: Some(DdlExpr::CreateTable(expr)) })) }
    }

    /// The request that alters a table.
    pub fn alter(&self, expr: AlterExpr) -> (request: ObjectExpr)
        ensures
            request == (ObjectExpr {
                request: Some(Request::Ddl(DdlRequest { expr: Some(DdlExpr::Alter(expr)) })),
            }),
    {
        ObjectExpr { request: Some(Request::Ddl(DdlRequest { expr: Some(DdlExpr::Alter(expr)) })) }
    }

    /// The request that drops a table.
    pub fn drop_table(&self, expr: DropTableExpr) -> (request: ObjectExpr)
        ensures
            request == (ObjectExpr {
                request: Some(Request::Ddl(DdlRequest { expr: Some(DdlExpr::DropTable(expr)) })),
            }),
    {
        ObjectExpr { request: Some(Request::Ddl(DdlRequest { expr: Some(DdlExpr::DropTable(expr)) })) }
    }

    /// What goes to the server for the requests `exprs`: the requests under
    /// the name of this database.
    pub fn request(&self, exprs: Vec<ObjectExpr>) -> (req: DatabaseRequest)
        ensures
            req.name@ == self.spec_name(),
            req.exprs == exprs,
    {
        DatabaseRequest { name: self.name.clone(), exprs }
    }

    /// The answer to the single request that was sent: `results` must hold
    /// exactly one answer.
    pub fn object(&self, results: Vec<ObjectResult>) -> (r: Result<ObjectResult>)
        ensures
            match r {
                Ok(result) => results@.len() == 1 && result == results@[0],
                Err(e) => {
                    &&& results@.len() != 1
                    &&& e matches Error::MissingResult { name, expected, actual }
                    &&& name@ == "object_results"@
                    &&& expected == 1
                    &&& actual == results@.len()
                },
            },
    {
        match self.objects(1, results) {
            Ok(mut results) => {
                match results.pop() {
                    Some(result) => Ok(result),
                    None => Err(Error::MissingHeader),
                }
            },
            Err(e) => Err(e),
        }
    }

    /// The answers to the `expr_count` requests that were sent: there must
    /// be as many answers as requests.
    pub fn objects(&self, expr_count: usize, results: Vec<ObjectResult>) -> (r: Result<
        Vec<ObjectResult>,
    >)
        ensures
            match r {
                Ok(res) => results@.len() == expr_count && res == results,
                Err(e) => {
                    &&& results@.len() != expr_count
                    &&& e matches Error::MissingResult { name, expected, actual }
                    &&& name@ == "object_results"@
                    &&& expected == expr_count
                    &&& actual == results@.len()
                },
            },
    {
        if results.len() != expr_count {
            return Err(
                Error::MissingResult {
                    name: String::from_str("object_results"),
                    expected: expr_count,
                    actual: results.len(),
                },
            );
        }
        Ok(results)
    }
}

/// The output of a request.
#[derive(Debug, PartialEq, Eq)]
pub enum RpcOutput {
    RecordBatches(RecordBatches),
    AffectedRows(usize),
}

/// The output of a request, as the query layer takes it.
#[derive(Debug, PartialEq, Eq)]
pub enum Output {
    AffectedRows(usize),
    RecordBatches(RecordBatches),
}

/// The batches that decoded messages stand for: no messages stand for no
/// batches; otherwise the first message must be the schema and all others
/// batches.
pub fn flight_messages_to_recordbatches(messages: Vec<FlightMessage>) -> (r: core::result::Result<
    RecordBatches,
    GrpcError,
>)
    ensures
        match r {
            Ok(batches) => if messages@.len() == 0 {
                batches.batches@.len() == 0
            } else {
                &&& messages@[0] matches FlightMessage::Schema(schema) && batches.schema == schema
                &&& batches.batches@.len() == messages@.len() - 1
                &&& forall|i: int|
                    1 <= i < messages@.len() ==> messages@[i] == FlightMessage::Recordbatch(
                        #[trigger] batches.batches@[i - 1],
                    )
            },
            Err(e) => {
                &&& e.status_code == StatusCode::Internal
                &&& messages@.len() > 0
                &&& (!(messages@[0] is Schema) || exists|i: int|
                    1 <= i < messages@.len() && !(#[trigger] messages@[i] is Recordbatch))
            },
        },
{
    if messages.len() == 0 {
        return Ok(RecordBatches::empty());
    }
    let schema = match &messages[0] {
        FlightMessage::Schema(schema) => share(schema),
        _ => {
            return Err(
                GrpcError {
                    msg: String::from_str("First Flight Message must be schema!"),
                    status_code: StatusCode::Internal,
                },
            );
        },
    };
    let mut batches: Vec<RecordBatch> = Vec::new();
    let ghost all = messages@;
    let mut rest = messages;
    let n = rest.len();
    let mut i: usize = n;
    let mut reversed: Vec<RecordBatch> = Vec::new();
    while i > 1
        invariant
            1 <= i <= n,
            n == all.len(),
            all == messages@,
            rest@ == all.take(i as int),
            reversed@.len() == n - i,
            forall|k: int|
                i <= k < n ==> all[k] == FlightMessage::Recordbatch(
                    #[trigger] reversed@[n - 1 - k],
                ),
        decreases i,
    {
        let ghost before = reversed@;
        match rest.pop() {
            Some(FlightMessage::Recordbatch(batch)) => {
                reversed.push(batch);
            },
            _ => {
                proof {
                    assert(!(all[i - 1] is Recordbatch));
                }
                return Err(
                    GrpcError {
                        msg: String::from_str(
                            "Expect the following Flight Messages are all Recordbatches!",
                        ),
                        status_code: StatusCode::Internal,
                    },
                );
            },
        }
        proof {
            assert(rest@ =~= all.take(i - 1));
            assert forall|k: int| i - 1 <= k < n implies all[k] == FlightMessage::Recordbatch(
                #[trigger] reversed@[n - 1 - k],
            ) by {
                if k >= i {
                    assert(reversed@[n - 1 - k] == before[n - 1 - k]);
                }
            }
        }
        i -= 1;
    }
    while reversed.len() > 0
        invariant
            n == all.len(),
            batches@.len() + reversed@.len() == n - 1,
            forall|k: int|
                1 <= k <= batches@.len() ==> all[k] == FlightMessage::Recordbatch(
                    #[trigger] batches@[k - 1],
                ),
            forall|k: int|
                batches@.len() < k < n ==> all[k] == FlightMessage::Recordbatch(
                    #[trigger] reversed@[n - 1 - k],
                ),
        decreases reversed@.len(),
    {
        let ghost before = batches@;
        let ghost rest = reversed@;
        match reversed.pop() {
            Some(batch) => {
                batches.push(batch);
            },
            None => {},
        }
        proof {
            assert forall|k: int| 1 <= k <= batches@.len() implies all[k]
                == FlightMessage::Recordbatch(#[trigger] batches@[k - 1]) by {
                if k <= before.len() {
                    assert(batches@[k - 1] == before[k - 1]);
                } else {
                    assert(batches@[k - 1] == rest[n - 1 - k]);
                }
            }
            assert forall|k: int| batches@.len() < k < n implies all[k]
                == FlightMessage::Recordbatch(#[trigger] reversed@[n - 1 - k]) by {
                assert(reversed@[n - 1 - k] == rest[n - 1 - k]);
            }
        }
    }
    Ok(RecordBatches { schema, batches })
}

impl RpcOutput {
    /// The output that the answer `object_result` comes to. The answer must
    /// have a header that reports success; its messages must have been
    /// decoded; a first message with affected rows must be the only message;
    /// any other messages must be a schema followed by batches.
    pub fn try_from(object_result: ObjectResult) -> (r: Result<RpcOutput>)
        ensures
            match object_result.header {
                None => r == Err::<RpcOutput, Error>(Error::MissingHeader),
                Some(header) => if header.code != 0 {
                    r == Err::<RpcOutput, Error>(
                        Error::Datanode { code: header.code, msg: header.err_msg },
                    )
                } else {
                    match object_result.flight_messages {
                        Err(source) => r == Err::<RpcOutput, Error>(
                            Error::ConvertFlightData { source },
                        ),
                        Ok(messages) => if messages@.len() > 0 && messages@[0] is AffectedRows {
                            if messages@.len() == 1 {
                                r == Ok::<RpcOutput, Error>(
                                    RpcOutput::AffectedRows(messages@[0]->AffectedRows_0),
                                )
                            } else {
                                r matches Err(Error::IllegalFlightMessages { reason }) && reason@
                                    == "Expect 'AffectedRows' Flight messages to be one and only!"@
                            }
                        } else if messages@.len() == 0 {
                            r matches Ok(RpcOutput::RecordBatches(b)) && b.batches@.len() == 0
                        } else if messages@[0] is Schema && forall|i: int|
                            1 <= i < messages@.len() ==> #[trigger] messages@[i] is Recordbatch {
                            r matches Ok(RpcOutput::RecordBatches(b)) && b.schema
                                == messages@[0]->Schema_0 && b.batches@.len() == messages@.len() - 1
                                && forall|i: int|
                                1 <= i < messages@.len() ==> messages@[i]
                                    == FlightMessage::Recordbatch(#[trigger] b.batches@[i - 1])
                        } else {
                            r matches Err(Error::ConvertFlightData { .. })
                        },
                    }
                },
            },
    {
        let header = match object_result.header {
            Some(header) => header,
            None => {
                return Err(Error::MissingHeader);
            },
        };
        if !StatusCode::is_success(header.code) {
            return Err(Error::Datanode { code: header.code, msg: header.err_msg });
        }
        let flight_messages = match object_result.flight_messages {
            Ok(messages) => messages,
            Err(source) => {
                return Err(Error::ConvertFlightData { source });
            },
        };
        if flight_messages.len() > 0 {
            match &flight_messages[0] {
                FlightMessage::AffectedRows(rows) => {
                    if flight_messages.len() != 1 {
                        return Err(
                            Error::IllegalFlightMessages {
                                reason: String::from_str(
                                    "Expect 'AffectedRows' Flight messages to be one and only!",
                                ),
                            },
                        );
                    }
                    return Ok(RpcOutput::AffectedRows(*rows));
                },
                _ => {},
            }
        }
        let ghost messages = flight_messages@;
        match flight_messages_to_recordbatches(flight_messages) {
            Ok(batches) => {
                proof {
                    if messages.len() > 0 {
                        assert forall|i: int| 1 <= i < messages.len() implies #[trigger] messages[i]
                            is Recordbatch by {
                            assert(messages[i] == FlightMessage::Recordbatch(
                                batches.batches@[i - 1],
                            ));
                        }
                    }
                }
                Ok(RpcOutput::RecordBatches(batches))
            },
            Err(source) => Err(Error::ConvertFlightData { source }),
        }
    }

    /// This output as the query layer takes it.
    pub fn into_output(self) -> (output: Output)
        ensures
            output == match self {
                RpcOutput::AffectedRows(x) => Output::AffectedRows(x),
                RpcOutput::RecordBatches(x) => Output::RecordBatches(x),
            },
    {
        match self {
            RpcOutput::AffectedRows(x) => Output::AffectedRows(x),
            RpcOutput::RecordBatches(x) => Output::RecordBatches(x),
        }
    }
}

} // verus!
