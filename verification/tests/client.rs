use std::sync::Arc;

use greptime::client::database::{
    flight_messages_to_recordbatches, AlterExpr, Client, CreateTableExpr, Database, DdlExpr,
    DdlRequest, DropTableExpr, FlightMessage, InsertRequest, ObjectExpr, ObjectResult, Output,
    Query, QueryRequest, Request, ResultHeader, RpcOutput,
};
use greptime::client::error::{Error, GrpcError};
use greptime::datatypes::data_type::ConcreteDataType;
use greptime::datatypes::error::StatusCode;
use greptime::datatypes::schema::{ColumnSchema, Schema};
use greptime::datatypes::vectors::{Int32Vector, Vector};
use greptime::meta_client::client::{
    ChannelConfig, ChannelManager, Error as MetaError, MetaClient, MetaClientBuilder, Role,
};
use greptime::recordbatch::batch::RecordBatch;

fn database() -> Database {
    Database::new(
        "db",
        Client {
            peers: vec!["127.0.0.1:3001".to_string()],
        },
    )
}

fn header(code: u32, msg: &str) -> Option<ResultHeader> {
    Some(ResultHeader {
        code,
        err_msg: msg.to_string(),
    })
}

fn schema() -> Arc<Schema> {
    Arc::new(Schema::new(vec![ColumnSchema::new(
        "a".to_string(),
        ConcreteDataType::int32_datatype(),
        false,
    )]))
}

fn batch(values: Vec<i32>) -> RecordBatch {
    RecordBatch::new(
        schema(),
        vec![Arc::new(Vector::Int32(Int32Vector::from_vec(values)))],
    )
    .unwrap()
}

#[test]
fn test_database_requests() {
    let db = database();
    assert_eq!("db", db.name());
    assert_eq!(
        ObjectExpr {
            request: Some(Request::Query(QueryRequest {
                query: Some(Query::Sql("select 1".to_string()))
            }))
        },
        db.sql("select 1")
    );
    assert_eq!(
        ObjectExpr {
            request: Some(Request::Query(QueryRequest {
                query: Some(Query::LogicalPlan(vec![1, 2]))
            }))
        },
        db.logical_plan(vec![1, 2])
    );
    let insert = InsertRequest {
        table_name: "t".to_string(),
        row_count: 2,
    };
    assert_eq!(
        ObjectExpr {
            request: Some(Request::Insert(insert.clone()))
        },
        db.insert(insert)
    );
    let ddl = |expr: DdlExpr| ObjectExpr {
        request: Some(Request::Ddl(DdlRequest { expr: Some(expr) })),
    };
    let table = || "t".to_string();
    assert_eq!(
        ddl(DdlExpr::CreateTable(CreateTableExpr { table_name: table() })),
        db.create(CreateTableExpr { table_name: table() })
    );
    assert_eq!(
        ddl(DdlExpr::Alter(AlterExpr { table_name: table() })),
        db.alter(AlterExpr { table_name: table() })
    );
    assert_eq!(
        ddl(DdlExpr::DropTable(DropTableExpr { table_name: table() })),
        db.drop_table(DropTableExpr { table_name: table() })
    );
    let request = db.request(vec![db.sql("a"), db.sql("b")]);
    assert_eq!("db", request.name);
    assert_eq!(2, request.exprs.len());
}

#[test]
fn test_object_results_must_match_requests() {
    let db = database();
    let result = || ObjectResult {
        header: header(0, ""),
        flight_messages: Ok(vec![FlightMessage::AffectedRows(1)]),
    };
    assert_eq!(Ok(result()), db.object(vec![result()]));
    assert_eq!(
        Err(Error::MissingResult {
            name: "object_results".to_string(),
            expected: 1,
            actual: 0
        }),
        db.object(vec![])
    );
    assert_eq!(
        Err(Error::MissingResult {
            name: "object_results".to_string(),
            expected: 1,
            actual: 2
        }),
        db.object(vec![result(), result()])
    );
    assert_eq!(2, db.objects(2, vec![result(), result()]).unwrap().len());
    assert_eq!(
        Err(Error::MissingResult {
            name: "object_results".to_string(),
            expected: 3,
            actual: 2
        }),
        db.objects(3, vec![result(), result()])
    );
}

#[test]
fn test_rpc_output() {
    let output = |header: Option<ResultHeader>,
                  messages: Result<Vec<FlightMessage>, GrpcError>| {
        RpcOutput::try_from(ObjectResult {
            header,
            flight_messages: messages,
        })
    };
    assert_eq!(Err(Error::MissingHeader), output(None, Ok(vec![])));
    assert_eq!(
        Err(Error::Datanode {
            code: 1003,
            msg: "oops".to_string()
        }),
        output(header(1003, "oops"), Ok(vec![FlightMessage::AffectedRows(1)]))
    );
    let undecoded = GrpcError {
        msg: "bad bytes".to_string(),
        status_code: StatusCode::InvalidArguments,
    };
    assert_eq!(
        Err(Error::ConvertFlightData {
            source: undecoded.clone()
        }),
        output(header(0, ""), Err(undecoded))
    );
    assert_eq!(
        Ok(RpcOutput::AffectedRows(7)),
        output(header(0, ""), Ok(vec![FlightMessage::AffectedRows(7)]))
    );
    assert_eq!(
        Err(Error::IllegalFlightMessages {
            reason: "Expect 'AffectedRows' Flight messages to be one and only!".to_string()
        }),
        output(
            header(0, ""),
            Ok(vec![
                FlightMessage::AffectedRows(7),
                FlightMessage::AffectedRows(8)
            ])
        )
    );
    match output(
        header(0, ""),
        Ok(vec![
            FlightMessage::Schema(schema()),
            FlightMessage::Recordbatch(batch(vec![1])),
            FlightMessage::Recordbatch(batch(vec![2, 3])),
        ]),
    )
    .unwrap()
    {
        RpcOutput::RecordBatches(batches) => {
            assert_eq!(schema(), batches.schema());
            assert_eq!(vec![batch(vec![1]), batch(vec![2, 3])], batches.take());
        }
        other => panic!("{other:?}"),
    }
    match output(header(0, ""), Ok(vec![])).unwrap() {
        RpcOutput::RecordBatches(batches) => assert!(batches.take().is_empty()),
        other => panic!("{other:?}"),
    }
    // The schema must come first, and only batches after it.
    for messages in [
        vec![FlightMessage::Recordbatch(batch(vec![1]))],
        vec![
            FlightMessage::Schema(schema()),
            FlightMessage::Recordbatch(batch(vec![1])),
            FlightMessage::AffectedRows(1),
        ],
        vec![FlightMessage::Schema(schema()), FlightMessage::Schema(schema())],
    ] {
        assert!(matches!(
            output(header(0, ""), Ok(messages)).unwrap_err(),
            Error::ConvertFlightData { .. }
        ));
    }
    assert!(flight_messages_to_recordbatches(vec![FlightMessage::Schema(schema())])
        .unwrap()
        .take()
        .is_empty());
    assert_eq!(
        Output::AffectedRows(3),
        RpcOutput::AffectedRows(3).into_output()
    );
}

#[test]
fn test_client_error_status_code() {
    let source = |status_code: StatusCode| GrpcError {
        msg: "x".to_string(),
        status_code,
    };
    assert_eq!(StatusCode::Internal, Error::MissingHeader.status_code());
    assert_eq!(
        StatusCode::Internal,
        Error::Datanode {
            code: 1,
            msg: "m".to_string()
        }
        .status_code()
    );
    assert_eq!(
        StatusCode::Unexpected,
        Error::IllegalGrpcClientState {
            err_msg: "m".to_string()
        }
        .status_code()
    );
    assert_eq!(
        StatusCode::InvalidArguments,
        Error::ConvertFlightData {
            source: source(StatusCode::InvalidArguments)
        }
        .status_code()
    );
    assert_eq!(
        StatusCode::Unknown,
        Error::CreateChannel {
            addr: "a".to_string(),
            source: source(StatusCode::Unknown)
        }
        .status_code()
    );
}

#[test]
fn test_meta_client_builder() {
    let urls = vec!["127.0.0.1:3001".to_string(), "127.0.0.1:3002".to_string()];

    let mut meta_client = MetaClientBuilder::new(0, 0).enable_heartbeat().build();
    assert!(meta_client.heartbeat_client().is_ok());
    assert!(meta_client.router_client().is_err());
    assert!(meta_client.store_client().is_err());
    meta_client.start(&urls).unwrap();
    assert!(meta_client.heartbeat_client().unwrap().is_started());

    let mut meta_client = MetaClientBuilder::new(0, 0).enable_router().build();
    assert!(meta_client.heartbeat_client().is_err());
    assert!(meta_client.router_client().is_ok());
    assert!(meta_client.store_client().is_err());
    meta_client.start(&urls).unwrap();
    assert!(meta_client.router_client().unwrap().is_started());

    let mut meta_client = MetaClientBuilder::new(0, 0).enable_store().build();
    assert!(meta_client.heartbeat_client().is_err());
    assert!(meta_client.router_client().is_err());
    assert!(meta_client.store_client().is_ok());
    meta_client.start(&urls).unwrap();
    assert!(meta_client.store_client().unwrap().is_started());

    let mut meta_client = MetaClientBuilder::new(1, 2)
        .enable_heartbeat()
        .enable_router()
        .enable_store()
        .build();
    assert_eq!(1, meta_client.id().0);
    assert_eq!(2, meta_client.id().1);
    assert!(meta_client.heartbeat_client().is_ok());
    assert!(meta_client.router_client().is_ok());
    assert!(meta_client.store_client().is_ok());
    meta_client.start(&urls).unwrap();
    assert!(meta_client.heartbeat_client().unwrap().is_started());
    assert!(meta_client.router_client().unwrap().is_started());
    assert!(meta_client.store_client().unwrap().is_started());
}

#[test]
fn test_not_start_heartbeat_client() {
    let urls = vec!["127.0.0.1:3001".to_string(), "127.0.0.1:3002".to_string()];
    let mut meta_client = MetaClientBuilder::new(0, 0)
        .enable_router()
        .enable_store()
        .build();
    meta_client.start(&urls).unwrap();
    let res = meta_client.heartbeat_client();
    assert!(matches!(res.err(), Some(MetaError::NotStarted { .. })));
}

#[test]
fn test_not_start_router_client() {
    let urls = vec!["127.0.0.1:3001".to_string(), "127.0.0.1:3002".to_string()];
    let mut meta_client = MetaClientBuilder::new(0, 0)
        .enable_heartbeat()
        .enable_store()
        .build();
    meta_client.start(&urls).unwrap();
    let res = meta_client.router_client();
    assert!(matches!(res.err(), Some(MetaError::NotStarted { .. })));
}

#[test]
fn test_not_start_store_client() {
    let urls = vec!["127.0.0.1:3001".to_string(), "127.0.0.1:3002".to_string()];
    let mut meta_client = MetaClientBuilder::new(0, 0)
        .enable_heartbeat()
        .enable_router()
        .build();

    meta_client.start(&urls).unwrap();
    let res = meta_client.store_client();
    assert!(matches!(res.err(), Some(MetaError::NotStarted { .. })));
}

#[test]
fn test_meta_client_details() {
    assert!(MetaClientBuilder::new(0, 0).try_build().is_none());
    let config = ChannelConfig {
        timeout: Some(3000),
        connect_timeout: Some(500),
        tcp_nodelay: false,
    };
    let mut client = MetaClientBuilder::new(3, 4)
        .channel_manager(ChannelManager::with_config(config))
        .enable_heartbeat()
        .enable_store()
        .try_build()
        .unwrap();
    assert_eq!((3, 4), client.id());
    assert_eq!(config, *client.channel_config());
    assert_eq!(
        ChannelConfig::default(),
        *MetaClient::new((1, 1)).channel_config()
    );
    let heartbeat = client.heartbeat_client().unwrap();
    assert_eq!(Role::Heartbeat, heartbeat.role);
    assert_eq!(config, heartbeat.channel_manager.config);
    assert!(!heartbeat.is_started());
    assert_eq!(
        Err(MetaError::NotStarted {
            name: "router_client".to_string()
        }),
        client.router_client()
    );
    assert_eq!(
        Err(MetaError::NotStarted {
            name: "heartbeat_client".to_string()
        }),
        MetaClient::new((1, 1)).heartbeat_client()
    );

    // Without peers nothing starts.
    assert!(matches!(
        client.start(&vec![]).unwrap_err(),
        MetaError::IllegalGrpcClientState { .. }
    ));
    assert!(!client.heartbeat_client().unwrap().is_started());
    let urls = vec!["a:1".to_string()];
    client.start(&urls).unwrap();
    assert_eq!(urls, client.store_client().unwrap().peers);
    // A part is started once.
    assert!(matches!(
        client.start(&urls).unwrap_err(),
        MetaError::IllegalGrpcClientState { .. }
    ));
    // A client without parts has nothing to start.
    assert_eq!(Ok(()), MetaClient::new((1, 1)).start(&vec![]));
}
