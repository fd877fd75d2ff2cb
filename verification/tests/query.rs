use std::sync::Arc;

use pg_shim::driver::{Action, Event};
use pg_shim::error::CubeError;
use pg_shim::extended::{query_plan_to_row_description, Execution, QueryPlan, SchemaField};
use pg_shim::planner::CubeQueryPlanner;
use pg_shim::protocol::{
    BackendMessage, CommandComplete, ErrorCode, ErrorSeverity, Format, FrontendMessage,
    ParameterDescription, PasswordMessage, PortalCompletion, Query, RowDescription,
    RowDescriptionField, TransactionStatus,
};
use pg_shim::session::{AuthenticateResponse, Parameters, Session};
use pg_shim::shim::{AsyncPostgresShim, QueryStage, QueryStep};
use pg_shim::text::empty_query;

type Shim = AsyncPostgresShim<String, u32, String>;

fn served() -> Shim {
    let mut shim = Shim::run_on(Session::new(5));
    let mut parameters = Parameters::new();
    parameters.insert("user".to_string(), "u".to_string());
    shim.run(Event::Startup(pg_shim::protocol::StartupMessage {
        protocol_version: pg_shim::protocol::ProtocolVersion { major: 3, minor: 0 },
        parameters,
    }));
    shim.run(Event::Message(FrontendMessage::PasswordMessage(PasswordMessage {
        password: "pw".to_string(),
    })));
    shim.run(Event::Authenticated(Some(AuthenticateResponse {
        context: "ctx".to_string(),
        password: None,
    })));
    shim.take_messages();
    shim
}

fn query(text: &str) -> Event<String, u32, String> {
    Event::Message(FrontendMessage::Query(Query { query: text.to_string() }))
}

fn ready() -> BackendMessage {
    BackendMessage::ReadyForQuery(TransactionStatus::Idle)
}

fn internal_error(message: &str) -> BackendMessage {
    BackendMessage::ErrorResponse {
        severity: ErrorSeverity::Error,
        code: ErrorCode::InternalError,
        message: message.to_string(),
    }
}

#[test]
fn simple_query_no_rows() {
    let mut shim = served();
    match shim.run(query("SET x=1")) {
        Action::PlanQuery(text) => assert_eq!(text, "SET x=1"),
        _ => panic!("the query must be planned"),
    }
    assert_eq!(shim.take_messages(), vec![]);

    let portal = match shim.run(Event::QueryPlanned(Ok(QueryPlan::MetaOk(8)))) {
        Action::ExecuteQuery(portal, max_rows) => {
            assert_eq!(max_rows, 0);
            portal
        }
        _ => panic!("the query must run"),
    };
    assert_eq!(portal.get_format(), Format::Text);
    assert_eq!(portal.get_description(), &None);
    assert!(matches!(portal.get_plan(), QueryPlan::MetaOk(8)));
    assert_eq!(shim.take_messages(), vec![BackendMessage::NoData]);

    let ran = Execution {
        rows: vec![],
        completion: PortalCompletion::Complete(CommandComplete::Plain("SET".to_string())),
    };
    assert!(matches!(shim.run(Event::QueryExecuted(Ok(ran))), Action::ReadMessage));
    assert_eq!(
        shim.take_messages(),
        vec![BackendMessage::CommandComplete(CommandComplete::Plain("SET".to_string())), ready()]
    );
}

#[test]
fn simple_query_with_rows() {
    let mut shim = served();
    shim.run(query("SELECT a"));
    let plan = QueryPlan::DataFusionSelect(
        vec![
            SchemaField { name: "a".to_string(), type_oid: Ok(20) },
            SchemaField { name: "b".to_string(), type_oid: Ok(16) },
        ],
        1,
    );
    let portal = match shim.run(Event::QueryPlanned(Ok(plan))) {
        Action::ExecuteQuery(portal, 0) => portal,
        _ => panic!("the query must run"),
    };
    assert_eq!(portal.get_format(), Format::Text);
    assert_eq!(portal.get_description(), &None);
    let ran = Execution {
        rows: vec![b'D', 1],
        completion: PortalCompletion::Complete(CommandComplete::Select(1)),
    };
    shim.run(Event::QueryExecuted(Ok(ran)));
    assert_eq!(
        shim.take_messages(),
        vec![
            BackendMessage::RowDescription(RowDescription::new(vec![
                RowDescriptionField::new("a".to_string(), 20),
                RowDescriptionField::new("b".to_string(), 16),
            ])),
            BackendMessage::DataRows(vec![b'D', 1]),
            BackendMessage::CommandComplete(CommandComplete::Select(1)),
            ready(),
        ]
    );
}

#[test]
fn simple_query_planner_failure_is_reported_and_followed_by_ready() {
    let mut shim = served();
    shim.run(query("SELECT nothing"));
    let action = shim.run(Event::QueryPlanned(Err(CubeError::internal("no plan".to_string()))));
    assert!(matches!(action, Action::ReadMessage));
    assert_eq!(shim.take_messages(), vec![internal_error("no plan"), ready()]);
}

#[test]
fn simple_query_run_failure_comes_after_the_description() {
    let mut shim = served();
    shim.run(query("SELECT a"));
    shim.run(Event::QueryPlanned(Ok(QueryPlan::MetaTabular(vec!["a".to_string()], 1))));
    let action = shim.run(Event::QueryExecuted(Err(CubeError::internal("broken".to_string()))));
    assert!(matches!(action, Action::ReadMessage));
    assert_eq!(
        shim.take_messages(),
        vec![
            BackendMessage::RowDescription(RowDescription::new(vec![RowDescriptionField::new(
                "a".to_string(),
                25
            )])),
            internal_error("broken"),
            ready(),
        ]
    );
}

#[test]
fn simple_query_description_failure_is_reported() {
    let mut shim = served();
    shim.run(query("SELECT a"));
    let plan = QueryPlan::DataFusionSelect(
        vec![SchemaField { name: "a".to_string(), type_oid: Err("unsupported type".to_string()) }],
        1,
    );
    let action = shim.run(Event::QueryPlanned(Ok(plan)));
    assert!(matches!(action, Action::ReadMessage));
    assert_eq!(shim.take_messages(), vec![internal_error("unsupported type"), ready()]);
}

#[test]
fn simple_query_needs_authentication() {
    let mut shim = Shim::run_on(Session::new(5));
    match shim.execute_query(QueryStage::Start("SELECT 1".to_string())) {
        Err(error) => assert_eq!(error.to_string(), "must be auth"),
        _ => panic!("the query must fail"),
    }
    assert_eq!(shim.messages(), &vec![]);
    let step = shim.process_query(QueryStage::Start("SELECT 1".to_string()));
    assert!(matches!(step, QueryStep::Done));
    assert_eq!(shim.messages(), &vec![internal_error("must be auth"), ready()]);
}

#[test]
fn execute_query_does_not_write_ready_for_query() {
    let mut shim = served();
    let ran = Execution {
        rows: vec![7],
        completion: PortalCompletion::Complete(CommandComplete::Select(1)),
    };
    let step = shim.execute_query(QueryStage::Executed(Ok(ran)));
    assert!(matches!(step, Ok(QueryStep::Done)));
    assert_eq!(
        shim.messages(),
        &vec![
            BackendMessage::DataRows(vec![7]),
            BackendMessage::CommandComplete(CommandComplete::Select(1)),
        ]
    );
}

#[test]
fn row_description_of_meta_ok_is_empty() {
    let fields = query_plan_to_row_description(&QueryPlan::MetaOk(0u32)).unwrap();
    assert_eq!(fields, vec![]);
}

#[test]
fn row_description_of_a_table_is_all_text() {
    let plan = QueryPlan::MetaTabular(vec!["x".to_string(), "y".to_string()], 0u32);
    let fields = query_plan_to_row_description(&plan).unwrap();
    assert_eq!(
        fields,
        vec![
            RowDescriptionField::new("x".to_string(), 25),
            RowDescriptionField::new("y".to_string(), 25),
        ]
    );
}

#[test]
fn row_description_of_a_schema_keeps_order_and_types() {
    let plan = QueryPlan::DataFusionSelect(
        vec![
            SchemaField { name: "n".to_string(), type_oid: Ok(20) },
            SchemaField { name: "t".to_string(), type_oid: Ok(25) },
            SchemaField { name: "f".to_string(), type_oid: Ok(701) },
        ],
        0u32,
    );
    let fields = query_plan_to_row_description(&plan).unwrap();
    assert_eq!(
        fields,
        vec![
            RowDescriptionField::new("n".to_string(), 20),
            RowDescriptionField::new("t".to_string(), 25),
            RowDescriptionField::new("f".to_string(), 701),
        ]
    );
}

#[test]
fn row_description_fails_with_the_first_unmapped_column() {
    let plan = QueryPlan::DataFusionSelect(
        vec![
            SchemaField { name: "n".to_string(), type_oid: Ok(20) },
            SchemaField { name: "u".to_string(), type_oid: Err("first".to_string()) },
            SchemaField { name: "v".to_string(), type_oid: Err("second".to_string()) },
        ],
        0u32,
    );
    assert_eq!(
        query_plan_to_row_description(&plan),
        Err(CubeError::internal("first".to_string()))
    );
}

#[test]
fn row_description_of_an_empty_schema_is_empty() {
    let plan = QueryPlan::DataFusionSelect(vec![], 0u32);
    assert_eq!(query_plan_to_row_description(&plan), Ok(vec![]));
}

#[test]
fn white_space_is_an_empty_query() {
    assert!(empty_query(""));
    assert!(empty_query("   "));
    assert!(empty_query(" \t\r\n"));
    assert!(empty_query("\u{a0}\u{2003}\u{3000}"));
}

#[test]
fn anything_else_is_not_an_empty_query() {
    assert!(!empty_query(";"));
    assert!(!empty_query("  SELECT 1  "));
    assert!(!empty_query("\u{200b}"));
    assert!(!empty_query(" a "));
}

#[test]
fn descriptions_are_duplicated_field_by_field() {
    let description = RowDescription::new(vec![
        RowDescriptionField::new("a".to_string(), 25),
        RowDescriptionField::new("b".to_string(), 16),
    ]);
    assert_eq!(description.duplicate(), description);
    assert_eq!(description.len(), 2);
    let parameters = ParameterDescription::new(vec![25, 20, 16]);
    assert_eq!(parameters.duplicate(), parameters);
}

#[test]
fn completion_becomes_its_message() {
    assert_eq!(PortalCompletion::Suspended.into_message(), BackendMessage::PortalSuspended);
    assert_eq!(
        PortalCompletion::Complete(CommandComplete::Select(4)).into_message(),
        BackendMessage::CommandComplete(CommandComplete::Select(4))
    );
}

#[test]
fn planner_keeps_the_transport_it_was_given() {
    let transport: Arc<str> = Arc::from("transport");
    let planner = CubeQueryPlanner::new(transport.clone());
    assert!(Arc::ptr_eq(&planner.transport, &transport));
}

#[test]
fn taking_messages_empties_the_wire() {
    let mut shim = served();
    shim.sync();
    shim.write(BackendMessage::NoData);
    assert_eq!(shim.take_messages(), vec![ready(), BackendMessage::NoData]);
    assert_eq!(shim.take_messages(), vec![]);
    assert_eq!(shim.messages(), &vec![]);
}

#[test]
fn bind_values_are_decoded_in_order() {
    let bind = pg_shim::protocol::Bind {
        portal: "p".to_string(),
        statement: "s".to_string(),
        parameter_formats: vec![],
        parameter_values: vec![Some(b"hi".to_vec()), None, Some("caf\u{e9}".as_bytes().to_vec())],
        result_formats: vec![],
    };
    assert_eq!(
        bind.to_bind_values(),
        Ok(vec![
            pg_shim::values::BindValue::String("hi".to_string()),
            pg_shim::values::BindValue::Null,
            pg_shim::values::BindValue::String("caf\u{e9}".to_string()),
        ])
    );
}

#[test]
fn bind_values_that_are_not_utf8_are_refused() {
    let bind = pg_shim::protocol::Bind {
        portal: "p".to_string(),
        statement: "s".to_string(),
        parameter_formats: vec![],
        parameter_values: vec![Some(b"ok".to_vec()), Some(vec![0xff, 0xfe])],
        result_formats: vec![],
    };
    assert_eq!(
        bind.to_bind_values(),
        Err(CubeError::internal("Unable to unpack raw parameter to string".to_string()))
    );
}

#[test]
fn no_bind_values_decode_to_none() {
    let bind = pg_shim::protocol::Bind {
        portal: "".to_string(),
        statement: "".to_string(),
        parameter_formats: vec![],
        parameter_values: vec![],
        result_formats: vec![],
    };
    assert_eq!(bind.to_bind_values(), Ok(vec![]));
}

#[test]
fn numbers_are_written_in_decimal() {
    assert_eq!(pg_shim::text::decimal_string(0), "0");
    assert_eq!(pg_shim::text::decimal_string(7), "7");
    assert_eq!(pg_shim::text::decimal_string(10), "10");
    assert_eq!(pg_shim::text::decimal_string(1234), "1234");
    assert_eq!(pg_shim::text::decimal_string(65535), "65535");
}
