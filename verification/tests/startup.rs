use pg_shim::driver::{Action, Closing, Event};
use pg_shim::error::CubeError;
use pg_shim::protocol::{
    BackendMessage, ErrorCode, ErrorSeverity, FrontendMessage, PasswordMessage, ProtocolVersion,
    Query, StartupMessage, TransactionStatus,
};
use pg_shim::session::{AuthenticateResponse, Parameters, Session};
use pg_shim::shim::{AsyncPostgresShim, StartupState};

type Shim = AsyncPostgresShim<String, u32, String>;

fn startup(major: u16, minor: u16, pairs: &[(&str, &str)]) -> StartupMessage {
    let mut parameters = Parameters::new();
    for (name, value) in pairs {
        parameters.insert(name.to_string(), value.to_string());
    }
    StartupMessage { protocol_version: ProtocolVersion { major, minor }, parameters }
}

fn password(text: &str) -> FrontendMessage {
    FrontendMessage::PasswordMessage(PasswordMessage { password: text.to_string() })
}

fn status(name: &str, value: &str) -> BackendMessage {
    BackendMessage::ParameterStatus { name: name.to_string(), value: value.to_string() }
}

fn known(expected: Option<&str>) -> Option<AuthenticateResponse<String>> {
    Some(AuthenticateResponse {
        context: "ctx".to_string(),
        password: expected.map(|text| text.to_string()),
    })
}

#[test]
fn ssl_request_is_declined_with_one_message() {
    let mut shim = Shim::run_on(Session::new(1));
    let state = shim.process_startup_message(startup(1234, 5679, &[]));
    assert!(matches!(state, StartupState::SslRequested));
    assert_eq!(shim.messages(), &vec![BackendMessage::SSLResponse]);
}

#[test]
fn ssl_request_is_recognised_by_major_version_alone() {
    let mut shim = Shim::run_on(Session::new(1));
    let state = shim.process_startup_message(startup(1234, 0, &[("user", "u")]));
    assert!(matches!(state, StartupState::SslRequested));
    assert_eq!(shim.messages(), &vec![BackendMessage::SSLResponse]);
}

#[test]
fn ssl_then_startup_then_auth() {
    let mut shim = Shim::run_on(Session::new(1));

    let action = shim.run(Event::Startup(startup(1234, 5679, &[])));
    assert!(matches!(action, Action::ReadStartup));
    assert_eq!(shim.take_messages(), vec![BackendMessage::SSLResponse]);

    let action = shim.run(Event::Startup(startup(3, 0, &[("user", "u"), ("database", "d")])));
    assert!(matches!(action, Action::ReadMessage));
    assert_eq!(shim.take_messages(), vec![BackendMessage::AuthenticationCleartextPassword]);

    let action = shim.run(Event::Message(password("pw")));
    match action {
        Action::Authenticate(user) => assert_eq!(user, "u"),
        _ => panic!("the authentication service must be asked"),
    }
    assert_eq!(shim.take_messages(), vec![]);

    let action = shim.run(Event::Authenticated(known(Some("pw"))));
    assert!(matches!(action, Action::ReadMessage));
    assert_eq!(
        shim.take_messages(),
        vec![
            BackendMessage::AuthenticationOk,
            status("server_version", "14.2 (Cube SQL)"),
            status("server_encoding", "UTF8"),
            status("client_encoding", "UTF8"),
            status("DateStyle", "ISO"),
            BackendMessage::ReadyForQuery(TransactionStatus::Idle),
        ]
    );
    assert!(shim.is_authenticated());
    assert_eq!(shim.session().user, Some("u".to_string()));
    assert_eq!(shim.session().auth_context, Some("ctx".to_string()));
    assert_eq!(shim.session().connection_id, 1);
}

#[test]
fn second_ssl_request_closes() {
    let mut shim = Shim::run_on(Session::new(1));
    shim.run(Event::Startup(startup(1234, 5679, &[])));
    let action = shim.run(Event::Startup(startup(1234, 5679, &[])));
    assert!(matches!(action, Action::Close(Closing::Shutdown)));
    assert_eq!(
        shim.take_messages(),
        vec![BackendMessage::SSLResponse, BackendMessage::SSLResponse]
    );
}

#[test]
fn missing_user_is_denied() {
    let mut shim = Shim::run_on(Session::new(1));
    let action = shim.run(Event::Startup(startup(3, 0, &[])));
    assert!(matches!(action, Action::Close(Closing::Shutdown)));
    assert_eq!(
        shim.take_messages(),
        vec![BackendMessage::ErrorResponse {
            severity: ErrorSeverity::Fatal,
            code: ErrorCode::InvalidAuthorizationSpecification,
            message: "no PostgreSQL user name specified in startup packet".to_string(),
        }]
    );
}

#[test]
fn unsupported_protocol_is_denied() {
    let mut shim = Shim::run_on(Session::new(1));
    let state = shim.process_startup_message(startup(2, 0, &[("user", "u")]));
    assert!(matches!(state, StartupState::Denied));
    assert_eq!(
        shim.messages(),
        &vec![BackendMessage::ErrorResponse {
            severity: ErrorSeverity::Fatal,
            code: ErrorCode::FeatureNotSupported,
            message: "unsupported frontend protocol 2.0: server supports 3.0 to 3.0".to_string(),
        }]
    );
}

#[test]
fn unsupported_minor_version_is_named_in_decimal() {
    let mut shim = Shim::run_on(Session::new(1));
    let state = shim.process_startup_message(startup(3, 65535, &[("user", "u")]));
    assert!(matches!(state, StartupState::Denied));
    assert_eq!(
        shim.messages(),
        &vec![BackendMessage::ErrorResponse {
            severity: ErrorSeverity::Fatal,
            code: ErrorCode::FeatureNotSupported,
            message: "unsupported frontend protocol 3.65535: server supports 3.0 to 3.0"
                .to_string(),
        }]
    );
}

#[test]
fn protocol_version_is_checked_before_user() {
    let mut shim = Shim::run_on(Session::new(1));
    shim.process_startup_message(startup(4, 1, &[]));
    assert_eq!(
        shim.messages(),
        &vec![BackendMessage::ErrorResponse {
            severity: ErrorSeverity::Fatal,
            code: ErrorCode::FeatureNotSupported,
            message: "unsupported frontend protocol 4.1: server supports 3.0 to 3.0".to_string(),
        }]
    );
}

#[test]
fn absent_database_becomes_db() {
    let mut shim = Shim::run_on(Session::new(1));
    match shim.process_startup_message(startup(3, 0, &[("user", "u")])) {
        StartupState::Success(parameters) => {
            assert_eq!(parameters.get("database"), Some(&"db".to_string()));
            assert_eq!(parameters.get("user"), Some(&"u".to_string()));
            assert!(!parameters.contains_key("application_name"));
        }
        _ => panic!("startup must succeed"),
    }
    assert_eq!(shim.messages(), &vec![BackendMessage::AuthenticationCleartextPassword]);
}

#[test]
fn named_database_is_kept() {
    let mut shim = Shim::run_on(Session::new(1));
    match shim.process_startup_message(startup(3, 0, &[("user", "u"), ("database", "d")])) {
        StartupState::Success(parameters) => {
            assert_eq!(parameters.get("database"), Some(&"d".to_string()));
        }
        _ => panic!("startup must succeed"),
    }
}

#[test]
fn bad_password_is_fatal() {
    let mut shim = Shim::run_on(Session::new(1));
    shim.run(Event::Startup(startup(3, 0, &[("user", "u")])));
    shim.run(Event::Message(password("wrong")));
    shim.take_messages();
    let action = shim.run(Event::Authenticated(known(Some("right"))));
    assert!(matches!(action, Action::Close(Closing::Shutdown)));
    assert_eq!(
        shim.take_messages(),
        vec![BackendMessage::ErrorResponse {
            severity: ErrorSeverity::Fatal,
            code: ErrorCode::InvalidPassword,
            message: "password authentication failed for user \"u\"".to_string(),
        }]
    );
    assert!(!shim.is_authenticated());
    assert_eq!(shim.session().user, None);
}

#[test]
fn unknown_user_is_fatal() {
    let mut shim = Shim::run_on(Session::new(1));
    let mut parameters = Parameters::new();
    parameters.insert("user".to_string(), "nobody".to_string());
    let ok = shim.authenticate(PasswordMessage { password: "pw".to_string() }, parameters, None);
    assert!(!ok);
    assert_eq!(
        shim.messages(),
        &vec![BackendMessage::ErrorResponse {
            severity: ErrorSeverity::Fatal,
            code: ErrorCode::InvalidPassword,
            message: "password authentication failed for user \"nobody\"".to_string(),
        }]
    );
    assert!(shim.auth_context().is_err());
}

#[test]
fn no_expected_password_accepts_any() {
    let mut shim = Shim::run_on(Session::new(9));
    let mut parameters = Parameters::new();
    parameters.insert("user".to_string(), "u".to_string());
    let ok = shim.authenticate(
        PasswordMessage { password: "whatever".to_string() },
        parameters,
        known(None),
    );
    assert!(ok);
    assert_eq!(shim.messages(), &vec![BackendMessage::AuthenticationOk]);
    assert_eq!(shim.auth_context(), Ok(&"ctx".to_string()));
}

#[test]
fn password_is_compared_exactly() {
    let mut shim = Shim::run_on(Session::new(9));
    let mut parameters = Parameters::new();
    parameters.insert("user".to_string(), "u".to_string());
    let ok = shim.authenticate(
        PasswordMessage { password: "Right".to_string() },
        parameters,
        known(Some("right")),
    );
    assert!(!ok);
}

#[test]
fn anything_but_a_password_ends_the_handshake() {
    let mut shim = Shim::run_on(Session::new(1));
    shim.run(Event::Startup(startup(3, 0, &[("user", "u")])));
    shim.take_messages();
    let action = shim.run(Event::Message(FrontendMessage::Query(Query {
        query: "SELECT 1".to_string(),
    })));
    assert!(matches!(action, Action::Close(Closing::Shutdown)));
    assert_eq!(shim.take_messages(), vec![]);
}

#[test]
fn eof_before_authentication_is_benign() {
    let mut shim = Shim::run_on(Session::new(1));
    let action = shim.run(Event::Disconnected {
        unexpected_eof: true,
        error: CubeError::internal("eof".to_string()),
    });
    assert!(matches!(action, Action::Close(Closing::Disconnected)));
}

#[test]
fn other_failures_before_authentication_are_errors() {
    let mut shim = Shim::run_on(Session::new(1));
    let action = shim.run(Event::Disconnected {
        unexpected_eof: false,
        error: CubeError::internal("reset".to_string()),
    });
    match action {
        Action::Close(Closing::Failed(error)) => assert_eq!(error.to_string(), "reset"),
        _ => panic!("the failure must be handed on"),
    }
}

#[test]
fn eof_after_authentication_is_an_error() {
    let mut shim = Shim::run_on(Session::new(1));
    shim.run(Event::Startup(startup(3, 0, &[("user", "u")])));
    shim.run(Event::Message(password("pw")));
    shim.run(Event::Authenticated(known(None)));
    let action = shim.run(Event::Disconnected {
        unexpected_eof: true,
        error: CubeError::internal("eof".to_string()),
    });
    match action {
        Action::Close(Closing::Failed(error)) => assert_eq!(error.to_string(), "eof"),
        _ => panic!("the failure must be handed on"),
    }
}

#[test]
fn an_event_out_of_turn_closes_the_connection() {
    let mut shim = Shim::run_on(Session::new(1));
    let action = shim.run(Event::Message(FrontendMessage::Sync));
    match action {
        Action::Close(Closing::Failed(error)) => {
            assert_eq!(error.to_string(), "Unexpected event")
        }
        _ => panic!("the connection must close"),
    }
    let action = shim.run(Event::Startup(startup(3, 0, &[("user", "u")])));
    assert!(matches!(action, Action::Close(Closing::Failed(_))));
}

#[test]
fn password_message_after_authentication_is_unsupported() {
    let mut shim = Shim::run_on(Session::new(1));
    shim.run(Event::Startup(startup(3, 0, &[("user", "u")])));
    shim.run(Event::Message(password("pw")));
    shim.run(Event::Authenticated(known(None)));
    shim.take_messages();
    let action = shim.run(Event::Message(password("pw")));
    match action {
        Action::Close(Closing::Unsupported(error)) => {
            assert_eq!(error.to_string(), "Unsupported operation: PasswordMessage")
        }
        _ => panic!("the connection must close"),
    }
    assert_eq!(shim.take_messages(), vec![]);
}

#[test]
fn parameters_keep_the_last_value_of_a_name() {
    let mut parameters = Parameters::new();
    assert!(!parameters.contains_key("user"));
    assert_eq!(parameters.get("user"), None);
    parameters.insert("user".to_string(), "a".to_string());
    parameters.insert("user".to_string(), "b".to_string());
    assert_eq!(parameters.get("user"), Some(&"b".to_string()));
    assert!(parameters.contains_key("user"));
}

#[test]
fn new_session_is_not_authenticated() {
    let shim = Shim::run_on(Session::new(42));
    assert!(!shim.is_authenticated());
    assert_eq!(shim.session().connection_id, 42);
    assert_eq!(shim.session().user, None);
    assert_eq!(shim.auth_context(), Err(CubeError::internal("must be auth".to_string())));
    assert_eq!(shim.messages(), &vec![]);
    assert!(shim.statement("").is_none());
    assert!(shim.portal("").is_none());
}

#[test]
fn authentication_once_set_stays() {
    let mut shim = Shim::run_on(Session::new(1));
    shim.run(Event::Startup(startup(3, 0, &[("user", "u")])));
    shim.run(Event::Message(password("pw")));
    shim.run(Event::Authenticated(known(None)));
    let mut parameters = Parameters::new();
    parameters.insert("user".to_string(), "other".to_string());
    let ok = shim.authenticate(PasswordMessage { password: "x".to_string() }, parameters, None);
    assert!(!ok);
    assert!(shim.is_authenticated());
    assert_eq!(shim.session().user, Some("u".to_string()));
    shim.run(Event::Message(FrontendMessage::Sync));
    shim.run(Event::Message(FrontendMessage::Terminate));
    assert!(shim.is_authenticated());
}
