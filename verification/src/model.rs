//! The connection as mathematics: its state, and what each command makes
//! of a state.
//!
//! Every executable handler is proved to compute the function of the same
//! name here, so what holds of these functions holds of the connection.

use crate::codec::{SSL_REQUEST_CODE, TEXT_OID};
use crate::extended::{
    description_of, row_description_fields, PlanView, PortalView, StatementView,
};
use crate::protocol::{
    completion_message, CloseType, DescribeType, ErrorCode, ErrorSeverity, Format, MessageView,
    PortalCompletionView, ProtocolVersion, TransactionStatus,
};
use crate::session::SessionView;
use crate::text::{decimal, is_empty_query};
use vstd::prelude::*;

verus! {

/// Where a connection stands between socket-accepted and closed.
pub enum PhaseView {
    /// Nothing read yet.
    Startup,
    /// An SSL request was declined; the real startup packet is awaited.
    SslDeclined,
    /// The password was asked for; the startup parameters are kept.
    Password(Map<Seq<char>, Seq<char>>),
    /// The password came and the authentication service was asked.
    Authenticating(Seq<char>, Map<Seq<char>, Seq<char>>),
    /// Authenticated: commands are served.
    Ready,
    Closed,
}

/// How the startup packet was answered.
pub enum StartupView {
    Success(Map<Seq<char>, Seq<char>>),
    SslRequested,
    Denied,
}

/// What the authentication service said of a user it knows.
pub struct AuthView<A> {
    pub context: A,
    pub password: Option<Seq<char>>,
}

pub struct PreparedView<S, P> {
    pub query: S,
    pub placeholders: nat,
    pub plan: PlanView<P>,
}

pub struct ExecutionView {
    pub rows: Seq<u8>,
    pub completion: PortalCompletionView,
}

/// How far a command of the extended protocol got.
pub enum Handled {
    /// Carried out, and answered.
    Done,
    /// Nothing changed: the planner or the portal has to work first.
    Pending,
    /// Given up, with the error's text; nothing changed.
    Failed(Seq<char>),
}

/// The stage at which a simple query is taken up.
pub enum QueryStageView<P> {
    Start(Seq<char>),
    Planned(Result<PlanView<P>, Seq<char>>),
    Executed(Result<ExecutionView, Seq<char>>),
}

/// What a simple query needs next.
pub enum QueryStepView<P> {
    /// A plan for this text.
    Plan(Seq<char>),
    /// A run of this portal for at most so many rows; zero stands for no
    /// limit.
    Execute(PortalView<P>, nat),
    Done,
}

pub struct ShimState<S, P, A> {
    pub statements: Map<Seq<char>, Option<StatementView<S>>>,
    pub portals: Map<Seq<char>, Option<PortalView<P>>>,
    pub session: SessionView<A>,
    pub phase: PhaseView,
    /// Every message written so far that has not been taken off yet.
    pub wire: Seq<MessageView>,
}

pub open spec fn ready_for_query() -> MessageView {
    MessageView::ReadyForQuery(TransactionStatus::Idle)
}

pub open spec fn error_response(message: Seq<char>) -> MessageView {
    MessageView::ErrorResponse {
        severity: ErrorSeverity::Error,
        code: ErrorCode::InternalError,
        message,
    }
}

pub open spec fn unsupported_protocol(version: ProtocolVersion) -> Seq<char> {
    "unsupported frontend protocol "@ + decimal(version.major as nat) + "."@ + decimal(
        version.minor as nat,
    ) + ": server supports 3.0 to 3.0"@
}

pub open spec fn password_failed(user: Seq<char>) -> Seq<char> {
    "password authentication failed for user \""@ + user + "\""@
}

/// The startup parameters as the connection keeps them: `database` is set
/// to `db` where the client named none.
pub open spec fn with_database(parameters: Map<Seq<char>, Seq<char>>) -> Map<
    Seq<char>,
    Seq<char>,
> {
    if parameters.contains_key("database"@) {
        parameters
    } else {
        parameters.insert("database"@, "db"@)
    }
}

/// Authentication succeeds when the service knows the user and either
/// expects no password or expects the one that was supplied.
pub open spec fn auth_success<A>(response: Option<AuthView<A>>, supplied: Seq<char>) -> bool {
    match response {
        Some(known) => match known.password {
            None => true,
            Some(expected) => expected == supplied,
        },
        None => false,
    }
}

/// One OID per placeholder, each of them `text`.
pub open spec fn text_parameters(placeholders: nat) -> Seq<u32> {
    Seq::new(placeholders, |i: int| TEXT_OID)
}

/// The first result format that the client named, or text.
pub open spec fn result_format(formats: Seq<Format>) -> Format {
    if formats.len() > 0 {
        formats[0]
    } else {
        Format::Text
    }
}

/// A stored statement names only `text` parameters and keeps a
/// description only where there are fields.
pub open spec fn statement_wf<S>(entry: Option<StatementView<S>>) -> bool {
    entry matches Some(statement) ==> {
        &&& forall|i: int|
            0 <= i < statement.parameters.len() ==> statement.parameters[i] == TEXT_OID
        &&& statement.description matches Some(fields) ==> fields.len() > 0
    }
}

/// A stored portal keeps exactly the description that its plan gives: the
/// fields of the plan where there are any, and none otherwise.
pub open spec fn portal_wf<P>(entry: Option<PortalView<P>>) -> bool {
    entry matches Some(portal) ==> {
        &&& row_description_fields(portal.plan) is Ok
        &&& portal.description == description_of(row_description_fields(portal.plan)->Ok_0)
    }
}

impl<S, P, A> ShimState<S, P, A> {
    /// The state of a connection that has read nothing yet.
    pub open spec fn initial(session: SessionView<A>) -> Self {
        ShimState {
            statements: Map::empty(),
            portals: Map::empty(),
            session,
            phase: PhaseView::Startup,
            wire: Seq::empty(),
        }
    }

    pub open spec fn wf(self) -> bool {
        &&& forall|name: Seq<char>| #[trigger]
            self.statements.contains_key(name) ==> statement_wf(self.statements[name])
        &&& forall|name: Seq<char>| #[trigger]
            self.portals.contains_key(name) ==> portal_wf(self.portals[name])
        &&& match self.phase {
            PhaseView::Password(parameters) => parameters.contains_key("user"@),
            PhaseView::Authenticating(_, parameters) => parameters.contains_key("user"@),
            PhaseView::Ready => self.session.auth_context is Some,
            _ => true,
        }
    }

    pub open spec fn is_authenticated(self) -> bool {
        self.session.auth_context is Some
    }

    pub open spec fn write(self, message: MessageView) -> Self {
        ShimState { wire: self.wire.push(message), ..self }
    }

    pub open spec fn enter(self, phase: PhaseView) -> Self {
        ShimState { phase, ..self }
    }

    /// Row data goes out only where there is any.
    pub open spec fn write_rows(self, rows: Seq<u8>) -> Self {
        if rows.len() > 0 {
            self.write(MessageView::DataRows(rows))
        } else {
            self
        }
    }

    pub open spec fn write_execution(self, execution: ExecutionView) -> Self {
        self.write_rows(execution.rows).write(completion_message(execution.completion))
    }

    pub open spec fn process_startup_message(
        self,
        version: ProtocolVersion,
        parameters: Map<Seq<char>, Seq<char>>,
    ) -> (Self, StartupView) {
        if version.major == SSL_REQUEST_CODE {
            (self.write(MessageView::SSLResponse), StartupView::SslRequested)
        } else if version.major != 3 || version.minor != 0 {
            (
                self.write(
                    MessageView::ErrorResponse {
                        severity: ErrorSeverity::Fatal,
                        code: ErrorCode::FeatureNotSupported,
                        message: unsupported_protocol(version),
                    },
                ),
                StartupView::Denied,
            )
        } else if !parameters.contains_key("user"@) {
            (
                self.write(
                    MessageView::ErrorResponse {
                        severity: ErrorSeverity::Fatal,
                        code: ErrorCode::InvalidAuthorizationSpecification,
                        message: "no PostgreSQL user name specified in startup packet"@,
                    },
                ),
                StartupView::Denied,
            )
        } else {
            (
                self.write(MessageView::AuthenticationCleartextPassword),
                StartupView::Success(with_database(parameters)),
            )
        }
    }

    pub open spec fn authenticate(
        self,
        password: Seq<char>,
        parameters: Map<Seq<char>, Seq<char>>,
        response: Option<AuthView<A>>,
    ) -> (Self, bool) {
        let user = parameters["user"@];
        if auth_success(response, password) {
            (
                ShimState {
                    session: SessionView {
                        user: Some(user),
                        auth_context: Some(response->Some_0.context),
                        ..self.session
                    },
                    ..self
                }.write(MessageView::AuthenticationOk),
                true,
            )
        } else {
            (
                self.write(
                    MessageView::ErrorResponse {
                        severity: ErrorSeverity::Fatal,
                        code: ErrorCode::InvalidPassword,
                        message: password_failed(user),
                    },
                ),
                false,
            )
        }
    }

    pub open spec fn ready(self) -> Self {
        self.write(
            MessageView::ParameterStatus { name: "server_version"@, value: "14.2 (Cube SQL)"@ },
        ).write(MessageView::ParameterStatus { name: "server_encoding"@, value: "UTF8"@ }).write(
            MessageView::ParameterStatus { name: "client_encoding"@, value: "UTF8"@ },
        ).write(MessageView::ParameterStatus { name: "DateStyle"@, value: "ISO"@ }).write(
            ready_for_query(),
        )
    }

    pub open spec fn sync(self) -> Self {
        self.write(ready_for_query())
    }

    pub open spec fn describe_portal(self, name: Seq<char>) -> Self {
        if !self.portals.contains_key(name) {
            self.write(
                MessageView::ErrorResponse {
                    severity: ErrorSeverity::Error,
                    code: ErrorCode::InvalidCursorName,
                    message: "missing cursor"@,
                },
            )
        } else {
            match self.portals[name] {
                None => self.write(MessageView::NoData),
                Some(portal) => match portal.description {
                    None => self.write(MessageView::NoData),
                    Some(fields) => self.write(MessageView::RowDescription(fields)),
                },
            }
        }
    }

    pub open spec fn describe_statement(self, name: Seq<char>) -> Self {
        if !self.statements.contains_key(name) {
            self.write(
                MessageView::ErrorResponse {
                    severity: ErrorSeverity::Error,
                    code: ErrorCode::InvalidSqlStatement,
                    message: "missing statement"@,
                },
            )
        } else {
            match self.statements[name] {
                None => self.write(MessageView::ParameterDescription(Seq::empty())).write(
                    MessageView::NoData,
                ),
                Some(statement) => {
                    let described = self.write(
                        MessageView::ParameterDescription(statement.parameters),
                    );
                    match statement.description {
                        None => described.write(MessageView::NoData),
                        Some(fields) => described.write(MessageView::RowDescription(fields)),
                    }
                },
            }
        }
    }

    pub open spec fn describe(self, typ: DescribeType, name: Seq<char>) -> Self {
        match typ {
            DescribeType::Statement => self.describe_statement(name),
            DescribeType::Portal => self.describe_portal(name),
        }
    }

    pub open spec fn close(self, typ: CloseType, name: Seq<char>) -> Self {
        match typ {
            CloseType::Statement => ShimState {
                statements: self.statements.remove(name),
                ..self
            }.write(MessageView::CloseComplete),
            CloseType::Portal => ShimState { portals: self.portals.remove(name), ..self }.write(
                MessageView::CloseComplete,
            ),
        }
    }

    pub open spec fn store_statement(
        self,
        name: Seq<char>,
        entry: Option<StatementView<S>>,
    ) -> Self {
        ShimState { statements: self.statements.insert(name, entry), ..self }.write(
            MessageView::ParseComplete,
        )
    }

    pub open spec fn store_portal(self, name: Seq<char>, entry: Option<PortalView<P>>) -> Self {
        ShimState { portals: self.portals.insert(name, entry), ..self }.write(
            MessageView::BindComplete,
        )
    }

    pub open spec fn parse(
        self,
        name: Seq<char>,
        query: Seq<char>,
        prepared: Option<Result<PreparedView<S, P>, Seq<char>>>,
    ) -> (Self, Handled) {
        if is_empty_query(query) {
            (self.store_statement(name, None), Handled::Done)
        } else {
            match prepared {
                None => (self, Handled::Pending),
                Some(Err(message)) => (self, Handled::Failed(message)),
                Some(Ok(found)) => match row_description_fields(found.plan) {
                    Err(message) => (self, Handled::Failed(message)),
                    Ok(fields) => (
                        self.store_statement(
                            name,
                            Some(
                                StatementView {
                                    query: found.query,
                                    parameters: text_parameters(found.placeholders),
                                    description: description_of(fields),
                                },
                            ),
                        ),
                        Handled::Done,
                    ),
                },
            }
        }
    }

    pub open spec fn bind(
        self,
        portal: Seq<char>,
        statement: Seq<char>,
        result_formats: Seq<Format>,
        plan: Option<Result<PlanView<P>, Seq<char>>>,
    ) -> (Self, Handled) {
        if !self.statements.contains_key(statement) {
            (self, Handled::Failed("Unknown statement"@))
        } else if self.statements[statement] is None {
            (self.store_portal(portal, None), Handled::Done)
        } else {
            match plan {
                None => (self, Handled::Pending),
                Some(Err(message)) => (self, Handled::Failed(message)),
                Some(Ok(found)) => match row_description_fields(found) {
                    Err(message) => (self, Handled::Failed(message)),
                    Ok(fields) => (
                        self.store_portal(
                            portal,
                            Some(
                                PortalView {
                                    plan: found,
                                    format: result_format(result_formats),
                                    description: description_of(fields),
                                },
                            ),
                        ),
                        Handled::Done,
                    ),
                },
            }
        }
    }

    pub open spec fn execute(self, portal: Seq<char>, execution: Option<ExecutionView>) -> (
        Self,
        Handled,
    ) {
        if !self.portals.contains_key(portal) {
            (self.write(ready_for_query()), Handled::Done)
        } else if self.portals[portal] is None {
            (self.write(MessageView::EmptyQueryResponse), Handled::Done)
        } else {
            match execution {
                None => (self, Handled::Pending),
                Some(ran) => (self.write_execution(ran), Handled::Done),
            }
        }
    }

    pub open spec fn execute_query(self, stage: QueryStageView<P>) -> (
        Self,
        Result<QueryStepView<P>, Seq<char>>,
    ) {
        match stage {
            QueryStageView::Start(query) => if self.is_authenticated() {
                (self, Ok(QueryStepView::Plan(query)))
            } else {
                (self, Err("must be auth"@))
            },
            QueryStageView::Planned(Err(message)) => (self, Err(message)),
            QueryStageView::Planned(Ok(plan)) => match row_description_fields(plan) {
                Err(message) => (self, Err(message)),
                Ok(fields) => (
                    self.write(
                        if fields.len() == 0 {
                            MessageView::NoData
                        } else {
                            MessageView::RowDescription(fields)
                        },
                    ),
                    Ok(
                        QueryStepView::Execute(
                            PortalView { plan, format: Format::Text, description: None },
                            0,
                        ),
                    ),
                ),
            },
            QueryStageView::Executed(Err(message)) => (self, Err(message)),
            QueryStageView::Executed(Ok(ran)) => (self.write_execution(ran), Ok(QueryStepView::Done)),
        }
    }

    pub open spec fn process_query(self, stage: QueryStageView<P>) -> (Self, QueryStepView<P>) {
        let (next, outcome) = self.execute_query(stage);
        match outcome {
            Err(message) => (
                next.write(error_response(message)).write(ready_for_query()),
                QueryStepView::Done,
            ),
            Ok(QueryStepView::Done) => (next.write(ready_for_query()), QueryStepView::Done),
            Ok(step) => (next, step),
        }
    }

    /// What the dispatch loop makes of a handler's outcome: a failure is
    /// reported to the client, and the connection goes on.
    pub open spec fn report(self, handled: Handled) -> Self {
        match handled {
            Handled::Failed(message) => self.write(error_response(message)),
            _ => self,
        }
    }
}

} // verus!
