//! One connection of the server, without its socket.
//!
//! The shim owns the two catalogs, the session and the messages that wait
//! to be sent. Whoever drives it reads from the socket, asks the planner,
//! the portal and the authentication service when the shim says so, hands
//! the answers back as events, and sends what the shim has written.

use crate::codec::{ssl_request_protocol, text_type_oid};
use crate::error::CubeError;
use crate::extended::{
    query_plan_to_row_description, Execution, PlanView, Portal, PortalView, Prepared,
    PreparedStatement, QueryPlan, StatementView,
};
use crate::model::{
    text_parameters, AuthView, ExecutionView, Handled, PhaseView, PreparedView, QueryStageView,
    QueryStepView, ShimState, StartupView,
};
use crate::protocol::{
    message_views, BackendMessage, Bind, MessageView, Close, CloseType, Describe, DescribeType, ErrorCode,
    ErrorSeverity, Execute, Format, ParameterDescription, Parse, PasswordMessage, RowDescription,
    StartupMessage, TransactionStatus,
};
use crate::session::{AuthenticateResponse, Parameters, Session};
use crate::text::{decimal_string, empty_query};
use vstd::hash_map::StringHashMap;
use vstd::prelude::*;
use vstd::string::StringExecFns;

verus! {

/// Where a connection stands, with what it keeps for the next step.
pub enum Phase {
    Startup,
    SslDeclined,
    Password(Parameters),
    Authenticating(PasswordMessage, Parameters),
    Ready,
    Closed,
}

impl View for Phase {
    type V = PhaseView;

    open spec fn view(&self) -> PhaseView {
        match self {
            Phase::Startup => PhaseView::Startup,
            Phase::SslDeclined => PhaseView::SslDeclined,
            Phase::Password(parameters) => PhaseView::Password(parameters@),
            Phase::Authenticating(message, parameters) => PhaseView::Authenticating(
                message.password@,
                parameters@,
            ),
            Phase::Ready => PhaseView::Ready,
            Phase::Closed => PhaseView::Closed,
        }
    }
}

/// How the startup packet was answered; on success, the parameters that
/// the client sent, for the authentication that follows.
pub enum StartupState {
    Success(Parameters),
    SslRequested,
    Denied,
}

impl View for StartupState {
    type V = StartupView;

    open spec fn view(&self) -> StartupView {
        match self {
            StartupState::Success(parameters) => StartupView::Success(parameters@),
            StartupState::SslRequested => StartupView::SslRequested,
            StartupState::Denied => StartupView::Denied,
        }
    }
}

/// How far a command got: done, or handed back until the work it waits
/// for has been done.
pub enum Progress<M> {
    Done,
    Pending(M),
}

pub open spec fn statement_entry<S>(entry: Option<PreparedStatement<S>>) -> Option<
    StatementView<S>,
> {
    match entry {
        Some(statement) => Some(statement@),
        None => None,
    }
}

pub open spec fn portal_entry<P>(entry: Option<Portal<P>>) -> Option<PortalView<P>> {
    match entry {
        Some(portal) => Some(portal@),
        None => None,
    }
}

pub open spec fn response_view<A>(response: Option<AuthenticateResponse<A>>) -> Option<
    AuthView<A>,
> {
    match response {
        Some(known) => Some(
            AuthView {
                context: known.context,
                password: match known.password {
                    Some(expected) => Some(expected@),
                    None => None,
                },
            },
        ),
        None => None,
    }
}

pub open spec fn prepared_view<S, P>(
    prepared: Option<Result<Prepared<S, P>, CubeError>>,
) -> Option<Result<PreparedView<S, P>, Seq<char>>> {
    match prepared {
        None => None,
        Some(Err(error)) => Some(Err(error@)),
        Some(Ok(found)) => Some(
            Ok(
                PreparedView {
                    query: found.query,
                    placeholders: found.placeholders as nat,
                    plan: found.plan@,
                },
            ),
        ),
    }
}

pub open spec fn plan_view<P>(plan: Result<QueryPlan<P>, CubeError>) -> Result<
    PlanView<P>,
    Seq<char>,
> {
    match plan {
        Ok(found) => Ok(found@),
        Err(error) => Err(error@),
    }
}

pub open spec fn planned_view<P>(plan: Option<Result<QueryPlan<P>, CubeError>>) -> Option<
    Result<PlanView<P>, Seq<char>>,
> {
    match plan {
        None => None,
        Some(outcome) => Some(plan_view(outcome)),
    }
}

pub open spec fn execution_view(execution: Execution) -> ExecutionView {
    ExecutionView { rows: execution.rows@, completion: execution.completion@ }
}

pub open spec fn executed_view(execution: Option<Execution>) -> Option<ExecutionView> {
    match execution {
        None => None,
        Some(ran) => Some(execution_view(ran)),
    }
}

/// What a handler's result says of how far the command got.
pub open spec fn handled<M>(result: Result<Progress<M>, CubeError>) -> Handled {
    match result {
        Ok(Progress::Done) => Handled::Done,
        Ok(Progress::Pending(_)) => Handled::Pending,
        Err(error) => Handled::Failed(error@),
    }
}

/// The stage at which a simple query is taken up: at its start, with the
/// planner's answer, or with what the run of its portal gave.
pub enum QueryStage<P> {
    Start(String),
    Planned(Result<QueryPlan<P>, CubeError>),
    Executed(Result<Execution, CubeError>),
}

impl<P> View for QueryStage<P> {
    type V = QueryStageView<P>;

    open spec fn view(&self) -> QueryStageView<P> {
        match self {
            QueryStage::Start(query) => QueryStageView::Start(query@),
            QueryStage::Planned(outcome) => QueryStageView::Planned(plan_view(*outcome)),
            QueryStage::Executed(Ok(ran)) => QueryStageView::Executed(Ok(execution_view(*ran))),
            QueryStage::Executed(Err(error)) => QueryStageView::Executed(Err(error@)),
        }
    }
}

/// What a simple query needs next: a plan for its text, a run of the
/// portal for at most so many rows (zero: no limit), or nothing more.
pub enum QueryStep<P> {
    Plan(String),
    Execute(Portal<P>, usize),
    Done,
}

impl<P> View for QueryStep<P> {
    type V = QueryStepView<P>;

    open spec fn view(&self) -> QueryStepView<P> {
        match self {
            QueryStep::Plan(query) => QueryStepView::Plan(query@),
            QueryStep::Execute(portal, max_rows) => QueryStepView::Execute(
                portal@,
                *max_rows as nat,
            ),
            QueryStep::Done => QueryStepView::Done,
        }
    }
}

pub open spec fn step_view<P>(result: Result<QueryStep<P>, CubeError>) -> Result<
    QueryStepView<P>,
    Seq<char>,
> {
    match result {
        Ok(step) => Ok(step@),
        Err(error) => Err(error@),
    }
}

/// What a catalog holds under a name.
enum Entry {
    Missing,
    Empty,
    Present,
}

/// One `text` OID for each of `placeholders` parameters.
fn text_parameter_oids(placeholders: usize) -> (oids: Vec<u32>)
    ensures
        oids@ == text_parameters(placeholders as nat),
{
    let mut oids: Vec<u32> = Vec::new();
    let mut i: usize = 0;
    while i < placeholders
        invariant
            i <= placeholders,
            oids@ == text_parameters(i as nat),
        decreases placeholders - i,
    {
        oids.push(text_type_oid());
        assert(oids@ =~= text_parameters((i + 1) as nat));
        i += 1;
    }
    oids
}

#[verifier::reject_recursive_types(S)]
#[verifier::reject_recursive_types(P)]
pub struct AsyncPostgresShim<S, P, A> {
    statements: StringHashMap<Option<PreparedStatement<S>>>,
    portals: StringHashMap<Option<Portal<P>>>,
    session: Session<A>,
    phase: Phase,
    wire: Vec<BackendMessage>,
}

impl<S, P, A> View for AsyncPostgresShim<S, P, A> {
    type V = ShimState<S, P, A>;

    closed spec fn view(&self) -> ShimState<S, P, A> {
        ShimState {
            statements: self.statements@.map_values(
                |entry: Option<PreparedStatement<S>>| statement_entry(entry),
            ),
            portals: self.portals@.map_values(|entry: Option<Portal<P>>| portal_entry(entry)),
            session: self.session@,
            phase: self.phase@,
            wire: message_views(self.wire@),
        }
    }
}

fn ready_for_query() -> (message: BackendMessage)
    ensures
        message@ == MessageView::ReadyForQuery(TransactionStatus::Idle),
{
    BackendMessage::ReadyForQuery(TransactionStatus::Idle)
}

fn parameter_status(name: &str, value: &str) -> (message: BackendMessage)
    ensures
        message@ == (MessageView::ParameterStatus { name: name@, value: value@ }),
{
    BackendMessage::ParameterStatus {
        name: String::from_str(name),
        value: String::from_str(value),
    }
}

impl<S, P, A> AsyncPostgresShim<S, P, A> {
    /// A connection that has just been accepted: both catalogs empty,
    /// nothing written, the startup packet awaited.
    pub fn run_on(session: Session<A>) -> (shim: Self)
        ensures
            shim@ == ShimState::<S, P, A>::initial(session@),
            shim@.wf(),
    {
        let shim = AsyncPostgresShim {
            statements: StringHashMap::new(),
            portals: StringHashMap::new(),
            session,
            phase: Phase::Startup,
            wire: Vec::new(),
        };
        assert(shim@.statements =~= Map::empty());
        assert(shim@.portals =~= Map::empty());
        assert(shim@.wire =~= Seq::empty());
        shim
    }

    /// Puts `message` behind everything written so far.
    pub fn write(&mut self, message: BackendMessage)
        ensures
            final(self)@ == old(self)@.write(message@),
            old(self)@.wf() ==> final(self)@.wf(),
    {
        self.wire.push(message);
        assert(self@.wire =~= old(self)@.wire.push(message@));
    }

    /// Takes off everything written so far, in the order in which it was
    /// written, for sending.
    pub fn take_messages(&mut self) -> (messages: Vec<BackendMessage>)
        ensures
            message_views(messages@) == old(self)@.wire,
            final(self)@ == (ShimState { wire: Seq::empty(), ..old(self)@ }),
            old(self)@.wf() ==> final(self)@.wf(),
    {
        let mut messages: Vec<BackendMessage> = Vec::new();
        std::mem::swap(&mut self.wire, &mut messages);
        assert(self@.wire =~= Seq::empty());
        messages
    }

    /// The messages written so far that have not been taken off.
    pub fn messages(&self) -> (messages: &Vec<BackendMessage>)
        ensures
            message_views(messages@) == self@.wire,
    {
        &self.wire
    }

    pub fn session(&self) -> (session: &Session<A>)
        ensures
            session@ == self@.session,
    {
        &self.session
    }

    /// The context to plan and run queries under; an error before
    /// authentication.
    pub fn auth_context(&self) -> (result: Result<&A, CubeError>)
        ensures
            match result {
                Ok(context) => self@.session.auth_context == Some(*context),
                Err(error) => self@.session.auth_context is None && error@ == "must be auth"@,
            },
    {
        match &self.session.auth_context {
            Some(context) => Ok(context),
            None => Err(CubeError::internal(String::from_str("must be auth"))),
        }
    }

    /// The entry of the prepared statement `name`: none where no such
    /// statement is known, an empty entry where it stands for an empty
    /// query.
    pub fn statement(&self, name: &str) -> (entry: Option<&Option<PreparedStatement<S>>>)
        ensures
            match entry {
                Some(found) => self@.statements.contains_key(name@) && statement_entry(*found)
                    == self@.statements[name@],
                None => !self@.statements.contains_key(name@),
            },
    {
        self.statements.get(name)
    }

    /// The entry of the portal `name`: none where no such portal is known,
    /// an empty entry where it stands for an empty query.
    pub fn portal(&self, name: &str) -> (entry: Option<&Option<Portal<P>>>)
        ensures
            match entry {
                Some(found) => self@.portals.contains_key(name@) && portal_entry(*found)
                    == self@.portals[name@],
                None => !self@.portals.contains_key(name@),
            },
    {
        self.portals.get(name)
    }

    /// Tells the client the server's settings, and that it may send
    /// commands.
    pub fn ready(&mut self)
        ensures
            final(self)@ == old(self)@.ready(),
            old(self)@.wf() ==> final(self)@.wf(),
    {
        self.write(parameter_status("server_version", "14.2 (Cube SQL)"));
        self.write(parameter_status("server_encoding", "UTF8"));
        self.write(parameter_status("client_encoding", "UTF8"));
        self.write(parameter_status("DateStyle", "ISO"));
        self.write(ready_for_query());
    }

    /// Answers `Sync`.
    pub fn sync(&mut self)
        ensures
            final(self)@ == old(self)@.sync(),
            old(self)@.wf() ==> final(self)@.wf(),
    {
        self.write(ready_for_query());
    }

    /// Answers `Describe` of a portal: an error for an unknown name, no
    /// data for an empty query or a plan without columns, the stored row
    /// description otherwise.
    pub fn describe_portal(&mut self, name: String)
        ensures
            final(self)@ == old(self)@.describe_portal(name@),
            old(self)@.wf() ==> final(self)@.wf(),
    {
        let message = match self.portals.get(name.as_str()) {
            None => BackendMessage::ErrorResponse {
                severity: ErrorSeverity::Error,
                code: ErrorCode::InvalidCursorName,
                message: String::from_str("missing cursor"),
            },
            Some(None) => BackendMessage::NoData,
            Some(Some(portal)) => match portal.get_description() {
                None => BackendMessage::NoData,
                Some(description) => BackendMessage::RowDescription(description.duplicate()),
            },
        };
        self.write(message);
    }

    /// Answers `Describe` of a prepared statement: an error for an unknown
    /// name; otherwise the parameter description, then the row description
    /// or no data.
    pub fn describe_statement(&mut self, name: String)
        ensures
            final(self)@ == old(self)@.describe_statement(name@),
            old(self)@.wf() ==> final(self)@.wf(),
    {
        let (first, second) = match self.statements.get(name.as_str()) {
            None => (
                BackendMessage::ErrorResponse {
                    severity: ErrorSeverity::Error,
                    code: ErrorCode::InvalidSqlStatement,
                    message: String::from_str("missing statement"),
                },
                None,
            ),
            Some(None) => (
                BackendMessage::ParameterDescription(ParameterDescription::new(Vec::new())),
                Some(BackendMessage::NoData),
            ),
            Some(Some(statement)) => (
                BackendMessage::ParameterDescription(statement.parameters.duplicate()),
                Some(
                    match &statement.description {
                        None => BackendMessage::NoData,
                        Some(description) => BackendMessage::RowDescription(
                            description.duplicate(),
                        ),
                    },
                ),
            ),
        };
        self.write(first);
        match second {
            Some(message) => {
                self.write(message);
            },
            None => {},
        }
    }

    pub fn describe(&mut self, body: Describe)
        ensures
            final(self)@ == old(self)@.describe(body.typ, body.name@),
            old(self)@.wf() ==> final(self)@.wf(),
    {
        match body.typ {
            DescribeType::Statement => self.describe_statement(body.name),
            DescribeType::Portal => self.describe_portal(body.name),
        }
    }

    /// Answers `Close`: the name leaves its catalog, whether it was there
    /// or not.
    pub fn close(&mut self, body: Close)
        ensures
            final(self)@ == old(self)@.close(body.typ, body.name@),
            old(self)@.wf() ==> final(self)@.wf(),
    {
        match body.typ {
            CloseType::Statement => {
                self.statements.remove(body.name.as_str());
                assert(self@.statements =~= old(self)@.statements.remove(body.name@));
            },
            CloseType::Portal => {
                self.portals.remove(body.name.as_str());
                assert(self@.portals =~= old(self)@.portals.remove(body.name@));
            },
        }
        self.write(BackendMessage::CloseComplete);
    }

    fn store_statement(&mut self, name: String, entry: Option<PreparedStatement<S>>)
        ensures
            final(self)@ == old(self)@.store_statement(name@, statement_entry(entry)),
    {
        self.statements.insert(name, entry);
        assert(self@.statements =~= old(self)@.statements.insert(name@, statement_entry(entry)));
        self.write(BackendMessage::ParseComplete);
    }

    fn store_portal(&mut self, name: String, entry: Option<Portal<P>>)
        ensures
            final(self)@ == old(self)@.store_portal(name@, portal_entry(entry)),
    {
        self.portals.insert(name, entry);
        assert(self@.portals =~= old(self)@.portals.insert(name@, portal_entry(entry)));
        self.write(BackendMessage::BindComplete);
    }

    fn write_execution(&mut self, execution: Execution)
        ensures
            final(self)@ == old(self)@.write_execution(execution_view(execution)),
    {
        if execution.rows.len() > 0 {
            self.write(BackendMessage::DataRows(execution.rows));
        }
        self.write(execution.completion.into_message());
    }

    /// Answers the startup packet: declines SSL, turns away a protocol
    /// other than 3.0 and a client that names no user, and otherwise asks
    /// for the password.
    pub fn process_startup_message(&mut self, message: StartupMessage) -> (state: StartupState)
        ensures
            (final(self)@, state@) == old(self)@.process_startup_message(
                message.protocol_version,
                message.parameters@,
            ),
            old(self)@.wf() ==> final(self)@.wf(),
    {
        let version = message.protocol_version;
        if version.major == ssl_request_protocol() {
            self.write(BackendMessage::SSLResponse);
            return StartupState::SslRequested;
        }
        if version.major != 3 || version.minor != 0 {
            let text = String::from_str("unsupported frontend protocol ").concat(
                decimal_string(version.major).as_str(),
            ).concat(".").concat(decimal_string(version.minor).as_str()).concat(
                ": server supports 3.0 to 3.0",
            );
            self.write(
                BackendMessage::ErrorResponse {
                    severity: ErrorSeverity::Fatal,
                    code: ErrorCode::FeatureNotSupported,
                    message: text,
                },
            );
            return StartupState::Denied;
        }
        let mut parameters = message.parameters;
        if !parameters.contains_key("user") {
            self.write(
                BackendMessage::ErrorResponse {
                    severity: ErrorSeverity::Fatal,
                    code: ErrorCode::InvalidAuthorizationSpecification,
                    message: String::from_str(
                        "no PostgreSQL user name specified in startup packet",
                    ),
                },
            );
            return StartupState::Denied;
        }
        if !parameters.contains_key("database") {
            parameters.insert(String::from_str("database"), String::from_str("db"));
        }
        self.write(BackendMessage::AuthenticationCleartextPassword);
        StartupState::Success(parameters)
    }

    /// Settles authentication once the authentication service has
    /// answered for the user that the startup parameters name: `response`
    /// is what it said, `None` where it turned the user away.
    ///
    /// On success the user and the context are stored on the session and
    /// the client is told so; otherwise the client gets a fatal error and
    /// the session stays as it was.
    pub fn authenticate(
        &mut self,
        password_message: PasswordMessage,
        parameters: Parameters,
        response: Option<AuthenticateResponse<A>>,
    ) -> (authenticated: bool)
        requires
            parameters@.contains_key("user"@),
        ensures
            (final(self)@, authenticated) == old(self)@.authenticate(
                password_message.password@,
                parameters@,
                response_view(response),
            ),
            old(self)@.wf() ==> final(self)@.wf(),
    {
        let user = parameters.get("user").unwrap().clone();
        let mut auth_context: Option<A> = None;
        let auth_success = match response {
            Some(known) => {
                let matches = match &known.password {
                    None => true,
                    Some(expected) => *expected == password_message.password,
                };
                auth_context = Some(known.context);
                matches
            },
            None => false,
        };
        if !auth_success {
            let text = String::from_str("password authentication failed for user \"").concat(
                user.as_str(),
            ).concat("\"");
            self.write(
                BackendMessage::ErrorResponse {
                    severity: ErrorSeverity::Fatal,
                    code: ErrorCode::InvalidPassword,
                    message: text,
                },
            );
            return false;
        }
        self.session.set_user(Some(user));
        self.session.set_auth_context(auth_context);
        self.write(BackendMessage::AuthenticationOk);
        true
    }

    /// Answers `Parse`.
    ///
    /// An empty query is stored as such at once. Any other query has to be
    /// prepared first: without `prepared` the message comes back as
    /// pending and nothing changes. With it, the statement is stored under
    /// the name, over whatever stood there, with one `text` parameter per
    /// placeholder and the row description of its plan; a failure to
    /// prepare or to describe is the handler's error and stores nothing.
    pub fn parse(
        &mut self,
        parse: Parse,
        prepared: Option<Result<Prepared<S, P>, CubeError>>,
    ) -> (result: Result<Progress<Parse>, CubeError>)
        ensures
            (final(self)@, handled(result)) == old(self)@.parse(
                parse.name@,
                parse.query@,
                prepared_view(prepared),
            ),
            result matches Ok(Progress::Pending(back)) ==> back == parse,
            old(self)@.wf() ==> final(self)@.wf(),
    {
        if empty_query(parse.query.as_str()) {
            self.store_statement(parse.name, None);
            return Ok(Progress::Done);
        }
        match prepared {
            None => Ok(Progress::Pending(parse)),
            Some(Err(error)) => Err(error),
            Some(Ok(found)) => {
                let fields = match query_plan_to_row_description(&found.plan) {
                    Ok(fields) => fields,
                    Err(error) => {
                        return Err(error);
                    },
                };
                let description = if fields.len() > 0 {
                    Some(RowDescription::new(fields))
                } else {
                    None
                };
                let statement = PreparedStatement {
                    query: found.query,
                    parameters: ParameterDescription::new(text_parameter_oids(found.placeholders)),
                    description,
                };
                self.store_statement(parse.name, Some(statement));
                Ok(Progress::Done)
            },
        }
    }

    /// Answers `Bind`.
    ///
    /// An unknown statement is the handler's error. A statement that
    /// stands for an empty query gives a portal that does too. Any other
    /// statement has to be planned with the bound values first: without
    /// `plan` the message comes back as pending and nothing changes. With
    /// it, the portal is stored under its name, over whatever stood there,
    /// with the first result format (text where none is named) and the row
    /// description of the plan.
    pub fn bind(&mut self, body: Bind, plan: Option<Result<QueryPlan<P>, CubeError>>) -> (result:
        Result<Progress<Bind>, CubeError>)
        ensures
            (final(self)@, handled(result)) == old(self)@.bind(
                body.portal@,
                body.statement@,
                body.result_formats@,
                planned_view(plan),
            ),
            result matches Ok(Progress::Pending(back)) ==> back == body,
            old(self)@.wf() ==> final(self)@.wf(),
    {
        let source = match self.statements.get(body.statement.as_str()) {
            None => Entry::Missing,
            Some(None) => Entry::Empty,
            Some(Some(_)) => Entry::Present,
        };
        match source {
            Entry::Missing => Err(CubeError::internal(String::from_str("Unknown statement"))),
            Entry::Empty => {
                self.store_portal(body.portal, None);
                Ok(Progress::Done)
            },
            Entry::Present => match plan {
                None => Ok(Progress::Pending(body)),
                Some(Err(error)) => Err(error),
                Some(Ok(found)) => {
                    let fields = match query_plan_to_row_description(&found) {
                        Ok(fields) => fields,
                        Err(error) => {
                            return Err(error);
                        },
                    };
                    let description = if fields.len() > 0 {
                        Some(RowDescription::new(fields))
                    } else {
                        None
                    };
                    let format = if body.result_formats.len() > 0 {
                        body.result_formats[0]
                    } else {
                        Format::Text
                    };
                    self.store_portal(body.portal, Some(Portal::new(found, format, description)));
                    Ok(Progress::Done)
                },
            },
        }
    }

    /// Answers `Execute`.
    ///
    /// An unknown portal is answered with `ReadyForQuery`, a portal that
    /// stands for an empty query with `EmptyQueryResponse`. Any other
    /// portal has to run first: without `execution` the message comes back
    /// as pending and nothing changes. With it, the rows go out, if there
    /// are any, and then the completion that the run ended with.
    pub fn execute(&mut self, execute: Execute, execution: Option<Execution>) -> (result: Progress<
        Execute,
    >)
        ensures
            (final(self)@, handled(Ok::<Progress<Execute>, CubeError>(result))) == old(
                self,
            )@.execute(execute.portal@, executed_view(execution)),
            result matches Progress::Pending(back) ==> back == execute,
            old(self)@.wf() ==> final(self)@.wf(),
    {
        let source = match self.portals.get(execute.portal.as_str()) {
            None => Entry::Missing,
            Some(None) => Entry::Empty,
            Some(Some(_)) => Entry::Present,
        };
        match source {
            Entry::Missing => {
                self.write(ready_for_query());
                Progress::Done
            },
            Entry::Empty => {
                self.write(BackendMessage::EmptyQueryResponse);
                Progress::Done
            },
            Entry::Present => match execution {
                None => Progress::Pending(execute),
                Some(ran) => {
                    self.write_execution(ran);
                    Progress::Done
                },
            },
        }
    }

    /// Carries a simple query one stage further.
    ///
    /// At the start it asks for a plan of the text, or fails where nobody
    /// is authenticated. With the plan it writes the row description, or
    /// `NoData` where the plan has no columns, and asks for a run of a
    /// portal over the plan in text format, without a row limit. With the run it writes the
    /// rows and the completion. A failure of the planner, of the
    /// description or of the run is the handler's error.
    pub fn execute_query(&mut self, stage: QueryStage<P>) -> (result: Result<
        QueryStep<P>,
        CubeError,
    >)
        ensures
            (final(self)@, step_view(result)) == old(self)@.execute_query(stage@),
            old(self)@.wf() ==> final(self)@.wf(),
    {
        match stage {
            QueryStage::Start(query) => match self.auth_context() {
                Ok(_) => Ok(QueryStep::Plan(query)),
                Err(error) => Err(error),
            },
            QueryStage::Planned(Err(error)) => Err(error),
            QueryStage::Planned(Ok(plan)) => {
                let fields = match query_plan_to_row_description(&plan) {
                    Ok(fields) => fields,
                    Err(error) => {
                        return Err(error);
                    },
                };
                if fields.len() == 0 {
                    self.write(BackendMessage::NoData);
                } else {
                    self.write(BackendMessage::RowDescription(RowDescription::new(fields)));
                }
                Ok(QueryStep::Execute(Portal::new(plan, Format::Text, None), 0))
            },
            QueryStage::Executed(Err(error)) => Err(error),
            QueryStage::Executed(Ok(ran)) => {
                self.write_execution(ran);
                Ok(QueryStep::Done)
            },
        }
    }

    /// Carries a simple query one stage further and closes it where it
    /// ends: a failure is reported to the client, and whether the query
    /// failed or ran to its end, `ReadyForQuery` follows.
    pub fn process_query(&mut self, stage: QueryStage<P>) -> (step: QueryStep<P>)
        ensures
            (final(self)@, step@) == old(self)@.process_query(stage@),
            old(self)@.wf() ==> final(self)@.wf(),
    {
        match self.execute_query(stage) {
            Err(error) => {
                self.write(
                    BackendMessage::ErrorResponse {
                        severity: ErrorSeverity::Error,
                        code: ErrorCode::InternalError,
                        message: error.to_string(),
                    },
                );
                self.write(ready_for_query());
                QueryStep::Done
            },
            Ok(QueryStep::Done) => {
                self.write(ready_for_query());
                QueryStep::Done
            },
            Ok(step) => step,
        }
    }

    /// Takes the phase out for the step that is about to be made; until
    /// the step enters a phase, the connection counts as closed.
    pub(crate) fn leave(&mut self) -> (phase: Phase)
        ensures
            phase@ == old(self)@.phase,
            final(self)@ == old(self)@.enter(PhaseView::Closed),
    {
        let mut phase = Phase::Closed;
        std::mem::swap(&mut self.phase, &mut phase);
        phase
    }

    pub(crate) fn enter(&mut self, phase: Phase)
        ensures
            final(self)@ == old(self)@.enter(phase@),
    {
        self.phase = phase;
    }

    pub fn is_authenticated(&self) -> (authenticated: bool)
        ensures
            authenticated == self@.is_authenticated(),
    {
        self.session.auth_context.is_some()
    }
}

} // verus!
