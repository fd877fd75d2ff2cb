//! The connection's loop, one step at a time.
//!
//! `run` takes what has just happened and says what to do next. All
//! reading, sending, planning and running is done by the caller between
//! two steps.

use crate::error::CubeError;
use crate::extended::{Execution, Portal, PortalView, Prepared, QueryPlan};
use crate::model::{Handled, PhaseView, QueryStageView, QueryStepView, ShimState, StartupView};
use crate::protocol::{
    BackendMessage, Bind, ErrorCode, ErrorSeverity, Execute, FrontendMessage, Parse,
    StartupMessage,
};
use crate::session::AuthenticateResponse;
use crate::shim::{
    execution_view, handled, plan_view, prepared_view, response_view, AsyncPostgresShim, Phase,
    Progress, QueryStage, QueryStep, StartupState,
};
use vstd::prelude::*;
use vstd::string::StringExecFns;

verus! {

/// What has just happened.
pub enum Event<S, P, A> {
    /// A startup packet was read.
    Startup(StartupMessage),
    /// A message was read.
    Message(FrontendMessage),
    /// The authentication service answered; `None` where it turned the
    /// user away.
    Authenticated(Option<AuthenticateResponse<A>>),
    /// The statement of this `Parse` was prepared, or could not be.
    Prepared(Parse, Result<Prepared<S, P>, CubeError>),
    /// The statement of this `Bind` was planned with its values, or could
    /// not be.
    Planned(Bind, Result<QueryPlan<P>, CubeError>),
    /// The portal of this `Execute` ran.
    Executed(Execute, Execution),
    /// The text of the simple query was planned, or could not be.
    QueryPlanned(Result<QueryPlan<P>, CubeError>),
    /// The portal of the simple query ran, or failed.
    QueryExecuted(Result<Execution, CubeError>),
    /// Reading or sending failed.
    Disconnected { unexpected_eof: bool, error: CubeError },
}

/// How a connection ends.
pub enum Closing {
    /// In order: the socket is shut down.
    Shutdown,
    /// The client went away before it authenticated; nothing is amiss.
    Disconnected,
    /// The client asked for what the server does not do.
    Unsupported(CubeError),
    /// With an error.
    Failed(CubeError),
}

pub enum ClosingView {
    Shutdown,
    Disconnected,
    Unsupported(Seq<char>),
    Failed(Seq<char>),
}

impl View for Closing {
    type V = ClosingView;

    open spec fn view(&self) -> ClosingView {
        match self {
            Closing::Shutdown => ClosingView::Shutdown,
            Closing::Disconnected => ClosingView::Disconnected,
            Closing::Unsupported(error) => ClosingView::Unsupported(error@),
            Closing::Failed(error) => ClosingView::Failed(error@),
        }
    }
}

/// What to do next. Whatever the shim has written is sent first.
pub enum Action<P> {
    /// Read a startup packet.
    ReadStartup,
    /// Read a message.
    ReadMessage,
    /// Ask the authentication service for this user.
    Authenticate(String),
    /// Parse the query of this `Parse`, find its placeholders, and plan it
    /// with the placeholders replaced.
    Prepare(Parse),
    /// Bind the values of this `Bind` into its statement and plan the
    /// result.
    PlanStatement(Bind),
    /// Plan this text.
    PlanQuery(String),
    /// Run the portal of this `Execute` up to its row limit.
    ExecutePortal(Execute),
    /// Run this portal for at most so many rows; zero stands for no limit.
    ExecuteQuery(Portal<P>, usize),
    /// Stop.
    Close(Closing),
}

pub enum ActionView<P> {
    ReadStartup,
    ReadMessage,
    Authenticate(Seq<char>),
    Prepare(Parse),
    PlanStatement(Bind),
    PlanQuery(Seq<char>),
    ExecutePortal(Execute),
    ExecuteQuery(PortalView<P>, nat),
    Close(ClosingView),
}

impl<P> View for Action<P> {
    type V = ActionView<P>;

    open spec fn view(&self) -> ActionView<P> {
        match self {
            Action::ReadStartup => ActionView::ReadStartup,
            Action::ReadMessage => ActionView::ReadMessage,
            Action::Authenticate(user) => ActionView::Authenticate(user@),
            Action::Prepare(parse) => ActionView::Prepare(*parse),
            Action::PlanStatement(bind) => ActionView::PlanStatement(*bind),
            Action::PlanQuery(query) => ActionView::PlanQuery(query@),
            Action::ExecutePortal(execute) => ActionView::ExecutePortal(*execute),
            Action::ExecuteQuery(portal, max_rows) => ActionView::ExecuteQuery(
                portal@,
                *max_rows as nat,
            ),
            Action::Close(closing) => ActionView::Close(closing@),
        }
    }
}

/// An event that the phase has no use for ends the connection.
pub open spec fn unexpected<S, P, A>(state: ShimState<S, P, A>) -> (
    ShimState<S, P, A>,
    ActionView<P>,
) {
    (
        state.enter(PhaseView::Closed),
        ActionView::Close(ClosingView::Failed("Unexpected event"@)),
    )
}

/// What follows a command of the extended protocol: a failure is reported
/// and the next message read; a pending command goes out to be worked
/// on.
pub open spec fn after<S, P, A>(
    outcome: (ShimState<S, P, A>, Handled),
    pending: ActionView<P>,
) -> (ShimState<S, P, A>, ActionView<P>) {
    (
        outcome.0.report(outcome.1),
        if outcome.1 is Pending {
            pending
        } else {
            ActionView::ReadMessage
        },
    )
}

/// What follows a stage of a simple query.
pub open spec fn after_query<S, P, A>(outcome: (ShimState<S, P, A>, QueryStepView<P>)) -> (
    ShimState<S, P, A>,
    ActionView<P>,
) {
    (
        outcome.0,
        match outcome.1 {
            QueryStepView::Plan(query) => ActionView::PlanQuery(query),
            QueryStepView::Execute(portal, max_rows) => ActionView::ExecuteQuery(portal, max_rows),
            QueryStepView::Done => ActionView::ReadMessage,
        },
    )
}

/// The step of an authenticated connection.
pub open spec fn serve<S, P, A>(state: ShimState<S, P, A>, event: Event<S, P, A>) -> (
    ShimState<S, P, A>,
    ActionView<P>,
) {
    match event {
        Event::Message(FrontendMessage::Query(body)) => after_query(
            state.process_query(QueryStageView::Start(body.query@)),
        ),
        Event::Message(FrontendMessage::Parse(body)) => after(
            state.parse(body.name@, body.query@, None),
            ActionView::Prepare(body),
        ),
        Event::Message(FrontendMessage::Bind(body)) => after(
            state.bind(body.portal@, body.statement@, body.result_formats@, None),
            ActionView::PlanStatement(body),
        ),
        Event::Message(FrontendMessage::Execute(body)) => after(
            state.execute(body.portal@, None),
            ActionView::ExecutePortal(body),
        ),
        Event::Message(FrontendMessage::Close(body)) => (
            state.close(body.typ, body.name@),
            ActionView::ReadMessage,
        ),
        Event::Message(FrontendMessage::Describe(body)) => (
            state.describe(body.typ, body.name@),
            ActionView::ReadMessage,
        ),
        Event::Message(FrontendMessage::Sync) => (state.sync(), ActionView::ReadMessage),
        Event::Message(FrontendMessage::Terminate) => (
            state.enter(PhaseView::Closed),
            ActionView::Close(ClosingView::Shutdown),
        ),
        Event::Message(FrontendMessage::PasswordMessage(_)) => (
            state.enter(PhaseView::Closed),
            ActionView::Close(ClosingView::Unsupported("Unsupported operation: PasswordMessage"@)),
        ),
        Event::Prepared(body, outcome) => after(
            state.parse(body.name@, body.query@, prepared_view(Some(outcome))),
            ActionView::Prepare(body),
        ),
        Event::Planned(body, outcome) => after(
            state.bind(
                body.portal@,
                body.statement@,
                body.result_formats@,
                Some(plan_view(outcome)),
            ),
            ActionView::PlanStatement(body),
        ),
        Event::Executed(body, ran) => after(
            state.execute(body.portal@, Some(execution_view(ran))),
            ActionView::ExecutePortal(body),
        ),
        Event::QueryPlanned(outcome) => after_query(
            state.process_query(QueryStageView::Planned(plan_view(outcome))),
        ),
        Event::QueryExecuted(outcome) => after_query(
            state.process_query((QueryStage::<P>::Executed(outcome))@),
        ),
        _ => unexpected(state),
    }
}

/// What follows the answer to a startup packet. An SSL request is
/// declined once; after that only a startup that succeeds keeps the
/// connection open.
pub open spec fn after_startup<S, P, A>(
    outcome: (ShimState<S, P, A>, StartupView),
    first: bool,
) -> (ShimState<S, P, A>, ActionView<P>) {
    match outcome.1 {
        StartupView::Success(parameters) => (
            outcome.0.enter(PhaseView::Password(parameters)),
            ActionView::ReadMessage,
        ),
        StartupView::SslRequested => if first {
            (outcome.0.enter(PhaseView::SslDeclined), ActionView::ReadStartup)
        } else {
            (outcome.0.enter(PhaseView::Closed), ActionView::Close(ClosingView::Shutdown))
        },
        StartupView::Denied => (
            outcome.0.enter(PhaseView::Closed),
            ActionView::Close(ClosingView::Shutdown),
        ),
    }
}

/// One step of a connection: the state after `event`, and what to do
/// next.
pub open spec fn step<S, P, A>(state: ShimState<S, P, A>, event: Event<S, P, A>) -> (
    ShimState<S, P, A>,
    ActionView<P>,
) {
    match event {
        Event::Disconnected { unexpected_eof, error } => (
            state.enter(PhaseView::Closed),
            ActionView::Close(
                if unexpected_eof && !state.is_authenticated() {
                    ClosingView::Disconnected
                } else {
                    ClosingView::Failed(error@)
                },
            ),
        ),
        _ => match state.phase {
            PhaseView::Startup => match event {
                Event::Startup(message) => after_startup(
                    state.process_startup_message(message.protocol_version, message.parameters@),
                    true,
                ),
                _ => unexpected(state),
            },
            PhaseView::SslDeclined => match event {
                Event::Startup(message) => after_startup(
                    state.process_startup_message(message.protocol_version, message.parameters@),
                    false,
                ),
                _ => unexpected(state),
            },
            PhaseView::Password(parameters) => match event {
                Event::Message(FrontendMessage::PasswordMessage(message)) => (
                    state.enter(PhaseView::Authenticating(message.password@, parameters)),
                    ActionView::Authenticate(parameters["user"@]),
                ),
                Event::Message(_) => (
                    state.enter(PhaseView::Closed),
                    ActionView::Close(ClosingView::Shutdown),
                ),
                _ => unexpected(state),
            },
            PhaseView::Authenticating(password, parameters) => match event {
                Event::Authenticated(response) => {
                    let outcome = state.authenticate(
                        password,
                        parameters,
                        response_view(response),
                    );
                    if outcome.1 {
                        (outcome.0.ready().enter(PhaseView::Ready), ActionView::ReadMessage)
                    } else {
                        (
                            outcome.0.enter(PhaseView::Closed),
                            ActionView::Close(ClosingView::Shutdown),
                        )
                    }
                },
                _ => unexpected(state),
            },
            PhaseView::Ready => serve(state, event),
            PhaseView::Closed => unexpected(state),
        },
    }
}

fn unexpected_event<P>() -> (action: Action<P>)
    ensures
        action@ == ActionView::<P>::Close(ClosingView::Failed("Unexpected event"@)),
{
    Action::Close(Closing::Failed(CubeError::internal(String::from_str("Unexpected event"))))
}

impl<S, P, A> AsyncPostgresShim<S, P, A> {
    /// Tells the client of a handler's error.
    fn report(&mut self, error: CubeError)
        ensures
            final(self)@ == old(self)@.report(Handled::Failed(error@)),
    {
        self.write(
            BackendMessage::ErrorResponse {
                severity: ErrorSeverity::Error,
                code: ErrorCode::InternalError,
                message: error.to_string(),
            },
        );
    }

    /// The action that a stage of a simple query asks for.
    fn after_query(step: QueryStep<P>) -> (action: Action<P>)
        ensures
            forall|state: ShimState<S, P, A>| after_query((state, step@)).1 == action@,
    {
        match step {
            QueryStep::Plan(query) => Action::PlanQuery(query),
            QueryStep::Execute(portal, max_rows) => Action::ExecuteQuery(portal, max_rows),
            QueryStep::Done => Action::ReadMessage,
        }
    }

    /// Enters the phase that follows the answer to a startup packet.
    fn after_startup(&mut self, answer: StartupState, first: bool) -> (action: Action<P>)
        requires
            old(self)@.wf(),
            answer matches StartupState::Success(parameters) ==> parameters@.contains_key("user"@),
        ensures
            final(self)@.wf(),
            (final(self)@, action@) == after_startup((old(self)@, answer@), first),
    {
        match answer {
            StartupState::Success(parameters) => {
                self.enter(Phase::Password(parameters));
                Action::ReadMessage
            },
            StartupState::SslRequested => {
                if first {
                    self.enter(Phase::SslDeclined);
                    Action::ReadStartup
                } else {
                    self.enter(Phase::Closed);
                    Action::Close(Closing::Shutdown)
                }
            },
            StartupState::Denied => {
                self.enter(Phase::Closed);
                Action::Close(Closing::Shutdown)
            },
        }
    }

    /// Serves one event of an authenticated connection.
    fn serve(&mut self, event: Event<S, P, A>) -> (action: Action<P>)
        requires
            old(self)@.wf(),
            old(self)@.is_authenticated(),
            old(self)@.phase is Closed,
            !(event is Disconnected),
        ensures
            final(self)@.wf(),
            (final(self)@, action@) == serve(old(self)@.enter(PhaseView::Ready), event),
    {
        match event {
            Event::Message(FrontendMessage::Query(body)) => {
                let step = self.process_query(QueryStage::Start(body.query));
                self.enter(Phase::Ready);
                Self::after_query(step)
            },
            Event::Message(FrontendMessage::Parse(body)) => {
                let result = self.parse(body, None);
                self.resume_parse(result)
            },
            Event::Message(FrontendMessage::Bind(body)) => {
                let result = self.bind(body, None);
                self.resume_bind(result)
            },
            Event::Message(FrontendMessage::Execute(body)) => {
                let result = self.execute(body, None);
                self.resume_execute(result)
            },
            Event::Message(FrontendMessage::Close(body)) => {
                self.close(body);
                self.enter(Phase::Ready);
                Action::ReadMessage
            },
            Event::Message(FrontendMessage::Describe(body)) => {
                self.describe(body);
                self.enter(Phase::Ready);
                Action::ReadMessage
            },
            Event::Message(FrontendMessage::Sync) => {
                self.sync();
                self.enter(Phase::Ready);
                Action::ReadMessage
            },
            Event::Message(FrontendMessage::Terminate) => Action::Close(Closing::Shutdown),
            Event::Message(FrontendMessage::PasswordMessage(_)) => Action::Close(
                Closing::Unsupported(
                    CubeError::internal(String::from_str("Unsupported operation: PasswordMessage")),
                ),
            ),
            Event::Prepared(body, outcome) => {
                let result = self.parse(body, Some(outcome));
                self.resume_parse(result)
            },
            Event::Planned(body, outcome) => {
                let result = self.bind(body, Some(outcome));
                self.resume_bind(result)
            },
            Event::Executed(body, ran) => {
                let result = self.execute(body, Some(ran));
                self.resume_execute(result)
            },
            Event::QueryPlanned(outcome) => {
                let step = self.process_query(QueryStage::Planned(outcome));
                self.enter(Phase::Ready);
                Self::after_query(step)
            },
            Event::QueryExecuted(outcome) => {
                let step = self.process_query(QueryStage::Executed(outcome));
                self.enter(Phase::Ready);
                Self::after_query(step)
            },
            _ => unexpected_event(),
        }
    }

    /// Reports a failed `Parse`, or sends a pending one out to be
    /// prepared; in each case the connection stays ready.
    fn resume_parse(&mut self, result: Result<Progress<Parse>, CubeError>) -> (action: Action<P>)
        ensures
            final(self)@ == old(self)@.report(handled(result)).enter(PhaseView::Ready),
            action@ == (match result {
                Ok(Progress::Pending(body)) => ActionView::<P>::Prepare(body),
                _ => ActionView::<P>::ReadMessage,
            }),
    {
        let action = match result {
            Ok(Progress::Done) => Action::ReadMessage,
            Ok(Progress::Pending(body)) => Action::Prepare(body),
            Err(error) => {
                self.report(error);
                Action::ReadMessage
            },
        };
        self.enter(Phase::Ready);
        action
    }

    /// Reports a failed `Bind`, or sends a pending one out to be planned;
    /// in each case the connection stays ready.
    fn resume_bind(&mut self, result: Result<Progress<Bind>, CubeError>) -> (action: Action<P>)
        ensures
            final(self)@ == old(self)@.report(handled(result)).enter(PhaseView::Ready),
            action@ == (match result {
                Ok(Progress::Pending(body)) => ActionView::<P>::PlanStatement(body),
                _ => ActionView::<P>::ReadMessage,
            }),
    {
        let action = match result {
            Ok(Progress::Done) => Action::ReadMessage,
            Ok(Progress::Pending(body)) => Action::PlanStatement(body),
            Err(error) => {
                self.report(error);
                Action::ReadMessage
            },
        };
        self.enter(Phase::Ready);
        action
    }

    /// Sends a pending `Execute` out for its portal to run; the connection
    /// stays ready.
    fn resume_execute(&mut self, result: Progress<Execute>) -> (action: Action<P>)
        ensures
            final(self)@ == old(self)@.enter(PhaseView::Ready),
            action@ == (match result {
                Progress::Pending(body) => ActionView::<P>::ExecutePortal(body),
                Progress::Done => ActionView::<P>::ReadMessage,
            }),
    {
        self.enter(Phase::Ready);
        match result {
            Progress::Done => Action::ReadMessage,
            Progress::Pending(body) => Action::ExecutePortal(body),
        }
    }

    /// Makes one step of the connection: takes `event` in, and says what
    /// to do next. The messages that the step wrote wait to be taken off
    /// and sent before the action is carried out.
    pub fn run(&mut self, event: Event<S, P, A>) -> (action: Action<P>)
        requires
            old(self)@.wf(),
        ensures
            final(self)@.wf(),
            (final(self)@, action@) == step(old(self)@, event),
    {
        let was_authenticated = self.is_authenticated();
        let phase = self.leave();
        match event {
            Event::Disconnected { unexpected_eof, error } => {
                if unexpected_eof && !was_authenticated {
                    Action::Close(Closing::Disconnected)
                } else {
                    Action::Close(Closing::Failed(error))
                }
            },
            event => match phase {
                Phase::Startup => match event {
                    Event::Startup(message) => {
                        let answer = self.process_startup_message(message);
                        self.after_startup(answer, true)
                    },
                    _ => unexpected_event(),
                },
                Phase::SslDeclined => match event {
                    Event::Startup(message) => {
                        let answer = self.process_startup_message(message);
                        self.after_startup(answer, false)
                    },
                    _ => unexpected_event(),
                },
                Phase::Password(parameters) => match event {
                    Event::Message(FrontendMessage::PasswordMessage(message)) => {
                        let user = parameters.get("user").unwrap().clone();
                        self.enter(Phase::Authenticating(message, parameters));
                        Action::Authenticate(user)
                    },
                    Event::Message(_) => Action::Close(Closing::Shutdown),
                    _ => unexpected_event(),
                },
                Phase::Authenticating(message, parameters) => match event {
                    Event::Authenticated(response) => {
                        if self.authenticate(message, parameters, response) {
                            self.ready();
                            self.enter(Phase::Ready);
                            Action::ReadMessage
                        } else {
                            Action::Close(Closing::Shutdown)
                        }
                    },
                    _ => unexpected_event(),
                },
                Phase::Ready => self.serve(event),
                Phase::Closed => unexpected_event(),
            },
        }
    }
}

} // verus!
