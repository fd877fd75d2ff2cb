//! What holds of every connection, whatever it is sent.
//!
//! Each statement here is about the functions of the model, which the
//! executable handlers are proved to compute.

use crate::codec::TEXT_OID;
use crate::driver::{step, ActionView, Event};
use crate::extended::{description_of, row_description_fields, PlanView, PortalView};
use crate::model::{
    error_response, ready_for_query, text_parameters, AuthView, ExecutionView, Handled,
    PreparedView, QueryStageView, QueryStepView, ShimState, StartupView,
};
use crate::protocol::{
    completion_message, CloseType, DescribeType, FieldView, Format, FrontendMessage, MessageView,
    ProtocolVersion,
};
use crate::text::{is_empty_query, is_white_space, lemma_empty_query_is_all_white_space};
use vstd::prelude::*;

verus! {

/// No command leaves a well-formed state ill-formed: the statement
/// catalog keeps only statements with text parameters, the portal
/// catalog only portals whose description is the one that their plan
/// gives, and the context of an authenticated session stays.
impl<S, P, A> ShimState<S, P, A> {
    /// Answering a startup packet keeps the state well-formed, and the
    /// parameters that it hands on name a user.
    pub proof fn lemma_startup_keeps_wf(
        self,
        version: ProtocolVersion,
        parameters: Map<Seq<char>, Seq<char>>,
    )
        requires
            self.wf(),
        ensures
            self.process_startup_message(version, parameters).0.wf(),
            self.process_startup_message(version, parameters).1 matches StartupView::Success(kept)
                ==> kept.contains_key("user"@),
    {
    }

    /// Authentication never clears the context, and sets it where it
    /// succeeds.
    pub proof fn lemma_authenticate_keeps_wf(
        self,
        password: Seq<char>,
        parameters: Map<Seq<char>, Seq<char>>,
        response: Option<AuthView<A>>,
    )
        requires
            self.wf(),
        ensures
            self.authenticate(password, parameters, response).0.wf(),
            self.authenticate(password, parameters, response).1 ==> self.authenticate(
                password,
                parameters,
                response,
            ).0.is_authenticated(),
            self.is_authenticated() ==> self.authenticate(
                password,
                parameters,
                response,
            ).0.is_authenticated(),
    {
    }

    pub proof fn lemma_ready_keeps_wf(self)
        requires
            self.wf(),
        ensures
            self.ready().wf(),
    {
    }

    pub proof fn lemma_describe_keeps_wf(self, typ: DescribeType, name: Seq<char>)
        requires
            self.wf(),
        ensures
            self.describe(typ, name).wf(),
    {
    }

    pub proof fn lemma_close_keeps_wf(self, typ: CloseType, name: Seq<char>)
        requires
            self.wf(),
        ensures
            self.close(typ, name).wf(),
    {
    }

    pub proof fn lemma_parse_keeps_wf(
        self,
        name: Seq<char>,
        query: Seq<char>,
        prepared: Option<Result<PreparedView<S, P>, Seq<char>>>,
    )
        requires
            self.wf(),
        ensures
            self.parse(name, query, prepared).0.wf(),
    {
    }

    pub proof fn lemma_bind_keeps_wf(
        self,
        portal: Seq<char>,
        statement: Seq<char>,
        result_formats: Seq<Format>,
        plan: Option<Result<PlanView<P>, Seq<char>>>,
    )
        requires
            self.wf(),
        ensures
            self.bind(portal, statement, result_formats, plan).0.wf(),
    {
    }

    pub proof fn lemma_execute_keeps_wf(self, portal: Seq<char>, execution: Option<ExecutionView>)
        requires
            self.wf(),
        ensures
            self.execute(portal, execution).0.wf(),
    {
    }

    pub proof fn lemma_process_query_keeps_wf(self, stage: QueryStageView<P>)
        requires
            self.wf(),
        ensures
            self.execute_query(stage).0.wf(),
            self.process_query(stage).0.wf(),
    {
    }
}

/// Two states hold the same statements and the same portals.
pub open spec fn same_catalogs<S, P, A>(
    before: ShimState<S, P, A>,
    after: ShimState<S, P, A>,
) -> bool {
    before.statements == after.statements && before.portals == after.portals
}

/// How many times `ReadyForQuery` stands in a run of messages.
pub open spec fn ready_count(wire: Seq<MessageView>) -> nat
    decreases wire.len(),
{
    if wire.len() == 0 {
        0
    } else {
        ready_count(wire.drop_last()) + if wire.last() == ready_for_query() {
            1nat
        } else {
            0nat
        }
    }
}

/// One more message makes one more `ReadyForQuery` exactly when it is one.
pub proof fn lemma_ready_count_push(wire: Seq<MessageView>, message: MessageView)
    ensures
        ready_count(wire.push(message)) == ready_count(wire) + if message == ready_for_query() {
            1nat
        } else {
            0nat
        },
{
    assert(wire.push(message).drop_last() =~= wire);
}

/// The row data of a run as it goes on the wire: one message, or none
/// where the run gave no rows.
pub open spec fn row_messages(rows: Seq<u8>) -> Seq<MessageView> {
    if rows.len() > 0 {
        seq![MessageView::DataRows(rows)]
    } else {
        Seq::empty()
    }
}

/// What describing a statement tells of its rows.
pub open spec fn described(description: Option<Seq<FieldView>>) -> MessageView {
    match description {
        Some(fields) => MessageView::RowDescription(fields),
        None => MessageView::NoData,
    }
}

/// After a `Parse` that was carried out, the name is in the statement
/// catalog. It stands for an empty query exactly when the query held
/// nothing but white space; otherwise the statement names as many
/// parameters as it has placeholders, each of them text. No other name
/// and no portal is touched.
pub proof fn lemma_parse_stores<S, P, A>(
    state: ShimState<S, P, A>,
    name: Seq<char>,
    query: Seq<char>,
    prepared: Option<Result<PreparedView<S, P>, Seq<char>>>,
)
    requires
        state.parse(name, query, prepared).1 is Done,
    ensures
        ({
            let next = state.parse(name, query, prepared).0;
            &&& next.statements.contains_key(name)
            &&& next.statements[name] is None <==> is_empty_query(query)
            &&& is_empty_query(query) <==> (forall|i: int|
                0 <= i < query.len() ==> is_white_space(query[i]))
            &&& next.statements[name] matches Some(statement) ==> {
                &&& prepared matches Some(Ok(found))
                &&& statement.query == found.query
                &&& statement.parameters.len() == found.placeholders
                &&& forall|i: int|
                    0 <= i < statement.parameters.len() ==> statement.parameters[i] == TEXT_OID
            }
            &&& next.statements.remove(name) == state.statements.remove(name)
            &&& next.portals == state.portals
            &&& next.wire == state.wire.push(MessageView::ParseComplete)
        }),
{
    lemma_empty_query_is_all_white_space(query);
    let next = state.parse(name, query, prepared).0;
    assert(next.statements.remove(name) =~= state.statements.remove(name));
}

/// After a `Bind` that was carried out, the destination is in the portal
/// catalog. It stands for an empty query exactly when the source
/// statement does; otherwise its format is the first result format that
/// the client named, or text where it named none, and its description is
/// the one that its plan gives. No other name and no statement is
/// touched.
pub proof fn lemma_bind_stores<S, P, A>(
    state: ShimState<S, P, A>,
    portal: Seq<char>,
    statement: Seq<char>,
    result_formats: Seq<Format>,
    plan: Option<Result<PlanView<P>, Seq<char>>>,
)
    requires
        state.bind(portal, statement, result_formats, plan).1 is Done,
    ensures
        ({
            let next = state.bind(portal, statement, result_formats, plan).0;
            &&& state.statements.contains_key(statement)
            &&& next.portals.contains_key(portal)
            &&& next.portals[portal] is None <==> state.statements[statement] is None
            &&& next.portals[portal] matches Some(bound) ==> {
                &&& plan matches Some(Ok(found))
                &&& bound.plan == found
                &&& bound.format == (if result_formats.len() > 0 {
                    result_formats[0]
                } else {
                    Format::Text
                })
                &&& row_description_fields(found) matches Ok(fields)
                &&& bound.description == description_of(fields)
                &&& bound.description is Some <==> fields.len() > 0
            }
            &&& next.portals.remove(portal) == state.portals.remove(portal)
            &&& next.statements == state.statements
            &&& next.wire == state.wire.push(MessageView::BindComplete)
        }),
{
    let next = state.bind(portal, statement, result_formats, plan).0;
    assert(next.portals.remove(portal) =~= state.portals.remove(portal));
}

/// After `Close` the name is not in the catalog that was named, whether
/// it was there before or not; the other names and the other catalog
/// stay, and the answer is `CloseComplete`.
pub proof fn lemma_close_removes<S, P, A>(
    state: ShimState<S, P, A>,
    typ: CloseType,
    name: Seq<char>,
)
    ensures
        ({
            let next = state.close(typ, name);
            &&& typ is Statement ==> {
                &&& !next.statements.contains_key(name)
                &&& next.statements == state.statements.remove(name)
                &&& next.portals == state.portals
            }
            &&& typ is Portal ==> {
                &&& !next.portals.contains_key(name)
                &&& next.portals == state.portals.remove(name)
                &&& next.statements == state.statements
            }
            &&& next.wire == state.wire.push(MessageView::CloseComplete)
        }),
{
}

/// Closing a name twice is answered with `CloseComplete` both times, and
/// the second leaves the catalogs as the first left them.
pub proof fn lemma_close_twice<S, P, A>(state: ShimState<S, P, A>, typ: CloseType, name: Seq<char>)
    ensures
        ({
            let once = state.close(typ, name);
            let twice = once.close(typ, name);
            &&& twice.wire == state.wire.push(MessageView::CloseComplete).push(
                MessageView::CloseComplete,
            )
            &&& twice.statements == once.statements
            &&& twice.portals == once.portals
        }),
{
    let once = state.close(typ, name);
    let twice = once.close(typ, name);
    assert(twice.statements =~= once.statements);
    assert(twice.portals =~= once.portals);
}

/// `Sync` is answered with exactly one `ReadyForQuery`, and nothing else.
pub proof fn lemma_sync_ready_once<S, P, A>(state: ShimState<S, P, A>)
    ensures
        state.sync().wire == state.wire.push(ready_for_query()),
        ready_count(state.sync().wire) == ready_count(state.wire) + 1,
{
    lemma_ready_count_push(state.wire, ready_for_query());
}

/// The messages that a run of a portal puts on the wire hold no
/// `ReadyForQuery`.
pub proof fn lemma_execution_not_ready<S, P, A>(state: ShimState<S, P, A>, ran: ExecutionView)
    ensures
        ready_count(state.write_execution(ran).wire) == ready_count(state.wire),
{
    let rows = state.write_rows(ran.rows);
    if ran.rows.len() > 0 {
        lemma_ready_count_push(state.wire, MessageView::DataRows(ran.rows));
    }
    lemma_ready_count_push(rows.wire, completion_message(ran.completion));
}

/// A stage of a simple query that ends the query, by failure or by
/// running to its end, puts exactly one `ReadyForQuery` on the wire, as
/// its last message. A stage that does not end the query puts none.
pub proof fn lemma_query_ready_once<S, P, A>(state: ShimState<S, P, A>, stage: QueryStageView<P>)
    ensures
        ({
            let (next, step) = state.process_query(stage);
            &&& step is Done ==> {
                &&& next.wire.len() > 0
                &&& next.wire.last() == ready_for_query()
                &&& ready_count(next.wire) == ready_count(state.wire) + 1
            }
            &&& !(step is Done) ==> ready_count(next.wire) == ready_count(state.wire)
        }),
{
    let (middle, outcome) = state.execute_query(stage);
    match stage {
        QueryStageView::Executed(Ok(ran)) => {
            lemma_execution_not_ready(state, ran);
        },
        QueryStageView::Planned(Ok(plan)) => {
            match row_description_fields(plan) {
                Ok(fields) => {
                    lemma_ready_count_push(
                        state.wire,
                        if fields.len() == 0 {
                            MessageView::NoData
                        } else {
                            MessageView::RowDescription(fields)
                        },
                    );
                },
                Err(_) => {},
            }
        },
        _ => {},
    }
    match outcome {
        Err(message) => {
            lemma_ready_count_push(middle.wire, error_response(message));
            lemma_ready_count_push(middle.wire.push(error_response(message)), ready_for_query());
        },
        Ok(QueryStepView::Done) => {
            lemma_ready_count_push(middle.wire, ready_for_query());
        },
        _ => {},
    }
}

/// A simple query that succeeds at each of its three stages puts exactly
/// one `ReadyForQuery` on the wire, as the last of its messages: after
/// the description of its rows, the rows and the completion.
pub proof fn lemma_successful_query<S, P, A>(
    state: ShimState<S, P, A>,
    query: Seq<char>,
    plan: PlanView<P>,
    ran: ExecutionView,
)
    requires
        state.is_authenticated(),
        row_description_fields(plan) is Ok,
    ensures
        ({
            let started = state.process_query(QueryStageView::Start(query));
            let planned = started.0.process_query(QueryStageView::Planned(Ok(plan)));
            let ended = planned.0.process_query(QueryStageView::Executed(Ok(ran)));
            let fields = row_description_fields(plan)->Ok_0;
            &&& started.1 == QueryStepView::<P>::Plan(query)
            &&& planned.1 == QueryStepView::Execute(
                PortalView { plan, format: Format::Text, description: None },
                0,
            )
            &&& ended.1 is Done
            &&& ended.0.wire == state.wire.push(
                if fields.len() == 0 {
                    MessageView::NoData
                } else {
                    MessageView::RowDescription(fields)
                },
            ) + row_messages(ran.rows) + seq![
                completion_message(ran.completion),
                ready_for_query(),
            ]
            &&& ready_count(ended.0.wire) == ready_count(state.wire) + 1
        }),
{
    let started = state.process_query(QueryStageView::Start(query));
    let planned = started.0.process_query(QueryStageView::Planned(Ok(plan)));
    lemma_query_ready_once(state, QueryStageView::Start(query));
    lemma_query_ready_once(started.0, QueryStageView::Planned(Ok(plan)));
    lemma_query_ready_once(planned.0, QueryStageView::Executed(Ok(ran)));
    let ended = planned.0.process_query(QueryStageView::Executed(Ok(ran)));
    assert(ended.0.wire =~= planned.0.wire + row_messages(ran.rows) + seq![
        completion_message(ran.completion),
        ready_for_query(),
    ]);
}

/// A `Parse` that fails changes nothing, and the dispatch loop then puts
/// on the wire an `ErrorResponse` with the error's text and nothing
/// else: no `ReadyForQuery` follows.
pub proof fn lemma_parse_failure<S, P, A>(
    state: ShimState<S, P, A>,
    name: Seq<char>,
    query: Seq<char>,
    prepared: Option<Result<PreparedView<S, P>, Seq<char>>>,
)
    requires
        state.parse(name, query, prepared).1 is Failed,
    ensures
        ({
            let (failed, outcome) = state.parse(name, query, prepared);
            &&& failed == state
            &&& failed.report(outcome).wire == state.wire.push(error_response(outcome->Failed_0))
            &&& ready_count(failed.report(outcome).wire) == ready_count(state.wire)
        }),
{
    let (failed, outcome) = state.parse(name, query, prepared);
    lemma_ready_count_push(state.wire, error_response(outcome->Failed_0));
}

/// A `Bind` that fails changes nothing, and the dispatch loop then puts
/// on the wire an `ErrorResponse` with the error's text and nothing
/// else: no `ReadyForQuery` follows.
pub proof fn lemma_bind_failure<S, P, A>(
    state: ShimState<S, P, A>,
    portal: Seq<char>,
    statement: Seq<char>,
    result_formats: Seq<Format>,
    plan: Option<Result<PlanView<P>, Seq<char>>>,
)
    requires
        state.bind(portal, statement, result_formats, plan).1 is Failed,
    ensures
        ({
            let (failed, outcome) = state.bind(portal, statement, result_formats, plan);
            &&& failed == state
            &&& failed.report(outcome).wire == state.wire.push(error_response(outcome->Failed_0))
            &&& ready_count(failed.report(outcome).wire) == ready_count(state.wire)
        }),
{
    let (failed, outcome) = state.bind(portal, statement, result_formats, plan);
    lemma_ready_count_push(state.wire, error_response(outcome->Failed_0));
}

/// A stage of a simple query that fails writes nothing of its own; what
/// goes on the wire is an `ErrorResponse` with the error's text, then
/// `ReadyForQuery`, and the query is over.
pub proof fn lemma_query_failure<S, P, A>(state: ShimState<S, P, A>, stage: QueryStageView<P>)
    requires
        state.execute_query(stage).1 is Err,
    ensures
        ({
            let message = state.execute_query(stage).1->Err_0;
            &&& state.execute_query(stage).0 == state
            &&& state.process_query(stage).0.wire == state.wire.push(error_response(message)).push(
                ready_for_query(),
            )
            &&& state.process_query(stage).1 is Done
        }),
{
}

/// `Execute` never fails, and neither do `Describe`, `Close` and `Sync`:
/// where `Describe` does not know the name it writes its own error and
/// goes on.
pub proof fn lemma_execute_does_not_fail<S, P, A>(
    state: ShimState<S, P, A>,
    portal: Seq<char>,
    execution: Option<ExecutionView>,
)
    ensures
        !(state.execute(portal, execution).1 is Failed),
{
}

/// `Parse`, `Bind`, `Describe` and `Close` put no `ReadyForQuery` on the
/// wire, whether they succeed or fail: in the extended protocol the
/// client gets one when it sends `Sync`. (`Execute` answers with one
/// where it does not know the portal, and with none otherwise.)
pub proof fn lemma_extended_commands_not_ready<S, P, A>(
    state: ShimState<S, P, A>,
    name: Seq<char>,
    query: Seq<char>,
    prepared: Option<Result<PreparedView<S, P>, Seq<char>>>,
    portal: Seq<char>,
    result_formats: Seq<Format>,
    plan: Option<Result<PlanView<P>, Seq<char>>>,
    describe: DescribeType,
    close: CloseType,
    execution: Option<ExecutionView>,
)
    ensures
        ({
            let parsed = state.parse(name, query, prepared);
            ready_count(parsed.0.report(parsed.1).wire) == ready_count(state.wire)
        }),
        ({
            let bound = state.bind(portal, name, result_formats, plan);
            ready_count(bound.0.report(bound.1).wire) == ready_count(state.wire)
        }),
        ready_count(state.describe(describe, name).wire) == ready_count(state.wire),
        ready_count(state.close(close, name).wire) == ready_count(state.wire),
        ready_count(state.execute(portal, execution).0.wire) == ready_count(state.wire) + if
            state.portals.contains_key(portal) {
            0nat
        } else {
            1nat
        },
{
    let parsed = state.parse(name, query, prepared);
    lemma_ready_count_push(state.wire, MessageView::ParseComplete);
    if parsed.1 is Failed {
        lemma_ready_count_push(state.wire, error_response(parsed.1->Failed_0));
    }
    let bound = state.bind(portal, name, result_formats, plan);
    lemma_ready_count_push(state.wire, MessageView::BindComplete);
    if bound.1 is Failed {
        lemma_ready_count_push(state.wire, error_response(bound.1->Failed_0));
    }
    lemma_ready_count_push(state.wire, MessageView::CloseComplete);
    match describe {
        DescribeType::Portal => {
            lemma_ready_count_push(state.wire, state.describe_portal(name).wire.last());
        },
        DescribeType::Statement => {
            let described = state.describe_statement(name);
            if state.statements.contains_key(name) {
                let first = described.wire[state.wire.len() as int];
                lemma_ready_count_push(state.wire, first);
                lemma_ready_count_push(state.wire.push(first), described.wire.last());
            } else {
                lemma_ready_count_push(state.wire, described.wire.last());
            }
        },
    }
    if !state.portals.contains_key(portal) {
        lemma_ready_count_push(state.wire, ready_for_query());
    } else if state.portals[portal] is None {
        lemma_ready_count_push(state.wire, MessageView::EmptyQueryResponse);
    } else {
        match execution {
            Some(ran) => {
                lemma_execution_not_ready(state, ran);
            },
            None => {},
        }
    }
}

/// In the dispatch loop a `Parse` or a `Bind` that fails is answered with
/// the `ErrorResponse` alone, and the connection reads on; a simple
/// query that fails at its start is answered with the `ErrorResponse`
/// and `ReadyForQuery`, and the connection reads on.
pub proof fn lemma_step_reports_failure<S, P, A>(
    state: ShimState<S, P, A>,
    event: Event<S, P, A>,
)
    requires
        state.phase is Ready,
    ensures
        event matches Event::Message(FrontendMessage::Parse(body)) ==> (state.parse(
            body.name@,
            body.query@,
            None,
        ).1 matches Handled::Failed(message) ==> step(state, event) == (
            state.write(error_response(message)),
            ActionView::<P>::ReadMessage,
        )),
        event matches Event::Message(FrontendMessage::Bind(body)) ==> (state.bind(
            body.portal@,
            body.statement@,
            body.result_formats@,
            None,
        ).1 matches Handled::Failed(message) ==> step(state, event) == (
            state.write(error_response(message)),
            ActionView::<P>::ReadMessage,
        )),
        event matches Event::Message(FrontendMessage::Query(body)) ==> (state.execute_query(
            QueryStageView::Start(body.query@),
        ).1 matches Err(message) ==> step(state, event) == (
            state.write(error_response(message)).write(ready_for_query()),
            ActionView::<P>::ReadMessage,
        )),
        event matches Event::Message(FrontendMessage::Sync) ==> step(state, event) == (
            state.write(ready_for_query()),
            ActionView::<P>::ReadMessage,
        ),
{
}

/// What `Describe` tells of a statement that was parsed from `query`
/// with what preparing it gave: the parameter description, then the row
/// description or `NoData`.
pub open spec fn description_after_parse<S, P>(
    query: Seq<char>,
    prepared: Option<Result<PreparedView<S, P>, Seq<char>>>,
) -> Seq<MessageView> {
    if is_empty_query(query) {
        seq![MessageView::ParameterDescription(Seq::empty()), MessageView::NoData]
    } else {
        let found = prepared->Some_0->Ok_0;
        seq![
            MessageView::ParameterDescription(text_parameters(found.placeholders)),
            described(description_of(row_description_fields(found.plan)->Ok_0)),
        ]
    }
}

/// A statement that was just parsed describes itself by what was parsed
/// and by nothing else: first one text parameter for each placeholder,
/// then the fields of its plan, or `NoData` where the plan has none; and
/// no parameters and `NoData` where the query was empty. The name and the
/// state before the `Parse` have no part in it.
pub proof fn lemma_parse_then_describe<S, P, A>(
    state: ShimState<S, P, A>,
    name: Seq<char>,
    query: Seq<char>,
    prepared: Option<Result<PreparedView<S, P>, Seq<char>>>,
)
    requires
        state.parse(name, query, prepared).1 is Done,
    ensures
        ({
            let parsed = state.parse(name, query, prepared).0;
            parsed.describe_statement(name).wire == parsed.wire + description_after_parse(
                query,
                prepared,
            )
        }),
{
    let parsed = state.parse(name, query, prepared).0;
    assert(parsed.describe_statement(name).wire =~= parsed.wire + description_after_parse(
        query,
        prepared,
    ));
}

/// Of two `Parse` under one name only the second stays: the catalog is
/// what the second alone would have made it.
pub proof fn lemma_parse_twice<S, P, A>(
    state: ShimState<S, P, A>,
    name: Seq<char>,
    first_query: Seq<char>,
    first: Option<Result<PreparedView<S, P>, Seq<char>>>,
    second_query: Seq<char>,
    second: Option<Result<PreparedView<S, P>, Seq<char>>>,
)
    requires
        state.parse(name, first_query, first).1 is Done,
        state.parse(name, first_query, first).0.parse(name, second_query, second).1 is Done,
    ensures
        ({
            let once = state.parse(name, first_query, first).0;
            let twice = once.parse(name, second_query, second).0;
            &&& state.parse(name, second_query, second).1 is Done
            &&& twice.statements == state.parse(name, second_query, second).0.statements
            &&& twice.portals == state.portals
        }),
{
    let once = state.parse(name, first_query, first).0;
    let twice = once.parse(name, second_query, second).0;
    assert(twice.statements =~= state.parse(name, second_query, second).0.statements);
}

/// An empty query runs through the extended protocol as such: `Parse`
/// stores it without asking the planner; `Describe` of the statement then
/// gives an empty parameter description and `NoData`; `Bind` gives a
/// portal that stands for an empty query, again without the planner; and
/// `Execute` of that portal gives `EmptyQueryResponse`.
pub proof fn lemma_empty_query<S, P, A>(
    state: ShimState<S, P, A>,
    name: Seq<char>,
    query: Seq<char>,
    portal: Seq<char>,
    result_formats: Seq<Format>,
)
    requires
        forall|i: int| 0 <= i < query.len() ==> is_white_space(query[i]),
    ensures
        ({
            let parsed = state.parse(name, query, None);
            let described = parsed.0.describe_statement(name);
            let bound = described.bind(portal, name, result_formats, None);
            let executed = bound.0.execute(portal, None);
            &&& parsed.1 is Done
            &&& parsed.0.statements[name] is None
            &&& bound.1 is Done
            &&& bound.0.portals.contains_key(portal)
            &&& bound.0.portals[portal] is None
            &&& executed.1 is Done
            &&& executed.0.wire == state.wire.push(MessageView::ParseComplete).push(
                MessageView::ParameterDescription(Seq::empty()),
            ).push(MessageView::NoData).push(MessageView::BindComplete).push(
                MessageView::EmptyQueryResponse,
            )
        }),
{
    lemma_empty_query_is_all_white_space(query);
}

/// `Execute` leaves both catalogs as they are: a portal that was run up to
/// a row limit is still there for the `Execute` that goes on with it.
pub proof fn lemma_execute_keeps_portal<S, P, A>(
    state: ShimState<S, P, A>,
    portal: Seq<char>,
    execution: Option<ExecutionView>,
)
    ensures
        state.execute(portal, execution).0.portals == state.portals,
        state.execute(portal, execution).0.statements == state.statements,
        state.portals.contains_key(portal) && state.portals[portal] is Some ==> {
            &&& state.execute(portal, None) == (state, Handled::Pending)
            &&& execution matches Some(ran) ==> state.execute(portal, execution).0.wire
                == state.write_execution(ran).wire
        },
{
}

/// Only `Parse`, `Bind` and `Close` change a catalog: the names in it are
/// those that the client has parsed or bound and not closed since.
pub proof fn lemma_catalogs_stay<S, P, A>(
    state: ShimState<S, P, A>,
    name: Seq<char>,
    typ: DescribeType,
    execution: Option<ExecutionView>,
    stage: QueryStageView<P>,
    version: ProtocolVersion,
    parameters: Map<Seq<char>, Seq<char>>,
    password: Seq<char>,
    response: Option<AuthView<A>>,
    message: MessageView,
)
    ensures
        same_catalogs(state, state.write(message)),
        same_catalogs(state, state.describe(typ, name)),
        same_catalogs(state, state.execute(name, execution).0),
        same_catalogs(state, state.sync()),
        same_catalogs(state, state.ready()),
        same_catalogs(state, state.process_query(stage).0),
        same_catalogs(state, state.process_startup_message(version, parameters).0),
        same_catalogs(state, state.authenticate(password, parameters, response).0),
{
}

/// A startup packet whose major version is the SSL request code is
/// answered with the SSL response alone, whatever else it holds, and the
/// connection then waits for the startup packet proper.
pub proof fn lemma_ssl_request_is_declined<S, P, A>(
    state: ShimState<S, P, A>,
    minor: u16,
    parameters: Map<Seq<char>, Seq<char>>,
)
    ensures
        ({
            let answered = state.process_startup_message(
                ProtocolVersion { major: 1234, minor },
                parameters,
            );
            &&& answered.1 is SslRequested
            &&& answered.0.wire == state.wire.push(MessageView::SSLResponse)
        }),
{
}

/// Once the authentication context of a session is set, no step clears
/// it.
pub proof fn lemma_step_keeps_authentication<S, P, A>(
    state: ShimState<S, P, A>,
    event: Event<S, P, A>,
)
    requires
        state.is_authenticated(),
    ensures
        step(state, event).0.is_authenticated(),
{
}

/// No step leaves a well-formed connection ill-formed: the catalogs keep
/// only statements with text parameters and portals whose description is
/// the one that their plan gives, and commands are served only once
/// somebody is authenticated.
pub proof fn lemma_step_keeps_wf<S, P, A>(state: ShimState<S, P, A>, event: Event<S, P, A>)
    requires
        state.wf(),
    ensures
        step(state, event).0.wf(),
{
}

} // verus!
