//! What holds of the exchanges with clients and with the backend.
use crate::capabilities::overriding;
use crate::error::ApiErrorView;
use crate::json::group_object_reads;
use crate::json::JsonView;
use crate::json::NumberView;
use crate::names::lemma_call_names;
use crate::names::lemma_page_names;
use crate::resources::EnvironmentView;
use crate::resources::FunctionToolView;
use crate::resources::PageParamsView;
use crate::resources::SessionView;
use crate::routes::dynamic_tools;
use crate::routes::input_advanced;
use crate::routes::input_begun;
use crate::routes::InputStageView;
use crate::routes::InquiryView;
use crate::routes::interruption;
use crate::routes::ProgressView;
use crate::routes::turn_step;
use crate::routes::turns_inquiry;
use crate::session_laws::law_thread_is_bound_once_named;
use crate::store::StoreView;
use crate::text::blank;
use crate::text::utf8_len;
use vstd::prelude::*;

verus! {

/// Whether a step asks the backend to start a turn in a thread with one text.
pub open spec fn starts_turn(step: ProgressView, thread_id: Seq<char>, text: Seq<char>) -> bool {
    match step {
        ProgressView::Ask { stage, call } => {
            let input = call.params.field("input"@);
            &&& call.method == "turn/start"@
            &&& call.params.field("threadId"@) == JsonView::Text(thread_id)
            &&& input is Array
            &&& input.elements().len() == 1
            &&& input.elements()[0].field("type"@) == JsonView::Text("text"@)
            &&& input.elements()[0].field("text"@) == JsonView::Text(text)
        },
        ProgressView::Done(_) => false,
    }
}

/// A step that starts a turn does so.
proof fn lemma_turn_step(thread_id: Seq<char>, text: Seq<char>)
    ensures
        starts_turn(turn_step(thread_id, text), thread_id, text),
{
    lemma_call_names();
    broadcast use group_object_reads;

}

/// An input begins with a look at the backend's configuration for the place where
/// the session runs. It is refused, with nothing asked of the backend, where it is
/// blank or has more than 8192 bytes, or where there is no such session.
pub proof fn law_input_begins_with_the_configuration(
    store: StoreView,
    id: Seq<char>,
    text: Seq<char>,
)
    ensures
        ({
            let fits = !blank(text) && utf8_len(text) <= 8192;
            match input_begun(store, id, text) {
                Ok(ProgressView::Ask { stage, call }) => {
                    &&& fits
                    &&& store.session_row(id) is Some
                    &&& call.method == "config/read"@
                    &&& call.params.get("cwd"@) == Some(
                        match store.session_row(id)->0.environment {
                            EnvironmentView::Local { cwd } => JsonView::Text(cwd),
                            EnvironmentView::Nowhere => JsonView::Null,
                        },
                    )
                    &&& stage matches InputStageView::Configuring { session, text: said }
                        && session.agent == store.session_row(id)->0.agent && session.thread_id
                        == store.session_row(id)->0.thread_id && session.id
                        == store.session_row(id)->0.id && session.environment
                        == store.session_row(id)->0.environment && said == text
                },
                Ok(_) => false,
                Err(error) => if fits {
                    &&& store.session_row(id) is None
                    &&& error.status == 404
                    &&& error.message == "session not found"@
                } else {
                    &&& error.status == 400
                    &&& error.message == "input must be 1-8192 bytes"@
                },
            }
        }),
{
    broadcast use group_object_reads;

}

/// What is said to a session that has a thread resumes the thread, with the model
/// and the instructions of the session, and then starts a turn of that thread with
/// the very text that was said. The answer to that is what the client gets. The
/// rows may have changed between the steps.
pub proof fn law_resumed_thread_gets_the_text(
    first: StoreView,
    second: StoreView,
    third: StoreView,
    session: SessionView,
    text: Seq<char>,
    configuration: JsonView,
    resumed: JsonView,
    turn: JsonView,
)
    requires
        session.thread_id is Some,
        input_advanced(
            first,
            InputStageView::Configuring { session, text },
            configuration,
        ).1 is Ok,
    ensures
        ({
            let thread_id = session.thread_id->0;
            let (after, asked) = input_advanced(
                first,
                InputStageView::Configuring { session, text },
                configuration,
            );
            let (stage, call) = (asked->Ok_0->stage, asked->Ok_0->call);
            let (later, started) = input_advanced(second, stage, resumed);
            let (last, ended) = input_advanced(third, started->Ok_0->stage, turn);
            &&& after == first
            &&& asked->Ok_0 is Ask
            &&& call.method == "thread/resume"@
            &&& call.params.field("threadId"@) == JsonView::Text(thread_id)
            &&& call.params.field("excludeTurns"@) == JsonView::Bool(true)
            &&& call.params.field("model"@) == JsonView::Text(session.agent.config.model)
            &&& call.params.field("developerInstructions"@) == JsonView::Text(
                session.agent.config.instructions,
            )
            &&& Ok::<JsonView, ApiErrorView>(call.params.field("config"@)) == overriding(
                session.agent.config,
                configuration,
            )
            &&& later == second
            &&& started is Ok
            &&& starts_turn(started->Ok_0, thread_id, text)
            &&& last == third
            &&& ended == Ok::<ProgressView, ApiErrorView>(ProgressView::Done(turn))
        }),
{
    lemma_call_names();
    lemma_turn_step(session.thread_id->0, text);
    broadcast use group_object_reads;

}

/// What a function looks like to the backend, one for one.
proof fn lemma_dynamic_tools(tools: Seq<FunctionToolView>)
    ensures
        dynamic_tools(tools) is Array,
        dynamic_tools(tools).elements().len() == tools.len(),
        forall|i: int|
            0 <= i < tools.len() ==> {
                let tool = #[trigger] dynamic_tools(tools).elements()[i];
                &&& tool.field("type"@) == JsonView::Text("function"@)
                &&& tool.field("name"@) == JsonView::Text(tools[i].name)
                &&& tool.field("description"@) == JsonView::Text(tools[i].description)
                &&& tool.field("inputSchema"@) == tools[i].parameters
            },
    decreases tools.len(),
{
    if tools.len() > 0 {
        let front = tools.drop_last();
        lemma_dynamic_tools(front);
        lemma_call_names();
        broadcast use group_object_reads;

        let all = dynamic_tools(tools).elements();
        assert forall|i: int| 0 <= i < tools.len() implies {
            let tool = #[trigger] all[i];
            &&& tool.field("type"@) == JsonView::Text("function"@)
            &&& tool.field("name"@) == JsonView::Text(tools[i].name)
            &&& tool.field("description"@) == JsonView::Text(tools[i].description)
            &&& tool.field("inputSchema"@) == tools[i].parameters
        } by {
            if i < front.len() {
                assert(all[i] == dynamic_tools(front).elements()[i]);
                assert(front[i] == tools[i]);
            }
        }
    }
}

/// What is said to a session that has no thread starts one as the session is
/// configured: with its model, its instructions, every function of its agent in
/// order, the place where it runs, without approvals and without write access.
pub proof fn law_new_thread_is_started_as_configured(
    store: StoreView,
    session: SessionView,
    text: Seq<char>,
    configuration: JsonView,
)
    requires
        session.thread_id is None,
        input_advanced(
            store,
            InputStageView::Configuring { session, text },
            configuration,
        ).1 is Ok,
    ensures
        ({
            let (after, asked) = input_advanced(
                store,
                InputStageView::Configuring { session, text },
                configuration,
            );
            let call = asked->Ok_0->call;
            let tools = call.params.field("dynamicTools"@);
            let places = call.params.field("environments"@);
            &&& after == store
            &&& asked->Ok_0 is Ask
            &&& asked->Ok_0->stage == (InputStageView::Starting { session_id: session.id, text })
            &&& call.method == "thread/start"@
            &&& call.params.field("model"@) == JsonView::Text(session.agent.config.model)
            &&& call.params.field("developerInstructions"@) == JsonView::Text(
                session.agent.config.instructions,
            )
            &&& Ok::<JsonView, ApiErrorView>(call.params.field("config"@)) == overriding(
                session.agent.config,
                configuration,
            )
            &&& call.params.field("approvalPolicy"@) == JsonView::Text("never"@)
            &&& call.params.field("sandbox"@) == JsonView::Text("read-only"@)
            &&& call.params.field("ephemeral"@) == JsonView::Bool(false)
            &&& tools is Array
            &&& tools.elements().len() == session.agent.config.tools.len()
            &&& forall|i: int|
                0 <= i < tools.elements().len() ==> {
                    let tool = #[trigger] tools.elements()[i];
                    &&& tool.field("type"@) == JsonView::Text("function"@)
                    &&& tool.field("name"@) == JsonView::Text(session.agent.config.tools[i].name)
                    &&& tool.field("description"@) == JsonView::Text(
                        session.agent.config.tools[i].description,
                    )
                    &&& tool.field("inputSchema"@) == session.agent.config.tools[i].parameters
                }
            &&& places is Array
            &&& match session.environment {
                EnvironmentView::Nowhere => places.elements().len() == 0,
                EnvironmentView::Local { cwd } => {
                    &&& places.elements().len() == 1
                    &&& places.elements()[0].field("environmentId"@) == JsonView::Text("local"@)
                    &&& places.elements()[0].field("cwd"@) == JsonView::Text(cwd)
                },
            }
        }),
{
    lemma_dynamic_tools(session.agent.config.tools);
    lemma_call_names();
    broadcast use group_object_reads;

}

/// A thread that was started is named after its session; then the session is bound
/// to it, and a turn of it is started with the very text that was said. The answer
/// to that is what the client gets. Where the backend names no thread, the input
/// fails and nothing is bound.
pub proof fn law_new_thread_gets_the_text(
    first: StoreView,
    second: StoreView,
    third: StoreView,
    session_id: Seq<char>,
    text: Seq<char>,
    started: JsonView,
    named: JsonView,
    turn: JsonView,
)
    ensures
        ({
            let (after, asked) = input_advanced(
                first,
                InputStageView::Starting { session_id, text },
                started,
            );
            &&& after == first
            &&& match started.field("thread"@).field("id"@) {
                JsonView::Text(thread_id) => {
                    let (stage, call) = (asked->Ok_0->stage, asked->Ok_0->call);
                    let (bound, begun) = input_advanced(second, stage, named);
                    let (last, ended) = input_advanced(third, begun->Ok_0->stage, turn);
                    &&& asked is Ok
                    &&& asked->Ok_0 is Ask
                    &&& call.method == "thread/name/set"@
                    &&& call.params.field("threadId"@) == JsonView::Text(thread_id)
                    &&& call.params.field("name"@) == JsonView::Text("API session "@ + session_id)
                    &&& second.session_row(session_id) is Some ==> bound.session_row(session_id)
                        is Some && bound.session_row(session_id)->0.thread_id == Some(thread_id)
                    &&& begun is Ok
                    &&& starts_turn(begun->Ok_0, thread_id, text)
                    &&& last == third
                    &&& ended == Ok::<ProgressView, ApiErrorView>(ProgressView::Done(turn))
                },
                _ => asked matches Err(error) && error.status == 500,
            }
        }),
{
    match started.field("thread"@).field("id"@) {
        JsonView::Text(thread_id) => {
            lemma_turn_step(thread_id, text);
            law_thread_is_bound_once_named(
                second,
                InputStageView::Naming { session_id, thread_id, text },
                named,
                session_id,
            );
        },
        _ => {},
    }
    lemma_call_names();
    broadcast use group_object_reads;

}

/// A turn of a session is interrupted in the thread of the session; a session that
/// has no thread has no turn.
pub proof fn law_interruption_goes_to_the_thread(
    store: StoreView,
    id: Seq<char>,
    turn_id: Seq<char>,
)
    ensures
        match interruption(store, id, turn_id) {
            Ok(call) => {
                &&& store.session_row(id) is Some
                &&& store.session_row(id)->0.thread_id is Some
                &&& call.method == "turn/interrupt"@
                &&& call.params.field("threadId"@) == JsonView::Text(
                    store.session_row(id)->0.thread_id->0,
                )
                &&& call.params.field("turnId"@) == JsonView::Text(turn_id)
            },
            Err(error) => if store.session_row(id) is None {
                error.status == 404 && error.message == "session not found"@
            } else {
                &&& store.session_row(id)->0.thread_id is None
                &&& error.status == 409
                &&& error.message == "session has no turn"@
            },
        },
{
    lemma_call_names();
    broadcast use group_object_reads;

}

/// The turns of a session are asked of its thread, 20 at a time where the client
/// does not say how many, and never none or more than 100; a session without a
/// thread has none.
pub proof fn law_turns_are_asked_of_the_thread(
    store: StoreView,
    id: Seq<char>,
    page: PageParamsView,
)
    ensures
        match turns_inquiry(store, id, page) {
            Ok(InquiryView::Ask(call)) => {
                &&& store.session_row(id) is Some
                &&& store.session_row(id)->0.thread_id is Some
                &&& call.method == "thread/turns/list"@
                &&& call.params.field("threadId"@) == JsonView::Text(
                    store.session_row(id)->0.thread_id->0,
                )
                &&& call.params.get("cursor"@) == Some(
                    match page.cursor {
                        Some(cursor) => JsonView::Text(cursor),
                        None => JsonView::Null,
                    },
                )
                &&& call.params.field("itemsView"@) == JsonView::Text("summary"@)
                &&& call.params.field("limit"@) matches JsonView::Number(
                    NumberView::Unsigned(limit),
                ) && 1 <= limit <= 100 && (page.limit is None ==> limit == 20) && (page.limit
                    is Some && 1 <= page.limit->0 <= 100 ==> limit == page.limit->0) && (
                page.limit is Some && page.limit->0 > 100 ==> limit == 100) && (page.limit
                    == Some(0u32) ==> limit == 1)
            },
            Ok(InquiryView::Known(answer)) => {
                &&& store.session_row(id) is Some
                &&& store.session_row(id)->0.thread_id is None
                &&& answer.field("data"@) is Array
                &&& answer.field("data"@).elements().len() == 0
                &&& answer.get("nextCursor"@) == Some(JsonView::Null)
                &&& answer.get("backwardsCursor"@) == Some(JsonView::Null)
            },
            Err(error) => {
                &&& store.session_row(id) is None
                &&& error.status == 404
                &&& error.message == "session not found"@
            },
        },
{
    lemma_call_names();
    lemma_page_names();
    broadcast use group_object_reads;

}

} // verus!
