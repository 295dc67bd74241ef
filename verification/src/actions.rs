//! Calls of the application's functions: how they are put before the
//! application, answered and withdrawn.
use crate::error::bad_request;
use crate::error::disconnected_error;
use crate::error::disconnected_failure;
use crate::error::failure;
use crate::error::invalid;
use crate::error::missing;
use crate::error::ApiError;
use crate::error::ApiErrorView;
use crate::json::list;
use crate::json::object;
use crate::json::Json;
use crate::json::JsonView;
use crate::model::duplicate_option;
use crate::model::option_view;
use crate::model::outcome;
use crate::model::verdict;
use crate::model::views;
use crate::model::Duplicate;
use crate::outside::compact;
use crate::outside::compact_text;
use crate::projection::event_of_turn;
use crate::projection::turn_event;
use crate::records::notification as record;
use crate::records::notified;
use crate::records::runs_in;
use crate::records::session_status;
use crate::resources::FunctionTool;
use crate::resources::FunctionToolView;
use crate::resources::RequiredAction;
use crate::resources::RequiredActionView;
use crate::resources::ToolResult;
use crate::resources::ToolResultView;
use crate::store::status_word;
use crate::store::CallStatus;
use crate::store::Change;
use crate::store::ChangeView;
use crate::store::RecordKind;
use crate::store::RecordView;
use crate::store::SessionRow;
use crate::store::SessionRowView;
use crate::store::Store;
use crate::store::StoreView;
use crate::store::ToolCall;
use crate::store::ToolCallView;
use crate::sweep::sweep;
use crate::sweep::sweep_effects;
use crate::sweep::swept;
use crate::sweep::Rule;
use crate::text::byte_len;
use crate::text::joined;
use crate::text::same;
use crate::text::utf8_len;
use vstd::prelude::*;

verus! {

/// The most calls of a session that may wait for the application at once.
pub const MAX_PENDING_CALLS: usize = 32;

/// The most bytes that the arguments of a call may take.
pub const MAX_ARGUMENT_BYTES: usize = 8192;

/// The most bytes that an answer may take.
pub const MAX_OUTPUT_BYTES: usize = 1024;

/// A call of an application's function as the backend asks for it.
pub struct CallParams {
    pub thread_id: String,
    pub turn_id: String,
    pub call_id: String,
    pub namespace: Option<String>,
    pub tool: String,
    pub arguments: Json,
}

/// What a [`CallParams`] stands for.
pub struct CallParamsView {
    pub thread_id: Seq<char>,
    pub turn_id: Seq<char>,
    pub call_id: Seq<char>,
    pub namespace: Option<Seq<char>>,
    pub tool: Seq<char>,
    pub arguments: JsonView,
}

impl View for CallParams {
    type V = CallParamsView;

    open spec fn view(&self) -> CallParamsView {
        CallParamsView {
            thread_id: self.thread_id@,
            turn_id: self.turn_id@,
            call_id: self.call_id@,
            namespace: option_view(self.namespace),
            tool: self.tool@,
            arguments: self.arguments@,
        }
    }
}

impl Duplicate for CallParams {
    fn duplicate(&self) -> (copy: Self) {
        CallParams {
            thread_id: self.thread_id.clone(),
            turn_id: self.turn_id.clone(),
            call_id: self.call_id.clone(),
            namespace: duplicate_option(&self.namespace),
            tool: self.tool.clone(),
            arguments: self.arguments.duplicate(),
        }
    }
}

/// Why a call is not put before the application.
#[derive(Clone, Copy, Debug, PartialEq, Eq, Structural)]
pub enum Refusal {
    /// No session runs in the thread.
    UnknownThread,
    /// The session's agent has no such function.
    UnregisteredFunction,
    /// Too many calls wait, or the arguments are too large.
    TooManyOrOversized,
    /// The call was put before the application already.
    AlreadyRegistered,
    /// The public record of the session could not be kept.
    NotRecorded,
}

/// The session that runs in a thread of the backend.
pub open spec fn session_of_thread(sessions: Seq<SessionRowView>, thread_id: Seq<char>) -> Option<
    Seq<char>,
>
    decreases sessions.len(),
{
    if sessions.len() == 0 {
        None
    } else {
        match session_of_thread(sessions.drop_last(), thread_id) {
            Some(id) => Some(id),
            None => if runs_in(sessions.last(), thread_id) {
                Some(sessions.last().id)
            } else {
                None
            },
        }
    }
}

/// Whether an agent offers a function.
pub open spec fn offers(tools: Seq<FunctionToolView>, name: Seq<char>) -> bool {
    exists|i: int| 0 <= i < tools.len() && (#[trigger] tools[i]).name == name
}

/// A call as the plain routes show it.
pub open spec fn action_document(action: RequiredActionView) -> JsonView {
    object().entry("turnId"@, JsonView::Text(action.turn_id)).entry(
        "callId"@,
        JsonView::Text(action.call_id),
    ).entry("name"@, JsonView::Text(action.name)).entry("arguments"@, action.arguments)
}

/// What the application is to do about a call.
pub open spec fn required_action(call: CallParamsView) -> RequiredActionView {
    RequiredActionView {
        turn_id: call.turn_id,
        call_id: call.call_id,
        name: call.tool,
        arguments: call.arguments,
    }
}

/// The event that puts a call before the application.
pub open spec fn action_event(session_id: Seq<char>, call: CallParamsView) -> JsonView {
    object().entry("method"@, JsonView::Text("session.requires_action"@)).entry(
        "params"@,
        object().entry("threadId"@, JsonView::Text(call.thread_id)).entry(
            "sessionId"@,
            JsonView::Text(session_id),
        ).entry("action"@, action_document(required_action(call))),
    )
}

/// Why a call is not put before the application of a session, if it is not.
pub open spec fn refusal(
    store: StoreView,
    session_id: Seq<char>,
    call: CallParamsView,
    size: nat,
) -> Option<Refusal> {
    match store.session(session_id) {
        None => Some(Refusal::UnknownThread),
        Some(session) => if call.namespace is Some || !offers(
            session.agent.config.tools,
            call.tool,
        ) {
            Some(Refusal::UnregisteredFunction)
        } else if session.required_actions.len() >= MAX_PENDING_CALLS || size
            > MAX_ARGUMENT_BYTES {
            Some(Refusal::TooManyOrOversized)
        } else if store.call(session_id, call.turn_id, call.call_id) is Some {
            Some(Refusal::AlreadyRegistered)
        } else {
            None
        },
    }
}

/// The store after the backend has asked for a call whose arguments take `size`
/// bytes. The call is saved before the application is told of it.
pub open spec fn registered(
    store: StoreView,
    request: Seq<char>,
    call: CallParamsView,
    size: nat,
    now: u64,
) -> (StoreView, Result<(), Refusal>) {
    match session_of_thread(store.sessions, call.thread_id) {
        None => (store, Err(Refusal::UnknownThread)),
        Some(session_id) => match refusal(store, session_id, call, size) {
            Some(refusal) => (store, Err(refusal)),
            None => {
                let saved = store.saved(
                    ChangeView::Call(
                        ToolCallView {
                            session_id,
                            turn_id: call.turn_id,
                            call_id: call.call_id,
                            request_id: request,
                            action: required_action(call),
                            status: CallStatus::Pending,
                            result: None,
                        },
                    ),
                );
                let event = action_event(session_id, call);
                let told = notified(saved, event, now);
                if told.1 is Err {
                    (told.0, Err(Refusal::NotRecorded))
                } else {
                    (told.0.notified(event), Ok(()))
                }
            },
        },
    }
}

/// The session that runs in a thread of the backend.
fn find_session(sessions: &Vec<SessionRow>, thread_id: &str) -> (id: Option<String>)
    ensures
        option_view(id) == session_of_thread(views(sessions@), thread_id@),
{
    let ghost model = views(sessions@);
    let mut i: usize = 0;
    assert(model.take(0) =~= Seq::<SessionRowView>::empty());
    while i < sessions.len()
        invariant
            i <= sessions@.len(),
            model == views(sessions@),
            session_of_thread(model.take(i as int), thread_id@) is None,
        decreases sessions@.len() - i,
    {
        let row = &sessions[i];
        proof {
            assert(model.take(i + 1).drop_last() =~= model.take(i as int));
            assert(model.take(i + 1).last() == row@);
        }
        let runs = match &row.thread_id {
            Some(thread) => same(thread.as_str(), thread_id),
            None => false,
        };
        if runs {
            proof {
                lemma_session_of_thread(model, thread_id@, i + 1);
            }
            return Some(row.id.clone());
        }
        i += 1;
    }
    assert(model.take(i as int) =~= model);
    None
}

/// A session that is found among the first rows is found among all.
proof fn lemma_session_of_thread(sessions: Seq<SessionRowView>, thread_id: Seq<char>, n: int)
    requires
        0 <= n <= sessions.len(),
        session_of_thread(sessions.take(n), thread_id) is Some,
    ensures
        session_of_thread(sessions, thread_id) == session_of_thread(sessions.take(n), thread_id),
    decreases sessions.len(),
{
    if n == sessions.len() {
        assert(sessions.take(n) =~= sessions);
    } else {
        assert(sessions.drop_last().take(n) =~= sessions.take(n));
        lemma_session_of_thread(sessions.drop_last(), thread_id, n);
    }
}

/// Whether an agent offers a function.
fn has_function(tools: &Vec<FunctionTool>, name: &str) -> (result: bool)
    ensures
        result == offers(views(tools@), name@),
{
    let ghost model = views(tools@);
    let mut i: usize = 0;
    while i < tools.len()
        invariant
            i <= tools@.len(),
            model == views(tools@),
            forall|j: int| 0 <= j < i ==> (#[trigger] model[j]).name != name@,
        decreases tools@.len() - i,
    {
        assert(model[i as int] == tools@[i as int]@);
        if same(tools[i].name.as_str(), name) {
            return true;
        }
        i += 1;
    }
    false
}

/// The event that puts a call before the application.
fn event_of_action(session_id: &str, call: &CallParams) -> (json: Json)
    ensures
        json@ == action_event(session_id@, call@),
{
    let action = Json::object()
        .entry("turnId", Json::string(call.turn_id.as_str()))
        .entry("callId", Json::string(call.call_id.as_str()))
        .entry("name", Json::string(call.tool.as_str()))
        .entry("arguments", call.arguments.copy());
    let params = Json::object()
        .entry("threadId", Json::string(call.thread_id.as_str()))
        .entry("sessionId", Json::string(session_id))
        .entry("action", action);
    Json::object().entry("method", Json::string("session.requires_action")).entry("params", params)
}

/// Put a call whose arguments take `size` bytes before the application.
/// `request` is the backend's request for an answer, as JSON text.
pub fn register_sized(store: &mut Store, request: &str, call: &CallParams, size: usize, now: u64) -> (result:
    Result<(), Refusal>)
    ensures
        (final(store)@, result) == registered(
            old(store)@,
            request@,
            call@,
            size as nat,
            now,
        ),
{
    let session_id = match find_session(&store.sessions, call.thread_id.as_str()) {
        None => {
            return Err(Refusal::UnknownThread);
        },
        Some(session_id) => session_id,
    };
    let session = match store.session(session_id.as_str()) {
        None => {
            return Err(Refusal::UnknownThread);
        },
        Some(session) => session,
    };
    assert(session@.required_actions.len() == session.required_actions@.len());
    if call.namespace.is_some() || !has_function(&session.agent.config.tools, call.tool.as_str()) {
        return Err(Refusal::UnregisteredFunction);
    }
    if session.required_actions.len() >= MAX_PENDING_CALLS || size > MAX_ARGUMENT_BYTES {
        return Err(Refusal::TooManyOrOversized);
    }
    if store.call(session_id.as_str(), call.turn_id.as_str(), call.call_id.as_str()).is_some() {
        return Err(Refusal::AlreadyRegistered);
    }
    store.save(
        Change::Call(
            ToolCall {
                session_id: session_id.clone(),
                turn_id: call.turn_id.clone(),
                call_id: call.call_id.clone(),
                request_id: request.to_owned(),
                action: RequiredAction {
                    turn_id: call.turn_id.clone(),
                    call_id: call.call_id.clone(),
                    name: call.tool.clone(),
                    arguments: call.arguments.copy(),
                },
                status: CallStatus::Pending,
                result: None,
            },
        ),
    );
    let event = event_of_action(session_id.as_str(), call);
    match record(store, &event, now) {
        Err(_) => Err(Refusal::NotRecorded),
        Ok(_) => {
            store.notify(event);
            Ok(())
        },
    }
}

/// Put a call before the application, or say why not. `request_id` is the
/// backend's request for an answer.
pub fn register(store: &mut Store, request_id: &Json, call: &CallParams, now: u64) -> (result:
    Result<(), Refusal>)
    ensures
        (final(store)@, result) == registered(
            old(store)@,
            compact_text(request_id@),
            call@,
            utf8_len(compact_text(call@.arguments)),
            now,
        ),
{
    let request = compact(request_id);
    let arguments = compact(&call.arguments);
    register_sized(store, request.as_str(), call, byte_len(arguments.as_str()), now)
}

/// The text by which an answer is kept and compared.
pub open spec fn result_text(result: ToolResultView) -> Seq<char> {
    "{\"callId\":"@ + compact_text(JsonView::Text(result.call_id)) + ",\"success\":"@ + (
    if result.success {
        "true"@
    } else {
        "false"@
    }) + ",\"output\":"@ + compact_text(result.output) + "}"@
}

/// The text of an answer as the model is given it: a text as it is, any other
/// document as JSON.
pub open spec fn output_text(output: JsonView) -> Seq<char> {
    match output.text() {
        Some(text) => text,
        None => compact_text(output),
    }
}

/// The receipt for an answer.
pub open spec fn receipt(turn_id: Seq<char>, call_id: Seq<char>) -> JsonView {
    object().entry("turnId"@, JsonView::Text(turn_id)).entry(
        "callId"@,
        JsonView::Text(call_id),
    ).entry("status"@, JsonView::Text("submitted"@))
}

/// What the backend is given as the answer to a call.
pub open spec fn answer(success: bool, text: Seq<char>) -> JsonView {
    object().entry("success"@, JsonView::Bool(success)).entry(
        "contentItems"@,
        list().item(
            object().entry("type"@, JsonView::Text("inputText"@)).entry(
                "text"@,
                JsonView::Text(text),
            ),
        ),
    )
}

/// What becomes of an answer.
pub enum Delivery {
    /// It is not taken.
    Refused(ApiError),
    /// It was handed to the backend before.
    Known(Json),
    /// It is to be handed to the backend.
    Forward {
        /// The backend's request, as JSON text.
        request_id: String,
        /// What the backend is given.
        response: Json,
    },
}

/// What a [`Delivery`] stands for.
pub enum DeliveryView {
    Refused(ApiErrorView),
    Known(JsonView),
    Forward { request_id: Seq<char>, response: JsonView },
}

impl View for Delivery {
    type V = DeliveryView;

    open spec fn view(&self) -> DeliveryView {
        match self {
            Delivery::Refused(error) => DeliveryView::Refused(error@),
            Delivery::Known(receipt) => DeliveryView::Known(receipt@),
            Delivery::Forward { request_id, response } => DeliveryView::Forward {
                request_id: request_id@,
                response: response@,
            },
        }
    }
}

/// The store after an answer has come in, and what becomes of the answer. Only
/// a pending call takes an answer; the same answer to a call that was answered
/// gets its receipt again.
pub open spec fn delivery_begun(
    store: StoreView,
    session_id: Seq<char>,
    turn_id: Seq<char>,
    call_id: Seq<char>,
    success: bool,
    kept: Seq<char>,
    text: Seq<char>,
) -> (StoreView, DeliveryView) {
    match store.call(session_id, turn_id, call_id) {
        None => (store, DeliveryView::Refused(missing("tool call not found"@))),
        Some(call) => if call.status is Submitted && call.result == Some(kept) {
            (store, DeliveryView::Known(receipt(turn_id, call_id)))
        } else if call.status !is Pending {
            (
                store,
                DeliveryView::Refused(
                    failure(
                        409,
                        "tool call is "@ + status_word(call.status)
                            + "; result cannot be submitted"@,
                    ),
                ),
            )
        } else {
            (
                store.saved(
                    ChangeView::Call(
                        ToolCallView {
                            status: CallStatus::Submitting,
                            result: Some(kept),
                            ..call
                        },
                    ),
                ),
                DeliveryView::Forward {
                    request_id: call.request_id,
                    response: answer(success, text),
                },
            )
        },
    }
}

/// The answer to a client whose result may or may not have reached the backend.
pub open spec fn delivery_unknown() -> ApiErrorView {
    failure(503, "tool result delivery unknown"@)
}

/// The store after the backend has taken an answer, and no call of the public
/// session waits any more: its turn goes on.
pub open spec fn resumed(
    store: StoreView,
    session_id: Seq<char>,
    turn_id: Seq<char>,
    now: u64,
) -> (StoreView, Result<(), ApiErrorView>) {
    let waiting = match store.record(session_id, RecordKind::Turn, turn_id) {
        Some(row) if row.data.field("status"@) == JsonView::Text("waiting"@) => Some(
            RecordView {
                data: row.data.with("status"@, JsonView::Text("in_progress"@)),
                ..row
            },
        ),
        _ => None,
    };
    let saved = match waiting {
        Some(row) => store.saved(ChangeView::Record(row)),
        None => store,
    };
    let told = saved.with_session_status(session_id, "in_progress"@, None, now);
    match waiting {
        Some(row) if told.1 is Ok => (
            told.0.published(turn_event("in_progress"@, session_id, turn_id, row.data)),
            Ok(()),
        ),
        _ => told,
    }
}

/// The store after the backend has taken an answer or not, and what the client
/// is told.
pub open spec fn delivery_finished(
    store: StoreView,
    session_id: Seq<char>,
    turn_id: Seq<char>,
    call_id: Seq<char>,
    delivered: bool,
    now: u64,
) -> (StoreView, Result<JsonView, ApiErrorView>) {
    let status = if delivered {
        CallStatus::Submitted
    } else {
        CallStatus::Unavailable
    };
    let saved = match store.call(session_id, turn_id, call_id) {
        Some(call) => store.saved(ChangeView::Call(ToolCallView { status, ..call })),
        None => store,
    };
    if !delivered {
        (saved, Err(delivery_unknown()))
    } else {
        let settled = saved.public_session(session_id) is Some && match saved.session(session_id) {
            Some(session) => session.required_actions.len() == 0,
            None => false,
        };
        if settled {
            match resumed(saved, session_id, turn_id, now) {
                (after, Ok(_)) => (after, Ok(receipt(turn_id, call_id))),
                (after, Err(e)) => (after, Err(e)),
            }
        } else {
            (saved, Ok(receipt(turn_id, call_id)))
        }
    }
}

/// Whether an answer of `size` bytes may be handed in, and why not.
pub open spec fn submission(size: nat, connected: bool) -> Result<(), ApiErrorView> {
    if size > MAX_OUTPUT_BYTES {
        Err(bad_request("tool output must be at most 1024 bytes"@))
    } else if !connected {
        Err(disconnected_failure())
    } else {
        Ok(())
    }
}

/// Whether an answer of `size` bytes may be handed in.
pub fn submit_sized(size: usize, connected: bool) -> (result: Result<(), ApiError>)
    ensures
        verdict(result) == submission(size as nat, connected),
{
    if size > MAX_OUTPUT_BYTES {
        Err(invalid("tool output must be at most 1024 bytes"))
    } else if !connected {
        Err(disconnected_error())
    } else {
        Ok(())
    }
}

/// Whether an answer may be handed in: it must be small enough, and a backend
/// must be connected.
pub fn submit(result: &ToolResult, connected: bool) -> (verdict: Result<(), ApiError>)
    ensures
        crate::model::verdict(verdict) == submission(
            utf8_len(compact_text(result@.output)),
            connected,
        ),
{
    let output = compact(&result.output);
    submit_sized(byte_len(output.as_str()), connected)
}

/// The answer to a client whose result may or may not have reached the backend.
pub fn unknown_delivery() -> (error: ApiError)
    ensures
        error@ == delivery_unknown(),
{
    ApiError::new(503, "tool result delivery unknown")
}

/// The receipt for an answer.
fn receipt_document(turn_id: &str, call_id: &str) -> (json: Json)
    ensures
        json@ == receipt(turn_id@, call_id@),
{
    Json::object()
        .entry("turnId", Json::string(turn_id))
        .entry("callId", Json::string(call_id))
        .entry("status", Json::string("submitted"))
}

/// Take an answer in. `kept` is the text by which it is kept, `text` what the
/// model is given.
pub fn begin_delivery_as(
    store: &mut Store,
    session_id: &str,
    turn_id: &str,
    result: &ToolResult,
    kept: &str,
    text: &str,
) -> (delivery: Delivery)
    ensures
        (final(store)@, delivery@) == delivery_begun(
            old(store)@,
            session_id@,
            turn_id@,
            result@.call_id,
            result@.success,
            kept@,
            text@,
        ),
{
    let call_id = result.call_id.as_str();
    let call = match store.call(session_id, turn_id, call_id) {
        None => {
            return Delivery::Refused(ApiError::new(404, "tool call not found"));
        },
        Some(call) => call,
    };
    let repeated = call.status == CallStatus::Submitted && match &call.result {
        Some(previous) => same(previous.as_str(), kept),
        None => false,
    };
    if repeated {
        return Delivery::Known(receipt_document(turn_id, call_id));
    }
    if call.status != CallStatus::Pending {
        let start = joined("tool call is ", call.status.word());
        let message = joined(start.as_str(), "; result cannot be submitted");
        return Delivery::Refused(ApiError::new(409, message.as_str()));
    }
    let request_id = call.request_id.clone();
    let mut call = call;
    call.status = CallStatus::Submitting;
    call.result = Some(kept.to_owned());
    store.save(Change::Call(call));
    let content = Json::object().entry("type", Json::string("inputText")).entry(
        "text",
        Json::string(text),
    );
    let response = Json::object().entry("success", Json::Bool(result.success)).entry(
        "contentItems",
        Json::list().item(content),
    );
    Delivery::Forward { request_id, response }
}

/// The text by which an answer is kept.
fn text_of_result(result: &ToolResult) -> (text: String)
    ensures
        text@ == result_text(result@),
{
    let call_id = compact(&Json::Text(result.call_id.clone()));
    let output = compact(&result.output);
    let success = if result.success {
        "true"
    } else {
        "false"
    };
    let mut text = "{\"callId\":".to_owned();
    text.append(call_id.as_str());
    text.append(",\"success\":");
    text.append(success);
    text.append(",\"output\":");
    text.append(output.as_str());
    text.append("}");
    text
}

/// Take an answer in.
pub fn begin_delivery(store: &mut Store, session_id: &str, turn_id: &str, result: &ToolResult) -> (delivery:
    Delivery)
    ensures
        (final(store)@, delivery@) == delivery_begun(
            old(store)@,
            session_id@,
            turn_id@,
            result@.call_id,
            result@.success,
            result_text(result@),
            output_text(result@.output),
        ),
{
    let kept = text_of_result(result);
    let text = match result.output.as_text() {
        Some(text) => text.clone(),
        None => compact(&result.output),
    };
    begin_delivery_as(store, session_id, turn_id, result, kept.as_str(), text.as_str())
}

/// Let the turn of a public session go on.
fn resume(store: &mut Store, session_id: &str, turn_id: &str, now: u64) -> (result: Result<
    (),
    ApiError,
>)
    ensures
        (final(store)@, verdict(result)) == resumed(old(store)@, session_id@, turn_id@, now),
{
    let waiting = match store.record(session_id, RecordKind::Turn, turn_id) {
        Some(row) => if row.data.field("status").is_text("waiting") {
            let mut row = row;
            row.data.set("status", Json::string("in_progress"));
            let turn = row.data.copy();
            store.save(Change::Record(row));
            Some(turn)
        } else {
            None
        },
        None => None,
    };
    match session_status(store, session_id, "in_progress", None, now) {
        Err(e) => Err(e),
        Ok(_) => {
            match waiting {
                Some(turn) => {
                    store.publish(event_of_turn("in_progress", session_id, turn_id, &turn));
                },
                None => {},
            }
            Ok(())
        },
    }
}

/// Record whether the backend has taken an answer.
pub fn finish_delivery(
    store: &mut Store,
    session_id: &str,
    turn_id: &str,
    call_id: &str,
    delivered: bool,
    now: u64,
) -> (result: Result<Json, ApiError>)
    ensures
        (final(store)@, outcome(result)) == delivery_finished(
            old(store)@,
            session_id@,
            turn_id@,
            call_id@,
            delivered,
            now,
        ),
{
    match store.call(session_id, turn_id, call_id) {
        Some(call) => {
            let mut call = call;
            call.status = if delivered {
                CallStatus::Submitted
            } else {
                CallStatus::Unavailable
            };
            store.save(Change::Call(call));
        },
        None => {},
    }
    if !delivered {
        return Err(unknown_delivery());
    }
    let public = store.public_session(session_id).is_some();
    let settled = public && match store.session(session_id) {
        Some(session) => {
            assert(session@.required_actions.len() == session.required_actions@.len());
            session.required_actions.len() == 0
        },
        None => false,
    };
    if settled {
        match resume(store, session_id, turn_id, now) {
            Err(e) => {
                return Err(e);
            },
            Ok(_) => {},
        }
    }
    Ok(receipt_document(turn_id, call_id))
}

/// What withdraws calls that wait for the application.
pub enum Withdrawal {
    /// The backend has resolved the request with this JSON text.
    Request(String),
    /// The turn is over.
    Turn(String),
}

/// What a [`Withdrawal`] stands for.
pub enum WithdrawalView {
    Request(Seq<char>),
    Turn(Seq<char>),
}

impl View for Withdrawal {
    type V = WithdrawalView;

    open spec fn view(&self) -> WithdrawalView {
        match self {
            Withdrawal::Request(text) => WithdrawalView::Request(text@),
            Withdrawal::Turn(id) => WithdrawalView::Turn(id@),
        }
    }
}

/// Whether a session runs in a thread.
pub open spec fn in_thread(
    sessions: Seq<SessionRowView>,
    session_id: Seq<char>,
    thread_id: Seq<char>,
) -> bool {
    exists|i: int|
        0 <= i < sessions.len() && (#[trigger] sessions[i]).id == session_id && runs_in(
            sessions[i],
            thread_id,
        )
}

/// Whether a call is withdrawn.
pub open spec fn is_withdrawn(
    sessions: Seq<SessionRowView>,
    call: ToolCallView,
    thread_id: Seq<char>,
    by: WithdrawalView,
) -> bool {
    &&& call.status is Pending
    &&& match by {
        WithdrawalView::Request(text) => call.request_id == text,
        WithdrawalView::Turn(id) => call.turn_id == id,
    }
    &&& in_thread(sessions, call.session_id, thread_id)
}

/// What a withdrawal makes of a call: a pending call that it names is cancelled.
pub open spec fn withdrawal_rule(
    sessions: Seq<SessionRowView>,
    thread_id: Seq<char>,
    by: WithdrawalView,
) -> spec_fn(ToolCallView) -> Option<ToolCallView> {
    |call: ToolCallView|
        if is_withdrawn(sessions, call, thread_id, by) {
            Some(ToolCallView { status: CallStatus::Cancelled, ..call })
        } else {
            None
        }
}

/// The store after a withdrawal.
pub open spec fn withdrawn(store: StoreView, thread_id: Seq<char>, by: WithdrawalView) -> StoreView {
    let rule = withdrawal_rule(store.sessions, thread_id, by);
    StoreView {
        calls: swept(store.calls, rule),
        outbox: store.outbox + sweep_effects::<ToolCall>(store.calls, rule),
        ..store
    }
}

/// What the backend's message withdraws, and in which thread; `request` is the
/// JSON text of the request that it names.
pub open spec fn withdrawal(value: JsonView, request: Seq<char>) -> Option<
    (Seq<char>, WithdrawalView),
> {
    let params = value.field("params"@);
    match params.field("threadId"@).text() {
        None => None,
        Some(thread_id) => if value.field("method"@) == JsonView::Text(
            "serverRequest/resolved"@,
        ) {
            Some((thread_id, WithdrawalView::Request(request)))
        } else if value.field("method"@) == JsonView::Text("turn/completed"@) {
            match params.field("turn"@).field("id"@).text() {
                Some(id) => Some((thread_id, WithdrawalView::Turn(id))),
                None => None,
            }
        } else {
            None
        },
    }
}

/// The store after the backend's message has withdrawn what it withdraws.
pub open spec fn withdrawn_by(store: StoreView, value: JsonView, request: Seq<char>) -> StoreView {
    match withdrawal(value, request) {
        Some((thread_id, by)) => withdrawn(store, thread_id, by),
        None => store,
    }
}

/// Whether a session runs in a thread.
fn runs_in_thread(sessions: &Vec<SessionRow>, session_id: &str, thread_id: &str) -> (result: bool)
    ensures
        result == in_thread(views(sessions@), session_id@, thread_id@),
{
    let ghost model = views(sessions@);
    let mut i: usize = 0;
    while i < sessions.len()
        invariant
            i <= sessions@.len(),
            model == views(sessions@),
            forall|j: int|
                0 <= j < i ==> !((#[trigger] model[j]).id == session_id@ && runs_in(
                    model[j],
                    thread_id@,
                )),
        decreases sessions@.len() - i,
    {
        let row = &sessions[i];
        assert(model[i as int] == row@);
        let runs = match &row.thread_id {
            Some(thread) => same(thread.as_str(), thread_id),
            None => false,
        };
        if runs && same(row.id.as_str(), session_id) {
            return true;
        }
        i += 1;
    }
    false
}

/// A withdrawal in a thread.
struct Withdrawing<'a> {
    sessions: &'a Vec<SessionRow>,
    thread_id: &'a str,
    by: &'a Withdrawal,
}

impl<'a> Rule<ToolCall> for Withdrawing<'a> {
    closed spec fn rule(&self) -> spec_fn(ToolCallView) -> Option<ToolCallView> {
        withdrawal_rule(views(self.sessions@), self.thread_id@, self.by@)
    }

    fn apply(&self, call: &ToolCall) -> (outcome: Option<ToolCall>) {
        let named = match self.by {
            Withdrawal::Request(text) => same(call.request_id.as_str(), text.as_str()),
            Withdrawal::Turn(id) => same(call.turn_id.as_str(), id.as_str()),
        };
        if named && call.status == CallStatus::Pending && runs_in_thread(
            self.sessions,
            call.session_id.as_str(),
            self.thread_id,
        ) {
            let mut call = call.duplicate();
            call.status = CallStatus::Cancelled;
            Some(call)
        } else {
            None
        }
    }
}

/// Withdraw calls that wait for the application.
fn withdraw(store: &mut Store, thread_id: &str, by: &Withdrawal)
    ensures
        final(store)@ == withdrawn(old(store)@, thread_id@, by@),
{
    let withdrawing = Withdrawing { sessions: &store.sessions, thread_id, by };
    sweep(&mut store.calls, &mut store.outbox, &withdrawing);
}

/// Withdraw the calls that the backend's message withdraws; `request` is the
/// JSON text of the request that it names.
pub fn notification_naming(store: &mut Store, value: &Json, request: &str)
    ensures
        final(store)@ == withdrawn_by(old(store)@, value@, request@),
{
    let params = value.field("params");
    let method = value.field("method");
    let thread_id = match params.field("threadId").as_text() {
        None => {
            return ;
        },
        Some(thread_id) => thread_id.as_str(),
    };
    if method.is_text("serverRequest/resolved") {
        withdraw(store, thread_id, &Withdrawal::Request(request.to_owned()));
    } else if method.is_text("turn/completed") {
        match params.field("turn").field("id").as_text() {
            Some(id) => withdraw(store, thread_id, &Withdrawal::Turn(id.clone())),
            None => {},
        }
    }
}

/// The JSON text of the request that the backend's message names.
pub fn named_request(value: &Json) -> (request: String)
    ensures
        request@ == compact_text(value@.field("params"@).field("requestId"@)),
{
    compact(value.field("params").field("requestId"))
}

/// Withdraw the calls that the backend's message withdraws.
pub fn notification(store: &mut Store, value: &Json)
    ensures
        final(store)@ == withdrawn_by(
            old(store)@,
            value@,
            compact_text(value@.field("params"@).field("requestId"@)),
        ),
{
    let request = named_request(value);
    notification_naming(store, value, request.as_str());
}

} // verus!
