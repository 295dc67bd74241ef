//! What holds of how requests are let in and answered, of what is exchanged with the
//! backend, and of what its history tells about turns.
use crate::actions::CallParamsView;
use crate::actions::registered;
use crate::actions::withdrawn_by;
use crate::backend::MIN_TOKEN_BYTES;
use crate::backend::pumped;
use crate::backend::PumpEventView;
use crate::backend::PumpStep;
use crate::backend::REJECTION_CODE;
use crate::backend::reply_outcome;
use crate::backend::ReplyView;
use crate::backend::request_document;
use crate::backend::SlotView;
use crate::backend::well_ended;
use crate::error::ApiErrorView;
use crate::json::group_object_reads;
use crate::json::JsonView;
use crate::names::lemma_call_names;
use crate::names::lemma_event_fields;
use crate::names::lemma_failure_names;
use crate::names::lemma_turn_names;
use crate::names::lemma_turn_words;
use crate::outside::compact_text;
use crate::reconcile::call_recovery;
use crate::reconcile::history_inquiry;
use crate::reconcile::left_open;
use crate::reconcile::provisional;
use crate::reconcile::reconciled;
use crate::reconcile::turn_in;
use crate::reconcile::turn_recovery;
use crate::reconcile::uncertain;
use crate::records::notified;
use crate::records::stamped;
use crate::resources::AgentView;
use crate::resources::EnvironmentView;
use crate::resources::SessionCreateParamsView;
use crate::routes::agent_read;
use crate::routes::authorization;
use crate::routes::compatible_error;
use crate::routes::error_message;
use crate::routes::error_response;
use crate::routes::event_step;
use crate::routes::is_reshaped;
use crate::routes::lag_event;
use crate::routes::listening;
use crate::routes::ResponseView;
use crate::routes::session_created;
use crate::routes::session_read;
use crate::session_laws::law_session_is_read_back;
use crate::sessions::StreamStepView;
use crate::store::CallStatus;
use crate::store::EffectView;
use crate::store::StoreView;
use crate::store::ToolCallView;
use crate::sweep::swept;
use crate::text::text_before;
use crate::text::utf8_len;
use vstd::prelude::*;

verus! {

/// The names of a request's fields differ.
proof fn lemma_request_names()
    ensures
        "id"@ != "method"@,
        "id"@ != "params"@,
        "method"@ != "params"@,
{
    reveal_strlit("id");
    reveal_strlit("method");
    reveal_strlit("params");
    assert("id"@.len() == 2);
    assert("method"@.len() == 6);
    assert("params"@.len() == 6);
    assert("method"@[0] != "params"@[0]);
}

/// Whether a response tells of an error in the compatible form.
pub open spec fn tells_compatibly(response: ResponseView, status: u16, message: Seq<char>) -> bool {
    let error = response.body.field("error"@);
    &&& response.status == status
    &&& error.field("message"@) == JsonView::Text(message)
    &&& error.field("type"@) == JsonView::Text(
        if 500 <= status < 600 {
            "server_error"@
        } else {
            "invalid_request_error"@
        },
    )
    &&& error.get("param"@) == Some(JsonView::Null)
    &&& error.get("code"@) == Some(JsonView::Null)
}

/// Whether a response tells of an error in the plain form.
pub open spec fn tells_plainly(response: ResponseView, status: u16, message: Seq<char>) -> bool {
    response.status == status && response.body.field("error"@) == JsonView::Text(message)
}

/// An error is told with its status and its message, in the form that was asked for.
pub proof fn law_errors_are_told(error: ApiErrorView, compatible: bool)
    ensures
        if compatible {
            tells_compatibly(error_response(error, compatible), error.status, error.message)
        } else {
            tells_plainly(error_response(error, compatible), error.status, error.message)
        },
{
    lemma_failure_names();
    broadcast use group_object_reads;

}

/// A request is let in if and only if it carries the token; any other is told so, in
/// the compatible form on the compatible routes and where that form is asked for.
pub proof fn law_only_the_token_lets_in(
    path: Seq<char>,
    beta: Option<Seq<char>>,
    header: Option<Seq<char>>,
    token: Seq<char>,
)
    ensures
        ({
            let prefix = "/v1/agents/sessions"@;
            let refused = authorization(path, beta, header, token);
            let compatible = beta == Some("agents=v1"@) || path.len() >= prefix.len() && path.take(
                prefix.len() as int,
            ) == prefix;
            &&& refused is None <==> header is Some && header->0 == "Bearer "@ + token
            &&& refused matches Some(response) ==> if compatible {
                tells_compatibly(response, 401, "bearer token required"@)
            } else {
                tells_plainly(response, 401, "bearer token required"@)
            }
        }),
{
    let prefix = "/v1/agents/sessions"@;
    let error = ApiErrorView { status: 401, message: "bearer token required"@ };
    law_errors_are_told(error, true);
    law_errors_are_told(error, false);
    if path.len() >= prefix.len() {
        assert(prefix.is_prefix_of(path) == (prefix =~= path.take(prefix.len() as int)));
    }
}

/// A response is put into the compatible form if and only if that form was asked for
/// and it tells of an error. The message is the one that it told of, or all of its
/// text; what could not be read is told as a bad request, and any other status stays.
pub proof fn law_errors_are_reshaped(
    compatible: bool,
    status: u16,
    document: Option<JsonView>,
    text: Seq<char>,
)
    ensures
        is_reshaped(compatible, status) <==> compatible && 400 <= status < 600,
        ({
            let message = match document {
                Some(json) if json.field("error"@) is Text => json.field("error"@)->Text_0,
                _ => text,
            };
            let response = compatible_error(status, error_message(document, text));
            &&& status == 422 ==> tells_compatibly(response, 400, message)
            &&& status != 422 ==> tells_compatibly(response, status, message)
        }),
{
    let message = error_message(document, text);
    law_errors_are_told(ApiErrorView { status, message }, true);
    law_errors_are_told(ApiErrorView { status: 400, message }, true);
}

/// An agent is read as it was saved, and one that was not saved is not found.
pub proof fn law_agents_are_read_as_saved(store: StoreView, id: Seq<char>)
    ensures
        match agent_read(store, id) {
            Ok(agent) => store.agent(id) == Some(agent),
            Err(error) => store.agent(id) is None && error.status == 404 && error.message
                == "agent not found"@,
        },
        match session_read(store, id) {
            Ok(session) => store.session(id) == Some(session),
            Err(error) => store.session_row(id) is None && error.status == 404 && error.message
                == "session not found"@,
        },
{
}

/// A session gets the agent that it names, as it is saved then, and runs where it was
/// asked to; it has no thread yet, and nothing is waited for.
pub proof fn law_sessions_get_the_named_agent(
    store: StoreView,
    params: SessionCreateParamsView,
    id: Seq<char>,
)
    requires
        store.well_formed(),
        store.session_row(id) is None,
    ensures
        ({
            let (after, result) = session_created(store, params, id);
            &&& result is Ok <==> store.agent(params.agent_id) is Some
            &&& result matches Ok(session) ==> {
                &&& session.id == id
                &&& session.agent == store.agent(params.agent_id)->0
                &&& session.environment == params.environment
                &&& session.thread_id is None
                &&& session.required_actions.len() == 0
                &&& session.unresolved_actions.len() == 0
                &&& after.session(id) == Some(session)
            }
            &&& result matches Err(error) ==> {
                &&& after == store
                &&& error.status == 404
                &&& error.message == "agent not found"@
            }
        }),
{
    match store.agent(params.agent_id) {
        Some(agent) => {
            law_session_is_read_back(store, id, agent, params.environment, id);
        },
        None => {},
    }
}

/// The events of a session are open to listeners if and only if there is such a
/// session and the backend is there.
pub proof fn law_listeners_need_session_and_backend(
    store: StoreView,
    id: Seq<char>,
    connected: bool,
)
    ensures
        match listening(store, id, connected) {
            Ok(_) => store.session_row(id) is Some && connected,
            Err(error) => if store.session_row(id) is None {
                error.status == 404 && error.message == "session not found"@
            } else {
                !connected && error.status == 503 && error.message == "app-server disconnected"@
            },
        },
{
}

/// Listeners are sent the events of their session's thread, and those that tell of
/// the stream itself, each under its method and as its JSON text; no other is sent.
pub proof fn law_listeners_are_sent_what_concerns_them(
    store: StoreView,
    id: Seq<char>,
    event: JsonView,
)
    ensures
        ({
            let step = event_step(store, id, event);
            let thread = event.field("params"@).field("threadId"@);
            let method = event.field("method"@);
            let prefix = "stream/"@;
            let row = store.session_row(id);
            let mine = thread is Text && row is Some && row->0.thread_id == Some(thread->Text_0);
            let ours = thread !is Text && method is Text && method->Text_0.len() >= 7
                && method->Text_0.take(7) == prefix;
            &&& step is Send <==> mine || ours
            &&& step !is Send ==> step is Skip
            &&& step matches StreamStepView::Send { name, data } ==> {
                &&& data == compact_text(event)
                &&& method is Text ==> name == method->Text_0
                &&& method !is Text ==> name == "event"@
            }
        }),
{
    let method = event.field("method"@);
    reveal_strlit("stream/");
    reveal_strlit("event");
    assert("stream/"@.len() == 7);
    assert("event"@.len() == 5);
    if method is Text && method->Text_0.len() >= 7 {
        assert("stream/"@.is_prefix_of(method->Text_0) == ("stream/"@ =~= method->Text_0.take(7)));
    }
}

/// Those who fall behind are told so, whether they or the service fell behind the
/// backend.
pub proof fn law_lag_is_told(store: StoreView, problem: Seq<char>, skipped: u64, now: u64)
    ensures
        lag_event(problem).field("method"@) == JsonView::Text("stream/lagged"@),
        lag_event(problem).field("error"@) == JsonView::Text(problem),
        ({
            let (after, step) = pumped(store, PumpEventView::Lagged { skipped }, now);
            let event = after.outbox.last()->Notify_0;
            &&& step == PumpStep::Exit { lost: true }
            &&& after.outbox.len() == store.outbox.len() + 1
            &&& after.outbox.last() is Notify
            &&& event.field("method"@) == JsonView::Text("stream/lagged"@)
            &&& event.field("params"@).field("skipped"@).unsigned() == Some(skipped)
            &&& after.rows() == store.rows()
        }),
{
    lemma_event_fields();
    broadcast use group_object_reads;

}

/// A connection that is gone is lost, and one that is stopped is not; neither changes
/// anything by itself. A request that is no call of a function is refused, and so is a
/// call that may not be made, with the code for a method that there is not; a call
/// that is put before the application is not refused.
pub proof fn law_requests_and_ends_are_told_apart(
    store: StoreView,
    request_id: JsonView,
    call: CallParamsView,
    now: u64,
)
    ensures
        pumped(store, PumpEventView::Disconnected, now) == (store, PumpStep::Exit { lost: true }),
        pumped(store, PumpEventView::Stopping, now) == (store, PumpStep::Exit { lost: false }),
        pumped(store, PumpEventView::Request { request_id, call: None }, now) == (
            store,
            PumpStep::Reject,
        ),
        ({
            let put = registered(
                store,
                compact_text(request_id),
                call,
                utf8_len(compact_text(call.arguments)),
                now,
            );
            let (after, step) = pumped(
                store,
                PumpEventView::Request { request_id, call: Some(call) },
                now,
            );
            &&& after == put.0
            &&& put.1 is Ok ==> step is Continue
            &&& put.1 is Err ==> step is Reject
        }),
        REJECTION_CODE == -32601,
{
}

/// A client that cannot be shut down is a failure only where its connection was not
/// lost. A token has at least 32 bytes.
pub proof fn law_only_a_kept_connection_fails_to_end(lost: bool, shut_down: bool)
    ensures
        !well_ended(lost, shut_down) <==> !lost && !shut_down,
        MIN_TOKEN_BYTES == 32,
{
}

/// What the backend tells is recorded, and then passed on as it is; the connection
/// goes on. What cannot be recorded is not passed on, and ends the connection.
pub proof fn law_messages_are_recorded_and_passed_on(store: StoreView, value: JsonView, now: u64)
    ensures
        ({
            let request = compact_text(value.field("params"@).field("requestId"@));
            let (kept, recorded) = notified(withdrawn_by(store, value, request), value, now);
            let (after, step) = pumped(store, PumpEventView::Notification(value), now);
            &&& recorded is Ok ==> {
                &&& step is Continue
                &&& after.outbox.len() == kept.outbox.len() + 1
                &&& after.outbox.last() == EffectView::Notify(value)
            }
            &&& recorded is Err ==> step == PumpStep::Exit { lost: false } && after.outbox
                == kept.outbox
            &&& after.rows() == kept.rows()
        }),
{
}

/// A request to the backend carries its ID, its method and its parameters.
pub proof fn law_requests_carry_what_is_asked(id: Seq<char>, method: Seq<char>, params: JsonView)
    ensures
        ({
            let request = request_document(id, method, params);
            &&& request.field("id"@) == JsonView::Text(id)
            &&& request.field("method"@) == JsonView::Text(method)
            &&& request.field("params"@) == params
        }),
{
    lemma_request_names();
    broadcast use group_object_reads;

}

/// An answer of the backend is handed on as it is; a refusal is told with the
/// backend's words, and a backend that is not there as such.
pub proof fn law_answers_are_handed_on(reply: ReplyView)
    ensures
        match reply_outcome(reply) {
            Ok(answer) => reply == ReplyView::Answered(answer),
            Err(error) => match reply {
                ReplyView::Answered(_) => false,
                ReplyView::Refused(message) => error.status == 502 && error.message == message,
                _ => error.status == 503 && error.message == "app-server disconnected"@,
            },
        },
{
}

/// A connection that is attached has a number that no other had, and takes the
/// requests until it ends.
pub proof fn law_attached_connection_takes_requests(slot: SlotView)
    requires
        slot.well_formed(),
    ensures
        slot.attached().current is Some,
        slot.attached().current->0 == slot.next,
        slot.current is Some ==> slot.attached().current->0 > slot.current->0,
        slot.attached().next > slot.attached().current->0,
        slot.attached().released(slot.next).current is None,
        slot.attached().released(slot.next).next == slot.attached().next,
{
}

/// Whoever listens is told that the connection is gone, and public streams end: both
/// come after everything that the loss changed is saved.
pub proof fn law_loss_is_told(store: StoreView, now: u64)
    ensures
        ({
            let after = store.connection_lost(now);
            let n = after.outbox.len() as int;
            &&& n >= store.outbox.len() + 2
            &&& after.outbox[n - 2] matches EffectView::Notify(event) && event.field("method"@)
                == JsonView::Text("stream/disconnected"@)
            &&& after.outbox[n - 1] matches EffectView::Close(event) && event.field("type"@)
                == JsonView::Text("disconnect"@)
        }),
{
    broadcast use group_object_reads;

}

/// An event is published under a fresh ID, and otherwise as it is.
pub proof fn law_events_are_stamped(event: JsonView, id: Seq<char>, key: Seq<char>)
    requires
        event is Object,
    ensures
        stamped(event, id).field("event_id"@) == JsonView::Text(id),
        key != "event_id"@ ==> stamped(event, id).get(key) == event.get(key),
{
    broadcast use group_object_reads;

}

/// What tells of a turn in a history is what stands last in it under its ID.
pub proof fn law_history_tells_last_of_a_turn(history: Seq<JsonView>, id: Seq<char>)
    ensures
        match turn_in(history, id) {
            Some(turn) => exists|i: int|
                0 <= i < history.len() && #[trigger] history[i] == turn && turn.field("id"@)
                    == JsonView::Text(id) && forall|j: int|
                    i < j < history.len() ==> (#[trigger] history[j]).field("id"@)
                        != JsonView::Text(id),
            None => forall|i: int|
                0 <= i < history.len() ==> (#[trigger] history[i]).field("id"@) != JsonView::Text(
                    id,
                ),
        },
    decreases history.len(),
{
    if history.len() > 0 {
        let front = history.drop_last();
        law_history_tells_last_of_a_turn(front, id);
        let last = history[history.len() - 1];
        if last.field("id"@) == JsonView::Text(id) {
            assert(turn_in(history, id) == Some(last));
        } else {
            match turn_in(front, id) {
                Some(turn) => {
                    let i = choose|i: int|
                        0 <= i < front.len() && #[trigger] front[i] == turn && turn.field("id"@)
                            == JsonView::Text(id) && forall|j: int|
                            i < j < front.len() ==> (#[trigger] front[j]).field("id"@)
                                != JsonView::Text(id);
                    assert(history[i] == turn);
                    assert forall|j: int| i < j < history.len() implies (
                    #[trigger] history[j]).field("id"@) != JsonView::Text(id) by {
                        if j < front.len() {
                            assert(front[j] == history[j]);
                        }
                    }
                },
                None => {
                    assert forall|i: int| 0 <= i < history.len() implies (
                    #[trigger] history[i]).field("id"@) != JsonView::Text(id) by {
                        if i < front.len() {
                            assert(front[i] == history[i]);
                        }
                    }
                },
            }
        }
    }
}

/// A turn that only the loss of the connection has ended gets the end that the
/// backend's history tells: it was completed, cancelled or failed, with what went
/// wrong and when. Where the history tells of no end, it stays as it is, and so does
/// every other record.
pub proof fn law_turns_get_the_end_that_history_tells(
    store: StoreView,
    session_id: Seq<char>,
    history: Seq<JsonView>,
    now: u64,
    i: int,
)
    requires
        0 <= i < store.records.len(),
        store.records[i].data is Object,
    ensures
        ({
            let after = reconciled(store, session_id, history, now).0.records[i];
            let row = store.records[i];
            let told = turn_in(history, row.id);
            let status = told->0.field("status"@);
            let error = after.data.field("error"@);
            let open = row.kind is Turn && row.session_id == session_id && row.data.field(
                "error"@,
            ).field("code"@) == JsonView::Text("connection_failed"@) && told is Some;
            let completed = status == JsonView::Text("completed"@);
            let interrupted = status == JsonView::Text("interrupted"@);
            let failed = status == JsonView::Text("failed"@);
            &&& reconciled(store, session_id, history, now).0.records.len() == store.records.len()
            &&& !(open && (completed || interrupted || failed)) ==> after == row
            &&& open && completed ==> after.data.field("status"@) == JsonView::Text("completed"@)
                && after.data.get("error"@) == Some(JsonView::Null)
            &&& open && interrupted ==> after.data.field("status"@) == JsonView::Text("cancelled"@)
                && after.data.get("error"@) == Some(JsonView::Null)
            &&& open && failed ==> {
                &&& after.data.field("status"@) == JsonView::Text("failed"@)
                &&& error.field("code"@) == JsonView::Text("internal_error"@)
                &&& error.field("message"@) == match told->0.field("error"@).field("message"@) {
                    JsonView::Text(message) => JsonView::Text(message),
                    _ => JsonView::Text("turn failed"@),
                }
            }
            &&& open && (completed || interrupted || failed) ==> {
                &&& after.data.field("completed_at"@).signed() == match told->0.field(
                    "completed_at"@,
                ).signed() {
                    Some(at) => Some(at),
                    None => row.data.field("completed_at"@).signed(),
                }
                &&& forall|key: Seq<char>|
                    key != "status"@ && key != "error"@ && key != "completed_at"@
                        ==> #[trigger] after.data.get(key) == row.data.get(key)
            }
        }),
{
    lemma_turn_names();
    lemma_turn_words();
    lemma_failure_names();
    lemma_reconciled_records(store, session_id, history, now);
    broadcast use group_object_reads;

}

/// Reconciliation rules on each record.
proof fn lemma_reconciled_records(
    store: StoreView,
    session_id: Seq<char>,
    history: Seq<JsonView>,
    now: u64,
)
    ensures
        reconciled(store, session_id, history, now).0.records == swept(
            store.records,
            turn_recovery(session_id, history),
        ),
        reconciled(store, session_id, history, now).0.calls == swept(
            store.calls,
            call_recovery(session_id, history),
        ),
{
}

/// A call whose answer nobody knows the end of was answered if and only if its turn
/// was completed, as the history tells; every other call stays as it is.
pub proof fn law_completed_turns_had_their_answers(
    store: StoreView,
    session_id: Seq<char>,
    history: Seq<JsonView>,
    now: u64,
    i: int,
)
    requires
        0 <= i < store.calls.len(),
    ensures
        ({
            let after = reconciled(store, session_id, history, now).0.calls[i];
            let call = store.calls[i];
            let told = turn_in(history, call.turn_id);
            after == if call.session_id == session_id && (call.status is Unavailable
                || call.status is Submitting) && told is Some && told->0.field("status"@)
                == JsonView::Text("completed"@) {
                ToolCallView { status: CallStatus::Submitted, ..call }
            } else {
                call
            }
        }),
{
    lemma_reconciled_records(store, session_id, history, now);
}

/// A session is looked into after a lost connection if and only if it has a turn that
/// only the loss has ended, or a call that nobody knows the end of.
pub proof fn law_open_sessions_are_looked_into(store: StoreView, id: Seq<char>)
    ensures
        left_open(store, id) <==> {
            ||| exists|i: int|
                0 <= i < store.records.len() && (#[trigger] store.records[i]).session_id == id
                    && store.records[i].kind is Turn && store.records[i].data.field("error"@).field(
                    "code"@,
                ) == JsonView::Text("connection_failed"@)
            ||| exists|i: int|
                0 <= i < store.calls.len() && (#[trigger] store.calls[i]).session_id == id && (
                store.calls[i].status is Unavailable || store.calls[i].status is Submitting)
        },
{
    if left_open(store, id) {
        if exists|i: int|
            0 <= i < store.calls.len() && (#[trigger] store.calls[i]).session_id == id && uncertain(
                store.calls[i],
            ) {
            let i = choose|i: int|
                0 <= i < store.calls.len() && (#[trigger] store.calls[i]).session_id == id
                    && uncertain(store.calls[i]);
            assert(store.calls[i].session_id == id);
        } else {
            let i = choose|i: int|
                0 <= i < store.records.len() && (#[trigger] store.records[i]).session_id == id
                    && provisional(store.records[i]);
            assert(store.records[i].session_id == id);
        }
    }
}

/// The history of a session is asked for as a hundred turns of its thread; nothing is
/// asked where it has no thread.
pub proof fn law_history_is_asked_of_the_thread(store: StoreView, id: Seq<char>)
    ensures
        match history_inquiry(store, id) {
            Some(call) => {
                let row = store.session_row(id);
                &&& row is Some
                &&& row->0.thread_id is Some
                &&& call.method == "thread/turns/list"@
                &&& call.params.field("threadId"@) == JsonView::Text(row->0.thread_id->0)
                &&& call.params.field("limit"@).unsigned() == Some(100u64)
                &&& call.params.field("itemsView"@) == JsonView::Text("summary"@)
            },
            None => store.session_row(id) is None || store.session_row(id)->0.thread_id is None,
        },
{
    lemma_call_names();
    broadcast use group_object_reads;

}

/// Sessions are in order by the first character in which they differ, and one that
/// another begins with comes before it.
pub proof fn law_texts_are_ordered_by_their_first_difference(a: Seq<char>, b: Seq<char>, k: int)
    requires
        0 <= k <= a.len(),
        k <= b.len(),
        a.take(k) == b.take(k),
        k == a.len() || k == b.len() || a[k] != b[k],
    ensures
        text_before(a, b) <==> k < b.len() && (k == a.len() || a[k] < b[k]),
    decreases a.len(),
{
    if k > 0 {
        assert(a[0] == a.take(k)[0]);
        assert(b[0] == b.take(k)[0]);
        assert(a.skip(1).take(k - 1) =~= a.take(k).skip(1));
        assert(b.skip(1).take(k - 1) =~= b.take(k).skip(1));
        law_texts_are_ordered_by_their_first_difference(a.skip(1), b.skip(1), k - 1);
    }
}

/// No ID is given to two agents or to two sessions: the second is refused, and what
/// was saved stays.
pub proof fn law_ids_are_given_once(
    store: StoreView,
    agent: AgentView,
    id: Seq<char>,
    environment: EnvironmentView,
)
    ensures
        store.agent(agent.id) is Some ==> {
            let (after, result) = store.with_agent(agent);
            &&& after == store
            &&& result is Err
            &&& result->Err_0.status == 500
            &&& result->Err_0.message == "internal API error"@
        },
        store.session_row(id) is Some ==> {
            let (after, result) = store.with_session(id, agent, environment);
            &&& after == store
            &&& result is Err
            &&& result->Err_0.status == 500
            &&& result->Err_0.message == "internal API error"@
        },
{
}

} // verus!
