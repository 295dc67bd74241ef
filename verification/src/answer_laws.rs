//! What holds of the function calls that are put before the application, and of the
//! answers to them.
use crate::actions::CallParamsView;
use crate::actions::action_event;
use crate::actions::delivery_begun;
use crate::actions::delivery_finished;
use crate::actions::DeliveryView;
use crate::actions::in_thread;
use crate::actions::output_text;
use crate::actions::registered;
use crate::actions::required_action;
use crate::actions::result_text;
use crate::actions::session_of_thread;
use crate::actions::withdrawal;
use crate::actions::withdrawal_rule;
use crate::actions::withdrawn_by;
use crate::call_laws::law_open_calls_are_ordered;
use crate::call_laws::law_registered_call_is_required;
use crate::json::group_object_reads;
use crate::json::JsonView;
use crate::names::lemma_action_names;
use crate::names::lemma_event_fields;
use crate::names::lemma_turn_names;
use crate::outside::compact_text;
use crate::resources::ToolResultView;
use crate::records::public_session_of_thread;
use crate::soundness::lemma_call_found;
use crate::soundness::lemma_record_found;
use crate::soundness::lemma_sound_saved;
use crate::soundness::lemma_session_found;
use crate::store::call_key;
use crate::store::CallStatus;
use crate::store::ChangeView;
use crate::store::kind_word;
use crate::store::open_calls;
use crate::store::Record;
use crate::store::record_key;
use crate::store::RecordKind;
use crate::store::RecordView;
use crate::store::SessionRowView;
use crate::store::status_word;
use crate::store::StoreView;
use crate::store::ToolCall;
use crate::store::ToolCallView;
use crate::sweep::ruled;
use crate::table::lemma_put_lookup;
use crate::turn_laws::law_required_action_makes_the_turn_wait;
use crate::turn_laws::law_session_status_is_read_back;
use crate::turn_laws::lemma_action_sources;
use crate::turn_laws::lemma_actions_counted;
use crate::turn_laws::unresolved_in;
use crate::turn_laws::waits_in;
use vstd::prelude::*;

verus! {

/// The methods that withdraw calls differ.
proof fn lemma_withdrawal_methods()
    ensures
        "serverRequest/resolved"@ != "turn/completed"@,
{
    reveal_strlit("serverRequest/resolved");
    reveal_strlit("turn/completed");
    assert("serverRequest/resolved"@.len() == 22);
    assert("turn/completed"@.len() == 14);
}

/// The session of a thread is one that runs in it.
proof fn lemma_session_of_thread(sessions: Seq<SessionRowView>, thread_id: Seq<char>)
    ensures
        match session_of_thread(sessions, thread_id) {
            Some(id) => exists|i: int|
                0 <= i < sessions.len() && (#[trigger] sessions[i]).id == id
                    && sessions[i].thread_id == Some(thread_id),
            None => forall|i: int|
                0 <= i < sessions.len() ==> (#[trigger] sessions[i]).thread_id != Some(thread_id),
        },
    decreases sessions.len(),
{
    if sessions.len() > 0 {
        let front = sessions.drop_last();
        lemma_session_of_thread(front, thread_id);
        match session_of_thread(front, thread_id) {
            Some(id) => {
                let i = choose|i: int|
                    0 <= i < front.len() && (#[trigger] front[i]).id == id && front[i].thread_id
                        == Some(thread_id);
                assert(sessions[i] == front[i]);
            },
            None => {
                assert forall|i: int| 0 <= i < front.len() implies (#[trigger] sessions[i]).thread_id
                    != Some(thread_id) by {
                    assert(sessions[i] == front[i]);
                }
                assert(sessions[sessions.len() - 1] == sessions.last());
            },
        }
    }
}

/// Whether a call may be put before the application: a session runs in its thread,
/// its agent has the function, under no namespace, fewer than 32 calls of the session
/// wait, its arguments have at most 8192 bytes, and it was not put before.
pub open spec fn may_be_called(
    store: StoreView,
    session_id: Seq<char>,
    call: CallParamsView,
    size: nat,
) -> bool {
    &&& store.session_row(session_id) is Some
    &&& call.namespace is None
    &&& exists|i: int|
        0 <= i < store.session_row(session_id)->0.agent.config.tools.len() && (
        #[trigger] store.session_row(session_id)->0.agent.config.tools[i]).name == call.tool
    &&& store.calls.filter(waits_in(session_id)).len() < 32
    &&& size <= 8192
    &&& store.call(session_id, call.turn_id, call.call_id) is None
}

/// A call is put before the application of the session that runs in its thread if
/// and only if it may be, and a call that may not be changes nothing.
pub proof fn law_calls_are_taken_only_where_they_may_be(
    store: StoreView,
    request: Seq<char>,
    call: CallParamsView,
    size: nat,
    now: u64,
)
    requires
        store.well_formed(),
    ensures
        ({
            let (after, result) = registered(store, request, call, size, now);
            match session_of_thread(store.sessions, call.thread_id) {
                None => {
                    &&& result is Err
                    &&& after == store
                    &&& forall|i: int|
                        0 <= i < store.sessions.len() ==> (#[trigger] store.sessions[i]).thread_id
                            != Some(call.thread_id)
                },
                Some(session_id) => {
                    &&& exists|i: int|
                        0 <= i < store.sessions.len() && (#[trigger] store.sessions[i]).id
                            == session_id && store.sessions[i].thread_id == Some(call.thread_id)
                    &&& result is Ok <==> may_be_called(store, session_id, call, size)
                    &&& result is Err ==> after == store
                },
            }
        }),
{
    lemma_session_of_thread(store.sessions, call.thread_id);
    match session_of_thread(store.sessions, call.thread_id) {
        None => {},
        Some(session_id) => {
            lemma_actions_counted(store.calls, session_id);
            if may_be_called(store, session_id, call, size) {
                let row = ToolCallView {
                    session_id,
                    turn_id: call.turn_id,
                    call_id: call.call_id,
                    request_id: request,
                    action: required_action(call),
                    status: CallStatus::Pending,
                    result: None,
                };
                let saved = store.saved(ChangeView::Call(row));
                let event = action_event(session_id, call);
                lemma_sound_saved(store, ChangeView::Call(row));
                assert(event.field("method"@) == JsonView::Text("session.requires_action"@)
                    && event.field("params"@).field("threadId"@) == JsonView::Text(call.thread_id)
                    && event.field("params"@).field("action"@).field("turnId"@) == JsonView::Text(
                    call.turn_id,
                )) by {
                    lemma_action_names();
                    lemma_event_fields();
                    broadcast use group_object_reads;

                }
                match public_session_of_thread(saved, saved.sessions, call.thread_id) {
                    Some(found) => {
                        law_required_action_makes_the_turn_wait(
                            saved,
                            event,
                            now,
                            found,
                            call.turn_id,
                        );
                    },
                    None => {},
                }
            }
        },
    }
}

/// The application is told of a call, after it was saved, with all that it needs to
/// answer it: the session, the turn, the call, the function and what it is called
/// with.
pub proof fn law_application_is_told_what_is_called(
    store: StoreView,
    request: Seq<char>,
    call: CallParamsView,
    size: nat,
    now: u64,
)
    requires
        registered(store, request, call, size, now).1 is Ok,
    ensures
        ({
            let session_id = session_of_thread(store.sessions, call.thread_id)->0;
            let after = registered(store, request, call, size, now).0;
            let event = after.outbox.last()->Notify_0;
            let params = event.field("params"@);
            let action = params.field("action"@);
            let row = after.call(session_id, call.turn_id, call.call_id);
            &&& after.outbox.last() is Notify
            &&& event.field("method"@) == JsonView::Text("session.requires_action"@)
            &&& params.field("threadId"@) == JsonView::Text(call.thread_id)
            &&& params.field("sessionId"@) == JsonView::Text(session_id)
            &&& action.field("turnId"@) == JsonView::Text(call.turn_id)
            &&& action.field("callId"@) == JsonView::Text(call.call_id)
            &&& action.field("name"@) == JsonView::Text(call.tool)
            &&& action.field("arguments"@) == call.arguments
            &&& row is Some
            &&& row->0.status is Pending
            &&& row->0.request_id == request
            &&& row->0.result is None
            &&& row->0.action.turn_id == call.turn_id
            &&& row->0.action.call_id == call.call_id
            &&& row->0.action.name == call.tool
            &&& row->0.action.arguments == call.arguments
        }),
{
    law_registered_call_is_required(store, request, call, size, now);
    lemma_action_names();
    lemma_event_fields();
    broadcast use group_object_reads;

}

/// An answer is handed to the request that the backend made for the call, with what
/// the application said: whether it succeeded and its text, once and unchanged. The
/// answer is kept. Only a call that waits takes an answer.
pub proof fn law_answer_reaches_the_request(
    store: StoreView,
    session_id: Seq<char>,
    turn_id: Seq<char>,
    call_id: Seq<char>,
    success: bool,
    kept: Seq<char>,
    text: Seq<char>,
)
    ensures
        ({
            let call = store.call(session_id, turn_id, call_id);
            let (after, delivery) = delivery_begun(
                store,
                session_id,
                turn_id,
                call_id,
                success,
                kept,
                text,
            );
            &&& call is Some && call->0.status is Pending <==> delivery is Forward
            &&& delivery !is Forward ==> after == store
            &&& delivery matches DeliveryView::Forward { request_id, response } ==> {
                let items = response.field("contentItems"@);
                &&& request_id == call->0.request_id
                &&& response.field("success"@) == JsonView::Bool(success)
                &&& items is Array
                &&& items.elements().len() == 1
                &&& items.elements()[0].field("type"@) == JsonView::Text("inputText"@)
                &&& items.elements()[0].field("text"@) == JsonView::Text(text)
                &&& after.call(session_id, turn_id, call_id) == Some(
                    ToolCallView {
                        status: CallStatus::Submitting,
                        result: Some(kept),
                        ..call->0
                    },
                )
            }
            &&& delivery matches DeliveryView::Known(receipt) ==> {
                &&& call is Some
                &&& call->0.status is Submitted
                &&& call->0.result == Some(kept)
                &&& receipt.field("turnId"@) == JsonView::Text(turn_id)
                &&& receipt.field("callId"@) == JsonView::Text(call_id)
                &&& receipt.field("status"@) == JsonView::Text("submitted"@)
            }
            &&& delivery matches DeliveryView::Refused(error) ==> if call is None {
                error.status == 404 && error.message == "tool call not found"@
            } else {
                error.status == 409
            }
        }),
{
    if store.call(session_id, turn_id, call_id) is Some {
        lemma_call_found(store, session_id, turn_id, call_id);
        let call = store.call(session_id, turn_id, call_id)->0;
        let changed = ToolCallView {
            status: CallStatus::Submitting,
            result: Some(kept),
            ..call
        };
        lemma_put_lookup::<ToolCall>(
            store.calls,
            changed,
            call_key(session_id, turn_id, call_id),
        );
    }
    lemma_action_names();
    broadcast use group_object_reads;

}

/// What the model is given of an answer: a text as it is, and any other document as
/// its JSON text.
pub proof fn law_texts_are_given_as_they_are(output: JsonView)
    ensures
        output_text(output) == match output {
            JsonView::Text(text) => text,
            _ => compact_text(output),
        },
{
}

/// The text by which an answer is known again holds all of it: the call, whether it
/// succeeded, and its output.
pub proof fn law_answers_are_kept_whole(result: ToolResultView)
    ensures
        ({
            let kept = result_text(result);
            let head = "{\"callId\":"@ + compact_text(JsonView::Text(result.call_id))
                + ",\"success\":"@;
            let middle = if result.success {
                "true,\"output\":"@
            } else {
                "false,\"output\":"@
            };
            kept == head + middle + compact_text(result.output) + "}"@
        }),
{
    reveal_strlit("true");
    reveal_strlit("false");
    reveal_strlit(",\"output\":");
    reveal_strlit("true,\"output\":");
    reveal_strlit("false,\"output\":");
    let id = compact_text(JsonView::Text(result.call_id));
    let output = compact_text(result.output);
    assert("true,\"output\":"@ =~= "true"@ + ",\"output\":"@);
    assert("false,\"output\":"@ =~= "false"@ + ",\"output\":"@);
    let head = "{\"callId\":"@ + id + ",\"success\":"@;
    let middle = if result.success {
        "true,\"output\":"@
    } else {
        "false,\"output\":"@
    };
    assert(result_text(result) =~= head + middle + output + "}"@);
}

/// Once the backend has taken an answer, the client gets a receipt for it and the
/// call is answered. Where no call of a public session waits any more, its turn goes
/// on, and the turn and the session are announced so. An answer that the backend did
/// not take leaves the call unavailable, and the client is told that nobody knows
/// what became of it.
pub proof fn law_last_answer_lets_the_turn_go_on(
    store: StoreView,
    session_id: Seq<char>,
    turn_id: Seq<char>,
    call_id: Seq<char>,
    delivered: bool,
    now: u64,
)
    requires
        store.well_formed(),
        store.call(session_id, turn_id, call_id) is Some,
    ensures
        ({
            let (after, told) = delivery_finished(
                store,
                session_id,
                turn_id,
                call_id,
                delivered,
                now,
            );
            let row = store.record(session_id, RecordKind::Turn, turn_id);
            let turn = after.record(session_id, RecordKind::Turn, turn_id);
            let public = store.public_session(session_id) is Some;
            let settled = after.calls.filter(waits_in(session_id)).len() == 0;
            &&& after.call(session_id, turn_id, call_id) is Some
            &&& !delivered ==> {
                &&& told matches Err(error) && error.status == 503 && error.message
                    == "tool result delivery unknown"@
                &&& after.call(session_id, turn_id, call_id)->0.status is Unavailable
                &&& after.records == store.records
                &&& after.public_sessions == store.public_sessions
            }
            &&& delivered ==> {
                &&& told is Ok
                &&& told->Ok_0.field("turnId"@) == JsonView::Text(turn_id)
                &&& told->Ok_0.field("callId"@) == JsonView::Text(call_id)
                &&& told->Ok_0.field("status"@) == JsonView::Text("submitted"@)
                &&& after.call(session_id, turn_id, call_id)->0.status is Submitted
                &&& !public || !settled ==> after.records == store.records
                    && after.public_sessions == store.public_sessions
                &&& public && settled ==> {
                    &&& after.public_session(session_id) is Some
                    &&& after.public_session(session_id)->0.data.field("status"@)
                        == JsonView::Text("in_progress"@)
                    &&& row is Some && row->0.data.field("status"@) == JsonView::Text("waiting"@)
                        ==> {
                        let event = after.outbox.last()->Publish_0;
                        &&& turn is Some
                        &&& turn->0.data.field("status"@) == JsonView::Text("in_progress"@)
                        &&& after.outbox.last() is Publish
                        &&& event.field("type"@) == JsonView::Text(
                            "agent.session.turn."@ + "in_progress"@,
                        )
                        &&& event.field("session_id"@) == JsonView::Text(session_id)
                        &&& event.field("turn_id"@) == JsonView::Text(turn_id)
                        &&& event.field("turn"@) == turn->0.data
                    }
                    &&& row is Some && row->0.data.field("status"@) != JsonView::Text("waiting"@)
                        ==> turn == row
                }
            }
        }),
{
    let call = store.call(session_id, turn_id, call_id)->0;
    let status = if delivered {
        CallStatus::Submitted
    } else {
        CallStatus::Unavailable
    };
    lemma_call_found(store, session_id, turn_id, call_id);
    let changed = ToolCallView { status, ..call };
    let saved = store.saved(ChangeView::Call(changed));
    lemma_put_lookup::<ToolCall>(store.calls, changed, call_key(session_id, turn_id, call_id));
    lemma_sound_saved(store, ChangeView::Call(changed));
    assert(saved.session_row(session_id) is Some);
    lemma_actions_counted(saved.calls, session_id);
    assert(saved.public_session(session_id) == store.public_session(session_id));
    if delivered && store.public_session(session_id) is Some && saved.session(
        session_id,
    )->0.required_actions.len() == 0 {
        let row = saved.record(session_id, RecordKind::Turn, turn_id);
        match row {
            Some(row) if row.data.field("status"@) == JsonView::Text("waiting"@) => {
                lemma_record_found(saved, session_id, RecordKind::Turn, turn_id);
                assert(row.data is Object);
                let going = RecordView {
                    data: row.data.with("status"@, JsonView::Text("in_progress"@)),
                    ..row
                };
                assert(going.data.get("status"@) == Some(JsonView::Text("in_progress"@))
                    && going.data.get("id"@) == row.data.get("id"@) && going.data is Object) by {
                    lemma_turn_names();
                    broadcast use group_object_reads;

                }
                lemma_put_lookup::<Record>(
                    saved.records,
                    going,
                    record_key(session_id, RecordKind::Turn, turn_id),
                );
                assert(row.data.field("id"@) == JsonView::Text(row.id));
                lemma_sound_saved(saved, ChangeView::Record(going));
                let kept = saved.saved(ChangeView::Record(going));
                law_session_status_is_read_back(kept, session_id, "in_progress"@, None, now);
                lemma_event_fields();
                broadcast use group_object_reads;

            },
            _ => {
                law_session_status_is_read_back(saved, session_id, "in_progress"@, None, now);
            },
        }
    }
    lemma_action_names();
    broadcast use group_object_reads;

}

/// A request that the backend says is resolved, and a turn that it says is over,
/// withdraw the calls that waited for them in that thread, and touch nothing else;
/// nothing else that the backend tells withdraws a call.
pub proof fn law_only_what_is_over_is_withdrawn(
    store: StoreView,
    value: JsonView,
    request: Seq<char>,
    i: int,
)
    requires
        0 <= i < store.calls.len(),
    ensures
        ({
            let params = value.field("params"@);
            let call = store.calls[i];
            let after = withdrawn_by(store, value, request);
            let there = exists|k: int|
                0 <= k < store.sessions.len() && (#[trigger] store.sessions[k]).id
                    == call.session_id && store.sessions[k].thread_id is Some && params.field(
                    "threadId"@,
                ) == JsonView::Text(store.sessions[k].thread_id->0);
            let over = {
                ||| value.field("method"@) == JsonView::Text("serverRequest/resolved"@)
                    && call.request_id == request
                ||| value.field("method"@) == JsonView::Text("turn/completed"@) && params.field(
                    "turn"@,
                ).field("id"@) == JsonView::Text(call.turn_id)
            };
            &&& after.calls.len() == store.calls.len()
            &&& after.calls[i] == if call.status is Pending && there && over {
                ToolCallView { status: CallStatus::Cancelled, ..call }
            } else {
                call
            }
            &&& after.records == store.records
            &&& after.sessions == store.sessions
            &&& after.public_sessions == store.public_sessions
        }),
{
    let params = value.field("params"@);
    let call = store.calls[i];
    let after = withdrawn_by(store, value, request);
    lemma_withdrawal_methods();
    match withdrawal(value, request) {
        Some((thread_id, by)) => {
            let rule = withdrawal_rule(store.sessions, thread_id, by);
            assert(after.calls[i] == ruled(call, rule));
            if in_thread(store.sessions, call.session_id, thread_id) {
                let k = choose|k: int|
                    0 <= k < store.sessions.len() && (#[trigger] store.sessions[k]).id
                        == call.session_id && store.sessions[k].thread_id == Some(thread_id);
                assert(store.sessions[k].id == call.session_id);
                assert(params.field("threadId"@) == JsonView::Text(
                    store.sessions[k].thread_id->0,
                ));
            }
        },
        None => {},
    }
}

/// A session is read with its agent and where it runs as they were saved, and with the
/// calls that wait for the application and those that nobody knows the end of: all of
/// them, and no others.
pub proof fn law_session_lists_its_open_calls(store: StoreView, id: Seq<char>)
    requires
        store.session_row(id) is Some,
    ensures
        ({
            let row = store.session_row(id)->0;
            let session = store.session(id)->0;
            &&& store.session(id) is Some
            &&& session.id == id
            &&& session.agent == row.agent
            &&& session.environment == row.environment
            &&& session.thread_id == row.thread_id
            &&& session.required_actions.len() == store.calls.filter(waits_in(id)).len()
            &&& session.unresolved_actions.len() == store.calls.filter(unresolved_in(id)).len()
            &&& forall|i: int|
                0 <= i < session.required_actions.len() ==> exists|call: ToolCallView| #[trigger]
                    store.calls.contains(call) && waits_in(id)(call) && call.action == (
                    #[trigger] session.required_actions[i])
            &&& forall|i: int|
                0 <= i < session.unresolved_actions.len() ==> exists|call: ToolCallView| #[trigger]
                    store.calls.contains(call) && unresolved_in(id)(call) && call.action == (
                    #[trigger] session.unresolved_actions[i])
            &&& forall|k: int|
                0 <= k < store.calls.len() && waits_in(id)(#[trigger] store.calls[k])
                    ==> session.required_actions.contains(store.calls[k].action)
            &&& forall|k: int|
                0 <= k < store.calls.len() && unresolved_in(id)(#[trigger] store.calls[k])
                    ==> session.unresolved_actions.contains(store.calls[k].action)
        }),
{
    let row = store.session_row(id)->0;
    let session = store.session(id)->0;
    let calls = open_calls(store.calls, id);
    lemma_session_found(store, id);
    lemma_actions_counted(store.calls, id);
    law_open_calls_are_ordered(store.calls, id);
    let waiting = lemma_action_sources(calls, true);
    let unresolved = lemma_action_sources(calls, false);
    assert forall|i: int| 0 <= i < session.required_actions.len() implies exists|call: ToolCallView|
        #[trigger] store.calls.contains(call) && waits_in(id)(call) && call.action == (
        #[trigger] session.required_actions[i]) by {
        assert(calls.contains(waiting[i]));
        assert(store.calls.contains(waiting[i]));
    }
    assert forall|i: int| 0 <= i < session.unresolved_actions.len() implies exists|
        call: ToolCallView,
    |
        #[trigger] store.calls.contains(call) && unresolved_in(id)(call) && call.action == (
        #[trigger] session.unresolved_actions[i]) by {
        assert(calls.contains(unresolved[i]));
        assert(store.calls.contains(unresolved[i]));
    }
    assert forall|k: int|
        0 <= k < store.calls.len() && waits_in(id)(#[trigger] store.calls[k]) implies
        session.required_actions.contains(store.calls[k].action) by {
        let call = store.calls[k];
        assert(store.calls.contains(call));
        assert(calls.contains(call));
        assert(calls[calls.index_of(call)] == call);
        let i = waiting.index_of(call);
        assert(waiting[i] == call);
        assert(session.required_actions[i] == call.action);
    }
    assert forall|k: int|
        0 <= k < store.calls.len() && unresolved_in(id)(#[trigger] store.calls[k]) implies
        session.unresolved_actions.contains(store.calls[k].action) by {
        let call = store.calls[k];
        assert(store.calls.contains(call));
        assert(calls.contains(call));
        assert(calls[calls.index_of(call)] == call);
        let i = unresolved.index_of(call);
        assert(unresolved[i] == call);
        assert(session.unresolved_actions[i] == call.action);
    }
}

/// An answer to a call that does not wait is refused in words that say what became of
/// the call, unless it is the answer that the call was given.
pub proof fn law_refusals_say_what_became_of_the_call(
    store: StoreView,
    session_id: Seq<char>,
    turn_id: Seq<char>,
    call_id: Seq<char>,
    success: bool,
    kept: Seq<char>,
    text: Seq<char>,
)
    requires
        store.call(session_id, turn_id, call_id) is Some,
        store.call(session_id, turn_id, call_id)->0.status !is Pending,
    ensures
        ({
            let call = store.call(session_id, turn_id, call_id)->0;
            let delivery = delivery_begun(
                store,
                session_id,
                turn_id,
                call_id,
                success,
                kept,
                text,
            ).1;
            if call.status is Submitted && call.result == Some(kept) {
                delivery is Known
            } else {
                delivery matches DeliveryView::Refused(error) && error.status == 409
                    && error.message == "tool call is "@ + (match call.status {
                    CallStatus::Submitted => "submitted"@,
                    CallStatus::Submitting => "submitting"@,
                    CallStatus::Unavailable => "unavailable"@,
                    _ => "cancelled"@,
                }) + "; result cannot be submitted"@
            }
        }),
{
}

/// Rows are saved under words for what they are and for how calls stand.
pub proof fn law_rows_are_saved_under_words(status: CallStatus, kind: RecordKind)
    ensures
        status_word(status) == match status {
            CallStatus::Pending => "pending"@,
            CallStatus::Submitting => "submitting"@,
            CallStatus::Submitted => "submitted"@,
            CallStatus::Unavailable => "unavailable"@,
            CallStatus::Cancelled => "cancelled"@,
        },
        kind_word(kind) == if kind is Turn {
            "turn"@
        } else {
            "item"@
        },
{
}

} // verus!
