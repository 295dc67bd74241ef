//! What holds of the turns of a public session, and of the session with them.
use crate::call_laws::in_order;
use crate::call_laws::law_open_calls_are_ordered;
use crate::disconnect::call_loss;
use crate::json::group_object_reads;
use crate::json::JsonView;
use crate::json::NumberView;
use crate::json::optional_text;
use crate::names::lemma_action_names;
use crate::names::lemma_event_fields;
use crate::names::lemma_failure_names;
use crate::names::lemma_session_names;
use crate::names::lemma_turn_names;
use crate::names::lemma_turn_words;
use crate::projection::public_turn;
use crate::projection::turn_event;
use crate::projection::turn_status;
use crate::records::last_active_turn;
use crate::records::notified;
use crate::records::number;
use crate::records::public_actions;
use crate::records::public_session_of_thread;
use crate::records::turn_changed;
use crate::resources::RequiredActionView;
use crate::session_laws::lemma_status_read_back;
use crate::sessions::input_step;
use crate::sessions::InputEventView;
use crate::sessions::InputStepView;
use crate::soundness::law_session_status_is_sound;
use crate::soundness::lemma_public_session_found;
use crate::soundness::lemma_public_turn;
use crate::soundness::lemma_record_found;
use crate::soundness::lemma_record_is_sound;
use crate::soundness::lemma_turn_status_is_sound;
use crate::store::actions_of;
use crate::store::call_before;
use crate::store::CallStatus;
use crate::store::EffectView;
use crate::store::insert_call;
use crate::store::open_calls;
use crate::store::PublicSession;
use crate::store::PublicSessionView;
use crate::store::Record;
use crate::store::record_key;
use crate::store::RecordKind;
use crate::store::RecordView;
use crate::store::SessionRowView;
use crate::store::StoreView;
use crate::store::ToolCallView;
use crate::sweep::ruled;
use crate::table::lemma_put_lookup;
use crate::text::lemma_text_total;
use crate::text::text_before;
use vstd::prelude::*;

verus! {

/// The words for the status of a session differ.
proof fn lemma_session_words()
    ensures
        "in_progress"@ != "requires_action"@,
        "in_progress"@ != "failed"@,
        "in_progress"@ != "idle"@,
        "requires_action"@ != "failed"@,
        "requires_action"@ != "idle"@,
        "failed"@ != "idle"@,
{
    reveal_strlit("in_progress");
    reveal_strlit("requires_action");
    reveal_strlit("failed");
    reveal_strlit("idle");
    assert("in_progress"@.len() == 11);
    assert("requires_action"@.len() == 15);
    assert("failed"@.len() == 6);
    assert("idle"@.len() == 4);
}

/// When the connection is lost, every public session that was at work or waited for
/// the application has failed, and says that the connection was lost; every other
/// session stays as it was. None is left that says it is in progress or that it
/// requires an action.
pub proof fn law_lost_sessions_say_why(store: StoreView, now: u64, i: int)
    requires
        store.well_formed(),
        0 <= i < store.public_sessions.len(),
    ensures
        ({
            let before = store.public_sessions[i];
            let after = store.connection_lost(now).public_sessions[i];
            let status = before.data.field("status"@);
            &&& store.connection_lost(now).public_sessions.len() == store.public_sessions.len()
            &&& after.id == before.id
            &&& status == JsonView::Text("in_progress"@) || status == JsonView::Text(
                "requires_action"@,
            ) ==> {
                &&& after.data.field("status"@) == JsonView::Text("failed"@)
                &&& after.data.field("error"@) == JsonView::Text("backend connection lost"@)
                &&& forall|key: Seq<char>|
                    key != "status"@ && key != "error"@ ==> #[trigger] after.data.get(key)
                        == before.data.get(key)
            }
            &&& status != JsonView::Text("in_progress"@) && status != JsonView::Text(
                "requires_action"@,
            ) ==> after == before
            &&& after.data.field("status"@) != JsonView::Text("in_progress"@)
            &&& after.data.field("status"@) != JsonView::Text("requires_action"@)
        }),
{
    assert(store.public_sessions[i].data is Object);
    lemma_session_names();
    lemma_session_words();
    broadcast use group_object_reads;

}

/// When the connection is lost, every turn that was queued, in progress or waiting
/// has failed because of it, at the time when it was lost; every other turn stays
/// as it was.
pub proof fn law_lost_turns_say_why(store: StoreView, now: u64, i: int)
    requires
        store.well_formed(),
        0 <= i < store.records.len(),
        store.records[i].kind is Turn,
    ensures
        ({
            let before = store.records[i];
            let after = store.connection_lost(now).records[i];
            let status = before.data.field("status"@);
            let active = status == JsonView::Text("queued"@) || status == JsonView::Text(
                "in_progress"@,
            ) || status == JsonView::Text("waiting"@);
            &&& after.session_id == before.session_id
            &&& after.kind is Turn
            &&& after.id == before.id
            &&& active ==> {
                &&& after.data.field("status"@) == JsonView::Text("failed"@)
                &&& now <= i64::MAX ==> after.data.field("completed_at"@) == JsonView::Number(
                    NumberView::Unsigned(now),
                )
                &&& after.data.field("error"@).field("code"@) == JsonView::Text(
                    "connection_failed"@,
                )
                &&& after.data.field("error"@).field("message"@) == JsonView::Text(
                    "backend connection lost"@,
                )
                &&& forall|key: Seq<char>|
                    key != "status"@ && key != "completed_at"@ && key != "error"@
                        ==> #[trigger] after.data.get(key) == before.data.get(key)
            }
            &&& !active ==> after == before
        }),
{
    assert(store.records[i].data is Object);
    lemma_turn_names();
    lemma_turn_words();
    lemma_failure_names();
    broadcast use group_object_reads;

}

/// When the connection is lost, every item that was in progress is incomplete;
/// every other item stays as it was.
pub proof fn law_lost_items_are_incomplete(store: StoreView, now: u64, i: int)
    requires
        store.well_formed(),
        0 <= i < store.records.len(),
        store.records[i].kind is Item,
    ensures
        ({
            let before = store.records[i];
            let after = store.connection_lost(now).records[i];
            &&& before.data.field("status"@) == JsonView::Text("in_progress"@) ==> {
                &&& after.data.field("status"@) == JsonView::Text("incomplete"@)
                &&& forall|key: Seq<char>|
                    key != "status"@ ==> #[trigger] after.data.get(key) == before.data.get(key)
            }
            &&& before.data.field("status"@) != JsonView::Text("in_progress"@) ==> after == before
        }),
{
    assert(store.records[i].data is Object);
    broadcast use group_object_reads;

}

/// When the connection is lost, every call that waited for an answer, or whose
/// answer was on its way, is unavailable; every other call stays as it was. Those
/// who listen are told last.
pub proof fn law_lost_calls_are_unavailable(store: StoreView, now: u64, i: int)
    ensures
        ({
            let after = store.connection_lost(now);
            &&& after.calls.len() == store.calls.len()
            &&& 0 <= i < store.calls.len() ==> after.calls[i] == (ToolCallView {
                status: match store.calls[i].status {
                    CallStatus::Pending => CallStatus::Unavailable,
                    CallStatus::Submitting => CallStatus::Unavailable,
                    other => other,
                },
                ..store.calls[i]
            })
            &&& after.outbox.len() >= 2
            &&& after.outbox[after.outbox.len() - 2] is Notify
            &&& after.outbox[after.outbox.len() - 2]->Notify_0.field("method"@)
                == JsonView::Text("stream/disconnected"@)
            &&& after.outbox.last() is Close
            &&& after.outbox.last()->Close_0.field("type"@) == JsonView::Text("disconnect"@)
            &&& after.agents == store.agents
            &&& after.sessions == store.sessions
        }),
{
    broadcast use group_object_reads;

    let after = store.connection_lost(now);
    if 0 <= i < store.calls.len() {
        assert(after.calls[i] == ruled(store.calls[i], call_loss()));
    }
}

/// What is shown of actions, one for one.
proof fn lemma_actions_shown(actions: Seq<RequiredActionView>)
    ensures
        public_actions(actions) is Array,
        public_actions(actions).elements().len() == actions.len(),
        forall|i: int|
            0 <= i < actions.len() ==> {
                let shown = #[trigger] public_actions(actions).elements()[i];
                &&& shown.field("type"@) == JsonView::Text("function_call"@)
                &&& shown.field("turn_id"@) == JsonView::Text(actions[i].turn_id)
                &&& shown.field("call_id"@) == JsonView::Text(actions[i].call_id)
                &&& shown.field("name"@) == JsonView::Text(actions[i].name)
                &&& shown.field("arguments"@) == actions[i].arguments
            },
    decreases actions.len(),
{
    if actions.len() > 0 {
        let front = actions.drop_last();
        lemma_actions_shown(front);
        lemma_action_names();
        broadcast use group_object_reads;

        let all = public_actions(actions).elements();
        assert forall|i: int| 0 <= i < actions.len() implies {
            let shown = #[trigger] all[i];
            &&& shown.field("type"@) == JsonView::Text("function_call"@)
            &&& shown.field("turn_id"@) == JsonView::Text(actions[i].turn_id)
            &&& shown.field("call_id"@) == JsonView::Text(actions[i].call_id)
            &&& shown.field("name"@) == JsonView::Text(actions[i].name)
            &&& shown.field("arguments"@) == actions[i].arguments
        } by {
            if i < front.len() {
                assert(all[i] == public_actions(front).elements()[i]);
                assert(front[i] == actions[i]);
            }
        }
    }
}

/// Whether a call waits for the application in a session.
pub open spec fn waits_in(id: Seq<char>) -> spec_fn(ToolCallView) -> bool {
    |call: ToolCallView| call.session_id == id && call.status is Pending
}

/// Which calls of a session nobody knows the end of.
pub open spec fn unresolved_in(id: Seq<char>) -> spec_fn(ToolCallView) -> bool {
    |call: ToolCallView|
        call.session_id == id && (call.status is Unavailable || call.status is Submitting)
}

/// One more call is one more action where it is pending, or where it is not.
proof fn lemma_insert_counts(calls: Seq<ToolCallView>, call: ToolCallView, pending: bool)
    ensures
        actions_of(insert_call(calls, call), pending).len() == actions_of(calls, pending).len() + (
        if (call.status is Pending) == pending {
            1nat
        } else {
            0nat
        }),
    decreases calls.len(),
{
    if calls.len() == 0 || !call_before(call, calls.last()) {
        assert(calls.push(call).drop_last() =~= calls);
    } else {
        let placed = insert_call(calls.drop_last(), call);
        lemma_insert_counts(calls.drop_last(), call, pending);
        assert(placed.push(calls.last()).drop_last() =~= placed);
    }
}

/// A session has as many actions as it has calls that wait, and as many unresolved
/// ones as it has calls that nobody knows the end of.
pub proof fn lemma_actions_counted(calls: Seq<ToolCallView>, id: Seq<char>)
    ensures
        actions_of(open_calls(calls, id), true).len() == calls.filter(waits_in(id)).len(),
        actions_of(open_calls(calls, id), false).len() == calls.filter(unresolved_in(id)).len(),
    decreases calls.len(),
{
    reveal(Seq::filter);
    if calls.len() > 0 {
        let front = calls.drop_last();
        lemma_actions_counted(front, id);
        lemma_insert_counts(open_calls(front, id), calls.last(), true);
        lemma_insert_counts(open_calls(front, id), calls.last(), false);
    }
}

/// The actions of calls that are in order are those of some of them, in order: of
/// all that are pending, or of all that are not.
pub proof fn lemma_action_sources(calls: Seq<ToolCallView>, pending: bool) -> (sources: Seq<
    ToolCallView,
>)
    requires
        in_order(calls),
    ensures
        sources.len() == actions_of(calls, pending).len(),
        in_order(sources),
        forall|i: int|
            0 <= i < sources.len() ==> {
                &&& calls.contains(#[trigger] sources[i])
                &&& (sources[i].status is Pending) == pending
                &&& sources[i].action == actions_of(calls, pending)[i]
            },
        forall|k: int|
            0 <= k < calls.len() && ((#[trigger] calls[k]).status is Pending) == pending
                ==> sources.contains(calls[k]),
    decreases calls.len(),
{
    if calls.len() == 0 {
        Seq::empty()
    } else {
        let front = calls.drop_last();
        assert(in_order(front)) by {
            assert forall|i: int, j: int| 0 <= i < j < front.len() implies !call_before(
                #[trigger] front[j],
                #[trigger] front[i],
            ) by {
                assert(front[i] == calls[i] && front[j] == calls[j]);
            }
        }
        let before = lemma_action_sources(front, pending);
        let last = calls.last();
        let sources = if (last.status is Pending) == pending {
            before.push(last)
        } else {
            before
        };
        assert forall|i: int| 0 <= i < sources.len() implies {
            &&& calls.contains(#[trigger] sources[i])
            &&& (sources[i].status is Pending) == pending
            &&& sources[i].action == actions_of(calls, pending)[i]
        } by {
            if i < before.len() {
                assert(sources[i] == before[i]);
                let k = front.index_of(before[i]);
                assert(calls[k] == before[i]);
            } else {
                assert(calls[calls.len() - 1] == last);
            }
        }
        assert forall|i: int, j: int| 0 <= i < j < sources.len() implies !call_before(
            #[trigger] sources[j],
            #[trigger] sources[i],
        ) by {
            assert(sources[i] == before[i]);
            if j < before.len() {
                assert(sources[j] == before[j]);
            } else {
                let k = front.index_of(before[i]);
                assert(calls[k] == before[i]);
                assert(calls[calls.len() - 1] == last);
            }
        }
        assert forall|k: int|
            0 <= k < calls.len() && ((#[trigger] calls[k]).status is Pending)
                == pending implies sources.contains(calls[k]) by {
            if k < front.len() {
                assert(front[k] == calls[k]);
                let i = before.index_of(front[k]);
                assert(sources[i] == calls[k]);
            } else {
                assert(sources[before.len() as int] == calls[k]);
            }
        }
        sources
    }
}

/// A public session is read with every call that waits for the application, each
/// once, in the order of turns and then of calls, and with no other. Nothing else
/// of it is changed by reading.
pub proof fn law_required_actions_are_the_waiting_calls(store: StoreView, id: Seq<char>)
    requires
        store.well_formed(),
        store.public_session(id) is Some,
    ensures
        ({
            let read = store.public_view(id)->Ok_0;
            let shown = read.field("required_actions"@).elements();
            &&& store.public_view(id) is Ok
            &&& read.field("required_actions"@) is Array
            &&& shown.len() == store.calls.filter(waits_in(id)).len()
            &&& forall|i: int|
                0 <= i < shown.len() ==> {
                    &&& (#[trigger] shown[i]).field("type"@) == JsonView::Text("function_call"@)
                    &&& exists|call: ToolCallView|
                        #[trigger] store.calls.contains(call) && waits_in(id)(call)
                            && shown[i].field("turn_id"@) == JsonView::Text(call.turn_id)
                            && shown[i].field("call_id"@) == JsonView::Text(call.call_id)
                            && shown[i].field("name"@) == JsonView::Text(call.action.name)
                            && shown[i].field("arguments"@) == call.action.arguments
                }
            &&& forall|i: int, j: int|
                0 <= i < j < shown.len() ==> precedes(#[trigger] shown[i], #[trigger] shown[j])
            &&& forall|key: Seq<char>|
                key != "required_actions"@ ==> #[trigger] read.get(key) == store.public_session(
                    id,
                )->0.data.get(key)
        }),
{
    lemma_public_session_found(store, id);
    let calls = open_calls(store.calls, id);
    let actions = actions_of(calls, true);
    let read = store.public_view(id)->Ok_0;
    let shown = read.field("required_actions"@).elements();
    assert(store.session_row(id) is Some);
    lemma_actions_shown(actions);
    lemma_actions_counted(store.calls, id);
    law_open_calls_are_ordered(store.calls, id);
    let sources = lemma_action_sources(calls, true);
    assert(read.get("required_actions"@) == Some(public_actions(actions))) by {
        broadcast use group_object_reads;

    }
    assert forall|i: int| 0 <= i < shown.len() implies {
        &&& (#[trigger] shown[i]).field("type"@) == JsonView::Text("function_call"@)
        &&& exists|call: ToolCallView|
            #[trigger] store.calls.contains(call) && waits_in(id)(call) && shown[i].field(
                "turn_id"@,
            ) == JsonView::Text(call.turn_id) && shown[i].field("call_id"@) == JsonView::Text(
                call.call_id,
            ) && shown[i].field("name"@) == JsonView::Text(call.action.name) && shown[i].field(
                "arguments"@,
            ) == call.action.arguments
    } by {
        let call = sources[i];
        assert(calls.contains(call));
        assert(store.calls.contains(call));
        let k = store.calls.index_of(call);
        assert(store.calls[k] == call);
        assert(waits_in(id)(call));
    }
    assert forall|i: int, j: int| 0 <= i < j < shown.len() implies precedes(
        #[trigger] shown[i],
        #[trigger] shown[j],
    ) by {
        let a = sources[i];
        let b = sources[j];
        assert(!call_before(b, a));
        assert(calls.contains(a) && calls.contains(b));
        let k = store.calls.index_of(a);
        let l = store.calls.index_of(b);
        assert(store.calls[k] == a && store.calls[l] == b);
        lemma_text_total(a.turn_id, b.turn_id);
        lemma_text_total(a.call_id, b.call_id);
    }
    assert forall|key: Seq<char>| key != "required_actions"@ implies #[trigger] read.get(key)
        == store.public_session(id)->0.data.get(key) by {
        broadcast use group_object_reads;

    }
}

/// Every call that waits for the application is shown to whoever reads its session.
pub proof fn law_every_waiting_call_is_shown(store: StoreView, id: Seq<char>, k: int)
    requires
        store.well_formed(),
        store.public_session(id) is Some,
        0 <= k < store.calls.len(),
        waits_in(id)(store.calls[k]),
    ensures
        ({
            let shown = store.public_view(id)->Ok_0.field("required_actions"@).elements();
            exists|i: int|
                0 <= i < shown.len() && (#[trigger] shown[i]).field("type"@) == JsonView::Text(
                    "function_call"@,
                ) && shown[i].field("turn_id"@) == JsonView::Text(store.calls[k].turn_id)
                    && shown[i].field("call_id"@) == JsonView::Text(store.calls[k].call_id)
                    && shown[i].field("name"@) == JsonView::Text(store.calls[k].action.name)
                    && shown[i].field("arguments"@) == store.calls[k].action.arguments
        }),
{
    lemma_public_session_found(store, id);
    assert(store.session_row(id) is Some);
    let call = store.calls[k];
    let calls = open_calls(store.calls, id);
    let actions = actions_of(calls, true);
    law_open_calls_are_ordered(store.calls, id);
    let sources = lemma_action_sources(calls, true);
    lemma_actions_shown(actions);
    assert(store.calls.contains(call));
    assert(calls.contains(call));
    assert(calls[calls.index_of(call)] == call);
    let i = sources.index_of(call);
    let shown = store.public_view(id)->Ok_0.field("required_actions"@);
    assert(shown == public_actions(actions)) by {
        broadcast use group_object_reads;

    }
    assert(sources[i] == call);
    assert(shown.elements()[i].field("turn_id"@) == JsonView::Text(actions[i].turn_id));
}

/// Whether an action is shown before another: that of an earlier turn, or of an
/// earlier call of the same turn.
pub open spec fn precedes(a: JsonView, b: JsonView) -> bool {
    match (
        a.field("turn_id"@),
        b.field("turn_id"@),
        a.field("call_id"@),
        b.field("call_id"@),
    ) {
        (
            JsonView::Text(turn),
            JsonView::Text(later),
            JsonView::Text(call),
            JsonView::Text(next),
        ) => text_before(turn, later) || (turn == later && (call == next || text_before(
            call,
            next,
        ))),
        _ => false,
    }
}

/// Whether a record is a turn of a session that has not ended.
pub open spec fn unfinished(row: RecordView, session_id: Seq<char>) -> bool {
    let status = row.data.field("status"@);
    &&& row.session_id == session_id
    &&& row.kind is Turn
    &&& status == JsonView::Text("queued"@) || status == JsonView::Text("in_progress"@) || status
        == JsonView::Text("waiting"@)
}

/// The last turn that has not ended is found, wherever it stands.
proof fn lemma_last_unfinished(records: Seq<RecordView>, session_id: Seq<char>)
    ensures
        match last_active_turn(records, session_id) {
            Some(turn_id) => exists|i: int|
                #![trigger records[i]]
                {
                    &&& 0 <= i < records.len()
                    &&& unfinished(records[i], session_id)
                    &&& records[i].id == turn_id
                    &&& forall|j: int|
                        i < j < records.len() ==> !unfinished(#[trigger] records[j], session_id)
                },
            None => forall|i: int|
                0 <= i < records.len() ==> !unfinished(#[trigger] records[i], session_id),
        },
    decreases records.len(),
{
    if records.len() > 0 {
        let front = records.drop_last();
        let last = records.len() - 1;
        if unfinished(records[last], session_id) {
            assert(records[last].id == last_active_turn(records, session_id)->0);
        } else {
            lemma_last_unfinished(front, session_id);
            match last_active_turn(front, session_id) {
                Some(turn_id) => {
                    let i = choose|i: int|
                        #![trigger front[i]]
                        {
                            &&& 0 <= i < front.len()
                            &&& unfinished(front[i], session_id)
                            &&& front[i].id == turn_id
                            &&& forall|j: int|
                                i < j < front.len() ==> !unfinished(#[trigger] front[j], session_id)
                        };
                    assert(records[i] == front[i]);
                    assert forall|j: int| i < j < records.len() implies !unfinished(
                        #[trigger] records[j],
                        session_id,
                    ) by {
                        if j < front.len() {
                            assert(front[j] == records[j]);
                        }
                    }
                },
                None => {
                    assert forall|j: int| 0 <= j < records.len() implies !unfinished(
                        #[trigger] records[j],
                        session_id,
                    ) by {
                        if j < front.len() {
                            assert(front[j] == records[j]);
                        }
                    }
                },
            }
        }
    }
}

/// To cancel interrupts the turn of the session that was saved last among those
/// that are queued, in progress or waiting, and nothing is done only where there is
/// none.
pub proof fn law_cancel_interrupts_the_last_unfinished_turn(store: StoreView, id: Seq<char>)
    requires
        store.well_formed(),
        store.public_session(id) is Some,
    ensures
        match input_step(store, id, false, seq![InputEventView::Cancel]) {
            Ok(InputStepView::Interrupt(turn_id)) => exists|i: int|
                #![trigger store.records[i]]
                {
                    &&& 0 <= i < store.records.len()
                    &&& unfinished(store.records[i], id)
                    &&& store.records[i].id == turn_id
                    &&& forall|j: int|
                        i < j < store.records.len() ==> !unfinished(
                            #[trigger] store.records[j],
                            id,
                        )
                },
            Ok(InputStepView::Nothing) => forall|i: int|
                0 <= i < store.records.len() ==> !unfinished(#[trigger] store.records[i], id),
            _ => false,
        },
{
    lemma_public_session_found(store, id);
    assert(store.session_row(id) is Some);
    lemma_last_unfinished(store.records, id);
}

/// The methods of the notifications differ.
proof fn lemma_notification_methods()
    ensures
        "turn/started"@ != "turn/completed"@,
        "turn/started"@ != "session.requires_action"@,
        "turn/started"@ != "item/started"@,
        "turn/started"@ != "item/completed"@,
        "turn/completed"@ != "session.requires_action"@,
        "turn/completed"@ != "item/started"@,
        "turn/completed"@ != "item/completed"@,
        "session.requires_action"@ != "item/started"@,
        "session.requires_action"@ != "item/completed"@,
        "item/started"@ != "item/completed"@,
{
    reveal_strlit("turn/started");
    reveal_strlit("turn/completed");
    reveal_strlit("session.requires_action");
    reveal_strlit("item/started");
    reveal_strlit("item/completed");
    assert("turn/started"@.len() == 12);
    assert("turn/completed"@.len() == 14);
    assert("session.requires_action"@.len() == 23);
    assert("item/started"@.len() == 12);
    assert("item/completed"@.len() == 14);
    assert("turn/started"@[0] != "item/started"@[0]);
    assert("turn/completed"@[0] != "item/completed"@[0]);
}

/// Whether the backend tells that a turn has started or completed in the thread of
/// a public session.
pub open spec fn tells_of_turn(
    store: StoreView,
    raw: JsonView,
    started: bool,
    session_id: Seq<char>,
    turn_id: Seq<char>,
) -> bool {
    let params = raw.field("params"@);
    &&& raw.field("method"@) == JsonView::Text(
        if started {
            "turn/started"@
        } else {
            "turn/completed"@
        },
    )
    &&& params.field("threadId"@).text() is Some
    &&& public_session_of_thread(store, store.sessions, params.field("threadId"@).text()->0)
        == Some(session_id)
    &&& params.field("turn"@).field("id"@) == JsonView::Text(turn_id)
}

/// A session that is found by its thread is public.
proof fn lemma_found_is_public(
    store: StoreView,
    sessions: Seq<SessionRowView>,
    thread_id: Seq<char>,
)
    ensures
        match public_session_of_thread(store, sessions, thread_id) {
            Some(id) => {
                &&& store.public_session(id) is Some
                &&& exists|i: int|
                    0 <= i < sessions.len() && (#[trigger] sessions[i]).id == id
                        && sessions[i].thread_id == Some(thread_id)
            },
            None => forall|i: int|
                0 <= i < sessions.len() ==> (#[trigger] sessions[i]).thread_id != Some(thread_id)
                    || store.public_session(sessions[i].id) is None,
        },
    decreases sessions.len(),
{
    if sessions.len() > 0 {
        let front = sessions.drop_last();
        lemma_found_is_public(store, front, thread_id);
        match public_session_of_thread(store, front, thread_id) {
            Some(id) => {
                let i = choose|i: int|
                    0 <= i < front.len() && (#[trigger] front[i]).id == id && front[i].thread_id
                        == Some(thread_id);
                assert(sessions[i] == front[i]);
            },
            None => {
                assert forall|i: int| 0 <= i < front.len() implies (#[trigger] sessions[i]).thread_id
                    != Some(thread_id) || store.public_session(sessions[i].id) is None by {
                    assert(sessions[i] == front[i]);
                }
                assert(sessions[sessions.len() - 1] == sessions.last());
            },
        }
    }
}

/// What the backend tells of a thread goes to a public session that runs in the
/// thread, and is passed over only where there is none. What it tells of no thread
/// changes nothing.
pub proof fn law_thread_leads_to_its_session(store: StoreView, raw: JsonView, now: u64)
    ensures
        match raw.field("params"@).field("threadId"@) {
            JsonView::Text(thread_id) => match public_session_of_thread(
                store,
                store.sessions,
                thread_id,
            ) {
                Some(id) => {
                    &&& store.public_session(id) is Some
                    &&& exists|i: int|
                        0 <= i < store.sessions.len() && (#[trigger] store.sessions[i]).id == id
                            && store.sessions[i].thread_id == Some(thread_id)
                },
                None => {
                    &&& notified(store, raw, now).0 == store
                    &&& forall|i: int|
                        0 <= i < store.sessions.len() ==> (#[trigger] store.sessions[i]).thread_id
                            != Some(thread_id) || store.public_session(store.sessions[i].id) is None
                },
            },
            _ => notified(store, raw, now).0 == store,
        },
{
    match raw.field("params"@).field("threadId"@) {
        JsonView::Text(thread_id) => {
            lemma_found_is_public(store, store.sessions, thread_id);
        },
        _ => {},
    }
}

/// What is recorded and announced of a turn.
proof fn lemma_turn_kept(
    store: StoreView,
    raw: JsonView,
    now: u64,
    started: bool,
    session_id: Seq<char>,
    turn_id: Seq<char>,
)
    requires
        store.well_formed(),
        tells_of_turn(store, raw, started, session_id, turn_id),
    ensures
        ({
            let source = raw.field("params"@).field("turn"@);
            let (after, result) = notified(store, raw, now);
            let status = turn_status(source);
            let agent_id = store.public_session(session_id)->0.data.field("agent"@).field("id"@);
            let turn = public_turn(session_id, agent_id, turn_id, source, now);
            let n = store.outbox.len() as int;
            &&& result is Ok
            &&& after == turn_changed(store, session_id, started, source, now).0
            &&& store.public_session(session_id) is Some
            &&& after.record(session_id, RecordKind::Turn, turn_id) is Some
            &&& after.record(session_id, RecordKind::Turn, turn_id)->0.data == turn
            &&& store.outbox.is_prefix_of(after.outbox)
            &&& after.outbox[n] is Save
            &&& started ==> {
                &&& after.outbox.len() == n + 5 + (if status != "in_progress"@ {
                    2int
                } else {
                    0int
                })
                &&& after.outbox[n + 2] is Publish
                &&& after.outbox[n + 2]->Publish_0.field("type"@) == JsonView::Text(
                    "agent.session."@ + "in_progress"@,
                )
                &&& after.outbox[n + 3] == EffectView::Publish(
                    turn_event("created"@, session_id, turn_id, turn),
                )
                &&& after.outbox[n + 4] == EffectView::Publish(
                    turn_event(status, session_id, turn_id, turn),
                )
            }
            &&& !started ==> {
                &&& after.outbox.len() == n + 2 + (if status != "in_progress"@ {
                    2int
                } else {
                    0int
                })
                &&& after.outbox[n + 1] == EffectView::Publish(
                    turn_event(status, session_id, turn_id, turn),
                )
            }
            &&& status != "in_progress"@ ==> {
                &&& after.outbox.last() is Publish
                &&& after.outbox.last()->Publish_0.field("type"@) == JsonView::Text(
                    "agent.session."@ + "idle"@,
                )
                &&& after.outbox.last()->Publish_0.field("session"@).field("status"@)
                    == JsonView::Text("idle"@)
                &&& after.public_session(session_id) is Some
                &&& after.public_session(session_id)->0.data.field("status"@) == JsonView::Text(
                    "idle"@,
                )
                &&& after.public_session(session_id)->0.data.field("error"@) == JsonView::Null
            }
            &&& status == "in_progress"@ && started ==> {
                &&& after.public_session(session_id) is Some
                &&& after.public_session(session_id)->0.data.field("status"@) == JsonView::Text(
                    "in_progress"@,
                )
                &&& after.public_session(session_id)->0.data.field("error"@) == JsonView::Null
            }
            &&& status == "in_progress"@ && !started ==> after.public_sessions
                == store.public_sessions
        }),
{
    let source = raw.field("params"@).field("turn"@);
    let thread_id = raw.field("params"@).field("threadId"@).text()->0;
    lemma_notification_methods();
    lemma_found_is_public(store, store.sessions, thread_id);
    lemma_public_session_found(store, session_id);
    assert(store.session_row(session_id) is Some);
    let row = store.public_session(session_id)->0;
    assert(row.data is Object);
    let agent_id = row.data.field("agent"@).field("id"@);
    assert(store.public_view(session_id)->Ok_0.field("agent"@).field("id"@) == agent_id) by {
        lemma_session_names();
        broadcast use group_object_reads;

    }
    let turn = public_turn(session_id, agent_id, turn_id, source, now);
    lemma_public_turn(session_id, agent_id, turn_id, source, now);
    lemma_record_is_sound(store, session_id, RecordKind::Turn, turn, turn_id);
    let saved = store.with_record(session_id, RecordKind::Turn, turn, turn_id).0;
    let kept = match store.record(session_id, RecordKind::Turn, turn_id) {
        Some(row) => row.turn_id,
        None => turn_id,
    };
    lemma_put_lookup::<Record>(
        store.records,
        RecordView {
            session_id,
            kind: RecordKind::Turn,
            id: turn_id,
            turn_id: kept,
            data: turn,
        },
        record_key(session_id, RecordKind::Turn, turn_id),
    );
    let status = turn_status(source);
    lemma_status_read_back(saved, session_id, "in_progress"@, None, now);
    lemma_status_announced(saved, session_id, "in_progress"@, None, now);
    law_session_status_is_sound(saved, session_id, "in_progress"@, None, now);
    let opened = if started {
        saved.with_session_status(session_id, "in_progress"@, None, now).0
    } else {
        saved
    };
    let created = if started {
        opened.published(turn_event("created"@, session_id, turn_id, turn))
    } else {
        opened
    };
    let told = created.published(turn_event(status, session_id, turn_id, turn));
    lemma_status_read_back(told, session_id, "idle"@, None, now);
    lemma_status_announced(told, session_id, "idle"@, None, now);
}

/// How the status of a session is announced.
proof fn lemma_status_announced(
    store: StoreView,
    id: Seq<char>,
    status: Seq<char>,
    error: Option<Seq<char>>,
    now: u64,
)
    requires
        store.well_formed(),
        store.public_session(id) is Some,
    ensures
        ({
            let after = store.with_session_status(id, status, error, now).0;
            let n = store.outbox.len() as int;
            let event = after.outbox[n + 1]->Publish_0;
            &&& store.with_session_status(id, status, error, now).1 is Ok
            &&& after.outbox.len() == n + 2
            &&& store.outbox.is_prefix_of(after.outbox)
            &&& after.outbox[n] is Save
            &&& after.outbox[n + 1] is Publish
            &&& event.field("type"@) == JsonView::Text("agent.session."@ + status)
            &&& event.field("session"@) == after.public_session(id)->0.data
            &&& event.field("session"@).field("status"@) == JsonView::Text(status)
            &&& after.records == store.records
            &&& after.public_session(id) is Some
            &&& after.public_session(id)->0.data.field("last_active_at"@) == JsonView::Number(
                NumberView::Unsigned(now),
            )
            &&& after.public_session(id)->0.data.get("error"@) == Some(optional_text(error))
            &&& forall|key: Seq<char>|
                key != "status"@ && key != "error"@ && key != "last_active_at"@ && key
                    != "required_actions"@ ==> #[trigger] after.public_session(id)->0.data.get(key)
                    == store.public_session(id)->0.data.get(key)
        }),
{
    lemma_public_session_found(store, id);
    assert(store.session_row(id) is Some);
    lemma_status_read_back(store, id, status, error, now);
    let data = store.public_view(id)->Ok_0.with("status"@, JsonView::Text(status)).with(
        "error"@,
        optional_text(error),
    ).with("last_active_at"@, number(now));
    lemma_put_lookup::<PublicSession>(
        store.public_sessions,
        PublicSessionView { id, data },
        seq![id],
    );
    lemma_event_fields();
    lemma_session_names();
    broadcast use group_object_reads;

}

/// What the backend tells of a turn is read back as it told it: the turn is
/// completed, cancelled or failed where the backend says completed, interrupted or
/// failed, and in progress otherwise; a failed turn says why.
pub proof fn law_turns_are_recorded_as_told(
    store: StoreView,
    raw: JsonView,
    now: u64,
    started: bool,
    session_id: Seq<char>,
    turn_id: Seq<char>,
)
    requires
        store.well_formed(),
        tells_of_turn(store, raw, started, session_id, turn_id),
    ensures
        ({
            let source = raw.field("params"@).field("turn"@);
            let told = source.field("status"@);
            let row = notified(store, raw, now).0.record(session_id, RecordKind::Turn, turn_id);
            let turn = row->0.data;
            &&& row is Some
            &&& turn.field("id"@) == JsonView::Text(turn_id)
            &&& turn.field("object"@) == JsonView::Text("agent.session.turn"@)
            &&& turn.field("session_id"@) == JsonView::Text(session_id)
            &&& turn.field("agent_id"@) == store.public_session(session_id)->0.data.field(
                "agent"@,
            ).field("id"@)
            &&& turn.get("started_at"@) == Some(source.field("startedAt"@))
            &&& turn.get("completed_at"@) == Some(source.field("completedAt"@))
            &&& turn.get("usage"@) == Some(JsonView::Null)
            &&& turn.get("subagent_id"@) == Some(JsonView::Null)
            &&& turn.field("created_at"@) == match source.field("startedAt"@) {
                JsonView::Number(NumberView::Unsigned(at)) => JsonView::Number(
                    NumberView::Unsigned(at),
                ),
                _ => JsonView::Number(NumberView::Unsigned(now)),
            }
            &&& told == JsonView::Text("completed"@) ==> turn.field("status"@) == JsonView::Text(
                "completed"@,
            )
            &&& told == JsonView::Text("interrupted"@) ==> turn.field("status"@)
                == JsonView::Text("cancelled"@)
            &&& told == JsonView::Text("failed"@) ==> {
                &&& turn.field("status"@) == JsonView::Text("failed"@)
                &&& turn.field("error"@).field("code"@) == JsonView::Text("internal_error"@)
                &&& turn.field("error"@).field("message"@) == match source.field("error"@).field(
                    "message"@,
                ) {
                    JsonView::Text(message) => JsonView::Text(message),
                    _ => JsonView::Text("turn failed"@),
                }
            }
            &&& told != JsonView::Text("failed"@) ==> turn.get("error"@) == Some(JsonView::Null)
            &&& told != JsonView::Text("completed"@) && told != JsonView::Text("interrupted"@)
                && told != JsonView::Text("failed"@) ==> turn.field("status"@) == JsonView::Text(
                "in_progress"@,
            )
        }),
{
    lemma_turn_kept(store, raw, now, started, session_id, turn_id);
    lemma_turn_names();
    lemma_turn_words();
    lemma_failure_names();
    broadcast use group_object_reads;

}

/// A session is in progress once a turn of it has started and idle once one has
/// ended, with no error left from before.
pub proof fn law_turns_move_their_session(
    store: StoreView,
    raw: JsonView,
    now: u64,
    started: bool,
    session_id: Seq<char>,
    turn_id: Seq<char>,
)
    requires
        store.well_formed(),
        tells_of_turn(store, raw, started, session_id, turn_id),
    ensures
        ({
            let told = raw.field("params"@).field("turn"@).field("status"@);
            let ended = told == JsonView::Text("completed"@) || told == JsonView::Text(
                "interrupted"@,
            ) || told == JsonView::Text("failed"@);
            let after = notified(store, raw, now).0;
            let session = after.public_session(session_id)->0.data;
            &&& after.public_session(session_id) is Some
            &&& ended ==> session.field("status"@) == JsonView::Text("idle"@) && session.field(
                "error"@,
            ) == JsonView::Null
            &&& !ended && started ==> session.field("status"@) == JsonView::Text("in_progress"@)
                && session.field("error"@) == JsonView::Null
            &&& !ended && !started ==> after.public_sessions == store.public_sessions
        }),
{
    lemma_turn_kept(store, raw, now, started, session_id, turn_id);
    lemma_turn_words();
}

/// A turn is announced, as it is recorded, when it starts and when it ends: as
/// created and then by its status, and its session's status with it.
pub proof fn law_turns_are_announced_as_recorded(
    store: StoreView,
    raw: JsonView,
    now: u64,
    started: bool,
    session_id: Seq<char>,
    turn_id: Seq<char>,
)
    requires
        store.well_formed(),
        tells_of_turn(store, raw, started, session_id, turn_id),
    ensures
        ({
            let after = notified(store, raw, now).0;
            let turn = after.record(session_id, RecordKind::Turn, turn_id)->0.data;
            let n = store.outbox.len() as int;
            let at = if started {
                n + 4
            } else {
                n + 1
            };
            let event = after.outbox[at]->Publish_0;
            &&& after.outbox[n] is Save
            &&& after.outbox.len() > at
            &&& after.outbox[at] is Publish
            &&& turn.field("status"@) is Text
            &&& event.field("type"@) == JsonView::Text(
                "agent.session.turn."@ + turn.field("status"@)->Text_0,
            )
            &&& event.field("session_id"@) == JsonView::Text(session_id)
            &&& event.field("turn_id"@) == JsonView::Text(turn_id)
            &&& event.field("turn"@) == turn
            &&& started ==> {
                let created = after.outbox[n + 3]->Publish_0;
                &&& after.outbox[n + 2] is Publish
                &&& after.outbox[n + 2]->Publish_0.field("type"@) == JsonView::Text(
                    "agent.session."@ + "in_progress"@,
                )
                &&& after.outbox[n + 3] is Publish
                &&& created.field("type"@) == JsonView::Text("agent.session.turn."@ + "created"@)
                &&& created.field("session_id"@) == JsonView::Text(session_id)
                &&& created.field("turn_id"@) == JsonView::Text(turn_id)
                &&& created.field("turn"@) == turn
            }
            &&& turn.field("status"@) != JsonView::Text("in_progress"@) ==> {
                &&& after.outbox.len() == at + 3
                &&& after.outbox.last() is Publish
                &&& after.outbox.last()->Publish_0.field("type"@) == JsonView::Text(
                    "agent.session."@ + "idle"@,
                )
                &&& after.outbox.last()->Publish_0.field("session"@).field("status"@)
                    == JsonView::Text("idle"@)
            }
            &&& turn.field("status"@) == JsonView::Text("in_progress"@) ==> after.outbox.len()
                == at + 1
        }),
{
    lemma_turn_kept(store, raw, now, started, session_id, turn_id);
    let source = raw.field("params"@).field("turn"@);
    lemma_turn_words();
    let turn = notified(store, raw, now).0.record(session_id, RecordKind::Turn, turn_id)->0.data;
    assert(turn.get("status"@) == Some(JsonView::Text(turn_status(source)))) by {
        lemma_turn_names();
        broadcast use group_object_reads;

    }
    lemma_event_fields();
    broadcast use group_object_reads;

}

/// A call that is put before the application makes its turn wait and its session
/// require an action, and the session is announced so.
pub proof fn law_required_action_makes_the_turn_wait(
    store: StoreView,
    raw: JsonView,
    now: u64,
    session_id: Seq<char>,
    turn_id: Seq<char>,
)
    requires
        store.well_formed(),
        raw.field("method"@) == JsonView::Text("session.requires_action"@),
        raw.field("params"@).field("threadId"@).text() is Some,
        public_session_of_thread(
            store,
            store.sessions,
            raw.field("params"@).field("threadId"@).text()->0,
        ) == Some(session_id),
        raw.field("params"@).field("action"@).field("turnId"@) == JsonView::Text(turn_id),
    ensures
        ({
            let (after, result) = notified(store, raw, now);
            let row = after.record(session_id, RecordKind::Turn, turn_id);
            let session = after.public_session(session_id)->0.data;
            &&& result is Ok
            &&& row is Some <==> store.record(session_id, RecordKind::Turn, turn_id) is Some
            &&& row is Some ==> row->0.data.field("status"@) == JsonView::Text("waiting"@)
            &&& row is Some ==> forall|key: Seq<char>|
                key != "status"@ ==> #[trigger] row->0.data.get(key) == store.record(
                    session_id,
                    RecordKind::Turn,
                    turn_id,
                )->0.data.get(key)
            &&& after.public_session(session_id) is Some
            &&& session.field("status"@) == JsonView::Text("requires_action"@)
            &&& session.field("error"@) == JsonView::Null
            &&& after.outbox.last() is Publish
            &&& after.outbox.last()->Publish_0.field("type"@) == JsonView::Text(
                "agent.session."@ + "requires_action"@,
            )
            &&& after.outbox.last()->Publish_0.field("session"@) == session
        }),
{
    let thread_id = raw.field("params"@).field("threadId"@).text()->0;
    lemma_notification_methods();
    lemma_found_is_public(store, store.sessions, thread_id);
    lemma_turn_status_is_sound(store, session_id, turn_id, "waiting"@);
    let waiting = store.with_turn_status(session_id, turn_id, "waiting"@);
    match store.record(session_id, RecordKind::Turn, turn_id) {
        Some(row) => {
            lemma_record_found(store, session_id, RecordKind::Turn, turn_id);
            let changed = RecordView {
                data: row.data.with("status"@, JsonView::Text("waiting"@)),
                ..row
            };
            assert(row.data is Object);
            lemma_put_lookup::<Record>(
                store.records,
                changed,
                record_key(session_id, RecordKind::Turn, turn_id),
            );
            broadcast use group_object_reads;

            assert(changed.data.field("status"@) == JsonView::Text("waiting"@));
            assert forall|key: Seq<char>| key != "status"@ implies #[trigger] changed.data.get(key)
                == row.data.get(key) by {}
        },
        None => {},
    }
    lemma_status_read_back(waiting, session_id, "requires_action"@, None, now);
    lemma_status_announced(waiting, session_id, "requires_action"@, None, now);
}

/// Whatever is said of a session's status is what is read back, and it is announced
/// as it is read back, with the time at which it was said.
pub proof fn law_session_status_is_read_back(
    store: StoreView,
    id: Seq<char>,
    status: Seq<char>,
    error: Option<Seq<char>>,
    now: u64,
)
    requires
        store.well_formed(),
        store.public_session(id) is Some,
    ensures
        ({
            let (after, result) = store.with_session_status(id, status, error, now);
            let session = after.public_session(id)->0.data;
            &&& result is Ok
            &&& after.public_session(id) is Some
            &&& session.field("status"@) == JsonView::Text(status)
            &&& session.get("error"@) == Some(
                match error {
                    Some(message) => JsonView::Text(message),
                    None => JsonView::Null,
                },
            )
            &&& session.field("last_active_at"@) == JsonView::Number(NumberView::Unsigned(now))
            &&& forall|key: Seq<char>|
                key != "status"@ && key != "error"@ && key != "last_active_at"@ && key
                    != "required_actions"@ ==> #[trigger] session.get(key) == store.public_session(
                    id,
                )->0.data.get(key)
            &&& after.outbox.last() is Publish
            &&& after.outbox.last()->Publish_0.field("type"@) == JsonView::Text(
                "agent.session."@ + status,
            )
            &&& after.outbox.last()->Publish_0.field("session"@) == session
        }),
{
    lemma_status_read_back(store, id, status, error, now);
    lemma_status_announced(store, id, status, error, now);
}

/// What the backend tells of a thread is recorded only where a public session runs in
/// it and it tells of a turn, of an item that is shown, or of a call; anything else
/// changes nothing. What tells of a turn or of an item without saying which changes
/// nothing either, and fails.
pub proof fn law_other_messages_change_nothing(store: StoreView, raw: JsonView, now: u64)
    requires
        store.well_formed(),
    ensures
        ({
            let params = raw.field("params"@);
            let method = raw.field("method"@);
            let thread = params.field("threadId"@);
            let kind = params.field("item"@).field("type"@);
            let of_turn = method == JsonView::Text("turn/started"@) || method == JsonView::Text(
                "turn/completed"@,
            );
            let of_item = method == JsonView::Text("item/started"@) || method == JsonView::Text(
                "item/completed"@,
            );
            let of_call = method == JsonView::Text("session.requires_action"@);
            let shown = kind == JsonView::Text("userMessage"@) || kind == JsonView::Text(
                "agentMessage"@,
            ) || kind == JsonView::Text("reasoning"@) || kind == JsonView::Text(
                "dynamicToolCall"@,
            );
            let heard = exists|i: int|
                0 <= i < store.sessions.len() && thread is Text && (
                #[trigger] store.sessions[i]).thread_id == Some(thread->Text_0)
                    && store.public_session(store.sessions[i].id) is Some;
            let named = if of_turn {
                params.field("turn"@).field("id"@) is Text
            } else {
                params.field("turnId"@) is Text && params.field("item"@).field("id"@) is Text
            };
            let (after, result) = notified(store, raw, now);
            &&& !heard || !(of_turn || of_item || of_call) ==> after == store && result is Ok
            &&& heard && (of_turn || of_item) && !named ==> {
                &&& after == store
                &&& result is Err
                &&& result->Err_0.status == 500
                &&& result->Err_0.message == "internal API error"@
            }
            &&& heard && of_item && named && !shown ==> after == store && result is Ok
        }),
{
    let thread = raw.field("params"@).field("threadId"@);
    lemma_notification_methods();
    if thread is Text {
        lemma_found_is_public(store, store.sessions, thread->Text_0);
        match public_session_of_thread(store, store.sessions, thread->Text_0) {
            Some(id) => {
                let i = choose|i: int|
                    0 <= i < store.sessions.len() && (#[trigger] store.sessions[i]).id == id
                        && store.sessions[i].thread_id == Some(thread->Text_0);
                assert(store.sessions[i].thread_id == Some(thread->Text_0));
                lemma_public_session_found(store, id);
                assert(store.session_row(id) is Some);
            },
            None => {},
        }
    }
}

/// A call that does not say which turn it belongs to still makes its session wait,
/// and changes no turn.
pub proof fn law_required_action_needs_no_turn(
    store: StoreView,
    raw: JsonView,
    now: u64,
    session_id: Seq<char>,
)
    requires
        store.well_formed(),
        raw.field("method"@) == JsonView::Text("session.requires_action"@),
        raw.field("params"@).field("threadId"@).text() is Some,
        public_session_of_thread(
            store,
            store.sessions,
            raw.field("params"@).field("threadId"@).text()->0,
        ) == Some(session_id),
        raw.field("params"@).field("action"@).field("turnId"@) !is Text,
    ensures
        ({
            let (after, result) = notified(store, raw, now);
            let session = after.public_session(session_id)->0.data;
            &&& result is Ok
            &&& after.records == store.records
            &&& after.public_session(session_id) is Some
            &&& session.field("status"@) == JsonView::Text("requires_action"@)
        }),
{
    let thread_id = raw.field("params"@).field("threadId"@).text()->0;
    lemma_notification_methods();
    lemma_found_is_public(store, store.sessions, thread_id);
    lemma_status_read_back(store, session_id, "requires_action"@, None, now);
    lemma_status_announced(store, session_id, "requires_action"@, None, now);
}

} // verus!
