//! What holds of function calls over several operations.
use crate::actions::action_event;
use crate::actions::delivery_begun;
use crate::actions::delivery_finished;
use crate::actions::in_thread;
use crate::actions::receipt;
use crate::actions::refusal;
use crate::actions::registered;
use crate::actions::required_action;
use crate::actions::resumed;
use crate::actions::session_of_thread;
use crate::actions::withdrawal_rule;
use crate::actions::withdrawn;
use crate::actions::CallParamsView;
use crate::actions::DeliveryView;
use crate::actions::WithdrawalView;
use crate::actions::MAX_PENDING_CALLS;
use crate::disconnect::call_in_flight;
use crate::disconnect::call_loss;
use crate::error::failure;
use crate::json::JsonView;
use crate::reconcile::call_recovery;
use crate::reconcile::reconciled;
use crate::reconcile::turn_in;
use crate::reconcile::uncertain;
use crate::resources::RequiredActionView;
use crate::session_laws::lemma_notified_spares;
use crate::soundness::lemma_call_found;
use crate::steps::law_delivery_finishes_soundly;
use crate::steps::law_reconciliation_is_sound;
use crate::store::actions_of;
use crate::store::call_before;
use crate::store::call_key;
use crate::store::insert_call;
use crate::store::is_open;
use crate::store::open_calls;
use crate::store::CallStatus;
use crate::store::ChangeView;
use crate::store::StoreView;
use crate::store::ToolCall;
use crate::store::ToolCallView;
use crate::sweep::keeps_keys;
use crate::sweep::lemma_swept_lookup;
use crate::sweep::ruled;
use crate::sweep::swept;
use crate::table::lemma_position;
use crate::table::lemma_put_lookup;
use crate::table::position;
use crate::text::lemma_text_total;
use crate::text::lemma_text_transitive;
use crate::text::text_before;
use vstd::prelude::*;

verus! {

/// The store after a call has been written, as far as that call is concerned.
proof fn lemma_call_saved(store: StoreView, call: ToolCallView)
    ensures
        store.saved(ChangeView::Call(call)).call(call.session_id, call.turn_id, call.call_id)
            == Some(call),
{
    lemma_put_lookup::<ToolCall>(
        store.calls,
        call,
        call_key(call.session_id, call.turn_id, call.call_id),
    );
}

/// An answer is handed to the backend once: after that the call takes no answer,
/// whatever it says.
pub proof fn law_answer_is_forwarded_once(
    store: StoreView,
    session_id: Seq<char>,
    turn_id: Seq<char>,
    call_id: Seq<char>,
    success: bool,
    kept: Seq<char>,
    text: Seq<char>,
    again: bool,
    other: Seq<char>,
    later: Seq<char>,
)
    requires
        delivery_begun(store, session_id, turn_id, call_id, success, kept, text).1 is Forward,
    ensures
        ({
            let after = delivery_begun(
                store,
                session_id,
                turn_id,
                call_id,
                success,
                kept,
                text,
            ).0;
            delivery_begun(after, session_id, turn_id, call_id, again, other, later) == (
                after,
                DeliveryView::Refused(
                    failure(
                        409,
                        "tool call is "@ + "submitting"@ + "; result cannot be submitted"@,
                    ),
                ),
            )
        }),
{
    lemma_call_found(store, session_id, turn_id, call_id);
    let call = store.call(session_id, turn_id, call_id)->0;
    lemma_call_saved(
        store,
        ToolCallView { status: CallStatus::Submitting, result: Some(kept), ..call },
    );
}

/// The call whose answer the backend has taken, or not.
proof fn lemma_call_finished(
    store: StoreView,
    session_id: Seq<char>,
    turn_id: Seq<char>,
    call_id: Seq<char>,
    delivered: bool,
    now: u64,
)
    requires
        store.call(session_id, turn_id, call_id) is Some,
    ensures
        delivery_finished(store, session_id, turn_id, call_id, delivered, now).0.call(
            session_id,
            turn_id,
            call_id,
        ) == Some(
            ToolCallView {
                status: if delivered {
                    CallStatus::Submitted
                } else {
                    CallStatus::Unavailable
                },
                ..store.call(session_id, turn_id, call_id)->0
            },
        ),
{
    lemma_call_found(store, session_id, turn_id, call_id);
    let call = store.call(session_id, turn_id, call_id)->0;
    let status = if delivered {
        CallStatus::Submitted
    } else {
        CallStatus::Unavailable
    };
    lemma_call_saved(store, ToolCallView { status, ..call });
    let saved = store.saved(ChangeView::Call(ToolCallView { status, ..call }));
    assert(resumed(saved, session_id, turn_id, now).0.calls == saved.calls);
}

/// Once the backend has taken an answer, the same answer gets its receipt again
/// and changes nothing, and any other answer is a conflict.
pub proof fn law_retries_get_the_receipt(
    store: StoreView,
    session_id: Seq<char>,
    turn_id: Seq<char>,
    call_id: Seq<char>,
    success: bool,
    kept: Seq<char>,
    text: Seq<char>,
    now: u64,
    other: Seq<char>,
)
    requires
        delivery_begun(store, session_id, turn_id, call_id, success, kept, text).1 is Forward,
        other != kept,
    ensures
        ({
            let begun = delivery_begun(
                store,
                session_id,
                turn_id,
                call_id,
                success,
                kept,
                text,
            ).0;
            let after = delivery_finished(begun, session_id, turn_id, call_id, true, now).0;
            &&& delivery_begun(after, session_id, turn_id, call_id, success, kept, text) == (
                after,
                DeliveryView::Known(receipt(turn_id, call_id)),
            )
            &&& delivery_begun(after, session_id, turn_id, call_id, success, other, text) == (
                after,
                DeliveryView::Refused(
                    failure(
                        409,
                        "tool call is "@ + "submitted"@ + "; result cannot be submitted"@,
                    ),
                ),
            )
        }),
{
    lemma_call_found(store, session_id, turn_id, call_id);
    let call = store.call(session_id, turn_id, call_id)->0;
    let submitting = ToolCallView {
        status: CallStatus::Submitting,
        result: Some(kept),
        ..call
    };
    lemma_call_saved(store, submitting);
    let begun = delivery_begun(store, session_id, turn_id, call_id, success, kept, text).0;
    lemma_call_finished(begun, session_id, turn_id, call_id, true, now);
}

/// An answer that may not have reached the backend is not handed to it again:
/// the call is unavailable from then on.
pub proof fn law_unknown_delivery_is_not_repeated(
    store: StoreView,
    session_id: Seq<char>,
    turn_id: Seq<char>,
    call_id: Seq<char>,
    now: u64,
    success: bool,
    kept: Seq<char>,
    text: Seq<char>,
)
    requires
        store.call(session_id, turn_id, call_id) is Some,
    ensures
        ({
            let after = delivery_finished(store, session_id, turn_id, call_id, false, now).0;
            delivery_begun(after, session_id, turn_id, call_id, success, kept, text) == (
                after,
                DeliveryView::Refused(
                    failure(
                        409,
                        "tool call is "@ + "unavailable"@ + "; result cannot be submitted"@,
                    ),
                ),
            )
        }),
{
    lemma_call_finished(store, session_id, turn_id, call_id, false, now);
}

/// A call that waited for an answer when its connection was lost cannot be
/// answered any more, so no answer reaches the connection that replaces it.
pub proof fn law_stale_calls_conflict(
    store: StoreView,
    now: u64,
    session_id: Seq<char>,
    turn_id: Seq<char>,
    call_id: Seq<char>,
    success: bool,
    kept: Seq<char>,
    text: Seq<char>,
)
    ensures
        ({
            let after = store.connection_lost(now);
            let answered = delivery_begun(
                after,
                session_id,
                turn_id,
                call_id,
                success,
                kept,
                text,
            );
            &&& answered.0 == after
            &&& answered.1 !is Forward
            &&& match store.call(session_id, turn_id, call_id) {
                Some(call) => call_in_flight(call) ==> answered.1 == DeliveryView::Refused(
                    failure(
                        409,
                        "tool call is "@ + "unavailable"@ + "; result cannot be submitted"@,
                    ),
                ),
                None => answered.1 == DeliveryView::Refused(
                    failure(404, "tool call not found"@),
                ),
            }
        }),
{
    assert(keeps_keys::<ToolCall>(call_loss()));
    lemma_swept_lookup::<ToolCall>(
        store.calls,
        call_loss(),
        call_key(session_id, turn_id, call_id),
    );
}

/// Once a turn is over, none of its calls waits for an answer.
pub proof fn law_finished_turn_has_no_pending_call(
    store: StoreView,
    thread_id: Seq<char>,
    turn_id: Seq<char>,
    i: int,
)
    requires
        0 <= i < store.calls.len(),
    ensures
        ({
            let after = withdrawn(store, thread_id, WithdrawalView::Turn(turn_id));
            &&& after.calls.len() == store.calls.len()
            &&& store.calls[i].turn_id == turn_id && in_thread(
                store.sessions,
                store.calls[i].session_id,
                thread_id,
            ) ==> after.calls[i].status !is Pending
            &&& store.calls[i].turn_id != turn_id || !in_thread(
                store.sessions,
                store.calls[i].session_id,
                thread_id,
            ) ==> after.calls[i] == store.calls[i]
        }),
{
    let rule = withdrawal_rule(store.sessions, thread_id, WithdrawalView::Turn(turn_id));
    assert(swept(store.calls, rule)[i] == ruled(store.calls[i], rule));
}

/// The order of calls is transitive where calls may be alike.
proof fn lemma_call_order(a: ToolCallView, b: ToolCallView, c: ToolCallView)
    requires
        !call_before(b, a),
        call_before(c, b) == false,
    ensures
        !call_before(c, a),
{
    lemma_text_total(a.turn_id, b.turn_id);
    lemma_text_total(b.turn_id, c.turn_id);
    lemma_text_total(a.turn_id, c.turn_id);
    lemma_text_total(a.call_id, b.call_id);
    lemma_text_total(b.call_id, c.call_id);
    lemma_text_total(a.call_id, c.call_id);
    if text_before(a.turn_id, b.turn_id) && text_before(b.turn_id, c.turn_id) {
        lemma_text_transitive(a.turn_id, b.turn_id, c.turn_id);
    }
    if text_before(a.call_id, b.call_id) && text_before(b.call_id, c.call_id) {
        lemma_text_transitive(a.call_id, b.call_id, c.call_id);
    }
}

/// Whether no call comes before one that stands ahead of it.
pub open spec fn in_order(calls: Seq<ToolCallView>) -> bool {
    forall|i: int, j: int|
        0 <= i < j < calls.len() ==> !call_before(#[trigger] calls[j], #[trigger] calls[i])
}

/// A call that is inserted is there, as are those that were, in order.
proof fn lemma_insert_call(calls: Seq<ToolCallView>, call: ToolCallView)
    requires
        in_order(calls),
    ensures
        insert_call(calls, call).len() == calls.len() + 1,
        in_order(insert_call(calls, call)),
        forall|c: ToolCallView| #[trigger]
            insert_call(calls, call).contains(c) <==> c == call || calls.contains(c),
    decreases calls.len(),
{
    let after = insert_call(calls, call);
    if calls.len() == 0 || !call_before(call, calls.last()) {
        assert forall|i: int, j: int| 0 <= i < j < after.len() implies !call_before(
            #[trigger] after[j],
            #[trigger] after[i],
        ) by {
            if j == calls.len() {
                if i < calls.len() - 1 {
                    assert(!call_before(calls.last(), calls[i]));
                    lemma_call_order(calls[i], calls.last(), call);
                }
            } else {
                assert(after[i] == calls[i] && after[j] == calls[j]);
            }
        }
        assert forall|c: ToolCallView| #[trigger] after.contains(c) <==> c == call
            || calls.contains(c) by {
            if calls.contains(c) {
                let i = calls.index_of(c);
                assert(after[i] == c);
            }
            assert(after[calls.len() as int] == call);
            if after.contains(c) {
                let i = after.index_of(c);
                if i < calls.len() {
                    assert(calls[i] == c);
                }
            }
        }
    } else {
        let front = calls.drop_last();
        let last = calls.last();
        assert(in_order(front)) by {
            assert forall|i: int, j: int| 0 <= i < j < front.len() implies !call_before(
                #[trigger] front[j],
                #[trigger] front[i],
            ) by {
                assert(front[i] == calls[i] && front[j] == calls[j]);
            }
        }
        lemma_insert_call(front, call);
        let placed = insert_call(front, call);
        assert forall|i: int, j: int| 0 <= i < j < after.len() implies !call_before(
            #[trigger] after[j],
            #[trigger] after[i],
        ) by {
            if j == placed.len() {
                assert(after[j] == last);
                assert(after[i] == placed[i]);
                assert(placed.contains(placed[i]));
                if placed[i] == call {
                    lemma_text_total(call.turn_id, last.turn_id);
                    lemma_text_total(call.call_id, last.call_id);
                } else {
                    let k = front.index_of(placed[i]);
                    assert(front[k] == calls[k]);
                    assert(!call_before(calls[calls.len() - 1], calls[k]));
                }
            } else {
                assert(after[i] == placed[i] && after[j] == placed[j]);
            }
        }
        assert forall|c: ToolCallView| #[trigger] after.contains(c) <==> c == call
            || calls.contains(c) by {
            if calls.contains(c) {
                let i = calls.index_of(c);
                if i < front.len() {
                    assert(front[i] == c);
                    assert(front.contains(c));
                    assert(placed.contains(c));
                    let k = placed.index_of(c);
                    assert(after[k] == c);
                } else {
                    assert(after[placed.len() as int] == c);
                }
            }
            if c == call {
                assert(placed.contains(c));
                let k = placed.index_of(c);
                assert(after[k] == c);
            }
            if after.contains(c) {
                let i = after.index_of(c);
                if i < placed.len() {
                    assert(placed[i] == c);
                    assert(placed.contains(c));
                    if c != call {
                        let k = front.index_of(c);
                        assert(calls[k] == c);
                    }
                } else {
                    assert(calls[calls.len() - 1] == c);
                }
            }
        }
    }
}

/// The calls that a session shows are exactly its calls that are neither
/// answered nor withdrawn, in the order of turns and calls.
pub proof fn law_open_calls_are_ordered(calls: Seq<ToolCallView>, session_id: Seq<char>)
    ensures
        in_order(open_calls(calls, session_id)),
        forall|c: ToolCallView| #[trigger]
            open_calls(calls, session_id).contains(c) <==> calls.contains(c) && c.session_id
                == session_id && is_open(c.status),
    decreases calls.len(),
{
    if calls.len() > 0 {
        let front = calls.drop_last();
        law_open_calls_are_ordered(front, session_id);
        let call = calls.last();
        let shown = open_calls(front, session_id);
        if call.session_id == session_id && is_open(call.status) {
            lemma_insert_call(shown, call);
        }
        assert forall|c: ToolCallView| #[trigger] open_calls(calls, session_id).contains(c) <==>
            calls.contains(c) && c.session_id == session_id && is_open(c.status) by {
            if calls.contains(c) {
                let i = calls.index_of(c);
                if i < front.len() {
                    assert(front[i] == c);
                    assert(front.contains(c));
                }
            }
            if front.contains(c) {
                let i = front.index_of(c);
                assert(calls[i] == c);
            }
            assert(calls[calls.len() - 1] == call);
        }
    }
}

/// The calls after the loss of the connection.
pub open spec fn after_loss(calls: Seq<ToolCallView>) -> Seq<ToolCallView> {
    swept(calls, call_loss())
}

/// Inserting a call and losing the connection can be done in either order.
proof fn lemma_insert_after_loss(calls: Seq<ToolCallView>, call: ToolCallView)
    ensures
        insert_call(after_loss(calls), ruled(call, call_loss())) == after_loss(
            insert_call(calls, call),
        ),
    decreases calls.len(),
{
    let lost = after_loss(calls);
    if calls.len() == 0 || !call_before(call, calls.last()) {
        if calls.len() > 0 {
            assert(lost.last() == ruled(calls.last(), call_loss()));
        }
        assert(lost.push(ruled(call, call_loss())) =~= after_loss(calls.push(call)));
    } else {
        assert(lost.last() == ruled(calls.last(), call_loss()));
        assert(lost.drop_last() =~= after_loss(calls.drop_last()));
        lemma_insert_after_loss(calls.drop_last(), call);
        assert(after_loss(insert_call(calls.drop_last(), call)).push(lost.last()) =~= after_loss(
            insert_call(calls.drop_last(), call).push(calls.last()),
        ));
    }
}

/// The open calls of a session stay open, in their order, when the connection is
/// lost.
proof fn lemma_open_after_loss(calls: Seq<ToolCallView>, session_id: Seq<char>)
    ensures
        open_calls(after_loss(calls), session_id) == after_loss(open_calls(calls, session_id)),
    decreases calls.len(),
{
    if calls.len() == 0 {
        assert(after_loss(calls) =~= Seq::<ToolCallView>::empty());
        assert(after_loss(open_calls(calls, session_id)) =~= Seq::<ToolCallView>::empty());
    } else {
        let front = calls.drop_last();
        let call = calls.last();
        lemma_open_after_loss(front, session_id);
        assert(after_loss(calls).drop_last() =~= after_loss(front));
        assert(after_loss(calls).last() == ruled(call, call_loss()));
        lemma_insert_after_loss(open_calls(front, session_id), call);
    }
}

/// What calls ask of the application.
pub open spec fn all_actions(calls: Seq<ToolCallView>) -> Seq<RequiredActionView> {
    calls.map_values(|call: ToolCallView| call.action)
}

/// The actions of calls none of which is pending.
proof fn lemma_actions_after_loss(calls: Seq<ToolCallView>)
    ensures
        actions_of(after_loss(calls), true) == Seq::<RequiredActionView>::empty(),
        actions_of(after_loss(calls), false) == all_actions(calls),
    decreases calls.len(),
{
    let lost = after_loss(calls);
    if calls.len() > 0 {
        lemma_actions_after_loss(calls.drop_last());
        assert(lost.drop_last() =~= after_loss(calls.drop_last()));
        assert(lost.last() == ruled(calls.last(), call_loss()));
        assert(lost.last().status !is Pending);
        assert(all_actions(calls) =~= all_actions(calls.drop_last()).push(calls.last().action));
    } else {
        assert(all_actions(calls) =~= Seq::<RequiredActionView>::empty());
    }
}

/// When the connection is lost, every call of a session that was neither
/// answered nor withdrawn is shown as unresolved, and none as required.
pub proof fn law_lost_calls_are_unresolved(store: StoreView, now: u64, id: Seq<char>)
    requires
        store.session_row(id) is Some,
    ensures
        store.connection_lost(now).session(id) is Some,
        store.connection_lost(now).session(id)->0.required_actions.len() == 0,
        store.connection_lost(now).session(id)->0.unresolved_actions == all_actions(
            open_calls(store.calls, id),
        ),
{
    lemma_open_after_loss(store.calls, id);
    lemma_actions_after_loss(open_calls(store.calls, id));
}

/// One more pending call is one more action.
proof fn lemma_actions_insert(calls: Seq<ToolCallView>, call: ToolCallView)
    requires
        call.status is Pending,
    ensures
        actions_of(insert_call(calls, call), true).len() == actions_of(calls, true).len() + 1,
    decreases calls.len(),
{
    if calls.len() == 0 || !call_before(call, calls.last()) {
        assert(calls.push(call).drop_last() =~= calls);
    } else {
        let placed = insert_call(calls.drop_last(), call);
        lemma_actions_insert(calls.drop_last(), call);
        assert(placed.push(calls.last()).drop_last() =~= placed);
    }
}

/// To take a call in never leaves a session with more calls that wait for the
/// application than it may have.
pub proof fn law_pending_calls_are_bounded(
    store: StoreView,
    request: Seq<char>,
    call: CallParamsView,
    size: nat,
    now: u64,
    id: Seq<char>,
)
    requires
        store.session(id) is Some,
        store.session(id)->0.required_actions.len() <= MAX_PENDING_CALLS,
    ensures
        registered(store, request, call, size, now).0.session(id) is Some,
        registered(store, request, call, size, now).0.session(id)->0.required_actions.len()
            <= MAX_PENDING_CALLS,
{
    match session_of_thread(store.sessions, call.thread_id) {
        None => {},
        Some(session_id) => match refusal(store, session_id, call, size) {
            Some(_) => {},
            None => {
                let row = ToolCallView {
                    session_id,
                    turn_id: call.turn_id,
                    call_id: call.call_id,
                    request_id: request,
                    action: required_action(call),
                    status: CallStatus::Pending,
                    result: None,
                };
                let saved = store.saved(ChangeView::Call(row));
                assert(saved.calls == store.calls.push(row));
                assert(store.calls.push(row).drop_last() =~= store.calls);
                lemma_actions_insert(open_calls(store.calls, session_id), row);
                let event = action_event(session_id, call);
                lemma_notified_spares(saved, event, now);
            },
        },
    }
}

/// What is shown as an action of calls is what one of the calls asks.
proof fn lemma_action_of_call(calls: Seq<ToolCallView>, pending: bool, i: int)
    requires
        0 <= i < actions_of(calls, pending).len(),
    ensures
        exists|j: int|
            0 <= j < calls.len() && (#[trigger] calls[j]).action == actions_of(calls, pending)[i],
    decreases calls.len(),
{
    let front = actions_of(calls.drop_last(), pending);
    if i < front.len() {
        lemma_action_of_call(calls.drop_last(), pending, i);
        let j = choose|j: int|
            0 <= j < calls.drop_last().len() && (#[trigger] calls.drop_last()[j]).action
                == front[i];
        assert(calls[j].action == front[i]);
    } else {
        assert(calls[calls.len() - 1].action == actions_of(calls, pending)[i]);
    }
}

/// A call that is not open is not shown by its session.
proof fn lemma_settled_call_is_not_shown(
    store: StoreView,
    call: ToolCallView,
    pending: bool,
    i: int,
)
    requires
        store.well_formed(),
        store.call(call.session_id, call.turn_id, call.call_id) == Some(call),
        !is_open(call.status),
        0 <= i < actions_of(open_calls(store.calls, call.session_id), pending).len(),
    ensures
        ({
            let action = actions_of(open_calls(store.calls, call.session_id), pending)[i];
            action.turn_id != call.turn_id || action.call_id != call.call_id
        }),
{
    let shown = open_calls(store.calls, call.session_id);
    lemma_action_of_call(shown, pending, i);
    let j = choose|j: int|
        0 <= j < shown.len() && (#[trigger] shown[j]).action == actions_of(shown, pending)[i];
    law_open_calls_are_ordered(store.calls, call.session_id);
    assert(shown.contains(shown[j]));
    let k = store.calls.index_of(shown[j]);
    assert(store.calls[k] == shown[j]);
    let key = call_key(call.session_id, call.turn_id, call.call_id);
    lemma_position::<ToolCall>(store.calls, key);
    let found = position::<ToolCall>(store.calls, key)->0;
    if shown[j].turn_id == call.turn_id && shown[j].call_id == call.call_id {
        assert(k == found);
    }
}

/// A call whose delivery was uncertain is settled once the history says that its
/// turn completed: its session shows it no more, and the answer that was kept for
/// it gets its receipt.
pub proof fn law_completed_turn_settles_its_calls(
    store: StoreView,
    session_id: Seq<char>,
    history: Seq<JsonView>,
    now: u64,
    turn_id: Seq<char>,
    call_id: Seq<char>,
    success: bool,
    text: Seq<char>,
)
    requires
        store.well_formed(),
        store.call(session_id, turn_id, call_id) is Some,
        uncertain(store.call(session_id, turn_id, call_id)->0),
        turn_in(history, turn_id) is Some,
        turn_in(history, turn_id)->0.field("status"@) == JsonView::Text("completed"@),
    ensures
        ({
            let call = store.call(session_id, turn_id, call_id)->0;
            let after = reconciled(store, session_id, history, now).0;
            &&& after.call(session_id, turn_id, call_id) == Some(
                ToolCallView { status: CallStatus::Submitted, ..call },
            )
            &&& call.result matches Some(kept) ==> delivery_begun(
                after,
                session_id,
                turn_id,
                call_id,
                success,
                kept,
                text,
            ) == (after, DeliveryView::Known(receipt(turn_id, call_id)))
            &&& after.session(session_id) is Some
            &&& forall|i: int|
                0 <= i < after.session(session_id)->0.unresolved_actions.len() ==> {
                    let action = #[trigger] after.session(session_id)->0.unresolved_actions[i];
                    action.turn_id != turn_id || action.call_id != call_id
                }
            &&& forall|i: int|
                0 <= i < after.session(session_id)->0.required_actions.len() ==> {
                    let action = #[trigger] after.session(session_id)->0.required_actions[i];
                    action.turn_id != turn_id || action.call_id != call_id
                }
        }),
{
    let call = store.call(session_id, turn_id, call_id)->0;
    let after = reconciled(store, session_id, history, now).0;
    let rule = call_recovery(session_id, history);
    lemma_call_found(store, session_id, turn_id, call_id);
    assert(after.calls == swept(store.calls, rule));
    assert(keeps_keys::<ToolCall>(rule));
    lemma_swept_lookup::<ToolCall>(store.calls, rule, call_key(session_id, turn_id, call_id));
    let settled = ToolCallView { status: CallStatus::Submitted, ..call };
    assert(ruled(call, rule) == settled);
    law_reconciliation_is_sound(store, session_id, history, now);
    assert(store.session_row(session_id) is Some);
    assert(after.session_row(session_id) is Some);
    let session = after.session(session_id)->0;
    assert forall|i: int| 0 <= i < session.unresolved_actions.len() implies {
        let action = #[trigger] session.unresolved_actions[i];
        action.turn_id != turn_id || action.call_id != call_id
    } by {
        lemma_settled_call_is_not_shown(after, settled, false, i);
    }
    assert forall|i: int| 0 <= i < session.required_actions.len() implies {
        let action = #[trigger] session.required_actions[i];
        action.turn_id != turn_id || action.call_id != call_id
    } by {
        lemma_settled_call_is_not_shown(after, settled, true, i);
    }
}

/// What a call asks is among the actions of the calls.
proof fn lemma_call_has_action(calls: Seq<ToolCallView>, call: ToolCallView)
    requires
        calls.contains(call),
    ensures
        actions_of(calls, call.status is Pending).contains(call.action),
    decreases calls.len(),
{
    let pending = call.status is Pending;
    let front = calls.drop_last();
    let actions = actions_of(calls, pending);
    let before = actions_of(front, pending);
    if calls.last() == call {
        assert(actions[actions.len() - 1] == call.action);
    } else {
        let i = calls.index_of(call);
        assert(front[i] == call);
        lemma_call_has_action(front, call);
        let k = before.index_of(call.action);
        assert(actions[k] == call.action);
    }
}

/// A call that was taken in is shown as required by the session of its thread,
/// whoever missed the event, and waits for its answer.
pub proof fn law_registered_call_is_required(
    store: StoreView,
    request: Seq<char>,
    call: CallParamsView,
    size: nat,
    now: u64,
)
    requires
        registered(store, request, call, size, now).1 is Ok,
    ensures
        ({
            let after = registered(store, request, call, size, now).0;
            let session_id = session_of_thread(store.sessions, call.thread_id)->0;
            &&& session_of_thread(store.sessions, call.thread_id) is Some
            &&& after.session(session_id) is Some
            &&& after.session(session_id)->0.required_actions.contains(required_action(call))
            &&& after.call(session_id, call.turn_id, call.call_id) == Some(
                ToolCallView {
                    session_id,
                    turn_id: call.turn_id,
                    call_id: call.call_id,
                    request_id: request,
                    action: required_action(call),
                    status: CallStatus::Pending,
                    result: None,
                },
            )
        }),
{
    let after = registered(store, request, call, size, now).0;
    let session_id = session_of_thread(store.sessions, call.thread_id)->0;
    let row = ToolCallView {
        session_id,
        turn_id: call.turn_id,
        call_id: call.call_id,
        request_id: request,
        action: required_action(call),
        status: CallStatus::Pending,
        result: None,
    };
    let saved = store.saved(ChangeView::Call(row));
    lemma_call_saved(store, row);
    lemma_notified_spares(saved, action_event(session_id, call), now);
    assert(after.calls == saved.calls);
    assert(saved.calls == store.calls.push(row));
    assert(saved.calls[store.calls.len() as int] == row);
    law_open_calls_are_ordered(after.calls, session_id);
    lemma_call_has_action(open_calls(after.calls, session_id), row);
}

/// A call whose answer the backend has taken is shown by its session no more.
pub proof fn law_answered_call_is_not_shown(
    store: StoreView,
    session_id: Seq<char>,
    turn_id: Seq<char>,
    call_id: Seq<char>,
    now: u64,
)
    requires
        store.well_formed(),
        store.call(session_id, turn_id, call_id) is Some,
    ensures
        ({
            let after = delivery_finished(store, session_id, turn_id, call_id, true, now).0;
            &&& after.session(session_id) is Some
            &&& forall|i: int|
                0 <= i < after.session(session_id)->0.unresolved_actions.len() ==> {
                    let action = #[trigger] after.session(session_id)->0.unresolved_actions[i];
                    action.turn_id != turn_id || action.call_id != call_id
                }
            &&& forall|i: int|
                0 <= i < after.session(session_id)->0.required_actions.len() ==> {
                    let action = #[trigger] after.session(session_id)->0.required_actions[i];
                    action.turn_id != turn_id || action.call_id != call_id
                }
        }),
{
    let call = store.call(session_id, turn_id, call_id)->0;
    let after = delivery_finished(store, session_id, turn_id, call_id, true, now).0;
    let settled = ToolCallView { status: CallStatus::Submitted, ..call };
    lemma_call_found(store, session_id, turn_id, call_id);
    lemma_call_finished(store, session_id, turn_id, call_id, true, now);
    law_delivery_finishes_soundly(store, session_id, turn_id, call_id, true, now);
    assert(store.session_row(session_id) is Some);
    assert(after.session_row(session_id) is Some);
    let session = after.session(session_id)->0;
    assert forall|i: int| 0 <= i < session.unresolved_actions.len() implies {
        let action = #[trigger] session.unresolved_actions[i];
        action.turn_id != turn_id || action.call_id != call_id
    } by {
        lemma_settled_call_is_not_shown(after, settled, false, i);
    }
    assert forall|i: int| 0 <= i < session.required_actions.len() implies {
        let action = #[trigger] session.required_actions[i];
        action.turn_id != turn_id || action.call_id != call_id
    } by {
        lemma_settled_call_is_not_shown(after, settled, true, i);
    }
}

} // verus!
