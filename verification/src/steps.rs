//! Every operation of the service is a sound step.
use crate::actions::delivery_begun;
use crate::actions::delivery_finished;
use crate::actions::registered;
use crate::actions::refusal;
use crate::actions::required_action;
use crate::actions::action_event;
use crate::actions::resumed;
use crate::actions::session_of_thread;
use crate::actions::withdrawal;
use crate::actions::withdrawal_rule;
use crate::actions::withdrawn_by;
use crate::actions::CallParamsView;
use crate::backend::backend_lag;
use crate::backend::message_taken;
use crate::backend::pumped;
use crate::backend::PumpEventView;
use crate::contract::configured;
use crate::disconnect::call_loss;
use crate::disconnect::record_loss;
use crate::disconnect::session_loss;
use crate::error::ApiErrorView;
use crate::journal::lemma_calls_swept_journaled;
use crate::journal::lemma_closed_journaled;
use crate::journal::lemma_public_sessions_swept_journaled;
use crate::journal::lemma_records_swept_journaled;
use crate::json::group_object_reads;
use crate::json::object;
use crate::json::JsonView;
use crate::outside::compact_text;
use crate::projection::turn_event;
use crate::reconcile::call_recovery;
use crate::reconcile::reconciled;
use crate::reconcile::recovers_turn;
use crate::reconcile::turn_recovery;
use crate::records::notified;
use crate::resources::AgentConfigView;
use crate::resources::AgentView;
use crate::resources::EnvironmentView;
use crate::routes::agent_created;
use crate::routes::input_advanced;
use crate::routes::InputStageView;
use crate::sessions::created;
use crate::sessions::created_event;
use crate::sessions::creation_failed;
use crate::sessions::first_agent;
use crate::sessions::new_session;
use crate::sessions::patch_of;
use crate::sessions::CreateView;
use crate::sessions::EntryView;
use crate::soundness::lemma_call_found;
use crate::soundness::lemma_names_other_than_id;
use crate::soundness::lemma_put_contains;
use crate::soundness::lemma_record_found;
use crate::soundness::lemma_session_event;
use crate::soundness::lemma_sound_notified;
use crate::soundness::lemma_sound_published;
use crate::soundness::lemma_sound_same;
use crate::soundness::lemma_sound_saved;
use crate::soundness::lemma_session_found;
use crate::soundness::lemma_sound_then;
use crate::soundness::lemma_turn_event;
use crate::soundness::law_notifications_are_sound;
use crate::soundness::law_session_status_is_sound;
use crate::soundness::sound_step;
use crate::store::CallStatus;
use crate::store::ChangeView;
use crate::store::PublicSession;
use crate::store::PublicSessionView;
use crate::store::Record;
use crate::store::RecordKind;
use crate::store::RecordView;
use crate::store::SessionRow;
use crate::store::SessionRowView;
use crate::store::StoreView;
use crate::store::ToolCall;
use crate::store::ToolCallView;
use crate::sweep::keeps_keys;
use crate::sweep::lemma_swept_distinct;
use crate::sweep::ruled;
use crate::sweep::sweep_effects;
use crate::sweep::swept;
use crate::table::lemma_put_lookup;
use crate::table::lookup;
use crate::text::utf8_len;
use vstd::prelude::*;

verus! {

/// Whether a rule changes nothing of a call but its status.
pub open spec fn changes_status_only(rule: spec_fn(ToolCallView) -> Option<ToolCallView>) -> bool {
    forall|row: ToolCallView|
        (#[trigger] rule(row)) is Some ==> rule(row)->0 == (ToolCallView {
            status: rule(row)->0.status,
            ..row
        })
}

/// Whether a rule changes nothing of a record but its document, which stays an
/// object and keeps its ID.
pub open spec fn changes_data_only(rule: spec_fn(RecordView) -> Option<RecordView>) -> bool {
    forall|row: RecordView|
        (#[trigger] rule(row)) is Some ==> {
            &&& rule(row)->0 == (RecordView { data: rule(row)->0.data, ..row })
            &&& row.data is Object ==> rule(row)->0.data is Object && rule(row)->0.data.field(
                "id"@,
            ) == row.data.field("id"@)
        }
}

/// A rule that changes only the status of calls is sound.
pub proof fn lemma_call_rule_is_sound(
    store: StoreView,
    rule: spec_fn(ToolCallView) -> Option<ToolCallView>,
)
    requires
        store.well_formed(),
        changes_status_only(rule),
    ensures
        sound_step(
            store,
            StoreView {
                calls: swept(store.calls, rule),
                outbox: store.outbox + sweep_effects::<ToolCall>(store.calls, rule),
                ..store
            },
        ),
{
    assert(keeps_keys::<ToolCall>(rule));
    lemma_swept_distinct::<ToolCall>(store.calls, rule);
    let after = swept(store.calls, rule);
    assert forall|i: int| 0 <= i < after.len() implies {
        &&& (#[trigger] after[i]).action.turn_id == after[i].turn_id
        &&& after[i].action.call_id == after[i].call_id
        &&& lookup::<SessionRow>(store.sessions, seq![after[i].session_id]) is Some
    } by {
        assert(after[i] == ruled(store.calls[i], rule));
        assert(rule(store.calls[i]) is Some || rule(store.calls[i]) is None);
        assert(store.calls[i].action.turn_id == store.calls[i].turn_id);
    }
    lemma_calls_swept_journaled(store, rule);
}

/// A rule that changes only the documents of records is sound.
pub proof fn lemma_record_rule_is_sound(
    store: StoreView,
    rule: spec_fn(RecordView) -> Option<RecordView>,
)
    requires
        store.well_formed(),
        changes_data_only(rule),
    ensures
        sound_step(
            store,
            StoreView {
                records: swept(store.records, rule),
                outbox: store.outbox + sweep_effects::<Record>(store.records, rule),
                ..store
            },
        ),
{
    assert(keeps_keys::<Record>(rule));
    lemma_swept_distinct::<Record>(store.records, rule);
    let after = swept(store.records, rule);
    assert forall|i: int| 0 <= i < after.len() implies (#[trigger] after[i]).data is Object
        && after[i].data.field("id"@) == JsonView::Text(after[i].id) by {
        assert(after[i] == ruled(store.records[i], rule));
        assert(rule(store.records[i]) is Some || rule(store.records[i]) is None);
        assert(store.records[i].data is Object);
        assert(store.records[i].data.field("id"@) == JsonView::Text(store.records[i].id));
    }
    lemma_records_swept_journaled(store, rule);
}

/// The rules of the loss of a connection change only what they may.
proof fn lemma_loss_rules(now: u64)
    ensures
        changes_status_only(call_loss()),
        changes_data_only(record_loss(now)),
        keeps_keys::<PublicSession>(session_loss()),
        forall|row: PublicSessionView|
            (#[trigger] session_loss()(row)) is Some && row.data is Object ==> {
                &&& session_loss()(row)->0.data is Object
                &&& session_loss()(row)->0.data.field("id"@) == row.data.field("id"@)
                &&& session_loss()(row)->0.id == row.id
            },
{
    broadcast use group_object_reads;

    lemma_names_other_than_id();
}

/// The loss of those who waited for answers is sound.
proof fn lemma_calls_lost_is_sound(store: StoreView)
    requires
        store.well_formed(),
    ensures
        sound_step(store, store.calls_lost()),
{
    lemma_loss_rules(0);
    lemma_call_rule_is_sound(store, call_loss());
}

/// The loss of public work is sound.
proof fn lemma_work_lost_is_sound(store: StoreView, now: u64)
    requires
        store.well_formed(),
    ensures
        sound_step(store, store.work_lost(now)),
{
    lemma_loss_rules(now);
    let rule = session_loss();
    let sessions = StoreView {
        public_sessions: swept(store.public_sessions, rule),
        outbox: store.outbox + sweep_effects::<PublicSession>(store.public_sessions, rule),
        ..store
    };
    lemma_swept_distinct::<PublicSession>(store.public_sessions, rule);
    assert forall|i: int| 0 <= i < sessions.public_sessions.len() implies {
        &&& (#[trigger] sessions.public_sessions[i]).data is Object
        &&& sessions.public_sessions[i].data.field("id"@) == JsonView::Text(
            sessions.public_sessions[i].id,
        )
        &&& sessions.public_sessions[i].id == store.public_sessions[i].id
    } by {
        let row = store.public_sessions[i];
        assert(sessions.public_sessions[i] == ruled(row, rule));
        assert(rule(row) is Some || rule(row) is None);
        assert(row.data is Object && row.data.field("id"@) == JsonView::Text(row.id));
    }
    assert forall|i: int| 0 <= i < sessions.public_sessions.len() implies lookup::<
        SessionRow,
    >(sessions.sessions, seq![(#[trigger] sessions.public_sessions[i]).id]) is Some by {
        assert(sessions.public_sessions[i].id == store.public_sessions[i].id);
    }
    lemma_public_sessions_swept_journaled(store, rule);
    assert(sound_step(store, sessions));
    lemma_record_rule_is_sound(sessions, record_loss(now));
    lemma_sound_then(store, sessions, store.work_lost(now));
}

/// Start-up recovery is sound.
pub proof fn law_recovery_is_sound(store: StoreView, now: u64)
    requires
        store.well_formed(),
    ensures
        sound_step(store, store.calls_lost().work_lost(now)),
{
    lemma_calls_lost_is_sound(store);
    lemma_work_lost_is_sound(store.calls_lost(), now);
    lemma_sound_then(store, store.calls_lost(), store.calls_lost().work_lost(now));
}

/// The loss of a connection is recorded soundly.
pub proof fn law_connection_loss_is_sound(store: StoreView, now: u64)
    requires
        store.well_formed(),
    ensures
        sound_step(store, store.connection_lost(now)),
{
    law_recovery_is_sound(store, now);
    let lost = store.calls_lost().work_lost(now);
    let event = object().entry("method"@, JsonView::Text("stream/disconnected"@));
    let told = lost.notified(event);
    lemma_sound_notified(lost, event);
    lemma_sound_then(store, lost, told);
    lemma_closed_journaled(told, object().entry("type"@, JsonView::Text("disconnect"@)));
    lemma_sound_then(store, told, store.connection_lost(now));
}

/// The withdrawal of calls is sound.
pub proof fn law_withdrawal_is_sound(store: StoreView, value: JsonView, request: Seq<char>)
    requires
        store.well_formed(),
    ensures
        sound_step(store, withdrawn_by(store, value, request)),
{
    match withdrawal(value, request) {
        Some((thread_id, by)) => {
            lemma_call_rule_is_sound(store, withdrawal_rule(store.sessions, thread_id, by));
        },
        None => {
            lemma_sound_same(store);
        },
    }
}

/// A call is saved before the application is told of it.
pub proof fn law_registration_is_sound(
    store: StoreView,
    request: Seq<char>,
    call: CallParamsView,
    size: nat,
    now: u64,
)
    requires
        store.well_formed(),
    ensures
        sound_step(store, registered(store, request, call, size, now).0),
{
    lemma_sound_same(store);
    match session_of_thread(store.sessions, call.thread_id) {
        None => {},
        Some(session_id) => match refusal(store, session_id, call, size) {
            Some(_) => {},
            None => {
                let row = ToolCallView {
                    session_id,
                    turn_id: call.turn_id,
                    call_id: call.call_id,
                    request_id: request,
                    action: required_action(call),
                    status: CallStatus::Pending,
                    result: None,
                };
                let saved = store.saved(ChangeView::Call(row));
                lemma_sound_saved(store, ChangeView::Call(row));
                let event = action_event(session_id, call);
                law_notifications_are_sound(saved, event, now);
                let told = notified(saved, event, now);
                lemma_sound_then(store, saved, told.0);
                if told.1 is Ok {
                    lemma_sound_notified(told.0, event);
                    lemma_sound_then(store, told.0, told.0.notified(event));
                }
            },
        },
    }
}

/// An answer is kept before it is handed to the backend.
pub proof fn law_delivery_begins_soundly(
    store: StoreView,
    session_id: Seq<char>,
    turn_id: Seq<char>,
    call_id: Seq<char>,
    success: bool,
    kept: Seq<char>,
    text: Seq<char>,
)
    requires
        store.well_formed(),
    ensures
        sound_step(
            store,
            delivery_begun(store, session_id, turn_id, call_id, success, kept, text).0,
        ),
{
    lemma_sound_same(store);
    match store.call(session_id, turn_id, call_id) {
        None => {},
        Some(call) => {
            lemma_call_found(store, session_id, turn_id, call_id);
            if call.status is Pending {
                lemma_sound_saved(
                    store,
                    ChangeView::Call(
                        ToolCallView {
                            status: CallStatus::Submitting,
                            result: Some(kept),
                            ..call
                        },
                    ),
                );
            }
        },
    }
}

/// A turn goes on soundly.
proof fn lemma_resumption_is_sound(
    store: StoreView,
    session_id: Seq<char>,
    turn_id: Seq<char>,
    now: u64,
)
    requires
        store.well_formed(),
    ensures
        sound_step(store, resumed(store, session_id, turn_id, now).0),
        store.public_session(session_id) is Some ==> resumed(store, session_id, turn_id, now).1 is Ok,
{
    lemma_sound_same(store);
    let waiting = match store.record(session_id, RecordKind::Turn, turn_id) {
        Some(row) if row.data.field("status"@) == JsonView::Text("waiting"@) => Some(
            RecordView {
                data: row.data.with("status"@, JsonView::Text("in_progress"@)),
                ..row
            },
        ),
        _ => None,
    };
    match waiting {
        None => {
            law_session_status_is_sound(store, session_id, "in_progress"@, None, now);
        },
        Some(row) => {
            lemma_record_found(store, session_id, RecordKind::Turn, turn_id);
            let old_row = store.record(session_id, RecordKind::Turn, turn_id)->0;
            assert(row.data is Object && row.data.get("id"@) == old_row.data.get("id"@)) by {
                broadcast use group_object_reads;

                lemma_names_other_than_id();
            }
            let saved = store.saved(ChangeView::Record(row));
            lemma_sound_saved(store, ChangeView::Record(row));
            lemma_put_contains::<Record>(store.records, row);
            law_session_status_is_sound(saved, session_id, "in_progress"@, None, now);
            let told = saved.with_session_status(session_id, "in_progress"@, None, now);
            lemma_sound_then(store, saved, told.0);
            if told.1 is Ok {
                let event = turn_event("in_progress"@, session_id, turn_id, row.data);
                lemma_turn_event("in_progress"@, session_id, turn_id, row.data);
                assert(told.0.records == saved.records);
                lemma_sound_published(told.0, event);
                lemma_sound_then(store, told.0, told.0.published(event));
            }
        },
    }
}

/// Whether the backend has taken an answer is recorded soundly.
pub proof fn law_delivery_finishes_soundly(
    store: StoreView,
    session_id: Seq<char>,
    turn_id: Seq<char>,
    call_id: Seq<char>,
    delivered: bool,
    now: u64,
)
    requires
        store.well_formed(),
    ensures
        sound_step(
            store,
            delivery_finished(store, session_id, turn_id, call_id, delivered, now).0,
        ),
        delivered <==> delivery_finished(
            store,
            session_id,
            turn_id,
            call_id,
            delivered,
            now,
        ).1 is Ok,
{
    lemma_sound_same(store);
    let status = if delivered {
        CallStatus::Submitted
    } else {
        CallStatus::Unavailable
    };
    let saved = match store.call(session_id, turn_id, call_id) {
        Some(call) => {
            lemma_call_found(store, session_id, turn_id, call_id);
            lemma_sound_saved(store, ChangeView::Call(ToolCallView { status, ..call }));
            store.saved(ChangeView::Call(ToolCallView { status, ..call }))
        },
        None => store,
    };
    if delivered {
        lemma_resumption_is_sound(saved, session_id, turn_id, now);
        lemma_sound_then(store, saved, resumed(saved, session_id, turn_id, now).0);
    }
}

/// The rules of a correction change only what they may.
proof fn lemma_recovery_rules(session_id: Seq<char>, history: Seq<JsonView>)
    ensures
        changes_status_only(call_recovery(session_id, history)),
        changes_data_only(turn_recovery(session_id, history)),
{
    broadcast use group_object_reads;

    lemma_names_other_than_id();
}

/// What the history makes of a session's turns and calls is sound.
pub proof fn lemma_correction_is_sound(
    store: StoreView,
    session_id: Seq<char>,
    history: Seq<JsonView>,
)
    requires
        store.well_formed(),
    ensures
        ({
            let turns = turn_recovery(session_id, history);
            let calls = call_recovery(session_id, history);
            sound_step(
                store,
                StoreView {
                    records: swept(store.records, turns),
                    calls: swept(store.calls, calls),
                    outbox: store.outbox + sweep_effects::<Record>(store.records, turns)
                        + sweep_effects::<ToolCall>(store.calls, calls),
                    ..store
                },
            )
        }),
{
    let turns = turn_recovery(session_id, history);
    let calls = call_recovery(session_id, history);
    lemma_recovery_rules(session_id, history);
    let first = StoreView {
        records: swept(store.records, turns),
        outbox: store.outbox + sweep_effects::<Record>(store.records, turns),
        ..store
    };
    lemma_record_rule_is_sound(store, turns);
    let second = StoreView {
        calls: swept(first.calls, calls),
        outbox: first.outbox + sweep_effects::<ToolCall>(first.calls, calls),
        ..first
    };
    lemma_call_rule_is_sound(first, calls);
    lemma_sound_then(store, first, second);
}

/// The correction of a session is sound. It cannot fail for a public session.
pub proof fn law_reconciliation_is_sound(
    store: StoreView,
    session_id: Seq<char>,
    history: Seq<JsonView>,
    now: u64,
)
    requires
        store.well_formed(),
    ensures
        sound_step(store, reconciled(store, session_id, history, now).0),
        store.public_session(session_id) is Some ==> reconciled(
            store,
            session_id,
            history,
            now,
        ).1 is Ok,
{
    let turns = turn_recovery(session_id, history);
    let calls = call_recovery(session_id, history);
    lemma_correction_is_sound(store, session_id, history);
    let corrected = StoreView {
        records: swept(store.records, turns),
        calls: swept(store.calls, calls),
        outbox: store.outbox + sweep_effects::<Record>(store.records, turns)
            + sweep_effects::<ToolCall>(store.calls, calls),
        ..store
    };
    if recovers_turn(store.records, session_id, history) {
        law_session_status_is_sound(corrected, session_id, "idle"@, None, now);
        lemma_sound_then(
            store,
            corrected,
            corrected.with_session_status(session_id, "idle"@, None, now).0,
        );
    }
}

/// To save an agent is sound.
pub proof fn law_agent_creation_is_sound(
    store: StoreView,
    config: AgentConfigView,
    sizes: Seq<nat>,
    schemas: Seq<bool>,
    id: Seq<char>,
    now: u64,
)
    requires
        store.well_formed(),
    ensures
        sound_step(store, agent_created(store, config, sizes, schemas, id, now).0),
{
    lemma_sound_same(store);
    if store.agent(id) is None {
        lemma_sound_saved(store, ChangeView::Agent(AgentView { id, config, created_at: now }));
    }
}

/// To save a session is sound.
pub proof fn law_session_creation_is_sound(
    store: StoreView,
    id: Seq<char>,
    agent: AgentView,
    environment: EnvironmentView,
)
    requires
        store.well_formed(),
    ensures
        sound_step(store, store.with_session(id, agent, environment).0),
{
    lemma_sound_same(store);
    if store.session_row(id) is None {
        lemma_sound_saved(
            store,
            ChangeView::Session(SessionRowView { id, agent, environment, thread_id: None }),
        );
    }
}

/// The public form of a new session is an object that carries the session's ID.
proof fn lemma_new_session(id: Seq<char>, agent: AgentView, metadata: Seq<EntryView>, now: u64)
    ensures
        new_session(id, agent, metadata, now) is Object,
        new_session(id, agent, metadata, now).field("id"@) == JsonView::Text(id),
{
    broadcast use group_object_reads;

}

/// A public session and its public form are saved before they are announced.
pub proof fn law_public_creation_is_sound(
    store: StoreView,
    params: CreateView,
    schemas: Seq<bool>,
    id: Seq<char>,
    fresh: Seq<char>,
    now: u64,
)
    requires
        store.well_formed(),
    ensures
        sound_step(store, created(store, params, schemas, id, fresh, now).0),
        created(store, params, schemas, id, fresh, now).1 is Err ==> created(
            store,
            params,
            schemas,
            id,
            fresh,
            now,
        ).0 == store,
{
    lemma_sound_same(store);
    let outcome = created(store, params, schemas, id, fresh, now);
    if outcome.1 is Ok {
        let saved = first_agent(store, params.agent_id, fresh, now)->Ok_0;
        let config = configured(
            saved.config,
            patch_of(params),
            schemas,
        )->Ok_0;
        let agent = AgentView { config, ..saved };
        let after = store.with_session(id, agent, EnvironmentView::Nowhere).0;
        law_session_creation_is_sound(store, id, agent, EnvironmentView::Nowhere);
        let row = SessionRowView {
            id,
            agent,
            environment: EnvironmentView::Nowhere,
            thread_id: None,
        };
        lemma_put_lookup::<SessionRow>(store.sessions, row, seq![id]);
        let public = new_session(id, agent, params.metadata, now);
        lemma_new_session(id, agent, params.metadata, now);
        let form = PublicSessionView { id, data: public };
        let kept = after.saved(ChangeView::PublicSession(form));
        lemma_sound_saved(after, ChangeView::PublicSession(form));
        lemma_put_contains::<PublicSession>(after.public_sessions, form);
        lemma_sound_then(store, after, kept);
        lemma_session_event(JsonView::Text("agent.session.created"@), public);
        lemma_sound_published(kept, created_event(public));
        lemma_sound_then(store, kept, kept.published(created_event(public)));
    }
}

/// That the first input of a session was refused is recorded soundly.
pub proof fn law_creation_failure_is_sound(
    store: StoreView,
    id: Seq<char>,
    error: ApiErrorView,
    now: u64,
)
    requires
        store.well_formed(),
    ensures
        sound_step(store, creation_failed(store, id, error, now).0),
        store.public_session(id) is Some ==> creation_failed(store, id, error, now).1 == error,
{
    law_session_status_is_sound(store, id, "failed"@, Some(error.message), now);
}

/// An input on its way to the backend changes the rows soundly.
pub proof fn law_input_is_sound(store: StoreView, stage: InputStageView, reply: JsonView)
    requires
        store.well_formed(),
    ensures
        sound_step(store, input_advanced(store, stage, reply).0),
{
    lemma_sound_same(store);
    match stage {
        InputStageView::Naming { session_id, thread_id, text } => {
            match store.session_row(session_id) {
                Some(row) => {
                    lemma_session_found(store, session_id);
                    lemma_sound_saved(
                        store,
                        ChangeView::Session(
                            SessionRowView { thread_id: Some(thread_id), ..row },
                        ),
                    );
                },
                None => {},
            }
        },
        _ => {},
    }
}

/// What the backend tells is taken in soundly.
pub proof fn law_messages_are_sound(
    store: StoreView,
    value: JsonView,
    request: Seq<char>,
    now: u64,
)
    requires
        store.well_formed(),
    ensures
        sound_step(store, message_taken(store, value, request, now).0),
{
    let left = withdrawn_by(store, value, request);
    law_withdrawal_is_sound(store, value, request);
    law_notifications_are_sound(left, value, now);
    let kept = notified(left, value, now).0;
    lemma_sound_then(store, left, kept);
    lemma_sound_notified(kept, value);
    lemma_sound_then(store, kept, kept.notified(value));
}

/// Whatever a connection's task is told, it is taken in soundly.
pub proof fn law_pump_is_sound(store: StoreView, event: PumpEventView, now: u64)
    requires
        store.well_formed(),
    ensures
        sound_step(store, pumped(store, event, now).0),
{
    lemma_sound_same(store);
    match event {
        PumpEventView::Notification(value) => {
            law_messages_are_sound(
                store,
                value,
                compact_text(value.field("params"@).field("requestId"@)),
                now,
            );
        },
        PumpEventView::Request { request_id, call } => {
            match call {
                Some(call) => {
                    law_registration_is_sound(
                        store,
                        compact_text(request_id),
                        call,
                        utf8_len(compact_text(call.arguments)),
                        now,
                    );
                },
                None => {},
            }
        },
        PumpEventView::Lagged { skipped } => {
            lemma_sound_notified(store, backend_lag(skipped));
        },
        _ => {},
    }
}

} // verus!
