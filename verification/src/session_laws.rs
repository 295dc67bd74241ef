//! What holds of agents and sessions over several operations.
use crate::disconnect::call_in_flight;
use crate::disconnect::call_loss;
use crate::disconnect::connection_failure;
use crate::disconnect::record_in_flight;
use crate::disconnect::record_loss;
use crate::disconnect::session_in_flight;
use crate::disconnect::session_loss;
use crate::error::ApiErrorView;
use crate::json::group_object_reads;
use crate::json::object;
use crate::json::JsonView;
use crate::json::optional_text;
use crate::projection::public_item;
use crate::projection::public_output;
use crate::projection::public_turn;
use crate::projection::turn_event;
use crate::projection::turn_status;
use crate::reconcile::call_recovery;
use crate::reconcile::ending;
use crate::reconcile::provisional;
use crate::reconcile::reconciled;
use crate::reconcile::recovers_turn;
use crate::reconcile::turn_in;
use crate::reconcile::turn_recovery;
use crate::reconcile::uncertain;
use crate::records::action_required;
use crate::records::is_output;
use crate::records::item_changed;
use crate::records::item_event;
use crate::records::item_published;
use crate::records::notified;
use crate::records::number;
use crate::records::output_count;
use crate::records::output_index;
use crate::records::public_session_of_thread;
use crate::records::text_event;
use crate::records::turn_changed;
use crate::resources::AgentView;
use crate::resources::Agent;
use crate::resources::EnvironmentView;
use crate::routes::input_advanced;
use crate::routes::is_own_event;
use crate::routes::turn_call;
use crate::routes::InputStageView;
use crate::routes::ProgressView;
use crate::sessions::tells_of;
use crate::soundness::lemma_event_names;
use crate::soundness::lemma_public_session_found;
use crate::soundness::lemma_public_turn;
use crate::soundness::lemma_record_found;
use crate::soundness::lemma_record_is_sound;
use crate::soundness::lemma_session_found;
use crate::soundness::lemma_single_key;
use crate::soundness::lemma_triple_key;
use crate::store::kind_word;
use crate::store::open_calls;
use crate::steps::law_reconciliation_is_sound;
use crate::steps::lemma_correction_is_sound;
use crate::store::record_key;
use crate::store::CallStatus;
use crate::store::ChangeView;
use crate::store::EffectView;
use crate::store::PublicSession;
use crate::store::PublicSessionView;
use crate::store::Record;
use crate::store::RecordKind;
use crate::store::RecordView;
use crate::store::SessionRow;
use crate::store::SessionRowView;
use crate::store::StoreView;
use crate::store::ToolCall;
use crate::store::ToolCallView;
use crate::sweep::keeps_keys;
use crate::sweep::lemma_swept_lookup;
use crate::sweep::ruled;
use crate::sweep::sweep_effects;
use crate::sweep::swept;
use crate::sweep::Saved;
use crate::table::lemma_put_lookup;
use vstd::prelude::*;

verus! {

/// A saved agent is read back as it was saved, and what was saved before stays
/// as it was.
pub proof fn law_agent_is_read_back(store: StoreView, agent: AgentView, id: Seq<char>)
    requires
        store.agent(agent.id) is None,
    ensures
        store.with_agent(agent).1 == Ok::<AgentView, ApiErrorView>(agent),
        store.with_agent(agent).0.agent(id) == if id == agent.id {
            Some(agent)
        } else {
            store.agent(id)
        },
{
    lemma_put_lookup::<Agent>(store.agents, agent, seq![id]);
    lemma_single_key(id, agent.id);
}

/// A session keeps the configuration that it was created with, whatever agents
/// are saved later.
pub proof fn law_sessions_keep_their_snapshot(store: StoreView, agent: AgentView, id: Seq<char>)
    ensures
        store.saved(ChangeView::Agent(agent)).session(id) == store.session(id),
        store.saved(ChangeView::Agent(agent)).public_view(id) == store.public_view(id),
{
}

/// The calls of a session that has none.
proof fn lemma_no_calls(calls: Seq<ToolCallView>, id: Seq<char>)
    requires
        forall|i: int| 0 <= i < calls.len() ==> (#[trigger] calls[i]).session_id != id,
    ensures
        open_calls(calls, id) == Seq::<ToolCallView>::empty(),
    decreases calls.len(),
{
    if calls.len() > 0 {
        let front = calls.drop_last();
        assert forall|i: int| 0 <= i < front.len() implies (#[trigger] front[i]).session_id != id by {
            assert(front[i] == calls[i]);
        }
        lemma_no_calls(front, id);
        assert(calls.last() == calls[calls.len() - 1]);
    }
}

/// A saved session is read back as it was saved, and what was saved before stays
/// as it was.
pub proof fn law_session_is_read_back(
    store: StoreView,
    id: Seq<char>,
    agent: AgentView,
    environment: EnvironmentView,
    other: Seq<char>,
)
    requires
        store.well_formed(),
        store.session_row(id) is None,
    ensures
        store.with_session(id, agent, environment).1 is Ok,
        store.with_session(id, agent, environment).0.session(id) == Some(
            store.with_session(id, agent, environment).1->Ok_0,
        ),
        other != id ==> store.with_session(id, agent, environment).0.session(other)
            == store.session(other),
{
    let row = SessionRowView { id, agent, environment, thread_id: None };
    lemma_put_lookup::<SessionRow>(store.sessions, row, seq![id]);
    lemma_put_lookup::<SessionRow>(store.sessions, row, seq![other]);
    lemma_single_key(other, id);
    assert forall|i: int| 0 <= i < store.calls.len() implies (#[trigger] store.calls[i]).session_id
        != id by {
        if store.calls[i].session_id == id {
            assert(store.session_row(id) is Some);
        }
    }
    lemma_no_calls(store.calls, id);
}

/// Whether only the public records of one session have changed.
pub open spec fn spares_others(before: StoreView, after: StoreView, id: Seq<char>) -> bool {
    &&& after.agents == before.agents
    &&& after.sessions == before.sessions
    &&& after.calls == before.calls
    &&& forall|s: Seq<char>|
        s != id ==> #[trigger] after.public_session(s) == before.public_session(s)
    &&& forall|s: Seq<char>, kind: RecordKind, r: Seq<char>|
        s != id ==> #[trigger] after.record(s, kind, r) == before.record(s, kind, r)
}

proof fn lemma_status_spares(
    store: StoreView,
    id: Seq<char>,
    status: Seq<char>,
    error: Option<Seq<char>>,
    now: u64,
)
    ensures
        spares_others(store, store.with_session_status(id, status, error, now).0, id),
{
    let after = store.with_session_status(id, status, error, now).0;
    if store.public_view(id) is Ok {
        assert forall|s: Seq<char>| s != id implies #[trigger] after.public_session(s)
            == store.public_session(s) by {
            let data = after.outbox[store.outbox.len() as int]->Save_0->PublicSession_0;
            lemma_put_lookup::<PublicSession>(store.public_sessions, data, seq![s]);
            lemma_single_key(s, id);
        }
    }
}

/// A record of one session leaves those of the others.
proof fn lemma_record_put_spares(store: StoreView, row: RecordView)
    ensures
        spares_others(store, store.saved(ChangeView::Record(row)), row.session_id),
{
    let after = store.saved(ChangeView::Record(row));
    assert forall|s: Seq<char>, kind: RecordKind, r: Seq<char>| s != row.session_id implies #[trigger] after.record(
    s, kind, r) == store.record(s, kind, r) by {
        lemma_put_lookup::<Record>(store.records, row, record_key(s, kind, r));
        lemma_triple_key(
            s,
            kind_word(kind),
            r,
            row.session_id,
            kind_word(row.kind),
            row.id,
        );
    }
}

proof fn lemma_record_spares(
    store: StoreView,
    id: Seq<char>,
    kind: RecordKind,
    data: JsonView,
    turn_id: Seq<char>,
)
    ensures
        spares_others(store, store.with_record(id, kind, data, turn_id).0, id),
{
    match data.field("id"@).text() {
        None => {},
        Some(record_id) => {
            let turn = match store.record(id, kind, record_id) {
                Some(row) => row.turn_id,
                None => turn_id,
            };
            lemma_record_put_spares(
                store,
                RecordView { session_id: id, kind, id: record_id, turn_id: turn, data },
            );
        },
    }
}

proof fn lemma_item_spares(
    store: StoreView,
    id: Seq<char>,
    turn_id: Seq<char>,
    item: JsonView,
    done: bool,
)
    ensures
        spares_others(store, item_published(store, id, turn_id, item, done).0, id),
{
    lemma_record_spares(store, id, RecordKind::Item, item, turn_id);
    let saved = store.with_record(id, RecordKind::Item, item, turn_id).0;
    let after = item_published(store, id, turn_id, item, done).0;
    if item.field("id"@).text() is Some {
        assert(after.public_sessions == saved.public_sessions);
        assert(after.records == saved.records);
        assert forall|s: Seq<char>, kind: RecordKind, r: Seq<char>| s != id implies #[trigger] after.record(
        s, kind, r) == store.record(s, kind, r) by {
            assert(saved.record(s, kind, r) == store.record(s, kind, r));
        }
        assert forall|s: Seq<char>| s != id implies #[trigger] after.public_session(s)
            == store.public_session(s) by {
            assert(saved.public_session(s) == store.public_session(s));
        }
    }
}

/// What spares the others twice spares them.
proof fn lemma_spares_then(a: StoreView, b: StoreView, c: StoreView, id: Seq<char>)
    requires
        spares_others(a, b, id),
        spares_others(b, c, id),
    ensures
        spares_others(a, c, id),
{
    assert forall|s: Seq<char>, kind: RecordKind, r: Seq<char>| s != id implies #[trigger] c.record(
    s, kind, r) == a.record(s, kind, r) by {
        assert(b.record(s, kind, r) == a.record(s, kind, r));
    }
    assert forall|s: Seq<char>| s != id implies #[trigger] c.public_session(s)
        == a.public_session(s) by {
        assert(b.public_session(s) == a.public_session(s));
    }
}

/// Announcing an event changes no row.
proof fn lemma_published_spares(store: StoreView, event: JsonView, id: Seq<char>)
    ensures
        spares_others(store, store.published(event), id),
{
}

proof fn lemma_turn_spares(
    store: StoreView,
    id: Seq<char>,
    started: bool,
    source: JsonView,
    now: u64,
)
    ensures
        spares_others(store, turn_changed(store, id, started, source, now).0, id),
{
    if store.public_view(id) is Ok && source.field("id"@).text() is Some {
        let current = store.public_view(id)->Ok_0;
        let turn_id = source.field("id"@).text()->0;
        let turn = public_turn(
            id,
            current.field("agent"@).field("id"@),
            turn_id,
            source,
            now,
        );
        let status = turn_status(source);
        lemma_record_spares(store, id, RecordKind::Turn, turn, turn_id);
        let saved = store.with_record(id, RecordKind::Turn, turn, turn_id);
        lemma_status_spares(saved.0, id, "in_progress"@, None, now);
        let opened = if saved.1 is Err || !started {
            saved
        } else {
            lemma_spares_then(
                store,
                saved.0,
                saved.0.with_session_status(id, "in_progress"@, None, now).0,
                id,
            );
            saved.0.with_session_status(id, "in_progress"@, None, now)
        };
        if opened.1 is Ok {
            let first = turn_event("created"@, id, turn_id, turn);
            let created = if started {
                lemma_published_spares(opened.0, first, id);
                lemma_spares_then(store, opened.0, opened.0.published(first), id);
                opened.0.published(first)
            } else {
                opened.0
            };
            let event = turn_event(status, id, turn_id, turn);
            let told = created.published(event);
            lemma_published_spares(created, event, id);
            lemma_spares_then(store, created, told, id);
            lemma_status_spares(told, id, "idle"@, None, now);
            lemma_spares_then(
                store,
                told,
                told.with_session_status(id, "idle"@, None, now).0,
                id,
            );
        }
    }
}

proof fn lemma_action_spares(
    store: StoreView,
    id: Seq<char>,
    turn_id: Option<Seq<char>>,
    now: u64,
)
    ensures
        spares_others(store, action_required(store, id, turn_id, now).0, id),
{
    let waiting = match turn_id {
        Some(turn_id) => {
            match store.record(id, RecordKind::Turn, turn_id) {
                Some(row) => {
                    lemma_record_found(store, id, RecordKind::Turn, turn_id);
                    lemma_record_put_spares(
                        store,
                        RecordView {
                            data: row.data.with("status"@, JsonView::Text("waiting"@)),
                            ..row
                        },
                    );
                },
                None => {},
            }
            store.with_turn_status(id, turn_id, "waiting"@)
        },
        None => store,
    };
    lemma_status_spares(waiting, id, "requires_action"@, None, now);
    lemma_spares_then(
        store,
        waiting,
        waiting.with_session_status(id, "requires_action"@, None, now).0,
        id,
    );
}

proof fn lemma_items_spare(store: StoreView, id: Seq<char>, done: bool, params: JsonView)
    ensures
        spares_others(store, item_changed(store, id, done, params).0, id),
{
    let item = params.field("item"@);
    match (params.field("turnId"@).text(), item.field("id"@).text()) {
        (Some(turn_id), Some(item_id)) => {
            match public_item(turn_id, item_id, item, done) {
                None => {},
                Some(public) => {
                    lemma_item_spares(store, id, turn_id, public, done);
                    let shown = item_published(store, id, turn_id, public, done);
                    let output = public_output(turn_id, item_id, item);
                    lemma_item_spares(shown.0, id, turn_id, output, true);
                    lemma_spares_then(
                        store,
                        shown.0,
                        item_published(shown.0, id, turn_id, output, true).0,
                        id,
                    );
                },
            }
        },
        _ => {},
    }
}

/// What the backend tells of one thread changes nothing but the public records
/// of the session that runs in it.
pub proof fn law_notifications_spare_other_sessions(store: StoreView, raw: JsonView, now: u64)
    ensures
        match raw.field("params"@).field("threadId"@).text() {
            None => notified(store, raw, now).0 == store,
            Some(thread_id) => match public_session_of_thread(store, store.sessions, thread_id) {
                None => notified(store, raw, now).0 == store,
                Some(id) => spares_others(store, notified(store, raw, now).0, id),
            },
        },
{
    let params = raw.field("params"@);
    match params.field("threadId"@).text() {
        None => {},
        Some(thread_id) => match public_session_of_thread(store, store.sessions, thread_id) {
            None => {},
            Some(id) => {
                let method = raw.field("method"@);
                if method == JsonView::Text("turn/started"@) {
                    lemma_turn_spares(store, id, true, params.field("turn"@), now);
                } else if method == JsonView::Text("turn/completed"@) {
                    lemma_turn_spares(store, id, false, params.field("turn"@), now);
                } else if method == JsonView::Text("session.requires_action"@) {
                    lemma_action_spares(
                        store,
                        id,
                        params.field("action"@).field("turnId"@).text(),
                        now,
                    );
                } else if method == JsonView::Text("item/started"@) {
                    lemma_items_spare(store, id, false, params);
                } else if method == JsonView::Text("item/completed"@) {
                    lemma_items_spare(store, id, true, params);
                }
            },
        },
    }
}

/// What the backend tells changes no agent, no session and no call.
pub proof fn lemma_notified_spares(store: StoreView, raw: JsonView, now: u64)
    ensures
        notified(store, raw, now).0.agents == store.agents,
        notified(store, raw, now).0.sessions == store.sessions,
        notified(store, raw, now).0.calls == store.calls,
{
    law_notifications_spare_other_sessions(store, raw, now);
}

/// The words for statuses that the laws tell apart.
proof fn lemma_statuses()
    ensures
        "failed"@ != "in_progress"@,
        "failed"@ != "requires_action"@,
        "failed"@ != "queued"@,
        "failed"@ != "waiting"@,
        "incomplete"@ != "in_progress"@,
        "status"@ != "error"@,
        "status"@ != "completed_at"@,
        "status"@ != "last_active_at"@,
        "error"@ != "completed_at"@,
{
    reveal_strlit("failed");
    reveal_strlit("in_progress");
    reveal_strlit("requires_action");
    reveal_strlit("queued");
    reveal_strlit("waiting");
    reveal_strlit("incomplete");
    reveal_strlit("status");
    reveal_strlit("error");
    reveal_strlit("completed_at");
    reveal_strlit("last_active_at");
    assert("failed"@.len() == 6 && "queued"@.len() == 6 && "waiting"@.len() == 7);
    assert("in_progress"@.len() == 11 && "requires_action"@.len() == 15);
    assert("incomplete"@.len() == 10 && "completed_at"@.len() == 12);
    assert("status"@.len() == 6 && "error"@.len() == 5 && "last_active_at"@.len() == 14);
    assert("failed"@[0] == 'f' && "queued"@[0] == 'q');
}

/// A session that the loss of the connection has gone over is not at work.
proof fn lemma_session_after_loss(row: PublicSessionView)
    requires
        row.data is Object,
    ensures
        !session_in_flight(ruled(row, session_loss())),
        ruled(row, session_loss()).data is Object,
{
    broadcast use group_object_reads;

    lemma_statuses();
    let after = ruled(row, session_loss());
    if session_in_flight(row) {
        assert(after.data.get("status"@) == Some(JsonView::Text("failed"@)));
    }
}

/// A record that the loss of the connection has gone over is over.
proof fn lemma_record_after_loss(row: RecordView, now: u64)
    requires
        row.data is Object,
    ensures
        !record_in_flight(ruled(row, record_loss(now))),
        ruled(row, record_loss(now)).data is Object,
        ruled(row, record_loss(now)).kind == row.kind,
        record_in_flight(row) && row.kind is Turn ==> provisional(ruled(row, record_loss(now))),
{
    broadcast use group_object_reads;

    lemma_statuses();
    let after = ruled(row, record_loss(now));
    if record_in_flight(row) {
        match row.kind {
            RecordKind::Turn => {
                assert(after.data.get("status"@) == Some(JsonView::Text("failed"@)));
                assert(after.data.get("error"@) == Some(connection_failure()));
            },
            RecordKind::Item => {
                assert(after.data.get("status"@) == Some(JsonView::Text("incomplete"@)));
            },
        }
    }
}

/// When the connection is lost, no work stays in flight: no call waits for an
/// answer or its delivery, no session is at work, no turn is active and no item
/// in progress. Turns that were active have failed because of the loss; what was
/// over stays as it was.
pub proof fn law_loss_ends_all_work(store: StoreView, now: u64, i: int)
    requires
        store.well_formed(),
    ensures
        ({
            let after = store.connection_lost(now);
            &&& after.calls.len() == store.calls.len()
            &&& after.public_sessions.len() == store.public_sessions.len()
            &&& after.records.len() == store.records.len()
            &&& 0 <= i < store.calls.len() ==> {
                &&& !call_in_flight(after.calls[i])
                &&& !call_in_flight(store.calls[i]) ==> after.calls[i]
                    == store.calls[i]
            }
            &&& 0 <= i < store.public_sessions.len() ==> {
                &&& !session_in_flight(after.public_sessions[i])
                &&& !session_in_flight(store.public_sessions[i]) ==> after.public_sessions[i]
                    == store.public_sessions[i]
            }
            &&& 0 <= i < store.records.len() ==> {
                &&& !record_in_flight(after.records[i])
                &&& !record_in_flight(store.records[i]) ==> after.records[i] == store.records[i]
                &&& record_in_flight(store.records[i]) && store.records[i].kind is Turn
                    ==> provisional(after.records[i])
            }
        }),
{
    if 0 <= i < store.public_sessions.len() {
        assert(store.public_sessions[i].data is Object);
        lemma_session_after_loss(store.public_sessions[i]);
    }
    if 0 <= i < store.records.len() {
        assert(store.records[i].data is Object);
        lemma_record_after_loss(store.records[i], now);
    }
}

/// A rule that changes no row of a table leaves the table and writes nothing
/// out.
proof fn lemma_sweep_of_nothing<R: Saved>(rows: Seq<R::V>, rule: spec_fn(R::V) -> Option<R::V>)
    requires
        forall|i: int| 0 <= i < rows.len() ==> rule(#[trigger] rows[i]) is None,
    ensures
        swept(rows, rule) == rows,
        sweep_effects::<R>(rows, rule) == Seq::<EffectView>::empty(),
    decreases rows.len(),
{
    assert(swept(rows, rule) =~= rows);
    if rows.len() > 0 {
        let front = rows.drop_last();
        assert forall|i: int| 0 <= i < front.len() implies rule(#[trigger] front[i]) is None by {
            assert(front[i] == rows[i]);
        }
        lemma_sweep_of_nothing::<R>(front, rule);
        assert(rows.last() == rows[rows.len() - 1]);
    }
}

/// A loss that is recorded twice, as when the service is stopped after it lost
/// its connection and then started again, changes nothing the second time.
pub proof fn law_loss_is_recorded_once(store: StoreView, now: u64, later: u64)
    requires
        store.well_formed(),
    ensures
        store.connection_lost(now).calls_lost().work_lost(later) == store.connection_lost(now),
{
    let after = store.connection_lost(now);
    assert forall|i: int| 0 <= i < after.calls.len() implies (
    call_loss())(#[trigger] after.calls[i]) is None by {
        law_loss_ends_all_work(store, now, i);
    }
    assert forall|i: int| 0 <= i < after.public_sessions.len() implies (session_loss())(
        #[trigger] after.public_sessions[i],
    ) is None by {
        law_loss_ends_all_work(store, now, i);
    }
    assert forall|i: int| 0 <= i < after.records.len() implies (record_loss(later))(
        #[trigger] after.records[i],
    ) is None by {
        law_loss_ends_all_work(store, now, i);
    }
    lemma_sweep_of_nothing::<ToolCall>(after.calls, call_loss());
    lemma_sweep_of_nothing::<PublicSession>(after.public_sessions, session_loss());
    lemma_sweep_of_nothing::<Record>(after.records, record_loss(later));
    let again = after.calls_lost().work_lost(later);
    assert(again.outbox =~= after.outbox);
}

/// The status of a session is read back as it was last set.
pub proof fn lemma_status_read_back(
    store: StoreView,
    id: Seq<char>,
    status: Seq<char>,
    error: Option<Seq<char>>,
    now: u64,
)
    requires
        store.well_formed(),
        store.public_session(id) is Some,
    ensures
        store.with_session_status(id, status, error, now).0.public_session(id) is Some,
        store.with_session_status(id, status, error, now).0.public_session(id)->0.data.field(
            "status"@,
        ) == JsonView::Text(status),
        store.with_session_status(id, status, error, now).0.public_session(id)->0.data.field(
            "error"@,
        ) == optional_text(error),
{
    lemma_public_session_found(store, id);
    let row = store.public_session(id)->0;
    assert(store.session_row(id) is Some);
    let data = store.public_view(id)->Ok_0.with("status"@, JsonView::Text(status)).with(
        "error"@,
        optional_text(error),
    ).with("last_active_at"@, number(now));
    lemma_put_lookup::<PublicSession>(
        store.public_sessions,
        PublicSessionView { id, data },
        seq![id],
    );
    assert("error"@ != "last_active_at"@) by {
        reveal_strlit("error");
        reveal_strlit("last_active_at");
        assert("error"@.len() == 5);
    }
    broadcast use group_object_reads;

    lemma_statuses();
}

/// A turn that has ended leaves its session ready for input, and is read back as
/// it ended.
pub proof fn law_ended_turn_idles_its_session(
    store: StoreView,
    id: Seq<char>,
    source: JsonView,
    now: u64,
)
    requires
        store.well_formed(),
        store.public_session(id) is Some,
        source.field("id"@).text() is Some,
        turn_status(source) != "in_progress"@,
    ensures
        ({
            let after = turn_changed(store, id, false, source, now).0;
            let turn_id = source.field("id"@).text()->0;
            &&& after.public_session(id) is Some
            &&& after.public_session(id)->0.data.field("status"@) == JsonView::Text("idle"@)
            &&& after.public_session(id)->0.data.field("error"@) == JsonView::Null
            &&& after.record(id, RecordKind::Turn, turn_id) is Some
            &&& after.record(id, RecordKind::Turn, turn_id)->0.data == public_turn(
                id,
                store.public_view(id)->Ok_0.field("agent"@).field("id"@),
                turn_id,
                source,
                now,
            )
        }),
{
    lemma_public_session_found(store, id);
    assert(store.session_row(id) is Some);
    let turn_id = source.field("id"@).text()->0;
    let agent_id = store.public_view(id)->Ok_0.field("agent"@).field("id"@);
    let turn = public_turn(id, agent_id, turn_id, source, now);
    lemma_public_turn(id, agent_id, turn_id, source, now);
    lemma_record_is_sound(store, id, RecordKind::Turn, turn, turn_id);
    let saved = store.with_record(id, RecordKind::Turn, turn, turn_id).0;
    let told = saved.published(turn_event(turn_status(source), id, turn_id, turn));
    lemma_status_read_back(told, id, "idle"@, None, now);
    let kept = match store.record(id, RecordKind::Turn, turn_id) {
        Some(row) => row.turn_id,
        None => turn_id,
    };
    lemma_put_lookup::<Record>(
        store.records,
        RecordView {
            session_id: id,
            kind: RecordKind::Turn,
            id: turn_id,
            turn_id: kept,
            data: turn,
        },
        record_key(id, RecordKind::Turn, turn_id),
    );
    let after = turn_changed(store, id, false, source, now).0;
    assert(after.records == saved.records);
}

/// The correction of a session touches only turns of that session that failed
/// because the connection was lost, and only calls of that session whose
/// delivery is uncertain; it never makes a call wait again, and it takes an
/// answer for delivered only where the history says that its turn completed.
pub proof fn law_reconciliation_is_conservative(
    store: StoreView,
    session_id: Seq<char>,
    history: Seq<JsonView>,
    now: u64,
    i: int,
)
    ensures
        ({
            let after = reconciled(store, session_id, history, now).0;
            &&& after.agents == store.agents
            &&& after.sessions == store.sessions
            &&& after.records.len() == store.records.len()
            &&& after.calls.len() == store.calls.len()
            &&& 0 <= i < store.records.len() && after.records[i] != store.records[i] ==> {
                &&& store.records[i].session_id == session_id
                &&& provisional(store.records[i])
                &&& turn_in(history, store.records[i].id) is Some
                &&& ending(turn_in(history, store.records[i].id)->0) is Some
            }
            &&& 0 <= i < store.calls.len() && after.calls[i] != store.calls[i] ==> {
                &&& store.calls[i].session_id == session_id
                &&& uncertain(store.calls[i])
                &&& after.calls[i] == (ToolCallView {
                    status: CallStatus::Submitted,
                    ..store.calls[i]
                })
                &&& turn_in(history, store.calls[i].turn_id) is Some
                &&& turn_in(history, store.calls[i].turn_id)->0.field("status"@)
                    == JsonView::Text("completed"@)
            }
            &&& forall|s: Seq<char>|
                s != session_id ==> #[trigger] after.public_session(s) == store.public_session(s)
        }),
{
    let turns = turn_recovery(session_id, history);
    let calls = call_recovery(session_id, history);
    let corrected = StoreView {
        records: swept(store.records, turns),
        calls: swept(store.calls, calls),
        outbox: store.outbox + sweep_effects::<Record>(store.records, turns)
            + sweep_effects::<ToolCall>(store.calls, calls),
        ..store
    };
    let after = reconciled(store, session_id, history, now).0;
    lemma_status_spares(corrected, session_id, "idle"@, None, now);
    assert(after.records == corrected.records && after.calls == corrected.calls);
    if 0 <= i < store.records.len() {
        assert(after.records[i] == ruled(store.records[i], turns));
    }
    if 0 <= i < store.calls.len() {
        assert(after.calls[i] == ruled(store.calls[i], calls));
    }
    assert forall|s: Seq<char>| s != session_id implies #[trigger] after.public_session(s)
        == store.public_session(s) by {
        assert(corrected.public_session(s) == store.public_session(s));
    }
}

/// A turn that the history has corrected did not fail because the connection was
/// lost.
proof fn lemma_recovered_turn(row: RecordView, session_id: Seq<char>, history: Seq<JsonView>)
    requires
        row.data is Object,
        (turn_recovery(session_id, history))(row) is Some,
    ensures
        !provisional((turn_recovery(session_id, history))(row)->0),
{
    let changed = (turn_recovery(session_id, history))(row)->0;
    let turn = turn_in(history, row.id)->0;
    let (_, error) = ending(turn)->0;
    assert(changed.data.get("error"@) == Some(error)) by {
        broadcast use group_object_reads;

        lemma_statuses();
    }
    assert(error.field("code"@) != JsonView::Text("connection_failed"@)) by {
        broadcast use group_object_reads;

        if error != JsonView::Null {
            assert(error.get("code"@) == Some(JsonView::Text("internal_error"@)));
            reveal_strlit("internal_error");
            reveal_strlit("connection_failed");
            assert("internal_error"@.len() == 14 && "connection_failed"@.len() == 17);
        }
    }
}

/// A turn that failed because the connection was lost is read back as the history
/// says that it ended, and its session is ready for input again.
pub proof fn law_history_decides_how_a_turn_ended(
    store: StoreView,
    session_id: Seq<char>,
    history: Seq<JsonView>,
    now: u64,
    turn_id: Seq<char>,
)
    requires
        store.well_formed(),
        store.public_session(session_id) is Some,
        store.record(session_id, RecordKind::Turn, turn_id) is Some,
        provisional(store.record(session_id, RecordKind::Turn, turn_id)->0),
        turn_in(history, turn_id) is Some,
        ending(turn_in(history, turn_id)->0) is Some,
    ensures
        ({
            let (status, error) = ending(turn_in(history, turn_id)->0)->0;
            let (after, result) = reconciled(store, session_id, history, now);
            &&& result is Ok
            &&& after.record(session_id, RecordKind::Turn, turn_id) is Some
            &&& after.record(session_id, RecordKind::Turn, turn_id)->0.data.field("status"@)
                == JsonView::Text(status)
            &&& after.record(session_id, RecordKind::Turn, turn_id)->0.data.field("error"@)
                == error
            &&& after.public_session(session_id) is Some
            &&& after.public_session(session_id)->0.data.field("status"@) == JsonView::Text(
                "idle"@,
            )
            &&& after.public_session(session_id)->0.data.field("error"@) == JsonView::Null
        }),
{
    let turns = turn_recovery(session_id, history);
    let calls = call_recovery(session_id, history);
    let row = store.record(session_id, RecordKind::Turn, turn_id)->0;
    lemma_record_found(store, session_id, RecordKind::Turn, turn_id);
    let i = choose|i: int| 0 <= i < store.records.len() && #[trigger] store.records[i] == row;
    assert(turns(store.records[i]) is Some);
    assert(recovers_turn(store.records, session_id, history));
    let corrected = StoreView {
        records: swept(store.records, turns),
        calls: swept(store.calls, calls),
        outbox: store.outbox + sweep_effects::<Record>(store.records, turns)
            + sweep_effects::<ToolCall>(store.calls, calls),
        ..store
    };
    let after = reconciled(store, session_id, history, now).0;
    law_reconciliation_is_sound(store, session_id, history, now);
    lemma_correction_is_sound(store, session_id, history);
    lemma_status_read_back(corrected, session_id, "idle"@, None, now);
    assert(keeps_keys::<Record>(turns));
    lemma_swept_lookup::<Record>(
        store.records,
        turns,
        record_key(session_id, RecordKind::Turn, turn_id),
    );
    assert(after.records == corrected.records);
    assert(row.data is Object);
    broadcast use group_object_reads;

    lemma_statuses();
}

/// A session that was corrected against the history is not changed by a second
/// correction against the same history.
pub proof fn law_reconciliation_happens_once(
    store: StoreView,
    session_id: Seq<char>,
    history: Seq<JsonView>,
    now: u64,
    later: u64,
)
    requires
        store.well_formed(),
    ensures
        ({
            let after = reconciled(store, session_id, history, now).0;
            reconciled(after, session_id, history, later) == (
                after,
                Ok::<(), ApiErrorView>(()),
            )
        }),
{
    let turns = turn_recovery(session_id, history);
    let calls = call_recovery(session_id, history);
    let after = reconciled(store, session_id, history, now).0;
    assert(after.records == swept(store.records, turns));
    assert(after.calls == swept(store.calls, calls));
    assert forall|i: int| 0 <= i < after.records.len() implies turns(#[trigger] after.records[i]) is None by {
        let row = store.records[i];
        assert(row.data is Object);
        assert(after.records[i] == ruled(row, turns));
        if turns(row) is Some {
            lemma_recovered_turn(row, session_id, history);
        }
    }
    assert forall|i: int| 0 <= i < after.calls.len() implies calls(#[trigger] after.calls[i]) is None by {
        assert(after.calls[i] == ruled(store.calls[i], calls));
    }
    lemma_sweep_of_nothing::<Record>(after.records, turns);
    lemma_sweep_of_nothing::<ToolCall>(after.calls, calls);
    assert(!recovers_turn(after.records, session_id, history));
    let again = reconciled(after, session_id, history, later).0;
    assert(again.outbox =~= after.outbox);
}

/// An event of the backend that happened in a thread reaches those who listen to
/// the session of that thread, and nobody else.
pub proof fn law_backend_events_stay_with_their_session(
    store: StoreView,
    id: Seq<char>,
    event: JsonView,
    thread_id: Seq<char>,
)
    requires
        event.field("params"@).field("threadId"@) == JsonView::Text(thread_id),
    ensures
        is_own_event(store, id, event) <==> store.session_row(id) is Some && store.session_row(
            id,
        )->0.thread_id == Some(thread_id),
{
}

/// A public event about a turn or an item of a session reaches those who listen
/// to that session, and nobody else.
pub proof fn law_public_events_stay_with_their_session(
    kind: Seq<char>,
    session_id: Seq<char>,
    turn_id: Seq<char>,
    told: JsonView,
    index: int,
    id: Seq<char>,
)
    ensures
        tells_of(turn_event(kind, session_id, turn_id, told), id) <==> id == session_id,
        tells_of(item_event(kind, session_id, turn_id, told, index), id) <==> id == session_id,
        tells_of(
            text_event(session_id, turn_id, told, index),
            id,
        ) <==> id == session_id,
{
    broadcast use group_object_reads;

    lemma_event_names();
    reveal_strlit("session_id");
    reveal_strlit("type");
    reveal_strlit("session");
    assert("session_id"@.len() == 10 && "type"@.len() == 4 && "session"@.len() == 7);
    let a = turn_event(kind, session_id, turn_id, told);
    let b = item_event(kind, session_id, turn_id, told, index);
    let c = text_event(session_id, turn_id, told, index);
    assert(a.get("session_id"@) == Some(JsonView::Text(session_id)));
    assert(b.get("session_id"@) == Some(JsonView::Text(session_id)));
    assert(c.get("session_id"@) == Some(JsonView::Text(session_id)));
    assert(a.get("session"@) is None && b.get("session"@) is None && c.get("session"@) is None);
}

/// A public event about a session reaches those who listen to it, and nobody
/// else.
pub proof fn law_session_events_stay_with_their_session(
    kind: JsonView,
    data: JsonView,
    session_id: Seq<char>,
    id: Seq<char>,
)
    requires
        data.field("id"@) == JsonView::Text(session_id),
    ensures
        tells_of(object().entry("type"@, kind).entry("session"@, data), id) <==> id == session_id,
{
    broadcast use group_object_reads;

    lemma_event_names();
    reveal_strlit("session_id");
    reveal_strlit("type");
    reveal_strlit("session");
    assert("session_id"@.len() == 10 && "type"@.len() == 4 && "session"@.len() == 7);
    let event = object().entry("type"@, kind).entry("session"@, data);
    assert(event.get("session"@) == Some(data));
    assert(event.get("session_id"@) is None);
}

/// A session is bound to a thread only once the thread has a name, and its input
/// then goes to that thread; a session that has a thread keeps it.
pub proof fn law_thread_is_bound_once_named(
    store: StoreView,
    stage: InputStageView,
    reply: JsonView,
    other: Seq<char>,
)
    ensures
        stage !is Naming ==> input_advanced(store, stage, reply).0 == store,
        stage matches InputStageView::Naming { session_id, thread_id, text } ==> {
            let after = input_advanced(store, stage, reply);
            &&& after.1 == Ok::<ProgressView, ApiErrorView>(
                ProgressView::Ask {
                    stage: InputStageView::Turning,
                    call: turn_call(thread_id, text),
                },
            )
            &&& store.session_row(session_id) is Some ==> after.0.session_row(session_id) == Some(
                SessionRowView {
                    thread_id: Some(thread_id),
                    ..store.session_row(session_id)->0
                },
            )
            &&& other != session_id ==> after.0.session_row(other) == store.session_row(other)
        },
        stage matches InputStageView::Configuring { session, text } ==> match input_advanced(
            store,
            stage,
            reply,
        ).1 {
            Ok(ProgressView::Ask { stage: InputStageView::Resuming { thread_id, text: said }, call })
                => session.thread_id == Some(thread_id) && said == text,
            Ok(ProgressView::Ask { stage: InputStageView::Starting { session_id, text: said }, call })
                => session.thread_id is None && session_id == session.id && said == text,
            Ok(_) => false,
            Err(_) => true,
        },
{
    match stage {
        InputStageView::Naming { session_id, thread_id, text } => {
            match store.session_row(session_id) {
                Some(row) => {
                    lemma_session_found(store, session_id);
                    let bound = SessionRowView { thread_id: Some(thread_id), ..row };
                    lemma_put_lookup::<SessionRow>(store.sessions, bound, seq![session_id]);
                    lemma_put_lookup::<SessionRow>(store.sessions, bound, seq![other]);
                    lemma_single_key(other, session_id);
                },
                None => {},
            }
        },
        _ => {},
    }
}

/// The number of outputs among records that are all counted.
proof fn lemma_output_count_push(
    records: Seq<RecordView>,
    row: RecordView,
    session_id: Seq<char>,
    turn_id: Seq<char>,
)
    ensures
        output_count(records.push(row), session_id, turn_id) == output_count(
            records,
            session_id,
            turn_id,
        ) + (if is_output(row, session_id, turn_id) {
            1nat
        } else {
            0nat
        }),
{
    assert(records.push(row).drop_last() =~= records);
}

/// The outputs of a turn are numbered from 0 as they come: a new one gets the
/// number of those before it.
pub proof fn law_outputs_are_numbered_in_order(
    store: StoreView,
    session_id: Seq<char>,
    turn_id: Seq<char>,
    item: JsonView,
)
    requires
        item.field("id"@).text() is Some,
        store.record(session_id, RecordKind::Item, item.field("id"@).text()->0) is None,
        item.field("role"@) != JsonView::Text("user"@),
        item.field("type"@) != JsonView::Null,
        item.field("type"@) != JsonView::Text("function_call_output"@),
    ensures
        ({
            let saved = store.with_record(session_id, RecordKind::Item, item, turn_id).0;
            let item_id = item.field("id"@).text()->0;
            &&& output_index(saved.records, session_id, turn_id, item_id) == output_count(
                store.records,
                session_id,
                turn_id,
            )
            &&& output_count(saved.records, session_id, turn_id) == output_count(
                store.records,
                session_id,
                turn_id,
            ) + 1
        }),
{
    let item_id = item.field("id"@).text()->0;
    let row = RecordView {
        session_id,
        kind: RecordKind::Item,
        id: item_id,
        turn_id,
        data: item,
    };
    let saved = store.with_record(session_id, RecordKind::Item, item, turn_id).0;
    let key = record_key(session_id, RecordKind::Item, item_id);
    assert(saved.records == store.records.push(row));
    assert(saved.records.drop_last() =~= store.records);
    let n = store.records.len() as int;
    assert(saved.records.take(n + 1) =~= saved.records);
    lemma_output_count_push(store.records, row, session_id, turn_id);
}

} // verus!
