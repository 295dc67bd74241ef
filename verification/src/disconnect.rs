//! What the loss of the backend's connection does to unfinished work.
use crate::contract::now;
use crate::json::object;
use crate::json::signed_number;
use crate::json::Json;
use crate::json::JsonView;
use crate::model::views;
use crate::model::Duplicate;
use crate::records::active_status;
use crate::resources::Agent;
use crate::store::CallStatus;
use crate::store::EffectView;
use crate::store::PublicSession;
use crate::store::PublicSessionView;
use crate::store::Record;
use crate::store::RecordKind;
use crate::store::RecordView;
use crate::store::SessionRow;
use crate::store::Store;
use crate::store::StoreView;
use crate::store::ToolCall;
use crate::store::ToolCallView;
use crate::sweep::sweep;
use crate::sweep::sweep_effects;
use crate::sweep::swept;
use crate::sweep::Rule;
use vstd::prelude::*;

verus! {

/// Whether a call waits for an answer or for its delivery.
pub open spec fn call_in_flight(row: ToolCallView) -> bool {
    row.status is Pending || row.status is Submitting
}

/// What the loss of the connection makes of a call: what waited for its answer
/// is gone.
pub open spec fn call_loss() -> spec_fn(ToolCallView) -> Option<ToolCallView> {
    |row: ToolCallView|
        if call_in_flight(row) {
            Some(ToolCallView { status: CallStatus::Unavailable, ..row })
        } else {
            None
        }
}

/// Whether a session is at work.
pub open spec fn session_in_flight(row: PublicSessionView) -> bool {
    let status = row.data.field("status"@);
    status == JsonView::Text("in_progress"@) || status == JsonView::Text("requires_action"@)
}

/// What the loss of the connection makes of a session: one at work has failed.
pub open spec fn session_loss() -> spec_fn(PublicSessionView) -> Option<PublicSessionView> {
    |row: PublicSessionView|
        if session_in_flight(row) {
            Some(
                PublicSessionView {
                    data: row.data.with("status"@, JsonView::Text("failed"@)).with(
                        "error"@,
                        JsonView::Text("backend connection lost"@),
                    ),
                    ..row
                },
            )
        } else {
            None
        }
}

/// What is shown of why a turn failed when the connection was lost.
pub open spec fn connection_failure() -> JsonView {
    object().entry("code"@, JsonView::Text("connection_failed"@)).entry(
        "message"@,
        JsonView::Text("backend connection lost"@),
    )
}

/// Whether a turn or an item is not over.
pub open spec fn record_in_flight(row: RecordView) -> bool {
    let status = row.data.field("status"@);
    match row.kind {
        RecordKind::Turn => active_status(status),
        RecordKind::Item => status == JsonView::Text("in_progress"@),
    }
}

/// What the loss of the connection makes of a record: a turn that was not over
/// has failed, an item that was not over stays incomplete.
pub open spec fn record_loss(now: u64) -> spec_fn(RecordView) -> Option<RecordView> {
    |row: RecordView|
        if !record_in_flight(row) {
            None
        } else {
            match row.kind {
                RecordKind::Turn => Some(
                    RecordView {
                        data: row.data.with("status"@, JsonView::Text("failed"@)).with(
                            "completed_at"@,
                            signed_number((now as i64) as int),
                        ).with("error"@, connection_failure()),
                        ..row
                    },
                ),
                RecordKind::Item => Some(
                    RecordView {
                        data: row.data.with("status"@, JsonView::Text("incomplete"@)),
                        ..row
                    },
                ),
            }
        }
}

/// The loss of those who waited for the answers to calls.
struct CallLoss {}

/// The loss of public work at a time.
struct Loss {
    now: u64,
}

impl Rule<ToolCall> for CallLoss {
    closed spec fn rule(&self) -> spec_fn(ToolCallView) -> Option<ToolCallView> {
        call_loss()
    }

    fn apply(&self, row: &ToolCall) -> (outcome: Option<ToolCall>) {
        if row.status == CallStatus::Pending || row.status == CallStatus::Submitting {
            let mut row = row.duplicate();
            row.status = CallStatus::Unavailable;
            Some(row)
        } else {
            None
        }
    }
}

impl Rule<PublicSession> for Loss {
    closed spec fn rule(&self) -> spec_fn(PublicSessionView) -> Option<PublicSessionView> {
        session_loss()
    }

    fn apply(&self, row: &PublicSession) -> (outcome: Option<PublicSession>) {
        let status = row.data.field("status");
        if status.is_text("in_progress") || status.is_text("requires_action") {
            let mut row = row.duplicate();
            row.data.set("status", Json::string("failed"));
            row.data.set("error", Json::string("backend connection lost"));
            Some(row)
        } else {
            None
        }
    }
}

impl Rule<Record> for Loss {
    closed spec fn rule(&self) -> spec_fn(RecordView) -> Option<RecordView> {
        record_loss(self.now)
    }

    fn apply(&self, row: &Record) -> (outcome: Option<Record>) {
        let status = row.data.field("status");
        match row.kind {
            RecordKind::Turn => if status.is_text("queued") || status.is_text("in_progress")
                || status.is_text("waiting") {
                let mut row = row.duplicate();
                row.data.set("status", Json::string("failed"));
                row.data.set("completed_at", Json::signed(self.now as i64));
                row.data.set(
                    "error",
                    Json::object().entry("code", Json::string("connection_failed")).entry(
                        "message",
                        Json::string("backend connection lost"),
                    ),
                );
                Some(row)
            } else {
                None
            },
            RecordKind::Item => if status.is_text("in_progress") {
                let mut row = row.duplicate();
                row.data.set("status", Json::string("incomplete"));
                Some(row)
            } else {
                None
            },
        }
    }
}

impl StoreView {
    /// The store after the backend can no longer be given answers to function
    /// calls.
    pub open spec fn calls_lost(self) -> StoreView {
        StoreView {
            calls: swept(self.calls, call_loss()),
            outbox: self.outbox + sweep_effects::<ToolCall>(self.calls, call_loss()),
            ..self
        }
    }

    /// The store after the public work in flight has failed.
    pub open spec fn work_lost(self, now: u64) -> StoreView {
        StoreView {
            public_sessions: swept(self.public_sessions, session_loss()),
            records: swept(self.records, record_loss(now)),
            outbox: self.outbox + sweep_effects::<PublicSession>(
                self.public_sessions,
                session_loss(),
            ) + sweep_effects::<Record>(self.records, record_loss(now)),
            ..self
        }
    }

    /// The store after the connection to the backend has been lost.
    pub open spec fn connection_lost(self, now: u64) -> StoreView {
        self.calls_lost().work_lost(now).notified(
            object().entry("method"@, JsonView::Text("stream/disconnected"@)),
        ).closed(object().entry("type"@, JsonView::Text("disconnect"@)))
    }
}

/// Record that the backend can no longer be given answers to function calls.
pub fn lose_calls(store: &mut Store)
    ensures
        final(store)@ == old(store)@.calls_lost(),
{
    sweep(&mut store.calls, &mut store.outbox, &CallLoss {  });
}

/// Record that the public work in flight has failed.
pub fn disconnected(store: &mut Store, now: u64)
    ensures
        final(store)@ == old(store)@.work_lost(now),
{
    let loss = Loss { now };
    sweep(&mut store.public_sessions, &mut store.outbox, &loss);
    sweep(&mut store.records, &mut store.outbox, &loss);
}

/// Record that the connection to the backend is lost, and tell the streams.
pub fn disconnect_bookkeeping(store: &mut Store, now: u64)
    ensures
        final(store)@ == old(store)@.connection_lost(now),
{
    lose_calls(store);
    disconnected(store, now);
    store.notify(Json::object().entry("method", Json::string("stream/disconnected")));
    store.close(Json::object().entry("type", Json::string("disconnect")));
}

impl Store {
    /// The store of the rows that were saved, once what an earlier process left
    /// unfinished at the time `now` has been recorded as lost.
    pub fn recover(
        agents: Vec<Agent>,
        sessions: Vec<SessionRow>,
        calls: Vec<ToolCall>,
        public_sessions: Vec<PublicSession>,
        records: Vec<Record>,
        now: u64,
    ) -> (store: Store)
        ensures
            store@ == (StoreView {
                agents: views(agents@),
                sessions: views(sessions@),
                calls: views(calls@),
                public_sessions: views(public_sessions@),
                records: views(records@),
                outbox: Seq::empty(),
            }).calls_lost().work_lost(now),
    {
        let mut store = Store {
            agents,
            sessions,
            calls,
            public_sessions,
            records,
            outbox: Vec::new(),
        };
        assert(views(store.outbox@) =~= Seq::<EffectView>::empty());
        lose_calls(&mut store);
        disconnected(&mut store, now);
        store
    }

    /// The store of the rows that were saved. No backend is connected yet, so
    /// what an earlier process left unfinished is recorded as lost.
    pub fn open(
        agents: Vec<Agent>,
        sessions: Vec<SessionRow>,
        calls: Vec<ToolCall>,
        public_sessions: Vec<PublicSession>,
        records: Vec<Record>,
    ) -> (store: Store)
        ensures
            exists|now: u64|
                store@ == #[trigger] (StoreView {
                    agents: views(agents@),
                    sessions: views(sessions@),
                    calls: views(calls@),
                    public_sessions: views(public_sessions@),
                    records: views(records@),
                    outbox: Seq::empty(),
                }).calls_lost().work_lost(now),
    {
        let at: u64 = now();
        Store::recover(agents, sessions, calls, public_sessions, records, at)
    }
}

} // verus!
