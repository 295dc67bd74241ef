//! The correction of what a lost connection left open, against the backend's
//! own history once it can be reached again.
use crate::backend::Call;
use crate::backend::CallView;
use crate::error::ApiError;
use crate::error::ApiErrorView;
use crate::json::object;
use crate::json::signed_number;
use crate::json::Json;
use crate::json::JsonView;
use crate::model::option_view;
use crate::model::verdict;
use crate::model::views;
use crate::model::Duplicate;
use crate::projection::failure_of_turn;
use crate::projection::turn_failure;
use crate::records::number;
use crate::records::session_status;
use crate::store::CallStatus;
use crate::store::Record;
use crate::store::RecordKind;
use crate::store::RecordView;
use crate::store::Store;
use crate::store::StoreView;
use crate::store::ToolCall;
use crate::store::ToolCallView;
use crate::sweep::sweep;
use crate::sweep::sweep_effects;
use crate::sweep::swept;
use crate::sweep::Rule;
use crate::text::is_before;
use crate::text::lemma_text_total;
use crate::text::lemma_text_transitive;
use crate::text::same;
use crate::text::text_before;
use vstd::prelude::*;

verus! {

/// Whether a record is a turn that failed only because the connection was lost.
pub open spec fn provisional(row: RecordView) -> bool {
    row.kind is Turn && row.data.field("error"@).field("code"@) == JsonView::Text(
        "connection_failed"@,
    )
}

/// Whether the delivery of a call's answer is uncertain.
pub open spec fn uncertain(call: ToolCallView) -> bool {
    call.status is Unavailable || call.status is Submitting
}

/// Whether a session has a turn or a call that a lost connection left open.
pub open spec fn left_open(store: StoreView, session_id: Seq<char>) -> bool {
    ||| exists|i: int|
        0 <= i < store.records.len() && (#[trigger] store.records[i]).session_id == session_id
            && provisional(store.records[i])
    ||| exists|i: int|
        0 <= i < store.calls.len() && (#[trigger] store.calls[i]).session_id == session_id
            && uncertain(store.calls[i])
}

/// Whether texts stand in their order, each once.
pub open spec fn ascending(texts: Seq<Seq<char>>) -> bool {
    forall|i: int, j: int|
        0 <= i < j < texts.len() ==> text_before(#[trigger] texts[i], #[trigger] texts[j])
}

/// What the backend is asked for: the turns of a session's thread.
pub open spec fn history_call(thread_id: Seq<char>) -> CallView {
    CallView {
        method: "thread/turns/list"@,
        params: object().entry("threadId"@, JsonView::Text(thread_id)).entry(
            "limit"@,
            number(100),
        ).entry("itemsView"@, JsonView::Text("summary"@)),
    }
}

/// The turn with an ID in the backend's history; the last one if there are
/// several.
pub open spec fn turn_in(history: Seq<JsonView>, id: Seq<char>) -> Option<JsonView>
    decreases history.len(),
{
    if history.len() == 0 {
        None
    } else if history.last().field("id"@) == JsonView::Text(id) {
        Some(history.last())
    } else {
        turn_in(history.drop_last(), id)
    }
}

/// What the history says of how a turn ended: its public status and error.
/// Nothing where it does not say that the turn ended.
pub open spec fn ending(turn: JsonView) -> Option<(Seq<char>, JsonView)> {
    let status = turn.field("status"@);
    if status == JsonView::Text("completed"@) {
        Some(("completed"@, JsonView::Null))
    } else if status == JsonView::Text("interrupted"@) {
        Some(("cancelled"@, JsonView::Null))
    } else if status == JsonView::Text("failed"@) {
        Some(("failed"@, turn_failure(turn)))
    } else {
        None
    }
}

/// What the history makes of a session's records: a turn that failed only
/// because the connection was lost ends as the history says, if it says so.
pub open spec fn turn_recovery(session_id: Seq<char>, history: Seq<JsonView>) -> spec_fn(
    RecordView,
) -> Option<RecordView> {
    |row: RecordView|
        if row.session_id != session_id || !provisional(row) {
            None
        } else {
            match turn_in(history, row.id) {
                None => None,
                Some(turn) => match ending(turn) {
                    None => None,
                    Some((status, error)) => {
                        let ended = row.data.with("status"@, JsonView::Text(status)).with(
                            "error"@,
                            error,
                        );
                        Some(
                            RecordView {
                                data: match turn.field("completed_at"@).signed() {
                                    Some(at) => ended.with(
                                        "completed_at"@,
                                        signed_number(at as int),
                                    ),
                                    None => ended,
                                },
                                ..row
                            },
                        )
                    },
                },
            }
        }
}

/// What the history makes of a session's calls: the answer to a call of a turn
/// that completed was delivered.
pub open spec fn call_recovery(session_id: Seq<char>, history: Seq<JsonView>) -> spec_fn(
    ToolCallView,
) -> Option<ToolCallView> {
    |call: ToolCallView|
        match turn_in(history, call.turn_id) {
            Some(turn) if call.session_id == session_id && uncertain(call) && turn.field(
                "status"@,
            ) == JsonView::Text("completed"@) => Some(
                ToolCallView { status: CallStatus::Submitted, ..call },
            ),
            _ => None,
        }
}

/// Whether the history corrects a turn of a session.
pub open spec fn recovers_turn(
    records: Seq<RecordView>,
    session_id: Seq<char>,
    history: Seq<JsonView>,
) -> bool {
    exists|i: int|
        0 <= i < records.len() && (turn_recovery(session_id, history))(#[trigger] records[i]) is Some
}

/// The store after a session has been corrected against the backend's history.
/// A session with a corrected turn is ready for input again.
pub open spec fn reconciled(
    store: StoreView,
    session_id: Seq<char>,
    history: Seq<JsonView>,
    now: u64,
) -> (StoreView, Result<(), ApiErrorView>) {
    let turns = turn_recovery(session_id, history);
    let calls = call_recovery(session_id, history);
    let corrected = StoreView {
        records: swept(store.records, turns),
        calls: swept(store.calls, calls),
        outbox: store.outbox + sweep_effects::<Record>(store.records, turns)
            + sweep_effects::<ToolCall>(store.calls, calls),
        ..store
    };
    if recovers_turn(store.records, session_id, history) {
        corrected.with_session_status(session_id, "idle"@, None, now)
    } else {
        (corrected, Ok(()))
    }
}

/// Whether a record is a turn that failed only because the connection was lost.
fn is_provisional(row: &Record) -> (result: bool)
    ensures
        result == provisional(row@),
{
    row.kind == RecordKind::Turn && row.data.field("error").field("code").is_text(
        "connection_failed",
    )
}

/// Add a text to texts that stand in their order, unless it is there.
fn insert_text(texts: &mut Vec<String>, text: &str)
    requires
        ascending(views(old(texts)@)),
    ensures
        ascending(views(final(texts)@)),
        forall|t: Seq<char>|
            #[trigger] views(final(texts)@).contains(t) <==> t == text@ || views(
                old(texts)@,
            ).contains(t),
{
    let ghost before = views(texts@);
    let mut i: usize = 0;
    while i < texts.len() && is_before(texts[i].as_str(), text)
        invariant
            i <= texts@.len(),
            before == views(texts@),
            *texts == *old(texts),
            ascending(before),
            forall|j: int| 0 <= j < i ==> text_before(#[trigger] before[j], text@),
        decreases texts@.len() - i,
    {
        assert(before[i as int] == texts@[i as int]@);
        i += 1;
    }
    if i < texts.len() && same(texts[i].as_str(), text) {
        assert(before[i as int] == text@);
        assert(before.contains(text@));
        return ;
    }
    proof {
        assert forall|j: int| i <= j < before.len() implies text_before(
            text@,
            #[trigger] before[j],
        ) by {
            assert(before[i as int] == texts@[i as int]@);
            lemma_text_total(before[i as int], text@);
            if j > i {
                assert(text_before(before[i as int], before[j]));
                lemma_text_transitive(text@, before[i as int], before[j]);
            }
        }
    }
    texts.insert(i, text.to_owned());
    proof {
        let after = views(texts@);
        assert(after =~= before.insert(i as int, text@));
        assert forall|j: int, k: int| 0 <= j < k < after.len() implies text_before(
            #[trigger] after[j],
            #[trigger] after[k],
        ) by {
            if j < i && k < i {
                assert(after[j] == before[j] && after[k] == before[k]);
            } else if j < i && k > i {
                assert(after[j] == before[j] && after[k] == before[k - 1]);
            } else if j < i {
                assert(after[j] == before[j]);
            } else if j == i {
                assert(after[k] == before[k - 1]);
            } else {
                assert(after[j] == before[j - 1] && after[k] == before[k - 1]);
            }
        }
        assert forall|t: Seq<char>| #[trigger] after.contains(t) <==> t == text@
            || before.contains(t) by {
            if before.contains(t) {
                let j = before.index_of(t);
                if j < i {
                    assert(after[j] == t);
                } else {
                    assert(after[j + 1] == t);
                }
            }
            if after.contains(t) {
                let j = after.index_of(t);
                if j < i {
                    assert(before[j] == t);
                } else if j > i {
                    assert(before[j - 1] == t);
                }
            }
            assert(after[i as int] == text@);
        }
    }
}

/// The sessions that a lost connection left with something open, each once, in
/// order.
pub fn run(store: &Store) -> (sessions: Vec<String>)
    ensures
        ascending(views(sessions@)),
        forall|id: Seq<char>| #[trigger]
            views(sessions@).contains(id) <==> left_open(store@, id),
{
    let ghost records = store@.records;
    let ghost calls = store@.calls;
    let mut sessions: Vec<String> = Vec::new();
    assert(views(sessions@) =~= Seq::<Seq<char>>::empty());
    let mut i: usize = 0;
    while i < store.records.len()
        invariant
            i <= store.records@.len(),
            records == views(store.records@),
            ascending(views(sessions@)),
            forall|id: Seq<char>| #[trigger]
                views(sessions@).contains(id) <==> exists|k: int|
                    0 <= k < i && (#[trigger] records[k]).session_id == id && provisional(
                        records[k],
                    ),
        decreases store.records@.len() - i,
    {
        let row = &store.records[i];
        assert(records[i as int] == row@);
        let ghost before = views(sessions@);
        if is_provisional(row) {
            insert_text(&mut sessions, row.session_id.as_str());
        }
        proof {
            assert forall|id: Seq<char>| #[trigger] views(sessions@).contains(id) <==> exists|
                k: int,
            |
                0 <= k < i + 1 && (#[trigger] records[k]).session_id == id && provisional(
                    records[k],
                ) by {
                if views(sessions@).contains(id) {
                    if before.contains(id) {
                        let k = choose|k: int|
                            0 <= k < i && (#[trigger] records[k]).session_id == id && provisional(
                                records[k],
                            );
                        assert(records[k].session_id == id);
                    } else {
                        assert(records[i as int].session_id == id);
                    }
                }
            }
        }
        i += 1;
    }
    let ghost from_records = views(sessions@);
    let mut i: usize = 0;
    while i < store.calls.len()
        invariant
            i <= store.calls@.len(),
            calls == views(store.calls@),
            ascending(views(sessions@)),
            forall|id: Seq<char>| #[trigger]
                views(sessions@).contains(id) <==> from_records.contains(id) || exists|k: int|
                    0 <= k < i && (#[trigger] calls[k]).session_id == id && uncertain(calls[k]),
        decreases store.calls@.len() - i,
    {
        let call = &store.calls[i];
        assert(calls[i as int] == call@);
        let ghost before = views(sessions@);
        if call.status == CallStatus::Unavailable || call.status == CallStatus::Submitting {
            insert_text(&mut sessions, call.session_id.as_str());
        }
        proof {
            assert forall|id: Seq<char>| #[trigger] views(sessions@).contains(id) <==>
                from_records.contains(id) || exists|k: int|
                0 <= k < i + 1 && (#[trigger] calls[k]).session_id == id && uncertain(
                    calls[k],
                ) by {
                if views(sessions@).contains(id) {
                    if before.contains(id) {
                        if !from_records.contains(id) {
                            let k = choose|k: int|
                                0 <= k < i && (#[trigger] calls[k]).session_id == id && uncertain(
                                    calls[k],
                                );
                            assert(calls[k].session_id == id);
                        }
                    } else {
                        assert(calls[i as int].session_id == id);
                    }
                }
            }
        }
        i += 1;
    }
    sessions
}

/// What the backend is asked for of a session's history.
pub open spec fn history_inquiry(store: StoreView, session_id: Seq<char>) -> Option<CallView> {
    match store.session_row(session_id) {
        Some(row) => match row.thread_id {
            Some(thread_id) => Some(history_call(thread_id)),
            None => None,
        },
        None => None,
    }
}

/// What the backend is asked for of a session's history; nothing where the
/// session has not run.
pub fn history_request(store: &Store, session_id: &str) -> (call: Option<Call>)
    ensures
        option_view(call) == history_inquiry(store@, session_id@),
{
    match store.session_row(session_id) {
        None => None,
        Some(row) => match &row.thread_id {
            None => None,
            Some(thread_id) => {
                let params = Json::object()
                    .entry("threadId", Json::string(thread_id.as_str()))
                    .entry("limit", Json::unsigned(100))
                    .entry("itemsView", Json::string("summary"));
                Some(Call { method: "thread/turns/list", params })
            },
        },
    }
}

/// The turn with an ID in the backend's history.
fn find_turn<'a>(history: &'a Json, id: &str) -> (turn: Option<&'a Json>)
    ensures
        match turn {
            Some(turn) => turn_in(history@.elements(), id@) == Some(turn@),
            None => turn_in(history@.elements(), id@) is None,
        },
{
    match history {
        Json::Array(turns) => {
            let ghost model = history@.elements();
            let mut i: usize = turns.len();
            assert(model.take(i as int) =~= model);
            while i > 0
                invariant
                    i <= turns@.len(),
                    *history == Json::Array(*turns),
                    model == history@.elements(),
                    turn_in(model, id@) == turn_in(model.take(i as int), id@),
                decreases i,
            {
                proof {
                    assert(model.take(i as int).last() == turns@[i - 1]@);
                    assert(model.take(i as int).drop_last() =~= model.take(i - 1));
                }
                if turns[i - 1].field("id").is_text(id) {
                    return Some(&turns[i - 1]);
                }
                i -= 1;
            }
            None
        },
        _ => None,
    }
}

/// A session's history.
struct Recovery<'a> {
    session_id: &'a str,
    history: &'a Json,
}

impl<'a> Rule<Record> for Recovery<'a> {
    closed spec fn rule(&self) -> spec_fn(RecordView) -> Option<RecordView> {
        turn_recovery(self.session_id@, self.history@.elements())
    }

    fn apply(&self, row: &Record) -> (outcome: Option<Record>) {
        if !same(row.session_id.as_str(), self.session_id) || !is_provisional(row) {
            return None;
        }
        let turn = match find_turn(self.history, row.id.as_str()) {
            None => {
                return None;
            },
            Some(turn) => turn,
        };
        let status = turn.field("status");
        let (word, error) = if status.is_text("completed") {
            ("completed", Json::Null)
        } else if status.is_text("interrupted") {
            ("cancelled", Json::Null)
        } else if status.is_text("failed") {
            ("failed", failure_of_turn(turn))
        } else {
            return None;
        };
        let mut row = row.duplicate();
        row.data.set("status", Json::string(word));
        row.data.set("error", error);
        match turn.field("completed_at").as_signed() {
            Some(at) => {
                row.data.set("completed_at", Json::signed(at));
            },
            None => {},
        }
        Some(row)
    }
}

impl<'a> Rule<ToolCall> for Recovery<'a> {
    closed spec fn rule(&self) -> spec_fn(ToolCallView) -> Option<ToolCallView> {
        call_recovery(self.session_id@, self.history@.elements())
    }

    fn apply(&self, call: &ToolCall) -> (outcome: Option<ToolCall>) {
        if !same(call.session_id.as_str(), self.session_id) || !(call.status
            == CallStatus::Unavailable || call.status == CallStatus::Submitting) {
            return None;
        }
        match find_turn(self.history, call.turn_id.as_str()) {
            Some(turn) => if turn.field("status").is_text("completed") {
                let mut call = call.duplicate();
                call.status = CallStatus::Submitted;
                Some(call)
            } else {
                None
            },
            None => None,
        }
    }
}

/// Whether the history corrects a turn of a session.
fn corrects_turn(records: &Vec<Record>, recovery: &Recovery) -> (result: bool)
    ensures
        result == recovers_turn(
            views(records@),
            recovery.session_id@,
            recovery.history@.elements(),
        ),
{
    let ghost model = views(records@);
    let ghost rule = turn_recovery(recovery.session_id@, recovery.history@.elements());
    let mut i: usize = 0;
    while i < records.len()
        invariant
            i <= records@.len(),
            model == views(records@),
            rule == turn_recovery(recovery.session_id@, recovery.history@.elements()),
            forall|j: int| 0 <= j < i ==> rule(#[trigger] model[j]) is None,
        decreases records@.len() - i,
    {
        assert(model[i as int] == records@[i as int]@);
        let outcome: Option<Record> = recovery.apply(&records[i]);
        if outcome.is_some() {
            return true;
        }
        i += 1;
    }
    false
}

/// Correct a session against the backend's answer `response`, whose `data` are
/// the turns of the session's thread.
pub fn reconcile_session(store: &mut Store, session_id: &str, response: &Json, now: u64) -> (result:
    Result<(), ApiError>)
    ensures
        (final(store)@, verdict(result)) == reconciled(
            old(store)@,
            session_id@,
            response@.field("data"@).elements(),
            now,
        ),
{
    let recovery = Recovery { session_id, history: response.field("data") };
    let recovered = corrects_turn(&store.records, &recovery);
    sweep::<Record, Recovery>(&mut store.records, &mut store.outbox, &recovery);
    sweep::<ToolCall, Recovery>(&mut store.calls, &mut store.outbox, &recovery);
    if recovered {
        session_status(store, session_id, "idle", None, now)
    } else {
        Ok(())
    }
}

} // verus!
