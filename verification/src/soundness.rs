//! What holds of the service's rows at all times, and that every operation
//! keeps it.
use crate::journal::journaled;
use crate::journal::lemma_journaled_same;
use crate::journal::lemma_journaled_then;
use crate::journal::lemma_notified_journaled;
use crate::journal::lemma_published_journaled;
use crate::journal::lemma_saved_journaled;
use crate::json::JsonView;
use crate::json::group_object_reads;
use crate::json::object;
use crate::json::optional_text;
use crate::pages::self_named;
use crate::projection::is_function_call;
use crate::projection::item_content;
use crate::projection::public_item;
use crate::projection::public_item_id;
use crate::projection::public_output;
use crate::projection::public_turn;
use crate::projection::turn_event;
use crate::projection::turn_status;
use crate::records::action_required;
use crate::records::is_input;
use crate::records::item_changed;
use crate::records::item_event;
use crate::records::item_published;
use crate::records::notified;
use crate::records::number;
use crate::records::output_index;
use crate::records::public_session_of_thread;
use crate::records::text_event;
use crate::records::turn_changed;
use crate::resources::Agent;
use crate::sessions::created;
use crate::store::ChangeView;
use crate::store::PublicSession;
use crate::store::PublicSessionView;
use crate::store::Record;
use crate::store::RecordKind;
use crate::store::RecordView;
use crate::store::SessionRow;
use crate::store::SessionRowView;
use crate::store::StoreView;
use crate::store::ToolCall;
use crate::store::ToolCallView;
use crate::store::call_key;
use crate::store::kind_word;
use crate::store::record_key;
use crate::table::Row;
use crate::table::distinct_keys;
use crate::table::lemma_position;
use crate::table::lemma_put_distinct;
use crate::table::lemma_put_lookup;
use crate::table::lookup;
use crate::table::position;
use crate::table::put;
use vstd::prelude::*;

verus! {

/// The public form of every session is an object that carries the session's ID.
pub open spec fn sound_public_sessions(rows: Seq<PublicSessionView>) -> bool {
    forall|i: int|
        0 <= i < rows.len() ==> (#[trigger] rows[i]).data is Object && rows[i].data.field("id"@)
            == JsonView::Text(rows[i].id)
}

/// Every record is an object.
pub open spec fn sound_records(rows: Seq<RecordView>) -> bool {
    forall|i: int| 0 <= i < rows.len() ==> (#[trigger] rows[i]).data is Object
}

/// Every call is put before the application under the IDs that it has.
pub open spec fn sound_calls(rows: Seq<ToolCallView>) -> bool {
    forall|i: int|
        0 <= i < rows.len() ==> (#[trigger] rows[i]).action.turn_id == rows[i].turn_id
            && rows[i].action.call_id == rows[i].call_id
}

/// Every public form is that of a saved session.
pub open spec fn backed(
    rows: Seq<PublicSessionView>,
    sessions: Seq<SessionRowView>,
) -> bool {
    forall|i: int|
        0 <= i < rows.len() ==> lookup::<SessionRow>(sessions, seq![(#[trigger] rows[i]).id]) is Some
}

/// Every call is one of a saved session.
pub open spec fn backed_calls(rows: Seq<ToolCallView>, sessions: Seq<SessionRowView>) -> bool {
    forall|i: int|
        0 <= i < rows.len() ==> lookup::<SessionRow>(
            sessions,
            seq![(#[trigger] rows[i]).session_id],
        ) is Some
}

impl StoreView {
    /// What holds of the rows at all times.
    pub open spec fn well_formed(self) -> bool {
        &&& distinct_keys::<Agent>(self.agents)
        &&& distinct_keys::<SessionRow>(self.sessions)
        &&& distinct_keys::<ToolCall>(self.calls)
        &&& distinct_keys::<PublicSession>(self.public_sessions)
        &&& distinct_keys::<Record>(self.records)
        &&& sound_public_sessions(self.public_sessions)
        &&& sound_records(self.records)
        &&& self_named(self.records)
        &&& sound_calls(self.calls)
        &&& backed(self.public_sessions, self.sessions)
        &&& backed_calls(self.calls, self.sessions)
    }

    /// Whether a row may be written so that the rows stay well formed.
    pub open spec fn fits(self, change: ChangeView) -> bool {
        match change {
            ChangeView::Agent(row) => self.agent(row.id) is None,
            ChangeView::Session(row) => self.session_row(row.id) matches Some(previous) ==> {
                &&& row.agent == previous.agent
                &&& row.environment == previous.environment
            },
            ChangeView::Call(row) => {
                &&& row.action.turn_id == row.turn_id
                &&& row.action.call_id == row.call_id
                &&& self.session_row(row.session_id) is Some
            },
            ChangeView::PublicSession(row) => {
                &&& row.data is Object
                &&& row.data.field("id"@) == JsonView::Text(row.id)
                &&& self.session_row(row.id) is Some
            },
            ChangeView::Record(row) => row.data is Object && row.data.field("id"@)
                == JsonView::Text(row.id),
        }
    }
}

/// A row of a table that a row was put into is that row or one that was there.
pub proof fn lemma_put_elements<R: Row>(rows: Seq<R::V>, row: R::V, i: int)
    requires
        0 <= i < put::<R>(rows, row).len(),
    ensures
        put::<R>(rows, row)[i] == row || (i < rows.len() && put::<R>(rows, row)[i] == rows[i]),
        rows.len() <= put::<R>(rows, row).len(),
{
    lemma_position::<R>(rows, R::key(row));
}

/// The row that is found under a key is one of the table's, and has the key.
pub proof fn lemma_lookup<R: Row>(rows: Seq<R::V>, key: Seq<Seq<char>>)
    requires
        lookup::<R>(rows, key) is Some,
    ensures
        R::key(lookup::<R>(rows, key)->0) == key,
        exists|i: int| 0 <= i < rows.len() && #[trigger] rows[i] == lookup::<R>(rows, key)->0,
{
    lemma_position::<R>(rows, key);
    let i = position::<R>(rows, key)->0;
    assert(rows[i] == lookup::<R>(rows, key)->0);
}

/// Keys of one text are equal where the texts are.
pub proof fn lemma_single_key(a: Seq<char>, b: Seq<char>)
    ensures
        seq![a] == seq![b] <==> a == b,
{
    assert(seq![a][0] == a);
    assert(seq![b][0] == b);
}

/// Keys of three texts are equal where the texts are.
pub proof fn lemma_triple_key(
    a: Seq<char>,
    b: Seq<char>,
    c: Seq<char>,
    x: Seq<char>,
    y: Seq<char>,
    z: Seq<char>,
)
    ensures
        seq![a, b, c] == seq![x, y, z] <==> a == x && b == y && c == z,
{
    let left = seq![a, b, c];
    let right = seq![x, y, z];
    assert(left[0] == a && left[1] == b && left[2] == c);
    assert(right[0] == x && right[1] == y && right[2] == z);
}

/// The names of the two kinds of records differ.
pub proof fn lemma_kinds_differ()
    ensures
        "turn"@ != "item"@,
{
    reveal_strlit("turn");
    reveal_strlit("item");
    assert("turn"@[0] != "item"@[0]);
}

/// What is found of a record is that record.
pub proof fn lemma_record_found(store: StoreView, session_id: Seq<char>, kind: RecordKind, id: Seq<char>)
    requires
        store.record(session_id, kind, id) is Some,
    ensures
        ({
            let row = store.record(session_id, kind, id)->0;
            &&& row.session_id == session_id
            &&& row.kind == kind
            &&& row.id == id
            &&& exists|i: int| 0 <= i < store.records.len() && #[trigger] store.records[i] == row
        }),
{
    lemma_lookup::<Record>(
        store.records,
        record_key(session_id, kind, id),
    );
    let row = store.record(session_id, kind, id)->0;
    lemma_triple_key(
        row.session_id,
        kind_word(row.kind),
        row.id,
        session_id,
        kind_word(kind),
        id,
    );
    lemma_kinds_differ();
}

/// What is found of a call is that call.
pub proof fn lemma_call_found(
    store: StoreView,
    session_id: Seq<char>,
    turn_id: Seq<char>,
    call_id: Seq<char>,
)
    requires
        store.call(session_id, turn_id, call_id) is Some,
    ensures
        ({
            let row = store.call(session_id, turn_id, call_id)->0;
            &&& row.session_id == session_id
            &&& row.turn_id == turn_id
            &&& row.call_id == call_id
            &&& exists|i: int| 0 <= i < store.calls.len() && #[trigger] store.calls[i] == row
        }),
{
    lemma_lookup::<ToolCall>(
        store.calls,
        call_key(session_id, turn_id, call_id),
    );
    let row = store.call(session_id, turn_id, call_id)->0;
    lemma_triple_key(row.session_id, row.turn_id, row.call_id, session_id, turn_id, call_id);
}

/// What is found of a public session is that session.
pub proof fn lemma_public_session_found(store: StoreView, id: Seq<char>)
    requires
        store.public_session(id) is Some,
    ensures
        store.public_session(id)->0.id == id,
        exists|i: int|
            0 <= i < store.public_sessions.len() && #[trigger] store.public_sessions[i]
                == store.public_session(id)->0,
{
    lemma_lookup::<PublicSession>(store.public_sessions, seq![id]);
    lemma_single_key(store.public_session(id)->0.id, id);
}

/// What is found of a session is that session.
pub proof fn lemma_session_found(store: StoreView, id: Seq<char>)
    requires
        store.session_row(id) is Some,
    ensures
        store.session_row(id)->0.id == id,
        exists|i: int|
            0 <= i < store.sessions.len() && #[trigger] store.sessions[i] == store.session_row(
                id,
            )->0,
{
    lemma_lookup::<SessionRow>(store.sessions, seq![id]);
    lemma_single_key(store.session_row(id)->0.id, id);
}

/// Writing a row that fits keeps the rows well formed.
pub proof fn lemma_saved_well_formed(store: StoreView, change: ChangeView)
    requires
        store.well_formed(),
        store.fits(change),
    ensures
        store.saved(change).well_formed(),
{
    let after = store.saved(change);
    match change {
        ChangeView::Agent(row) => {
            lemma_put_distinct::<Agent>(store.agents, row);
        },
        ChangeView::Session(row) => {
            lemma_put_distinct::<SessionRow>(store.sessions, row);
            assert forall|i: int| 0 <= i < after.public_sessions.len() implies lookup::<SessionRow>(
                after.sessions,
                seq![(#[trigger] after.public_sessions[i]).id],
            ) is Some by {
                lemma_put_lookup::<SessionRow>(
                    store.sessions,
                    row,
                    seq![after.public_sessions[i].id],
                );
            }
            assert forall|i: int| 0 <= i < after.calls.len() implies lookup::<SessionRow>(
                after.sessions,
                seq![(#[trigger] after.calls[i]).session_id],
            ) is Some by {
                lemma_put_lookup::<SessionRow>(
                    store.sessions,
                    row,
                    seq![after.calls[i].session_id],
                );
            }
        },
        ChangeView::Call(row) => {
            lemma_put_distinct::<ToolCall>(store.calls, row);
            assert forall|i: int| 0 <= i < after.calls.len() implies {
                &&& (#[trigger] after.calls[i]).action.turn_id == after.calls[i].turn_id
                &&& after.calls[i].action.call_id == after.calls[i].call_id
                &&& lookup::<SessionRow>(
                    after.sessions,
                    seq![after.calls[i].session_id],
                ) is Some
            } by {
                lemma_put_elements::<ToolCall>(store.calls, row, i);
            }
        },
        ChangeView::PublicSession(row) => {
            lemma_put_distinct::<PublicSession>(store.public_sessions, row);
            assert forall|i: int| 0 <= i < after.public_sessions.len() implies {
                &&& (#[trigger] after.public_sessions[i]).data is Object
                &&& after.public_sessions[i].data.field("id"@) == JsonView::Text(
                    after.public_sessions[i].id,
                )
                &&& lookup::<SessionRow>(
                    after.sessions,
                    seq![after.public_sessions[i].id],
                ) is Some
            } by {
                lemma_put_elements::<PublicSession>(store.public_sessions, row, i);
            }
        },
        ChangeView::Record(row) => {
            lemma_put_distinct::<Record>(store.records, row);
            assert forall|i: int| 0 <= i < after.records.len() implies {
                &&& (#[trigger] after.records[i]).data is Object
                &&& after.records[i].data.field("id"@) == JsonView::Text(after.records[i].id)
            } by {
                lemma_put_elements::<Record>(store.records, row, i);
            }
        },
    }
}

/// The rows are well formed before anything was saved.
pub proof fn law_empty_store_is_well_formed()
    ensures
        (StoreView {
            agents: Seq::empty(),
            sessions: Seq::empty(),
            calls: Seq::empty(),
            public_sessions: Seq::empty(),
            records: Seq::empty(),
            outbox: Seq::empty(),
        }).well_formed(),
{
}

/// The names under which the library writes into documents, and that none of
/// them is `id`.
pub proof fn lemma_names_other_than_id()
    ensures
        "id"@ != "required_actions"@,
        "id"@ != "status"@,
        "id"@ != "error"@,
        "id"@ != "last_active_at"@,
        "id"@ != "completed_at"@,
        "id"@ != "type"@,
        "id"@ != "role"@,
        "id"@ != "phase"@,
        "id"@ != "content"@,
        "id"@ != "summary"@,
        "id"@ != "call_id"@,
        "id"@ != "name"@,
        "id"@ != "arguments"@,
{
    reveal_strlit("id");
    reveal_strlit("required_actions");
    reveal_strlit("status");
    reveal_strlit("error");
    reveal_strlit("last_active_at");
    reveal_strlit("completed_at");
    reveal_strlit("type");
    reveal_strlit("role");
    reveal_strlit("phase");
    reveal_strlit("content");
    reveal_strlit("summary");
    reveal_strlit("call_id");
    reveal_strlit("name");
    reveal_strlit("arguments");
    assert("id"@.len() == 2);
}

/// Whether what is fixed from when it is saved has stayed as it was: agents, and
/// the agent and the environment of every session.
pub open spec fn keeps_fixed(before: StoreView, after: StoreView) -> bool {
    &&& forall|id: Seq<char>|
        (#[trigger] before.agent(id)) is Some ==> after.agent(id) == before.agent(id)
    &&& forall|id: Seq<char>|
        (#[trigger] before.session_row(id)) is Some ==> {
            &&& after.session_row(id) is Some
            &&& after.session_row(id)->0.agent == before.session_row(id)->0.agent
            &&& after.session_row(id)->0.environment == before.session_row(id)->0.environment
        }
}

/// Writing a row that fits keeps what is fixed.
proof fn lemma_saved_keeps_fixed(store: StoreView, change: ChangeView)
    requires
        store.fits(change),
    ensures
        keeps_fixed(store, store.saved(change)),
{
    let after = store.saved(change);
    match change {
        ChangeView::Agent(row) => {
            assert forall|id: Seq<char>| (#[trigger] store.agent(id)) is Some implies after.agent(
                id,
            ) == store.agent(id) by {
                lemma_put_lookup::<Agent>(store.agents, row, seq![id]);
                lemma_single_key(id, row.id);
            }
        },
        ChangeView::Session(row) => {
            assert forall|id: Seq<char>| (#[trigger] store.session_row(id)) is Some implies {
                &&& after.session_row(id) is Some
                &&& after.session_row(id)->0.agent == store.session_row(id)->0.agent
                &&& after.session_row(id)->0.environment == store.session_row(id)->0.environment
            } by {
                lemma_put_lookup::<SessionRow>(store.sessions, row, seq![id]);
                lemma_single_key(id, row.id);
            }
        },
        _ => {},
    }
}

/// Whether the service has got from one state to another by a sound step: its
/// rows are well formed, what is fixed has not changed, what it puts up to be
/// written out does the same to the rows that are kept elsewhere, and what it
/// announces was saved before.
pub open spec fn sound_step(before: StoreView, after: StoreView) -> bool {
    after.well_formed() && journaled(before, after) && keeps_fixed(before, after)
}

/// Sound steps follow each other.
pub proof fn lemma_sound_then(a: StoreView, b: StoreView, c: StoreView)
    requires
        sound_step(a, b),
        sound_step(b, c),
    ensures
        sound_step(a, c),
{
    lemma_journaled_then(a, b, c);
}

/// To do nothing is sound.
pub proof fn lemma_sound_same(store: StoreView)
    requires
        store.well_formed(),
    ensures
        sound_step(store, store),
{
    lemma_journaled_same(store);
}

/// To save a row that fits is sound.
pub proof fn lemma_sound_saved(store: StoreView, change: ChangeView)
    requires
        store.well_formed(),
        store.fits(change),
    ensures
        sound_step(store, store.saved(change)),
{
    lemma_saved_well_formed(store, change);
    lemma_saved_journaled(store, change);
    lemma_saved_keeps_fixed(store, change);
}

/// To announce an event that carries only what is saved is sound.
pub proof fn lemma_sound_published(store: StoreView, event: JsonView)
    requires
        store.well_formed(),
        store.holds(event),
    ensures
        sound_step(store, store.published(event)),
{
    lemma_published_journaled(store, event);
}

/// To pass an event of the backend on is sound.
pub proof fn lemma_sound_notified(store: StoreView, event: JsonView)
    requires
        store.well_formed(),
    ensures
        sound_step(store, store.notified(event)),
{
    lemma_notified_journaled(store, event);
}

/// A row that was put into a table is there.
pub proof fn lemma_put_contains<R: Row>(rows: Seq<R::V>, row: R::V)
    ensures
        exists|i: int| 0 <= i < put::<R>(rows, row).len() && #[trigger] put::<R>(rows, row)[i] == row,
{
    lemma_position::<R>(rows, R::key(row));
    match position::<R>(rows, R::key(row)) {
        Some(i) => {
            assert(put::<R>(rows, row)[i] == row);
        },
        None => {
            assert(put::<R>(rows, row)[rows.len() as int] == row);
        },
    }
}

/// The names by which events carry what they tell of differ from each other and
/// from the other names in events.
pub proof fn lemma_event_names()
    ensures
        "session"@ != "turn"@,
        "session"@ != "item"@,
        "turn"@ != "item"@,
        "session"@ != "type"@,
        "session"@ != "session_id"@,
        "session"@ != "turn_id"@,
        "session"@ != "item_id"@,
        "session"@ != "output_index"@,
        "session"@ != "content_index"@,
        "session"@ != "text"@,
        "turn"@ != "type"@,
        "turn"@ != "session_id"@,
        "turn"@ != "turn_id"@,
        "turn"@ != "item_id"@,
        "turn"@ != "output_index"@,
        "turn"@ != "content_index"@,
        "turn"@ != "text"@,
        "item"@ != "type"@,
        "item"@ != "session_id"@,
        "item"@ != "turn_id"@,
        "item"@ != "item_id"@,
        "item"@ != "output_index"@,
        "item"@ != "content_index"@,
        "item"@ != "text"@,
{
    reveal_strlit("session");
    reveal_strlit("turn");
    reveal_strlit("item");
    reveal_strlit("type");
    reveal_strlit("session_id");
    reveal_strlit("turn_id");
    reveal_strlit("item_id");
    reveal_strlit("output_index");
    reveal_strlit("content_index");
    reveal_strlit("text");
    assert("session"@.len() == 7 && "session_id"@.len() == 10 && "turn_id"@.len() == 7);
    assert("turn"@.len() == 4 && "item"@.len() == 4 && "item_id"@.len() == 7);
    assert("session"@[0] == 's' && "turn_id"@[0] == 't' && "item_id"@[0] == 'i');
    assert("turn"@[0] == 't' && "item"@[0] == 'i' && "type"@[0] == 't' && "text"@[0] == 't');
    assert("turn"@[1] == 'u' && "type"@[1] == 'y' && "text"@[1] == 'e');
}

/// An event that tells of a session carries the session and nothing else.
pub proof fn lemma_session_event(kind: JsonView, data: JsonView)
    ensures
        ({
            let event = object().entry("type"@, kind).entry("session"@, data);
            &&& event.get("session"@) == Some(data)
            &&& event.get("turn"@) is None
            &&& event.get("item"@) is None
        }),
{
    broadcast use group_object_reads;

    lemma_event_names();
}

/// An event that tells of a turn carries the turn and nothing else.
pub proof fn lemma_turn_event(
    kind: Seq<char>,
    session_id: Seq<char>,
    turn_id: Seq<char>,
    turn: JsonView,
)
    ensures
        ({
            let event = turn_event(kind, session_id, turn_id, turn);
            &&& event.get("session"@) is None
            &&& event.get("turn"@) == Some(turn)
            &&& event.get("item"@) is None
        }),
{
    broadcast use group_object_reads;

    lemma_event_names();
}

/// An event that tells of an item carries the item and nothing else.
pub proof fn lemma_item_event(
    kind: Seq<char>,
    session_id: Seq<char>,
    turn_id: Seq<char>,
    item: JsonView,
    index: int,
)
    ensures
        ({
            let event = item_event(kind, session_id, turn_id, item, index);
            &&& event.get("session"@) is None
            &&& event.get("turn"@) is None
            &&& event.get("item"@) == Some(item)
        }),
{
    broadcast use group_object_reads;

    lemma_event_names();
}

/// An event that tells of a text carries none of them.
proof fn lemma_text_event(
    session_id: Seq<char>,
    turn_id: Seq<char>,
    item: JsonView,
    index: int,
)
    ensures
        ({
            let event = text_event(session_id, turn_id, item, index);
            &&& event.get("session"@) is None
            &&& event.get("turn"@) is None
            &&& event.get("item"@) is None
        }),
{
    broadcast use group_object_reads;

    lemma_event_names();
}

/// The status of a session is saved before it is announced. It cannot fail for a
/// session that is public.
pub proof fn law_session_status_is_sound(
    store: StoreView,
    id: Seq<char>,
    status: Seq<char>,
    error: Option<Seq<char>>,
    now: u64,
)
    requires
        store.well_formed(),
    ensures
        sound_step(store, store.with_session_status(id, status, error, now).0),
        store.public_session(id) is Some <==> store.with_session_status(
            id,
            status,
            error,
            now,
        ).1 is Ok,
        store.with_session_status(id, status, error, now).0.public_session(id) is Some
            <==> store.public_session(id) is Some,
{
    if store.public_session(id) is Some {
        lemma_public_session_found(store, id);
        let row = store.public_session(id)->0;
        assert(store.session_row(id) is Some);
        let data = store.public_view(id)->Ok_0.with("status"@, JsonView::Text(status)).with(
            "error"@,
            optional_text(error),
        ).with("last_active_at"@, number(now));
        assert(data is Object && data.get("id"@) == row.data.get("id"@)) by {
            broadcast use group_object_reads;

            lemma_names_other_than_id();
        }
        let changed = PublicSessionView { id, data };
        let saved = store.saved(ChangeView::PublicSession(changed));
        lemma_sound_saved(store, ChangeView::PublicSession(changed));
        lemma_put_lookup::<PublicSession>(store.public_sessions, changed, seq![id]);
        lemma_put_contains::<PublicSession>(store.public_sessions, changed);
        let kind = JsonView::Text("agent.session."@ + status);
        lemma_session_event(kind, data);
        let event = object().entry("type"@, kind).entry("session"@, data);
        lemma_sound_published(saved, event);
        lemma_sound_then(store, saved, saved.published(event));
    } else {
        lemma_sound_same(store);
    }
}

/// The rows of other tables than that of records are the same.
pub open spec fn same_but_records(a: StoreView, b: StoreView) -> bool {
    a.agents == b.agents && a.sessions == b.sessions && a.calls == b.calls && a.public_sessions
        == b.public_sessions
}

/// A record that is an object is saved soundly, and is then there.
pub proof fn lemma_record_is_sound(
    store: StoreView,
    session_id: Seq<char>,
    kind: RecordKind,
    data: JsonView,
    turn_id: Seq<char>,
)
    requires
        store.well_formed(),
        data is Object,
    ensures
        sound_step(store, store.with_record(session_id, kind, data, turn_id).0),
        same_but_records(store, store.with_record(session_id, kind, data, turn_id).0),
        data.field("id"@).text() is Some <==> store.with_record(
            session_id,
            kind,
            data,
            turn_id,
        ).1 is Ok,
        data.field("id"@).text() is Some ==> exists|i: int|
            0 <= i < store.with_record(session_id, kind, data, turn_id).0.records.len() && (
            #[trigger] store.with_record(session_id, kind, data, turn_id).0.records[i]).kind == kind
                && store.with_record(session_id, kind, data, turn_id).0.records[i].data == data,
{
    match data.field("id"@).text() {
        None => {
            lemma_sound_same(store);
        },
        Some(id) => {
            let turn = match store.record(session_id, kind, id) {
                Some(row) => row.turn_id,
                None => turn_id,
            };
            let row = RecordView { session_id, kind, id, turn_id: turn, data };
            lemma_sound_saved(store, ChangeView::Record(row));
            lemma_put_contains::<Record>(store.records, row);
        },
    }
}

/// The status of a turn's record is saved soundly.
pub proof fn lemma_turn_status_is_sound(
    store: StoreView,
    session_id: Seq<char>,
    turn_id: Seq<char>,
    status: Seq<char>,
)
    requires
        store.well_formed(),
    ensures
        sound_step(store, store.with_turn_status(session_id, turn_id, status)),
        same_but_records(store, store.with_turn_status(session_id, turn_id, status)),
{
    match store.record(session_id, RecordKind::Turn, turn_id) {
        None => {
            lemma_sound_same(store);
        },
        Some(row) => {
            lemma_record_found(store, session_id, RecordKind::Turn, turn_id);
            let changed = RecordView {
                data: row.data.with("status"@, JsonView::Text(status)),
                ..row
            };
            assert(changed.data is Object && changed.data.get("id"@) == row.data.get("id"@)) by {
                broadcast use group_object_reads;

                lemma_names_other_than_id();
            }
            lemma_sound_saved(store, ChangeView::Record(changed));
        },
    }
}

/// An item is saved before it is announced. It cannot fail for an item with an
/// ID.
pub proof fn law_item_is_sound(
    store: StoreView,
    session_id: Seq<char>,
    turn_id: Seq<char>,
    item: JsonView,
    done: bool,
)
    requires
        store.well_formed(),
        item is Object,
    ensures
        sound_step(store, item_published(store, session_id, turn_id, item, done).0),
        same_but_records(store, item_published(store, session_id, turn_id, item, done).0),
        item.field("id"@).text() is Some <==> item_published(
            store,
            session_id,
            turn_id,
            item,
            done,
        ).1 is Ok,
{
    match item.field("id"@).text() {
        None => {
            lemma_sound_same(store);
        },
        Some(item_id) => {
            let saved = store.with_record(session_id, RecordKind::Item, item, turn_id).0;
            lemma_record_is_sound(store, session_id, RecordKind::Item, item, turn_id);
            let index = output_index(saved.records, session_id, turn_id, item_id);
            let added_event = item_event(
                "agent.session.turn.item.added"@,
                session_id,
                turn_id,
                item,
                index,
            );
            let done_event = item_event(
                "agent.session.turn.item.done"@,
                session_id,
                turn_id,
                item,
                index,
            );
            let spoken_event = text_event(session_id, turn_id, item, index);
            lemma_item_event(
                "agent.session.turn.item.added"@,
                session_id,
                turn_id,
                item,
                index,
            );
            lemma_item_event(
                "agent.session.turn.item.done"@,
                session_id,
                turn_id,
                item,
                index,
            );
            lemma_text_event(session_id, turn_id, item, index);
            let added = if store.record(session_id, RecordKind::Item, item_id) is None {
                lemma_sound_published(saved, added_event);
                lemma_sound_then(store, saved, saved.published(added_event));
                saved.published(added_event)
            } else {
                saved
            };
            let spoken = if done && item.field("role"@) == JsonView::Text("assistant"@) {
                lemma_sound_published(added, spoken_event);
                lemma_sound_then(store, added, added.published(spoken_event));
                added.published(spoken_event)
            } else {
                added
            };
            if done && !is_input(item) {
                lemma_sound_published(spoken, done_event);
                lemma_sound_then(store, spoken, spoken.published(done_event));
            }
        },
    }
}

/// The public form of a turn is an object that carries the turn's ID.
pub proof fn lemma_public_turn(
    session_id: Seq<char>,
    agent_id: JsonView,
    turn_id: Seq<char>,
    source: JsonView,
    now: u64,
)
    ensures
        public_turn(session_id, agent_id, turn_id, source, now) is Object,
        public_turn(session_id, agent_id, turn_id, source, now).field("id"@) == JsonView::Text(
            turn_id,
        ),
{
    broadcast use group_object_reads;

}

/// A turn is saved, and its session's status, before they are announced. It
/// cannot fail for a turn with an ID in a public session.
pub proof fn law_turn_is_sound(
    store: StoreView,
    session_id: Seq<char>,
    started: bool,
    source: JsonView,
    now: u64,
)
    requires
        store.well_formed(),
    ensures
        sound_step(store, turn_changed(store, session_id, started, source, now).0),
        store.public_session(session_id) is Some && source.field("id"@).text() is Some
            <==> turn_changed(store, session_id, started, source, now).1 is Ok,
{
    if store.public_session(session_id) is Some {
        lemma_public_session_found(store, session_id);
        assert(store.session_row(session_id) is Some);
    }
    if store.public_view(session_id) is Err || source.field("id"@).text() is None {
        lemma_sound_same(store);
    } else {
        let current = store.public_view(session_id)->Ok_0;
        let turn_id = source.field("id"@).text()->0;
        let agent_id = current.field("agent"@).field("id"@);
        let turn = public_turn(session_id, agent_id, turn_id, source, now);
        let status = turn_status(source);
        lemma_public_turn(session_id, agent_id, turn_id, source, now);
        lemma_record_is_sound(store, session_id, RecordKind::Turn, turn, turn_id);
        let saved = store.with_record(session_id, RecordKind::Turn, turn, turn_id).0;
        let opened = if started {
            law_session_status_is_sound(saved, session_id, "in_progress"@, None, now);
            let opened = saved.with_session_status(session_id, "in_progress"@, None, now).0;
            lemma_sound_then(store, saved, opened);
            opened
        } else {
            saved
        };
        assert(opened.records == saved.records);
        let created_event = turn_event("created"@, session_id, turn_id, turn);
        lemma_turn_event("created"@, session_id, turn_id, turn);
        let created = if started {
            lemma_sound_published(opened, created_event);
            lemma_sound_then(store, opened, opened.published(created_event));
            opened.published(created_event)
        } else {
            opened
        };
        let event = turn_event(status, session_id, turn_id, turn);
        lemma_turn_event(status, session_id, turn_id, turn);
        let told = created.published(event);
        lemma_sound_published(created, event);
        lemma_sound_then(store, created, told);
        if status != "in_progress"@ {
            law_session_status_is_sound(told, session_id, "idle"@, None, now);
            lemma_sound_then(
                store,
                told,
                told.with_session_status(session_id, "idle"@, None, now).0,
            );
        }
    }
}

/// A call that waits for the application changes the turn and the session
/// soundly. It cannot fail for a public session.
pub proof fn law_action_is_sound(
    store: StoreView,
    session_id: Seq<char>,
    turn_id: Option<Seq<char>>,
    now: u64,
)
    requires
        store.well_formed(),
    ensures
        sound_step(store, action_required(store, session_id, turn_id, now).0),
        store.public_session(session_id) is Some <==> action_required(
            store,
            session_id,
            turn_id,
            now,
        ).1 is Ok,
{
    let waiting = match turn_id {
        Some(turn_id) => {
            lemma_turn_status_is_sound(store, session_id, turn_id, "waiting"@);
            store.with_turn_status(session_id, turn_id, "waiting"@)
        },
        None => {
            lemma_sound_same(store);
            store
        },
    };
    law_session_status_is_sound(waiting, session_id, "requires_action"@, None, now);
    lemma_sound_then(
        store,
        waiting,
        waiting.with_session_status(session_id, "requires_action"@, None, now).0,
    );
}

/// The public form of an item is an object that carries the item's public ID.
pub proof fn lemma_public_item(turn_id: Seq<char>, item_id: Seq<char>, item: JsonView, done: bool)
    ensures
        public_item(turn_id, item_id, item, done) matches Some(public) ==> public is Object
            && public.field("id"@) == JsonView::Text(public_item_id(turn_id, item_id)),
        public_output(turn_id, item_id, item) is Object,
        public_output(turn_id, item_id, item).field("id"@) == JsonView::Text(
            "output_"@ + public_item_id(turn_id, item_id),
        ),
{
    broadcast use group_object_reads;

    lemma_names_other_than_id();
    match item_content(item) {
        Some(content) => {
            assert(content is Object && content.get("id"@) is None);
        },
        None => {},
    }
}

/// An item, and the answer to a function call with it, are saved before they are
/// announced. It cannot fail for an item with an ID in a turn with an ID.
pub proof fn law_items_are_sound(
    store: StoreView,
    session_id: Seq<char>,
    done: bool,
    params: JsonView,
)
    requires
        store.well_formed(),
    ensures
        sound_step(store, item_changed(store, session_id, done, params).0),
        params.field("turnId"@).text() is Some && params.field("item"@).field("id"@).text() is Some
            <==> item_changed(store, session_id, done, params).1 is Ok,
{
    let item = params.field("item"@);
    match (params.field("turnId"@).text(), item.field("id"@).text()) {
        (Some(turn_id), Some(item_id)) => {
            lemma_public_item(turn_id, item_id, item, done);
            match public_item(turn_id, item_id, item, done) {
                None => {
                    lemma_sound_same(store);
                },
                Some(public) => {
                    law_item_is_sound(store, session_id, turn_id, public, done);
                    let shown = item_published(store, session_id, turn_id, public, done);
                    if done && is_function_call(item) {
                        let output = public_output(turn_id, item_id, item);
                        law_item_is_sound(shown.0, session_id, turn_id, output, true);
                        lemma_sound_then(
                            store,
                            shown.0,
                            item_published(shown.0, session_id, turn_id, output, true).0,
                        );
                    }
                },
            }
        },
        _ => {
            lemma_sound_same(store);
        },
    }
}

/// Whatever the backend tells, the public records are kept soundly.
pub proof fn law_notifications_are_sound(store: StoreView, raw: JsonView, now: u64)
    requires
        store.well_formed(),
    ensures
        sound_step(store, notified(store, raw, now).0),
{
    lemma_sound_same(store);
    let params = raw.field("params"@);
    match params.field("threadId"@).text() {
        None => {},
        Some(thread_id) => match public_session_of_thread(store, store.sessions, thread_id) {
            None => {},
            Some(id) => {
                let method = raw.field("method"@);
                if method == JsonView::Text("turn/started"@) {
                    law_turn_is_sound(store, id, true, params.field("turn"@), now);
                } else if method == JsonView::Text("turn/completed"@) {
                    law_turn_is_sound(store, id, false, params.field("turn"@), now);
                } else if method == JsonView::Text("session.requires_action"@) {
                    law_action_is_sound(
                        store,
                        id,
                        params.field("action"@).field("turnId"@).text(),
                        now,
                    );
                } else if method == JsonView::Text("item/started"@) {
                    law_items_are_sound(store, id, false, params);
                } else if method == JsonView::Text("item/completed"@) {
                    law_items_are_sound(store, id, true, params);
                }
            },
        },
    }
}

} // verus!
