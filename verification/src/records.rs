//! The public records of sessions, turns and items. They are saved before the
//! events that tell of them are announced.
use crate::error::internal_failure;
use crate::error::missing;
use crate::error::ApiError;
use crate::error::ApiErrorView;
use crate::json::list;
use crate::json::object;
use crate::json::optional_text;
use crate::json::signed_number;
use crate::json::Json;
use crate::json::JsonView;
use crate::json::NumberView;
use crate::model::option_view;
use crate::model::outcome;
use crate::model::verdict;
use crate::model::views;
use crate::outside::fresh_id;
use crate::outside::is_uuid4;
use crate::resources::RequiredAction;
use crate::resources::RequiredActionView;
use crate::projection::event_of_turn;
use crate::projection::is_function_call;
use crate::projection::item_document;
use crate::projection::output_document;
use crate::projection::public_item;
use crate::projection::public_output;
use crate::projection::public_turn;
use crate::projection::status_of_turn;
use crate::projection::turn_document;
use crate::projection::turn_event;
use crate::projection::turn_status;
use crate::store::record_key;
use crate::store::Change;
use crate::store::ChangeView;
use crate::store::PublicSession;
use crate::store::PublicSessionView;
use crate::store::Record;
use crate::store::RecordKind;
use crate::store::RecordView;
use crate::store::SessionRowView;
use crate::store::Store;
use crate::store::StoreView;
use crate::table::find;
use crate::table::position;
use crate::table::texts;
use crate::text::joined;
use crate::text::same;
use vstd::prelude::*;

verus! {

/// The document `n` as a number.
pub open spec fn number(n: u64) -> JsonView {
    JsonView::Number(NumberView::Unsigned(n))
}

/// The public form of a call that waits for the application.
pub open spec fn public_action(action: RequiredActionView) -> JsonView {
    object().entry("type"@, JsonView::Text("function_call"@)).entry(
        "turn_id"@,
        JsonView::Text(action.turn_id),
    ).entry("call_id"@, JsonView::Text(action.call_id)).entry(
        "name"@,
        JsonView::Text(action.name),
    ).entry("arguments"@, action.arguments)
}

/// The public forms of calls that wait for the application.
pub open spec fn public_actions(actions: Seq<RequiredActionView>) -> JsonView
    decreases actions.len(),
{
    if actions.len() == 0 {
        list()
    } else {
        public_actions(actions.drop_last()).item(public_action(actions.last()))
    }
}

impl StoreView {
    /// The public form of a session as it is read: as it was saved, with the
    /// calls that wait for the application now.
    pub open spec fn public_view(self, id: Seq<char>) -> Result<JsonView, ApiErrorView> {
        match self.public_session(id) {
            None => Err(missing("session not found"@)),
            Some(row) => match self.session(id) {
                None => Err(internal_failure()),
                Some(session) => Ok(
                    row.data.with(
                        "required_actions"@,
                        public_actions(session.required_actions),
                    ),
                ),
            },
        }
    }

    /// The store after the public form of a session has been saved.
    pub open spec fn with_public_session(self, id: Seq<char>, data: JsonView) -> StoreView {
        self.saved(ChangeView::PublicSession(PublicSessionView { id, data }))
    }

    /// The store after the status of a session has been saved and announced.
    pub open spec fn with_session_status(
        self,
        id: Seq<char>,
        status: Seq<char>,
        error: Option<Seq<char>>,
        now: u64,
    ) -> (StoreView, Result<(), ApiErrorView>) {
        match self.public_view(id) {
            Err(e) => (self, Err(e)),
            Ok(data) => {
                let data = data.with("status"@, JsonView::Text(status)).with(
                    "error"@,
                    optional_text(error),
                ).with("last_active_at"@, number(now));
                (
                    self.with_public_session(id, data).published(
                        object().entry(
                            "type"@,
                            JsonView::Text("agent.session."@ + status),
                        ).entry("session"@, data),
                    ),
                    Ok(()),
                )
            },
        }
    }

    /// The store after a record has been saved. A record that is saved again
    /// keeps its place and the turn that it was first saved for.
    pub open spec fn with_record(
        self,
        session_id: Seq<char>,
        kind: RecordKind,
        data: JsonView,
        turn_id: Seq<char>,
    ) -> (StoreView, Result<(), ApiErrorView>) {
        match data.field("id"@).text() {
            None => (self, Err(internal_failure())),
            Some(id) => {
                let turn_id = match self.record(session_id, kind, id) {
                    Some(row) => row.turn_id,
                    None => turn_id,
                };
                (
                    self.saved(
                        ChangeView::Record(RecordView { session_id, kind, id, turn_id, data }),
                    ),
                    Ok(()),
                )
            },
        }
    }

    /// The store after the status of a turn's record, where there is one, has
    /// been saved.
    pub open spec fn with_turn_status(
        self,
        session_id: Seq<char>,
        turn_id: Seq<char>,
        status: Seq<char>,
    ) -> StoreView {
        match self.record(session_id, RecordKind::Turn, turn_id) {
            None => self,
            Some(row) => self.saved(
                ChangeView::Record(
                    RecordView { data: row.data.with("status"@, JsonView::Text(status)), ..row },
                ),
            ),
        }
    }
}

/// Whether a turn's status says that it is not over.
pub open spec fn active_status(status: JsonView) -> bool {
    ||| status == JsonView::Text("queued"@)
    ||| status == JsonView::Text("in_progress"@)
    ||| status == JsonView::Text("waiting"@)
}

/// Whether a record is a turn of a session that is not over.
pub open spec fn is_active_turn(row: RecordView, session_id: Seq<char>) -> bool {
    row.session_id == session_id && row.kind is Turn && active_status(row.data.field("status"@))
}

/// The turn of a session that is not over; the last such turn if there are
/// several.
pub open spec fn last_active_turn(records: Seq<RecordView>, session_id: Seq<char>) -> Option<
    Seq<char>,
>
    decreases records.len(),
{
    if records.len() == 0 {
        None
    } else if is_active_turn(records.last(), session_id) {
        Some(records.last().id)
    } else {
        last_active_turn(records.drop_last(), session_id)
    }
}

/// An event under its ID.
pub open spec fn stamped(event: JsonView, id: Seq<char>) -> JsonView {
    event.with("event_id"@, JsonView::Text(id))
}

/// Give an event its ID.
pub fn stamp(event: Json, id: &str) -> (result: Json)
    ensures
        result@ == stamped(event@, id@),
{
    let mut event = event;
    event.set("event_id", Json::string(id));
    event
}

/// Give an event a fresh ID, as it is announced.
pub fn emit(event: Json) -> (result: Json)
    ensures
        exists|id: Seq<char>| is_uuid4(id) && result@ == #[trigger] stamped(event@, id),
{
    let id = fresh_id();
    stamp(event, id.as_str())
}

/// The public form of a call that waits for the application.
fn action_document(action: &RequiredAction) -> (json: Json)
    ensures
        json@ == public_action(action@),
{
    Json::object()
        .entry("type", Json::string("function_call"))
        .entry("turn_id", Json::string(action.turn_id.as_str()))
        .entry("call_id", Json::string(action.call_id.as_str()))
        .entry("name", Json::string(action.name.as_str()))
        .entry("arguments", action.arguments.copy())
}

/// The public forms of calls that wait for the application.
fn action_documents(actions: &Vec<RequiredAction>) -> (json: Json)
    ensures
        json@ == public_actions(views(actions@)),
{
    let ghost model = views(actions@);
    let mut json = Json::list();
    let mut i: usize = 0;
    assert(model.take(0) =~= Seq::<RequiredActionView>::empty());
    while i < actions.len()
        invariant
            i <= actions@.len(),
            model == views(actions@),
            json@ == public_actions(model.take(i as int)),
        decreases actions@.len() - i,
    {
        proof {
            assert(model.take(i + 1).drop_last() =~= model.take(i as int));
            assert(model.take(i + 1).last() == actions@[i as int]@);
        }
        json = json.item(action_document(&actions[i]));
        i += 1;
    }
    assert(model.take(i as int) =~= model);
    json
}

/// Save the public form of a session.
pub fn save_session(store: &mut Store, id: &str, data: &Json)
    ensures
        final(store)@ == old(store)@.with_public_session(id@, data@),
{
    store.save(Change::PublicSession(PublicSession { id: id.to_owned(), data: data.copy() }));
}

/// The public form of a session as it is read.
pub fn session(store: &Store, id: &str) -> (data: Result<Json, ApiError>)
    ensures
        outcome(data) == store@.public_view(id@),
{
    match store.public_session(id) {
        None => Err(ApiError::new(404, "session not found")),
        Some(row) => match store.session(id) {
            None => Err(ApiError::internal()),
            Some(session) => {
                let mut data = row.data;
                data.set("required_actions", action_documents(&session.required_actions));
                Ok(data)
            },
        },
    }
}

/// Save and announce the status of a session.
pub fn session_status(
    store: &mut Store,
    id: &str,
    status: &str,
    error: Option<&str>,
    now: u64,
) -> (result: Result<(), ApiError>)
    ensures
        (final(store)@, verdict(result)) == old(store)@.with_session_status(
            id@,
            status@,
            match error {
                Some(text) => Some(text@),
                None => None,
            },
            now,
        ),
{
    match session(store, id) {
        Err(e) => Err(e),
        Ok(found) => {
            let mut data = found;
            data.set("status", Json::string(status));
            data.set(
                "error",
                match error {
                    Some(text) => Json::string(text),
                    None => Json::Null,
                },
            );
            data.set("last_active_at", Json::unsigned(now));
            save_session(store, id, &data);
            let kind = joined("agent.session.", status);
            store.publish(
                Json::object().entry("type", Json::string(kind.as_str())).entry("session", data),
            );
            Ok(())
        },
    }
}

/// Save a record.
pub fn save(store: &mut Store, session_id: &str, kind: RecordKind, data: &Json, turn_id: &str) -> (result:
    Result<(), ApiError>)
    ensures
        (final(store)@, verdict(result)) == old(store)@.with_record(
            session_id@,
            kind,
            data@,
            turn_id@,
        ),
{
    match data.field("id").as_text() {
        None => Err(ApiError::internal()),
        Some(id) => {
            let turn_id = match store.record(session_id, kind, id.as_str()) {
                Some(row) => row.turn_id,
                None => turn_id.to_owned(),
            };
            store.save(
                Change::Record(
                    Record {
                        session_id: session_id.to_owned(),
                        kind,
                        id: id.clone(),
                        turn_id,
                        data: data.copy(),
                    },
                ),
            );
            Ok(())
        },
    }
}

/// Save the status of a turn's record, where there is one.
pub fn set_turn_status(store: &mut Store, session_id: &str, turn_id: &str, status: &str)
    ensures
        final(store)@ == old(store)@.with_turn_status(session_id@, turn_id@, status@),
{
    match store.record(session_id, RecordKind::Turn, turn_id) {
        None => {},
        Some(row) => {
            let mut row = row;
            row.data.set("status", Json::string(status));
            store.save(Change::Record(row));
        },
    }
}

/// Whether a turn's status says that it is not over.
fn is_active_status(status: &Json) -> (result: bool)
    ensures
        result == active_status(status@),
{
    status.is_text("queued") || status.is_text("in_progress") || status.is_text("waiting")
}

/// The turn of a session that is not over.
pub fn active_turn(store: &Store, id: &str) -> (turn: Option<String>)
    ensures
        option_view(turn) == last_active_turn(store@.records, id@),
{
    let ghost model = store@.records;
    let mut i: usize = store.records.len();
    assert(model.take(i as int) =~= model);
    while i > 0
        invariant
            i <= store.records@.len(),
            model == views(store.records@),
            last_active_turn(model, id@) == last_active_turn(model.take(i as int), id@),
        decreases i,
    {
        let row = &store.records[i - 1];
        proof {
            assert(model.take(i as int).last() == row@);
            assert(model.take(i as int).drop_last() =~= model.take(i - 1));
        }
        if row.kind == RecordKind::Turn && same(row.session_id.as_str(), id) && is_active_status(
            row.data.field("status"),
        ) {
            return Some(row.id.clone());
        }
        i -= 1;
    }
    None
}

/// Whether a session runs in a thread of the backend.
pub open spec fn runs_in(row: SessionRowView, thread_id: Seq<char>) -> bool {
    row.thread_id == Some(thread_id)
}

/// The session that runs in a thread of the backend and has a public form.
pub open spec fn public_session_of_thread(
    store: StoreView,
    sessions: Seq<SessionRowView>,
    thread_id: Seq<char>,
) -> Option<Seq<char>>
    decreases sessions.len(),
{
    if sessions.len() == 0 {
        None
    } else {
        match public_session_of_thread(store, sessions.drop_last(), thread_id) {
            Some(id) => Some(id),
            None => {
                let row = sessions.last();
                if runs_in(row, thread_id) && store.public_session(row.id) is Some {
                    Some(row.id)
                } else {
                    None
                }
            },
        }
    }
}

/// Whether an item of a turn counts as the model's output: neither what a user
/// said nor the answer to a function call.
pub open spec fn is_output(row: RecordView, session_id: Seq<char>, turn_id: Seq<char>) -> bool {
    &&& row.session_id == session_id
    &&& row.kind is Item
    &&& row.turn_id == turn_id
    &&& row.data.field("role"@) != JsonView::Text("user"@)
    &&& row.data.field("type"@) != JsonView::Null
    &&& row.data.field("type"@) != JsonView::Text("function_call_output"@)
}

/// The number of output items of a turn.
pub open spec fn output_count(
    records: Seq<RecordView>,
    session_id: Seq<char>,
    turn_id: Seq<char>,
) -> nat
    decreases records.len(),
{
    if records.len() == 0 {
        0
    } else {
        let front = output_count(records.drop_last(), session_id, turn_id);
        if is_output(records.last(), session_id, turn_id) {
            front + 1
        } else {
            front
        }
    }
}

/// The index of an item among the output items of its turn, in the order in
/// which they were first saved.
pub open spec fn output_index(
    records: Seq<RecordView>,
    session_id: Seq<char>,
    turn_id: Seq<char>,
    item_id: Seq<char>,
) -> int {
    match position::<Record>(records, record_key(session_id, RecordKind::Item, item_id)) {
        Some(i) => output_count(records.take(i + 1), session_id, turn_id) - 1,
        None => -1,
    }
}

/// Whether an item is what a user said or the answer to a function call.
pub open spec fn is_input(item: JsonView) -> bool {
    item.field("role"@) == JsonView::Text("user"@) || item.field("type"@) == JsonView::Text(
        "function_call_output"@,
    )
}

/// An event about an item.
pub open spec fn item_event(
    kind: Seq<char>,
    session_id: Seq<char>,
    turn_id: Seq<char>,
    item: JsonView,
    index: int,
) -> JsonView {
    object().entry("session_id"@, JsonView::Text(session_id)).entry(
        "turn_id"@,
        JsonView::Text(turn_id),
    ).entry("item"@, item).entry(
        "output_index"@,
        if is_input(item) {
            JsonView::Null
        } else {
            signed_number(index)
        },
    ).entry("type"@, JsonView::Text(kind))
}

/// The text of the first part of an item's content.
pub open spec fn first_text(item: JsonView) -> JsonView {
    let content = item.field("content"@).elements();
    if content.len() == 0 {
        JsonView::Null
    } else {
        content[0].field("text"@)
    }
}

/// The event that tells that the model's text is complete.
pub open spec fn text_event(
    session_id: Seq<char>,
    turn_id: Seq<char>,
    item: JsonView,
    index: int,
) -> JsonView {
    object().entry("type"@, JsonView::Text("agent.session.turn.output_text.done"@)).entry(
        "session_id"@,
        JsonView::Text(session_id),
    ).entry("turn_id"@, JsonView::Text(turn_id)).entry("item_id"@, item.field("id"@)).entry(
        "output_index"@,
        signed_number(index),
    ).entry("content_index"@, number(0)).entry("text"@, first_text(item))
}

/// The store after an item has been saved and announced: as added when it is
/// new, and as done, with its text where it has one, when it is complete.
pub open spec fn item_published(
    store: StoreView,
    session_id: Seq<char>,
    turn_id: Seq<char>,
    item: JsonView,
    done: bool,
) -> (StoreView, Result<(), ApiErrorView>) {
    match item.field("id"@).text() {
        None => (store, Err(internal_failure())),
        Some(item_id) => {
            let new = store.record(session_id, RecordKind::Item, item_id) is None;
            let saved = store.with_record(session_id, RecordKind::Item, item, turn_id).0;
            let index = output_index(saved.records, session_id, turn_id, item_id);
            let added = if new {
                saved.published(
                    item_event(
                        "agent.session.turn.item.added"@,
                        session_id,
                        turn_id,
                        item,
                        index,
                    ),
                )
            } else {
                saved
            };
            let spoken = if done && item.field("role"@) == JsonView::Text("assistant"@) {
                added.published(text_event(session_id, turn_id, item, index))
            } else {
                added
            };
            let finished = if done && !is_input(item) {
                spoken.published(
                    item_event("agent.session.turn.item.done"@, session_id, turn_id, item, index),
                )
            } else {
                spoken
            };
            (finished, Ok(()))
        },
    }
}

/// The store after a turn has started or completed.
pub open spec fn turn_changed(
    store: StoreView,
    session_id: Seq<char>,
    started: bool,
    source: JsonView,
    now: u64,
) -> (StoreView, Result<(), ApiErrorView>) {
    match store.public_view(session_id) {
        Err(e) => (store, Err(e)),
        Ok(current) => match source.field("id"@).text() {
            None => (store, Err(internal_failure())),
            Some(turn_id) => {
                let turn = public_turn(
                    session_id,
                    current.field("agent"@).field("id"@),
                    turn_id,
                    source,
                    now,
                );
                let status = turn_status(source);
                let saved = store.with_record(session_id, RecordKind::Turn, turn, turn_id);
                let opened = if saved.1 is Err || !started {
                    saved
                } else {
                    saved.0.with_session_status(session_id, "in_progress"@, None, now)
                };
                if opened.1 is Err {
                    opened
                } else {
                    let created = if started {
                        opened.0.published(turn_event("created"@, session_id, turn_id, turn))
                    } else {
                        opened.0
                    };
                    let told = created.published(turn_event(status, session_id, turn_id, turn));
                    if status != "in_progress"@ {
                        told.with_session_status(session_id, "idle"@, None, now)
                    } else {
                        (told, Ok(()))
                    }
                }
            },
        },
    }
}

/// The store after a function call has been put before the application.
pub open spec fn action_required(
    store: StoreView,
    session_id: Seq<char>,
    turn_id: Option<Seq<char>>,
    now: u64,
) -> (StoreView, Result<(), ApiErrorView>) {
    let waiting = match turn_id {
        Some(turn_id) => store.with_turn_status(session_id, turn_id, "waiting"@),
        None => store,
    };
    waiting.with_session_status(session_id, "requires_action"@, None, now)
}

/// The store after an item has started or completed.
pub open spec fn item_changed(
    store: StoreView,
    session_id: Seq<char>,
    done: bool,
    params: JsonView,
) -> (StoreView, Result<(), ApiErrorView>) {
    let item = params.field("item"@);
    match (params.field("turnId"@).text(), item.field("id"@).text()) {
        (Some(turn_id), Some(item_id)) => match public_item(turn_id, item_id, item, done) {
            None => (store, Ok(())),
            Some(public) => {
                let shown = item_published(store, session_id, turn_id, public, done);
                if shown.1 is Err || !done || !is_function_call(item) {
                    shown
                } else {
                    item_published(
                        shown.0,
                        session_id,
                        turn_id,
                        public_output(turn_id, item_id, item),
                        true,
                    )
                }
            },
        },
        _ => (store, Err(internal_failure())),
    }
}

/// The store after the backend has told `raw`. What does not concern a public
/// session changes nothing.
pub open spec fn notified(store: StoreView, raw: JsonView, now: u64) -> (
    StoreView,
    Result<(), ApiErrorView>,
) {
    let params = raw.field("params"@);
    let method = raw.field("method"@);
    match params.field("threadId"@).text() {
        None => (store, Ok(())),
        Some(thread_id) => match public_session_of_thread(store, store.sessions, thread_id) {
            None => (store, Ok(())),
            Some(id) => if method == JsonView::Text("turn/started"@) {
                turn_changed(store, id, true, params.field("turn"@), now)
            } else if method == JsonView::Text("turn/completed"@) {
                turn_changed(store, id, false, params.field("turn"@), now)
            } else if method == JsonView::Text("session.requires_action"@) {
                action_required(store, id, params.field("action"@).field("turnId"@).text(), now)
            } else if method == JsonView::Text("item/started"@) {
                item_changed(store, id, false, params)
            } else if method == JsonView::Text("item/completed"@) {
                item_changed(store, id, true, params)
            } else {
                (store, Ok(()))
            },
        },
    }
}

/// The session that runs in a thread of the backend and has a public form.
fn find_public_session(store: &Store, thread_id: &str) -> (id: Option<String>)
    ensures
        option_view(id) == public_session_of_thread(store@, store@.sessions, thread_id@),
{
    let ghost model = store@.sessions;
    let mut i: usize = 0;
    assert(model.take(0) =~= Seq::<SessionRowView>::empty());
    while i < store.sessions.len()
        invariant
            i <= store.sessions@.len(),
            model == store@.sessions,
            public_session_of_thread(store@, model.take(i as int), thread_id@) is None,
        decreases store.sessions@.len() - i,
    {
        let row = &store.sessions[i];
        proof {
            assert(model.take(i + 1).drop_last() =~= model.take(i as int));
            assert(model.take(i + 1).last() == row@);
        }
        let matches = match &row.thread_id {
            Some(thread) => same(thread.as_str(), thread_id),
            None => false,
        };
        if matches && store.public_session(row.id.as_str()).is_some() {
            proof {
                lemma_public_session_of_thread(store@, model, thread_id@, i + 1);
            }
            return Some(row.id.clone());
        }
        i += 1;
    }
    assert(model.take(i as int) =~= model);
    None
}

/// A session that is found among the first rows is found among all.
proof fn lemma_public_session_of_thread(
    store: StoreView,
    sessions: Seq<SessionRowView>,
    thread_id: Seq<char>,
    n: int,
)
    requires
        0 <= n <= sessions.len(),
        public_session_of_thread(store, sessions.take(n), thread_id) is Some,
    ensures
        public_session_of_thread(store, sessions, thread_id) == public_session_of_thread(
            store,
            sessions.take(n),
            thread_id,
        ),
    decreases sessions.len(),
{
    if n == sessions.len() {
        assert(sessions.take(n) =~= sessions);
    } else {
        assert(sessions.drop_last().take(n) =~= sessions.take(n));
        lemma_public_session_of_thread(store, sessions.drop_last(), thread_id, n);
    }
}

/// The number of output items of a turn among the first `upto` records.
fn count_outputs(records: &Vec<Record>, upto: usize, session_id: &str, turn_id: &str) -> (count:
    usize)
    requires
        upto <= records@.len(),
    ensures
        count == output_count(views(records@).take(upto as int), session_id@, turn_id@),
        count <= upto,
{
    let ghost model = views(records@);
    let mut count: usize = 0;
    let mut i: usize = 0;
    assert(model.take(0) =~= Seq::<RecordView>::empty());
    while i < upto
        invariant
            i <= upto <= records@.len(),
            count <= i,
            model == views(records@),
            count == output_count(model.take(i as int), session_id@, turn_id@),
        decreases upto - i,
    {
        let row = &records[i];
        proof {
            assert(model.take(i + 1).drop_last() =~= model.take(i as int));
            assert(model.take(i + 1).last() == row@);
        }
        let kind = row.data.field("type");
        if row.kind == RecordKind::Item && same(row.session_id.as_str(), session_id) && same(
            row.turn_id.as_str(),
            turn_id,
        ) && !row.data.field("role").is_text("user") && !kind.is_null() && !kind.is_text(
            "function_call_output",
        ) {
            count += 1;
        }
        i += 1;
    }
    count
}

/// The index of an item among the output items of its turn, as a document.
fn index_of_output(store: &Store, session_id: &str, turn_id: &str, item_id: &str) -> (index: Json)
    ensures
        index@ == signed_number(output_index(store@.records, session_id@, turn_id@, item_id@)),
{
    let key = vec![session_id, RecordKind::Item.word(), item_id];
    assert(texts(key@) =~= record_key(session_id@, RecordKind::Item, item_id@));
    match find(&store.records, &key) {
        Some(i) => {
            assert(i < store.records.len());
            let count = count_outputs(&store.records, i + 1, session_id, turn_id);
            if count == 0 {
                Json::signed(-1)
            } else {
                Json::unsigned((count - 1) as u64)
            }
        },
        None => Json::signed(-1),
    }
}

/// An event about an item.
fn event_of_item(kind: &str, session_id: &str, turn_id: &str, item: &Json, index: &Json) -> (json:
    Json)
    ensures
        forall|n: int|
            index@ == #[trigger] signed_number(n) ==> json@ == item_event(
                kind@,
                session_id@,
                turn_id@,
                item@,
                n,
            ),
{
    let input = item.field("role").is_text("user") || item.field("type").is_text(
        "function_call_output",
    );
    let shown_index = if input {
        Json::Null
    } else {
        index.copy()
    };
    Json::object()
        .entry("session_id", Json::string(session_id))
        .entry("turn_id", Json::string(turn_id))
        .entry("item", item.copy())
        .entry("output_index", shown_index)
        .entry("type", Json::string(kind))
}

/// The text of the first part of an item's content.
fn text_of_item(item: &Json) -> (text: Json)
    ensures
        text@ == first_text(item@),
{
    match item.field("content") {
        Json::Array(items) => if items.len() == 0 {
            Json::Null
        } else {
            items[0].field("text").copy()
        },
        _ => Json::Null,
    }
}

/// Save and announce an item.
pub fn publish_item(store: &mut Store, id: &str, turn_id: &str, item: &Json, done: bool) -> (result:
    Result<(), ApiError>)
    ensures
        (final(store)@, verdict(result)) == item_published(
            old(store)@,
            id@,
            turn_id@,
            item@,
            done,
        ),
{
    let item_id = match item.field("id").as_text() {
        None => {
            return Err(ApiError::internal());
        },
        Some(item_id) => item_id,
    };
    let new = store.record(id, RecordKind::Item, item_id.as_str()).is_none();
    match save(store, id, RecordKind::Item, item, turn_id) {
        Err(e) => {
            return Err(e);
        },
        Ok(_) => {},
    }
    let index = index_of_output(store, id, turn_id, item_id.as_str());
    if new {
        store.publish(
            event_of_item("agent.session.turn.item.added", id, turn_id, item, &index),
        );
    }
    if done && item.field("role").is_text("assistant") {
        store.publish(
            Json::object()
                .entry("type", Json::string("agent.session.turn.output_text.done"))
                .entry("session_id", Json::string(id))
                .entry("turn_id", Json::string(turn_id))
                .entry("item_id", item.field("id").copy())
                .entry("output_index", index.copy())
                .entry("content_index", Json::unsigned(0))
                .entry("text", text_of_item(item)),
        );
    }
    let input = item.field("role").is_text("user") || item.field("type").is_text(
        "function_call_output",
    );
    if done && !input {
        store.publish(event_of_item("agent.session.turn.item.done", id, turn_id, item, &index));
    }
    Ok(())
}

/// Record that a turn has started or completed.
fn turn_notification(store: &mut Store, id: &str, started: bool, source: &Json, now: u64) -> (result:
    Result<(), ApiError>)
    ensures
        (final(store)@, verdict(result)) == turn_changed(
            old(store)@,
            id@,
            started,
            source@,
            now,
        ),
{
    let current = match session(store, id) {
        Err(e) => {
            return Err(e);
        },
        Ok(current) => current,
    };
    let turn_id = match source.field("id").as_text() {
        None => {
            return Err(ApiError::internal());
        },
        Some(turn_id) => turn_id.as_str(),
    };
    let status = status_of_turn(source);
    let turn = turn_document(id, current.field("agent").field("id"), turn_id, source, now);
    match save(store, id, RecordKind::Turn, &turn, turn_id) {
        Err(e) => {
            return Err(e);
        },
        Ok(_) => {},
    }
    if started {
        match session_status(store, id, "in_progress", None, now) {
            Err(e) => {
                return Err(e);
            },
            Ok(_) => {},
        }
        store.publish(event_of_turn("created", id, turn_id, &turn));
    }
    store.publish(event_of_turn(status, id, turn_id, &turn));
    if !same(status, "in_progress") {
        session_status(store, id, "idle", None, now)
    } else {
        Ok(())
    }
}

/// Record that an item has started or completed.
fn item_notification(store: &mut Store, id: &str, done: bool, params: &Json) -> (result: Result<
    (),
    ApiError,
>)
    ensures
        (final(store)@, verdict(result)) == item_changed(old(store)@, id@, done, params@),
{
    let item = params.field("item");
    let turn_id = match params.field("turnId").as_text() {
        None => {
            return Err(ApiError::internal());
        },
        Some(turn_id) => turn_id.as_str(),
    };
    let item_id = match item.field("id").as_text() {
        None => {
            return Err(ApiError::internal());
        },
        Some(item_id) => item_id.as_str(),
    };
    match item_document(turn_id, item_id, item, done) {
        None => Ok(()),
        Some(public) => match publish_item(store, id, turn_id, &public, done) {
            Err(e) => Err(e),
            Ok(_) => if done && item.field("type").is_text("dynamicToolCall") {
                publish_item(store, id, turn_id, &output_document(turn_id, item_id, item), true)
            } else {
                Ok(())
            },
        },
    }
}

/// Record what the backend has told of a public session.
pub fn notification(store: &mut Store, raw: &Json, now: u64) -> (result: Result<(), ApiError>)
    ensures
        (final(store)@, verdict(result)) == notified(old(store)@, raw@, now),
{
    let params = raw.field("params");
    let method = raw.field("method");
    let thread_id = match params.field("threadId").as_text() {
        None => {
            return Ok(());
        },
        Some(thread_id) => thread_id.as_str(),
    };
    let id = match find_public_session(store, thread_id) {
        None => {
            return Ok(());
        },
        Some(id) => id,
    };
    if method.is_text("turn/started") {
        turn_notification(store, id.as_str(), true, params.field("turn"), now)
    } else if method.is_text("turn/completed") {
        turn_notification(store, id.as_str(), false, params.field("turn"), now)
    } else if method.is_text("session.requires_action") {
        match params.field("action").field("turnId").as_text() {
            Some(turn_id) => set_turn_status(store, id.as_str(), turn_id.as_str(), "waiting"),
            None => {},
        }
        session_status(store, id.as_str(), "requires_action", None, now)
    } else if method.is_text("item/started") {
        item_notification(store, id.as_str(), false, params)
    } else if method.is_text("item/completed") {
        item_notification(store, id.as_str(), true, params)
    } else {
        Ok(())
    }
}

} // verus!
