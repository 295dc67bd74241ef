//! The durable state of the service: agents, sessions, function calls and
//! public records, with what is still to be written out and announced.
use crate::contract::now;
use crate::error::internal_failure;
use crate::error::ApiError;
use crate::error::ApiErrorView;
use crate::json::Json;
use crate::json::JsonView;
use crate::model::duplicate_option;
use crate::model::option_view;
use crate::model::outcome;
use crate::model::views;
use crate::model::Duplicate;
use crate::outside::fresh_id;
use crate::outside::is_uuid4;
use crate::resources::Agent;
use crate::resources::AgentConfig;
use crate::resources::AgentView;
use crate::resources::Environment;
use crate::resources::EnvironmentView;
use crate::resources::RequiredAction;
use crate::resources::RequiredActionView;
use crate::resources::Session;
use crate::resources::SessionCreateParams;
use crate::resources::SessionView;
use crate::table::lookup;
use crate::table::put;
use crate::table::fetch;
use crate::table::texts;
use crate::table::replace;
use crate::table::Row;
use crate::text::is_before;
use crate::text::same;
use crate::text::text_before;
use vstd::prelude::*;

verus! {

/// How far the answer to a function call has come.
#[derive(Clone, Copy, Debug, PartialEq, Eq, Structural)]
pub enum CallStatus {
    /// The application has not answered.
    Pending,
    /// An answer is being handed to the backend.
    Submitting,
    /// An answer was handed to the backend.
    Submitted,
    /// The connection that waited for the answer is gone.
    Unavailable,
    /// The call was withdrawn before it was answered.
    Cancelled,
}

/// The word that stands for a status.
pub open spec fn status_word(status: CallStatus) -> Seq<char> {
    match status {
        CallStatus::Pending => "pending"@,
        CallStatus::Submitting => "submitting"@,
        CallStatus::Submitted => "submitted"@,
        CallStatus::Unavailable => "unavailable"@,
        CallStatus::Cancelled => "cancelled"@,
    }
}

impl CallStatus {
    /// The word that stands for the status.
    pub fn word(self) -> (word: &'static str)
        ensures
            word@ == status_word(self),
    {
        match self {
            CallStatus::Pending => "pending",
            CallStatus::Submitting => "submitting",
            CallStatus::Submitted => "submitted",
            CallStatus::Unavailable => "unavailable",
            CallStatus::Cancelled => "cancelled",
        }
    }
}

/// What a public record describes.
#[derive(Clone, Copy, Debug, PartialEq, Eq, Structural)]
pub enum RecordKind {
    Turn,
    Item,
}

/// The word that stands for a kind of record.
pub open spec fn kind_word(kind: RecordKind) -> Seq<char> {
    match kind {
        RecordKind::Turn => "turn"@,
        RecordKind::Item => "item"@,
    }
}

impl RecordKind {
    /// The word that stands for the kind.
    pub fn word(self) -> (word: &'static str)
        ensures
            word@ == kind_word(self),
    {
        match self {
            RecordKind::Turn => "turn",
            RecordKind::Item => "item",
        }
    }
}

/// A session as it is saved: the configuration it was created with, and the
/// thread that runs it once there is one.
pub struct SessionRow {
    pub id: String,
    pub agent: Agent,
    pub environment: Environment,
    pub thread_id: Option<String>,
}

/// What a [`SessionRow`] stands for.
pub struct SessionRowView {
    pub id: Seq<char>,
    pub agent: AgentView,
    pub environment: EnvironmentView,
    pub thread_id: Option<Seq<char>>,
}

impl View for SessionRow {
    type V = SessionRowView;

    open spec fn view(&self) -> SessionRowView {
        SessionRowView {
            id: self.id@,
            agent: self.agent@,
            environment: self.environment@,
            thread_id: option_view(self.thread_id),
        }
    }
}

impl Duplicate for SessionRow {
    fn duplicate(&self) -> (copy: Self) {
        SessionRow {
            id: self.id.clone(),
            agent: self.agent.duplicate(),
            environment: self.environment.duplicate(),
            thread_id: duplicate_option(&self.thread_id),
        }
    }
}

/// A function call of a session's turn.
pub struct ToolCall {
    pub session_id: String,
    pub turn_id: String,
    pub call_id: String,
    /// The backend's request for an answer, as JSON text.
    pub request_id: String,
    pub action: RequiredAction,
    pub status: CallStatus,
    /// The answer that was last taken, as JSON text.
    pub result: Option<String>,
}

/// What a [`ToolCall`] stands for.
pub struct ToolCallView {
    pub session_id: Seq<char>,
    pub turn_id: Seq<char>,
    pub call_id: Seq<char>,
    pub request_id: Seq<char>,
    pub action: RequiredActionView,
    pub status: CallStatus,
    pub result: Option<Seq<char>>,
}

impl View for ToolCall {
    type V = ToolCallView;

    open spec fn view(&self) -> ToolCallView {
        ToolCallView {
            session_id: self.session_id@,
            turn_id: self.turn_id@,
            call_id: self.call_id@,
            request_id: self.request_id@,
            action: self.action@,
            status: self.status,
            result: option_view(self.result),
        }
    }
}

impl Duplicate for ToolCall {
    fn duplicate(&self) -> (copy: Self) {
        ToolCall {
            session_id: self.session_id.clone(),
            turn_id: self.turn_id.clone(),
            call_id: self.call_id.clone(),
            request_id: self.request_id.clone(),
            action: self.action.duplicate(),
            status: self.status,
            result: duplicate_option(&self.result),
        }
    }
}

/// The public form of a session.
pub struct PublicSession {
    pub id: String,
    pub data: Json,
}

/// What a [`PublicSession`] stands for.
pub struct PublicSessionView {
    pub id: Seq<char>,
    pub data: JsonView,
}

impl View for PublicSession {
    type V = PublicSessionView;

    open spec fn view(&self) -> PublicSessionView {
        PublicSessionView {
            id: self.id@,
            data: self.data@,
        }
    }
}

impl Duplicate for PublicSession {
    fn duplicate(&self) -> (copy: Self) {
        PublicSession {
            id: self.id.clone(),
            data: self.data.duplicate(),
        }
    }
}

/// A public record of a session's turn or item. Records are kept in the order in
/// which they were first saved.
pub struct Record {
    pub session_id: String,
    pub kind: RecordKind,
    pub id: String,
    pub turn_id: String,
    pub data: Json,
}

/// What a [`Record`] stands for.
pub struct RecordView {
    pub session_id: Seq<char>,
    pub kind: RecordKind,
    pub id: Seq<char>,
    pub turn_id: Seq<char>,
    pub data: JsonView,
}

impl View for Record {
    type V = RecordView;

    open spec fn view(&self) -> RecordView {
        RecordView {
            session_id: self.session_id@,
            kind: self.kind,
            id: self.id@,
            turn_id: self.turn_id@,
            data: self.data@,
        }
    }
}

impl Duplicate for Record {
    fn duplicate(&self) -> (copy: Self) {
        Record {
            session_id: self.session_id.clone(),
            kind: self.kind,
            id: self.id.clone(),
            turn_id: self.turn_id.clone(),
            data: self.data.duplicate(),
        }
    }
}

impl Row for Agent {
    open spec fn key(row: AgentView) -> Seq<Seq<char>> {
        seq![row.id]
    }

    fn has_key(&self, key: &Vec<&str>) -> (result: bool) {
        let result = key.len() == 1 && same(self.id.as_str(), key[0]);
        assert(seq![self.id@][0] == self.id@);
        assert(key@.len() > 0 ==> texts(key@)[0] == key@[0]@);
        assert(result == (seq![self.id@] =~= texts(key@)));
        result
    }

    fn same_key(&self, other: &Self) -> (result: bool) {
        assert(seq![self.id@][0] == self.id@ && seq![other.id@][0] == other.id@);
        same(self.id.as_str(), other.id.as_str())
    }
}

impl Row for SessionRow {
    open spec fn key(row: SessionRowView) -> Seq<Seq<char>> {
        seq![row.id]
    }

    fn has_key(&self, key: &Vec<&str>) -> (result: bool) {
        let result = key.len() == 1 && same(self.id.as_str(), key[0]);
        assert(seq![self.id@][0] == self.id@);
        assert(key@.len() > 0 ==> texts(key@)[0] == key@[0]@);
        assert(result == (seq![self.id@] =~= texts(key@)));
        result
    }

    fn same_key(&self, other: &Self) -> (result: bool) {
        assert(seq![self.id@][0] == self.id@ && seq![other.id@][0] == other.id@);
        same(self.id.as_str(), other.id.as_str())
    }
}

impl Row for PublicSession {
    open spec fn key(row: PublicSessionView) -> Seq<Seq<char>> {
        seq![row.id]
    }

    fn has_key(&self, key: &Vec<&str>) -> (result: bool) {
        let result = key.len() == 1 && same(self.id.as_str(), key[0]);
        assert(seq![self.id@][0] == self.id@);
        assert(key@.len() > 0 ==> texts(key@)[0] == key@[0]@);
        assert(result == (seq![self.id@] =~= texts(key@)));
        result
    }

    fn same_key(&self, other: &Self) -> (result: bool) {
        assert(seq![self.id@][0] == self.id@ && seq![other.id@][0] == other.id@);
        same(self.id.as_str(), other.id.as_str())
    }
}

/// The key of a function call.
pub open spec fn call_key(session_id: Seq<char>, turn_id: Seq<char>, call_id: Seq<char>) -> Seq<
    Seq<char>,
> {
    seq![session_id, turn_id, call_id]
}

impl Row for ToolCall {
    open spec fn key(row: ToolCallView) -> Seq<Seq<char>> {
        call_key(row.session_id, row.turn_id, row.call_id)
    }

    fn has_key(&self, key: &Vec<&str>) -> (result: bool) {
        let result = key.len() == 3 && same(self.session_id.as_str(), key[0]) && same(
            self.turn_id.as_str(),
            key[1],
        ) && same(self.call_id.as_str(), key[2]);
        assert(result == (seq![self.session_id@, self.turn_id@, self.call_id@] =~= texts(key@)));
        result
    }

    fn same_key(&self, other: &Self) -> (result: bool) {
        let ghost mine = seq![self.session_id@, self.turn_id@, self.call_id@];
        let ghost others = seq![other.session_id@, other.turn_id@, other.call_id@];
        assert(mine[0] == self.session_id@ && mine[1] == self.turn_id@ && mine[2] == self.call_id@);
        assert(others[0] == other.session_id@ && others[1] == other.turn_id@ && others[2]
            == other.call_id@);
        same(self.session_id.as_str(), other.session_id.as_str()) && same(
            self.turn_id.as_str(),
            other.turn_id.as_str(),
        ) && same(self.call_id.as_str(), other.call_id.as_str())
    }
}

/// The key of a public record.
pub open spec fn record_key(session_id: Seq<char>, kind: RecordKind, id: Seq<char>) -> Seq<
    Seq<char>,
> {
    seq![session_id, kind_word(kind), id]
}

impl Row for Record {
    open spec fn key(row: RecordView) -> Seq<Seq<char>> {
        record_key(row.session_id, row.kind, row.id)
    }

    fn has_key(&self, key: &Vec<&str>) -> (result: bool) {
        let result = key.len() == 3 && same(self.session_id.as_str(), key[0]) && same(
            self.kind.word(),
            key[1],
        ) && same(self.id.as_str(), key[2]);
        assert(result == (seq![self.session_id@, kind_word(self.kind), self.id@] =~= texts(key@)));
        result
    }

    fn same_key(&self, other: &Self) -> (result: bool) {
        let ghost mine = record_key(self.session_id@, self.kind, self.id@);
        let ghost others = record_key(other.session_id@, other.kind, other.id@);
        assert(mine[0] == self.session_id@ && mine[1] == kind_word(self.kind) && mine[2]
            == self.id@);
        assert(others[0] == other.session_id@ && others[1] == kind_word(other.kind) && others[2]
            == other.id@);
        same(self.session_id.as_str(), other.session_id.as_str()) && same(
            self.kind.word(),
            other.kind.word(),
        ) && same(self.id.as_str(), other.id.as_str())
    }
}

/// A row to be written out.
pub enum Change {
    Agent(Agent),
    Session(SessionRow),
    Call(ToolCall),
    PublicSession(PublicSession),
    Record(Record),
}

/// What a [`Change`] stands for.
pub enum ChangeView {
    Agent(AgentView),
    Session(SessionRowView),
    Call(ToolCallView),
    PublicSession(PublicSessionView),
    Record(RecordView),
}

impl View for Change {
    type V = ChangeView;

    open spec fn view(&self) -> ChangeView {
        match self {
            Change::Agent(row) => ChangeView::Agent(row@),
            Change::Session(row) => ChangeView::Session(row@),
            Change::Call(row) => ChangeView::Call(row@),
            Change::PublicSession(row) => ChangeView::PublicSession(row@),
            Change::Record(row) => ChangeView::Record(row@),
        }
    }
}

/// What the service does once a change of its state is decided. Effects are
/// carried out in order.
pub enum Effect {
    /// Write a row out.
    Save(Change),
    /// Announce a public event, under a fresh event ID.
    Publish(Json),
    /// Tell the public streams to end.
    Close(Json),
    /// Pass an event of the backend on.
    Notify(Json),
}

/// What an [`Effect`] stands for.
pub enum EffectView {
    Save(ChangeView),
    Publish(JsonView),
    Close(JsonView),
    Notify(JsonView),
}

impl View for Effect {
    type V = EffectView;

    open spec fn view(&self) -> EffectView {
        match self {
            Effect::Save(change) => EffectView::Save(change@),
            Effect::Publish(event) => EffectView::Publish(event@),
            Effect::Close(event) => EffectView::Close(event@),
            Effect::Notify(event) => EffectView::Notify(event@),
        }
    }
}

/// The rows of the service, and the effects that have not been carried out.
pub struct Store {
    pub agents: Vec<Agent>,
    pub sessions: Vec<SessionRow>,
    pub calls: Vec<ToolCall>,
    pub public_sessions: Vec<PublicSession>,
    pub records: Vec<Record>,
    pub outbox: Vec<Effect>,
}

/// What a [`Store`] stands for.
pub struct StoreView {
    pub agents: Seq<AgentView>,
    pub sessions: Seq<SessionRowView>,
    pub calls: Seq<ToolCallView>,
    pub public_sessions: Seq<PublicSessionView>,
    pub records: Seq<RecordView>,
    pub outbox: Seq<EffectView>,
}

impl View for Store {
    type V = StoreView;

    open spec fn view(&self) -> StoreView {
        StoreView {
            agents: views(self.agents@),
            sessions: views(self.sessions@),
            calls: views(self.calls@),
            public_sessions: views(self.public_sessions@),
            records: views(self.records@),
            outbox: views(self.outbox@),
        }
    }
}

impl StoreView {
    /// The store after a row has been written, but for its outbox.
    pub open spec fn applied(self, change: ChangeView) -> StoreView {
        match change {
            ChangeView::Agent(row) => StoreView { agents: put::<Agent>(self.agents, row), ..self },
            ChangeView::Session(row) => StoreView {
                sessions: put::<SessionRow>(self.sessions, row),
                ..self
            },
            ChangeView::Call(row) => StoreView { calls: put::<ToolCall>(self.calls, row), ..self },
            ChangeView::PublicSession(row) => StoreView {
                public_sessions: put::<PublicSession>(self.public_sessions, row),
                ..self
            },
            ChangeView::Record(row) => StoreView {
                records: put::<Record>(self.records, row),
                ..self
            },
        }
    }

    /// The store after a row has been written and put up for saving.
    pub open spec fn saved(self, change: ChangeView) -> StoreView {
        StoreView { outbox: self.outbox.push(EffectView::Save(change)), ..self.applied(change) }
    }

    /// The store after a public event has been put up for announcing.
    pub open spec fn published(self, event: JsonView) -> StoreView {
        StoreView { outbox: self.outbox.push(EffectView::Publish(event)), ..self }
    }

    /// The store after the end of the public streams has been put up.
    pub open spec fn closed(self, event: JsonView) -> StoreView {
        StoreView { outbox: self.outbox.push(EffectView::Close(event)), ..self }
    }

    /// The store after an event of the backend has been put up for passing on.
    pub open spec fn notified(self, event: JsonView) -> StoreView {
        StoreView { outbox: self.outbox.push(EffectView::Notify(event)), ..self }
    }

    /// The saved agent with an ID.
    pub open spec fn agent(self, id: Seq<char>) -> Option<AgentView> {
        lookup::<Agent>(self.agents, seq![id])
    }

    /// The session with an ID as it is saved.
    pub open spec fn session_row(self, id: Seq<char>) -> Option<SessionRowView> {
        lookup::<SessionRow>(self.sessions, seq![id])
    }

    /// The public form of a session as it is saved.
    pub open spec fn public_session(self, id: Seq<char>) -> Option<PublicSessionView> {
        lookup::<PublicSession>(self.public_sessions, seq![id])
    }

    /// A function call.
    pub open spec fn call(self, session_id: Seq<char>, turn_id: Seq<char>, call_id: Seq<char>) -> Option<
        ToolCallView,
    > {
        lookup::<ToolCall>(self.calls, call_key(session_id, turn_id, call_id))
    }

    /// A public record.
    pub open spec fn record(self, session_id: Seq<char>, kind: RecordKind, id: Seq<char>) -> Option<
        RecordView,
    > {
        lookup::<Record>(self.records, record_key(session_id, kind, id))
    }

    /// The store after an agent has been saved under an ID that was free.
    pub open spec fn with_agent(self, agent: AgentView) -> (StoreView, Result<AgentView, ApiErrorView>) {
        if self.agent(agent.id) is Some {
            (self, Err(internal_failure()))
        } else {
            (self.saved(ChangeView::Agent(agent)), Ok(agent))
        }
    }

    /// The store after a session that has not run yet has been saved under an
    /// ID that was free.
    pub open spec fn with_session(
        self,
        id: Seq<char>,
        agent: AgentView,
        environment: EnvironmentView,
    ) -> (StoreView, Result<SessionView, ApiErrorView>) {
        if self.session_row(id) is Some {
            (self, Err(internal_failure()))
        } else {
            (
                self.saved(
                    ChangeView::Session(SessionRowView { id, agent, environment, thread_id: None }),
                ),
                Ok(
                    SessionView {
                        id,
                        agent,
                        environment,
                        thread_id: None,
                        required_actions: Seq::empty(),
                        unresolved_actions: Seq::empty(),
                    },
                ),
            )
        }
    }

    /// The session with an ID as it is read.
    pub open spec fn session(self, id: Seq<char>) -> Option<SessionView> {
        match self.session_row(id) {
            None => None,
            Some(row) => Some(
                SessionView {
                    id: row.id,
                    agent: row.agent,
                    environment: row.environment,
                    thread_id: row.thread_id,
                    required_actions: actions_of(open_calls(self.calls, id), true),
                    unresolved_actions: actions_of(open_calls(self.calls, id), false),
                },
            ),
        }
    }
}

/// Whether a call comes before another in the order of turns, then of calls.
pub open spec fn call_before(a: ToolCallView, b: ToolCallView) -> bool {
    text_before(a.turn_id, b.turn_id) || (a.turn_id == b.turn_id && text_before(
        a.call_id,
        b.call_id,
    ))
}

/// The calls with one more at its place in their order, behind those that are
/// alike.
pub open spec fn insert_call(calls: Seq<ToolCallView>, call: ToolCallView) -> Seq<ToolCallView>
    decreases calls.len(),
{
    if calls.len() == 0 || !call_before(call, calls.last()) {
        calls.push(call)
    } else {
        insert_call(calls.drop_last(), call).push(calls.last())
    }
}

/// Whether a call is neither answered nor withdrawn.
pub open spec fn is_open(status: CallStatus) -> bool {
    status is Pending || status is Unavailable || status is Submitting
}

/// The calls of a session that are neither answered nor withdrawn, in order.
pub open spec fn open_calls(calls: Seq<ToolCallView>, session_id: Seq<char>) -> Seq<ToolCallView>
    decreases calls.len(),
{
    if calls.len() == 0 {
        Seq::empty()
    } else {
        let front = open_calls(calls.drop_last(), session_id);
        let call = calls.last();
        if call.session_id == session_id && is_open(call.status) {
            insert_call(front, call)
        } else {
            front
        }
    }
}

/// The actions of those calls that are pending, or of those that are not.
pub open spec fn actions_of(calls: Seq<ToolCallView>, pending: bool) -> Seq<RequiredActionView>
    decreases calls.len(),
{
    if calls.len() == 0 {
        Seq::empty()
    } else {
        let front = actions_of(calls.drop_last(), pending);
        if (calls.last().status is Pending) == pending {
            front.push(calls.last().action)
        } else {
            front
        }
    }
}

/// Whether a call comes before another.
fn is_call_before(a: &ToolCall, b: &ToolCall) -> (result: bool)
    ensures
        result == call_before(a@, b@),
{
    is_before(a.turn_id.as_str(), b.turn_id.as_str()) || (same(
        a.turn_id.as_str(),
        b.turn_id.as_str(),
    ) && is_before(a.call_id.as_str(), b.call_id.as_str()))
}

/// Put a call at its place among `calls`.
fn insert_in_order(calls: &mut Vec<ToolCall>, call: ToolCall)
    ensures
        views(final(calls)@) == insert_call(views(old(calls)@), call@),
{
    let ghost model = views(calls@);
    let mut i: usize = calls.len();
    proof {
        assert(model.take(i as int) =~= model);
        assert(insert_call(model, call@) =~= insert_call(model.take(i as int), call@) + model.skip(
            i as int,
        ));
    }
    while i > 0 && is_call_before(&call, &calls[i - 1])
        invariant
            i <= calls@.len(),
            *calls == *old(calls),
            model == views(calls@),
            insert_call(model, call@) == insert_call(model.take(i as int), call@) + model.skip(
                i as int,
            ),
        decreases i,
    {
        proof {
            let upto = model.take(i as int);
            assert(upto.last() == calls@[i - 1]@);
            assert(upto.drop_last() =~= model.take(i - 1));
            assert(insert_call(upto, call@) == insert_call(model.take(i - 1), call@).push(
                upto.last(),
            ));
            assert(insert_call(model.take(i - 1), call@).push(upto.last()) + model.skip(i as int)
                =~= insert_call(model.take(i - 1), call@) + model.skip(i - 1));
        }
        i -= 1;
    }
    proof {
        let upto = model.take(i as int);
        if i > 0 {
            assert(upto.last() == calls@[i - 1]@);
        }
        assert(insert_call(upto, call@) == upto.push(call@));
    }
    calls.insert(i, call);
    assert(views(calls@) =~= model.take(i as int).push(call@) + model.skip(i as int));
}

/// The open calls of a session, in order.
fn collect_open_calls(calls: &Vec<ToolCall>, session_id: &str) -> (found: Vec<ToolCall>)
    ensures
        views(found@) == open_calls(views(calls@), session_id@),
{
    let ghost model = views(calls@);
    let mut found: Vec<ToolCall> = Vec::new();
    let mut i: usize = 0;
    assert(model.take(0) =~= Seq::<ToolCallView>::empty());
    assert(views(found@) =~= Seq::<ToolCallView>::empty());
    while i < calls.len()
        invariant
            i <= calls@.len(),
            model == views(calls@),
            views(found@) == open_calls(model.take(i as int), session_id@),
        decreases calls@.len() - i,
    {
        let call = &calls[i];
        proof {
            assert(model.take(i + 1).drop_last() =~= model.take(i as int));
            assert(model.take(i + 1).last() == call@);
        }
        let unfinished = match call.status {
            CallStatus::Pending | CallStatus::Unavailable | CallStatus::Submitting => true,
            CallStatus::Submitted | CallStatus::Cancelled => false,
        };
        if unfinished && same(call.session_id.as_str(), session_id) {
            insert_in_order(&mut found, call.duplicate());
        }
        i += 1;
    }
    assert(model.take(i as int) =~= model);
    found
}

/// The actions of the pending calls, or of the others.
fn collect_actions(calls: &Vec<ToolCall>, pending: bool) -> (actions: Vec<RequiredAction>)
    ensures
        views(actions@) == actions_of(views(calls@), pending),
{
    let ghost model = views(calls@);
    let mut actions: Vec<RequiredAction> = Vec::new();
    let mut i: usize = 0;
    assert(model.take(0) =~= Seq::<ToolCallView>::empty());
    assert(views(actions@) =~= Seq::<RequiredActionView>::empty());
    while i < calls.len()
        invariant
            i <= calls@.len(),
            model == views(calls@),
            views(actions@) == actions_of(model.take(i as int), pending),
        decreases calls@.len() - i,
    {
        let call = &calls[i];
        proof {
            assert(model.take(i + 1).drop_last() =~= model.take(i as int));
            assert(model.take(i + 1).last() == call@);
        }
        if (call.status == CallStatus::Pending) == pending {
            let ghost before = views(actions@);
            actions.push(call.action.duplicate());
            assert(views(actions@) =~= before.push(call.action@));
        }
        i += 1;
    }
    assert(model.take(i as int) =~= model);
    actions
}

impl Store {
    /// Write a row and put it up for saving.
    pub fn save(&mut self, change: Change)
        ensures
            final(self)@ == old(self)@.saved(change@),
    {
        let ghost before = self@;
        let saved = match change {
            Change::Agent(row) => {
                let copy = row.duplicate();
                replace(&mut self.agents, row);
                Change::Agent(copy)
            },
            Change::Session(row) => {
                let copy = row.duplicate();
                replace(&mut self.sessions, row);
                Change::Session(copy)
            },
            Change::Call(row) => {
                let copy = row.duplicate();
                replace(&mut self.calls, row);
                Change::Call(copy)
            },
            Change::PublicSession(row) => {
                let copy = row.duplicate();
                replace(&mut self.public_sessions, row);
                Change::PublicSession(copy)
            },
            Change::Record(row) => {
                let copy = row.duplicate();
                replace(&mut self.records, row);
                Change::Record(copy)
            },
        };
        self.outbox.push(Effect::Save(saved));
        assert(views(self.outbox@) =~= before.outbox.push(EffectView::Save(change@)));
    }

    /// Put a public event up for announcing.
    pub fn publish(&mut self, event: Json)
        ensures
            final(self)@ == old(self)@.published(event@),
    {
        let ghost before = self@;
        self.outbox.push(Effect::Publish(event));
        assert(views(self.outbox@) =~= before.outbox.push(EffectView::Publish(event@)));
    }

    /// Tell the public streams to end.
    pub fn close(&mut self, event: Json)
        ensures
            final(self)@ == old(self)@.closed(event@),
    {
        let ghost before = self@;
        self.outbox.push(Effect::Close(event));
        assert(views(self.outbox@) =~= before.outbox.push(EffectView::Close(event@)));
    }

    /// Put an event of the backend up for passing on.
    pub fn notify(&mut self, event: Json)
        ensures
            final(self)@ == old(self)@.notified(event@),
    {
        let ghost before = self@;
        self.outbox.push(Effect::Notify(event));
        assert(views(self.outbox@) =~= before.outbox.push(EffectView::Notify(event@)));
    }

    /// The saved agent with an ID.
    pub fn agent(&self, id: &str) -> (agent: Option<Agent>)
        ensures
            option_view(agent) == self@.agent(id@),
    {
        let key = vec![id];
        assert(texts(key@) =~= seq![id@]);
        fetch(&self.agents, &key)
    }

    /// The session with an ID as it is saved.
    pub fn session_row(&self, id: &str) -> (row: Option<SessionRow>)
        ensures
            option_view(row) == self@.session_row(id@),
    {
        let key = vec![id];
        assert(texts(key@) =~= seq![id@]);
        fetch(&self.sessions, &key)
    }

    /// The public form of a session as it is saved.
    pub fn public_session(&self, id: &str) -> (row: Option<PublicSession>)
        ensures
            option_view(row) == self@.public_session(id@),
    {
        let key = vec![id];
        assert(texts(key@) =~= seq![id@]);
        fetch(&self.public_sessions, &key)
    }

    /// A function call.
    pub fn call(&self, session_id: &str, turn_id: &str, call_id: &str) -> (row: Option<ToolCall>)
        ensures
            option_view(row) == self@.call(session_id@, turn_id@, call_id@),
    {
        let key = vec![session_id, turn_id, call_id];
        assert(texts(key@) =~= call_key(session_id@, turn_id@, call_id@));
        fetch(&self.calls, &key)
    }

    /// A public record.
    pub fn record(&self, session_id: &str, kind: RecordKind, id: &str) -> (row: Option<Record>)
        ensures
            option_view(row) == self@.record(session_id@, kind, id@),
    {
        let key = vec![session_id, kind.word(), id];
        assert(texts(key@) =~= record_key(session_id@, kind, id@));
        fetch(&self.records, &key)
    }

    /// The session with an ID as it is read: with the calls that wait for a
    /// result and those whose delivery is uncertain.
    pub fn session(&self, id: &str) -> (session: Option<Session>)
        ensures
            option_view(session) == self@.session(id@),
    {
        match self.session_row(id) {
            None => None,
            Some(row) => {
                let calls = collect_open_calls(&self.calls, id);
                Some(
                    Session {
                        id: row.id,
                        agent: row.agent,
                        environment: row.environment,
                        thread_id: row.thread_id,
                        required_actions: collect_actions(&calls, true),
                        unresolved_actions: collect_actions(&calls, false),
                    },
                )
            },
        }
    }

    /// Save an agent under the ID that it has.
    pub fn add_agent(&mut self, agent: Agent) -> (added: Result<Agent, ApiError>)
        ensures
            (final(self)@, outcome(added)) == old(self)@.with_agent(agent@),
    {
        match self.agent(agent.id.as_str()) {
            Some(_) => Err(ApiError::internal()),
            None => {
                self.save(Change::Agent(agent.duplicate()));
                Ok(agent)
            },
        }
    }

    /// Save an agent under a fresh ID.
    pub fn create_agent(&mut self, config: AgentConfig) -> (created: Result<Agent, ApiError>)
        ensures
            exists|id: Seq<char>, created_at: u64|
                is_uuid4(id) && (final(self)@, outcome(created)) == #[trigger] old(self)@.with_agent(
                    AgentView { id, config: config@, created_at },
                ),
    {
        let agent = Agent { id: fresh_id(), config, created_at: now() };
        self.add_agent(agent)
    }

    /// Save a session that has not run yet, under the ID `id`.
    pub fn add_session(&mut self, id: &str, agent: Agent, environment: Environment) -> (added: Result<
        Session,
        ApiError,
    >)
        ensures
            (final(self)@, outcome(added)) == old(self)@.with_session(id@, agent@, environment@),
    {
        match self.session_row(id) {
            Some(_) => Err(ApiError::internal()),
            None => {
                self.save(
                    Change::Session(
                        SessionRow {
                            id: id.to_owned(),
                            agent: agent.duplicate(),
                            environment: environment.duplicate(),
                            thread_id: None,
                        },
                    ),
                );
                let session = Session {
                    id: id.to_owned(),
                    agent,
                    environment,
                    thread_id: None,
                    required_actions: Vec::new(),
                    unresolved_actions: Vec::new(),
                };
                assert(session@.required_actions =~= Seq::empty());
                assert(session@.unresolved_actions =~= Seq::empty());
                Ok(session)
            },
        }
    }

    /// Save a session that has not run yet, under a fresh ID. It keeps a copy
    /// of the agent's configuration.
    pub fn create_session(&mut self, agent: Agent, params: SessionCreateParams) -> (created: Result<
        Session,
        ApiError,
    >)
        ensures
            exists|id: Seq<char>|
                is_uuid4(id) && (final(self)@, outcome(created))
                    == #[trigger] old(self)@.with_session(id, agent@, params@.environment),
    {
        let id = fresh_id();
        self.add_session(id.as_str(), agent, params.environment)
    }
}

} // verus!
