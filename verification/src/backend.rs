//! The connection to the backend: what is asked of it, what it tells, and when
//! it is given up.
use crate::actions::named_request;
use crate::actions::notification_naming;
use crate::actions::register;
use crate::actions::registered;
use crate::actions::withdrawn_by;
use crate::actions::CallParams;
use crate::actions::CallParamsView;
use crate::disconnect::disconnect_bookkeeping;
use crate::error::disconnected_error;
use crate::error::disconnected_failure;
use crate::error::failure;
use crate::error::ApiError;
use crate::error::ApiErrorView;
use crate::json::object;
use crate::json::Json;
use crate::json::JsonView;
use crate::model::option_view;
use crate::model::outcome;
use crate::outside::compact_text;
use crate::outside::fresh_id;
use crate::outside::is_uuid4;
use crate::records;
use crate::records::notified;
use crate::records::number;
use crate::store::Store;
use crate::store::StoreView;
use crate::text::byte_len;
use crate::text::utf8_len;
use vstd::prelude::*;

verus! {

/// The fewest bytes that the API token may have.
pub const MIN_TOKEN_BYTES: usize = 32;

/// Whether a token is long enough to protect the API.
pub fn valid_token(token: &str) -> (result: bool)
    ensures
        result == (utf8_len(token@) >= MIN_TOKEN_BYTES),
{
    byte_len(token) >= MIN_TOKEN_BYTES
}

/// A request to the backend.
pub open spec fn request_document(id: Seq<char>, method: Seq<char>, params: JsonView) -> JsonView {
    object().entry("id"@, JsonView::Text(id)).entry("method"@, JsonView::Text(method)).entry(
        "params"@,
        params,
    )
}

/// A request to the backend under the ID `id`.
pub fn request_as(id: &str, method: &str, params: Json) -> (request: Json)
    ensures
        request@ == request_document(id@, method@, params@),
{
    Json::object()
        .entry("id", Json::string(id))
        .entry("method", Json::string(method))
        .entry("params", params)
}

/// A request to the backend under a fresh ID.
pub fn request(method: &str, params: Json) -> (request: Json)
    ensures
        exists|id: Seq<char>|
            is_uuid4(id) && request@ == #[trigger] request_document(id, method@, params@),
{
    let id = fresh_id();
    request_as(id.as_str(), method, params)
}

/// What is asked of the backend.
pub struct Call {
    pub method: &'static str,
    pub params: Json,
}

/// What a [`Call`] stands for.
pub struct CallView {
    pub method: Seq<char>,
    pub params: JsonView,
}

impl View for Call {
    type V = CallView;

    open spec fn view(&self) -> CallView {
        CallView { method: self.method@, params: self.params@ }
    }
}

/// What comes of a request to the backend.
pub enum Reply {
    /// No backend is connected.
    NotConnected,
    /// The connection failed while the request was under way.
    ConnectionFailed,
    /// The backend refused the request.
    Refused(String),
    /// The backend answered.
    Answered(Json),
}

/// What a [`Reply`] stands for.
pub enum ReplyView {
    NotConnected,
    ConnectionFailed,
    Refused(Seq<char>),
    Answered(JsonView),
}

impl View for Reply {
    type V = ReplyView;

    open spec fn view(&self) -> ReplyView {
        match self {
            Reply::NotConnected => ReplyView::NotConnected,
            Reply::ConnectionFailed => ReplyView::ConnectionFailed,
            Reply::Refused(message) => ReplyView::Refused(message@),
            Reply::Answered(answer) => ReplyView::Answered(answer@),
        }
    }
}

/// What a client is told of a request to the backend. A connection that failed
/// is gone, so it is reported as one that is not there.
pub open spec fn reply_outcome(reply: ReplyView) -> Result<JsonView, ApiErrorView> {
    match reply {
        ReplyView::NotConnected => Err(disconnected_failure()),
        ReplyView::ConnectionFailed => Err(disconnected_failure()),
        ReplyView::Refused(message) => Err(failure(502, message)),
        ReplyView::Answered(answer) => Ok(answer),
    }
}

/// What a client is told of a request to the backend.
pub fn rpc(reply: Reply) -> (result: Result<Json, ApiError>)
    ensures
        outcome(result) == reply_outcome(reply@),
{
    match reply {
        Reply::NotConnected => Err(disconnected_error()),
        Reply::ConnectionFailed => Err(disconnected_error()),
        Reply::Refused(message) => Err(ApiError { status: 502, message }),
        Reply::Answered(answer) => Ok(answer),
    }
}

/// Which connection requests go to. Connections are numbered as they come; one
/// that is retired never gets a request again.
pub struct Slot {
    next: u64,
    current: Option<u64>,
}

/// What a [`Slot`] stands for.
pub struct SlotView {
    /// The number of the next connection.
    pub next: nat,
    /// The number of the connection that requests go to.
    pub current: Option<nat>,
}

impl View for Slot {
    type V = SlotView;

    closed spec fn view(&self) -> SlotView {
        SlotView {
            next: self.next as nat,
            current: match self.current {
                Some(number) => Some(number as nat),
                None => None,
            },
        }
    }
}

impl SlotView {
    /// The connection that requests go to is one that has come.
    pub open spec fn well_formed(self) -> bool {
        self.current is Some ==> self.current->0 < self.next
    }

    /// The slot after a connection has been attached.
    pub open spec fn attached(self) -> SlotView {
        SlotView { next: self.next + 1, current: Some(self.next) }
    }

    /// The slot after a connection has been released.
    pub open spec fn released(self, connection: nat) -> SlotView {
        if self.current == Some(connection) {
            SlotView { current: None, ..self }
        } else {
            self
        }
    }
}

impl Slot {
    /// A slot without a connection.
    pub fn new() -> (slot: Slot)
        ensures
            slot@ == (SlotView { next: 0, current: None }),
            slot@.well_formed(),
    {
        Slot { next: 0, current: None }
    }

    /// Whether a connection takes requests.
    pub fn connected(&self) -> (result: bool)
        ensures
            result == (self@.current is Some),
    {
        self.current.is_some()
    }

    /// Attach a connection, and give its number; none where the numbers are used
    /// up.
    pub fn attach(&mut self) -> (connection: Option<u64>)
        ensures
            match connection {
                Some(number) => number == old(self)@.next && final(self)@ == old(self)@.attached(),
                None => old(self)@.next == u64::MAX && final(self)@ == old(self)@,
            },
    {
        let connection: u64 = self.next;
        if connection == u64::MAX {
            return None;
        }
        self.next = connection + 1;
        self.current = Some(connection);
        Some(connection)
    }

    /// Take requests away from whatever connection has them, before it is
    /// replaced.
    pub fn retire(&mut self)
        ensures
            final(self)@ == (SlotView { current: None, ..old(self)@ }),
    {
        self.current = None;
    }

    /// Take requests away from a connection that has ended. Another connection
    /// that has come since keeps them.
    pub fn release(&mut self, connection: u64)
        ensures
            final(self)@ == old(self)@.released(connection as nat),
    {
        match self.current {
            Some(number) => {
                if number == connection {
                    self.current = None;
                }
            },
            None => {},
        }
    }
}

/// A connection that has ended takes nothing from the one that replaced it.
pub proof fn law_release_spares_replacement(slot: SlotView, connection: nat)
    requires
        slot.well_formed(),
        connection < slot.next,
    ensures
        slot.attached().released(connection) == slot.attached(),
        slot.attached().well_formed(),
        slot.released(connection).well_formed(),
        slot.released(connection).current != Some(connection),
{
}

/// What a connection's task is told.
pub enum PumpEvent {
    /// The backend tells of something.
    Notification(Json),
    /// The backend asks for something; a call of an application's function is
    /// all that may be asked for.
    Request { request_id: Json, call: Option<CallParams> },
    /// Messages of the backend were lost.
    Lagged { skipped: u64 },
    /// The connection is gone.
    Disconnected,
    /// The service stops, or the connection is replaced.
    Stopping,
}

/// What a [`PumpEvent`] stands for.
pub enum PumpEventView {
    Notification(JsonView),
    Request { request_id: JsonView, call: Option<CallParamsView> },
    Lagged { skipped: u64 },
    Disconnected,
    Stopping,
}

impl View for PumpEvent {
    type V = PumpEventView;

    open spec fn view(&self) -> PumpEventView {
        match self {
            PumpEvent::Notification(value) => PumpEventView::Notification(value@),
            PumpEvent::Request { request_id, call } => PumpEventView::Request {
                request_id: request_id@,
                call: option_view(*call),
            },
            PumpEvent::Lagged { skipped } => PumpEventView::Lagged { skipped: *skipped },
            PumpEvent::Disconnected => PumpEventView::Disconnected,
            PumpEvent::Stopping => PumpEventView::Stopping,
        }
    }
}

/// What a connection's task does next.
#[derive(Clone, Copy, Debug, PartialEq, Eq, Structural)]
pub enum PumpStep {
    /// It waits for the next event.
    Continue,
    /// It refuses the backend's request, and waits for the next event.
    Reject,
    /// It ends; `lost` tells whether the connection was lost.
    Exit { lost: bool },
}

/// The code of the error by which the backend's requests are refused.
pub const REJECTION_CODE: i64 = -32601;

/// The message of the error by which the backend's requests are refused.
pub fn rejection_message() -> (message: &'static str)
    ensures
        message@ == "unsupported or invalid interactive request"@,
{
    "unsupported or invalid interactive request"
}

/// The event that tells those who listen that messages of the backend were lost.
pub open spec fn backend_lag(skipped: u64) -> JsonView {
    object().entry("method"@, JsonView::Text("stream/lagged"@)).entry(
        "params"@,
        object().entry("skipped"@, number(skipped)),
    )
}

/// The store after the backend has told of something: calls that are over are
/// withdrawn and the public records kept before those who listen are told.
/// `request` is the JSON text of the request that the message names.
pub open spec fn message_taken(
    store: StoreView,
    value: JsonView,
    request: Seq<char>,
    now: u64,
) -> (StoreView, PumpStep) {
    let kept = notified(withdrawn_by(store, value, request), value, now);
    if kept.1 is Err {
        (kept.0, PumpStep::Exit { lost: false })
    } else {
        (kept.0.notified(value), PumpStep::Continue)
    }
}

/// The store after a connection's task has been told something, and what it
/// does next.
pub open spec fn pumped(store: StoreView, event: PumpEventView, now: u64) -> (
    StoreView,
    PumpStep,
) {
    match event {
        PumpEventView::Notification(value) => message_taken(
            store,
            value,
            compact_text(value.field("params"@).field("requestId"@)),
            now,
        ),
        PumpEventView::Request { request_id, call } => match call {
            None => (store, PumpStep::Reject),
            Some(call) => {
                let put = registered(
                    store,
                    compact_text(request_id),
                    call,
                    utf8_len(compact_text(call.arguments)),
                    now,
                );
                (
                    put.0,
                    if put.1 is Ok {
                        PumpStep::Continue
                    } else {
                        PumpStep::Reject
                    },
                )
            },
        },
        PumpEventView::Lagged { skipped } => (
            store.notified(backend_lag(skipped)),
            PumpStep::Exit { lost: true },
        ),
        PumpEventView::Disconnected => (store, PumpStep::Exit { lost: true }),
        PumpEventView::Stopping => (store, PumpStep::Exit { lost: false }),
    }
}

/// Take a message of the backend in; `request` is the JSON text of the request
/// that it names.
pub fn take_message(store: &mut Store, value: &Json, request: &str, now: u64) -> (step: PumpStep)
    ensures
        (final(store)@, step) == message_taken(old(store)@, value@, request@, now),
{
    notification_naming(store, value, request);
    match records::notification(store, value, now) {
        Err(_) => PumpStep::Exit { lost: false },
        Ok(_) => {
            store.notify(value.copy());
            PumpStep::Continue
        },
    }
}

/// Take in what a connection's task is told, and say what it does next.
pub fn pump(store: &mut Store, event: &PumpEvent, now: u64) -> (step: PumpStep)
    ensures
        (final(store)@, step) == pumped(old(store)@, event@, now),
{
    match event {
        PumpEvent::Notification(value) => {
            let request = named_request(value);
            take_message(store, value, request.as_str(), now)
        },
        PumpEvent::Request { request_id, call } => match call {
            None => PumpStep::Reject,
            Some(call) => match register(store, request_id, call, now) {
                Ok(_) => PumpStep::Continue,
                Err(_) => PumpStep::Reject,
            },
        },
        PumpEvent::Lagged { skipped } => {
            let params = Json::object().entry("skipped", Json::unsigned(*skipped));
            store.notify(
                Json::object().entry("method", Json::string("stream/lagged")).entry(
                    "params",
                    params,
                ),
            );
            PumpStep::Exit { lost: true }
        },
        PumpEvent::Disconnected => PumpStep::Exit { lost: true },
        PumpEvent::Stopping => PumpStep::Exit { lost: false },
    }
}

/// Record that a connection has ended: it gets no request any more, then what it
/// leaves unfinished is lost. Another connection that has come since keeps its
/// requests.
pub fn end_connection(store: &mut Store, slot: &mut Slot, connection: u64, now: u64)
    ensures
        final(slot)@ == old(slot)@.released(connection as nat),
        final(store)@ == old(store)@.connection_lost(now),
{
    slot.release(connection);
    disconnect_bookkeeping(store, now);
}

/// Whether a connection's task ended without a failure.
pub open spec fn well_ended(lost: bool, shut_down: bool) -> bool {
    lost || shut_down
}

/// Whether the end of a connection's task counts as a failure: a client that
/// cannot be shut down is a failure only where its connection was not lost.
pub fn ended_well(lost: bool, shut_down: bool) -> (result: bool)
    ensures
        result == well_ended(lost, shut_down),
{
    lost || shut_down
}

} // verus!
