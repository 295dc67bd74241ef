use codex_agents_api::actions::CallParams;
use codex_agents_api::backend;
use codex_agents_api::backend::PumpEvent;
use codex_agents_api::backend::PumpStep;
use codex_agents_api::backend::Reply;
use codex_agents_api::backend::Slot;
use codex_agents_api::json::Json;
use codex_agents_api::outside::read_document;
use codex_agents_api::outside::write_document;
use codex_agents_api::resources::Agent;
use codex_agents_api::resources::AgentConfig;
use codex_agents_api::resources::Environment;
use codex_agents_api::resources::FunctionTool;
use codex_agents_api::sessions;
use codex_agents_api::sessions::Create;
use codex_agents_api::sessions::UserInput;
use serde_json::Value;
use codex_agents_api::store::CallStatus;
use codex_agents_api::store::Change;
use codex_agents_api::store::Effect;
use codex_agents_api::store::RecordKind;
use codex_agents_api::store::Store;

fn parsed(text: &str) -> Value {
    serde_json::from_str(text).unwrap()
}

fn doc(text: &str) -> Json {
    read_document(text.as_bytes()).unwrap()
}

fn value(json: &Json) -> Value {
    parsed(&write_document(json))
}

/// A store with the session `s` in the thread `th`.
fn store() -> Store {
    let mut store = Store::open(Vec::new(), Vec::new(), Vec::new(), Vec::new(), Vec::new());
    let agent = Agent {
        id: "a".into(),
        config: AgentConfig {
            tools: vec![FunctionTool {
                name: "lookup".into(),
                description: "".into(),
                parameters: Json::Null,
            }],
            ..Default::default()
        },
        created_at: 1,
    };
    store.add_session("s", agent, Environment::Nowhere).ok().unwrap();
    let mut row = store.session_row("s").unwrap();
    row.thread_id = Some("th".into());
    store.save(Change::Session(row));
    store.outbox.clear();
    store
}

fn request(tool: &str) -> PumpEvent {
    PumpEvent::Request {
        request_id: doc("7"),
        call: Some(CallParams {
            thread_id: "th".into(),
            turn_id: "t".into(),
            call_id: "c".into(),
            namespace: None,
            tool: tool.into(),
            arguments: doc("{}"),
        }),
    }
}

#[test]
fn tokens_have_at_least_thirty_two_bytes() {
    assert!(!backend::valid_token(""));
    assert!(!backend::valid_token(&"x".repeat(31)));
    assert!(backend::valid_token(&"x".repeat(32)));
    assert!(backend::valid_token(&"é".repeat(16)));
}

#[test]
fn requests_carry_fresh_ids() {
    let one = value(&backend::request("turn/start", doc(r#"{"threadId":"th"}"#)));
    let two = value(&backend::request("turn/start", doc("null")));
    assert_eq!(one["method"], "turn/start");
    assert_eq!(one["params"], parsed(r#"{"threadId":"th"}"#));
    assert_eq!(one["id"].as_str().unwrap().len(), 36);
    assert_ne!(one["id"], two["id"]);
    assert_eq!(
        value(&backend::request_as("i", "m", Json::Null)),
        parsed(r#"{"id":"i","method":"m","params":null}"#)
    );
}

#[test]
fn failures_of_the_backend_are_told_apart() {
    let told = |reply: Reply| {
        let error = backend::rpc(reply).err().unwrap();
        (error.status, error.message)
    };
    let gone = (503, "app-server disconnected".to_string());
    assert_eq!(told(Reply::NotConnected), gone);
    assert_eq!(told(Reply::ConnectionFailed), gone);
    assert_eq!(told(Reply::Refused("no such thread".into())), (502, "no such thread".to_string()));
    assert_eq!(value(&backend::rpc(Reply::Answered(doc("[1]"))).ok().unwrap()), parsed("[1]"));
}

#[test]
fn a_connection_that_ended_spares_its_replacement() {
    let mut slot = Slot::new();
    assert!(!slot.connected());
    let first = slot.attach().unwrap();
    assert!(slot.connected());
    slot.retire();
    assert!(!slot.connected());
    let second = slot.attach().unwrap();
    assert_ne!(first, second);
    slot.release(first);
    assert!(slot.connected());
    slot.release(second);
    assert!(!slot.connected());
}

#[test]
fn the_end_of_a_connection_is_recorded_once_it_gets_no_requests() {
    let mut store = store();
    let mut slot = Slot::new();
    let ended = slot.attach().unwrap();
    let event = request("lookup");
    assert_eq!(backend::pump(&mut store, &event, 1), PumpStep::Continue);
    backend::end_connection(&mut store, &mut slot, ended, 2);
    assert!(!slot.connected());
    assert!(store.calls.iter().all(|call| call.status == CallStatus::Unavailable));
    assert!(matches!(store.outbox.last(), Some(Effect::Close(_))));
    let current = slot.attach().unwrap();
    assert_ne!(current, ended);
    backend::end_connection(&mut store, &mut slot, ended, 3);
    assert!(slot.connected());
}

#[test]
fn messages_are_passed_on_after_they_are_recorded() {
    let mut store = store();
    assert_eq!(backend::pump(&mut store, &request("lookup"), 1), PumpStep::Continue);
    assert_eq!(store.call("s", "t", "c").unwrap().status, CallStatus::Pending);
    store.outbox.clear();
    let over = r#"{"method":"turn/completed","params":{"threadId":"th","turn":{"id":"t","status":"completed"}}}"#;
    let step = backend::pump(&mut store, &PumpEvent::Notification(doc(over)), 1);
    assert_eq!(step, PumpStep::Continue);
    assert_eq!(store.call("s", "t", "c").unwrap().status, CallStatus::Cancelled);
    assert_eq!(store.outbox.len(), 2);
    assert!(matches!(&store.outbox[1], Effect::Notify(event) if value(event) == parsed(over)));
}

#[test]
fn requests_that_nobody_can_answer_are_rejected() {
    let mut store = store();
    assert_eq!(backend::pump(&mut store, &request("other"), 1), PumpStep::Reject);
    let foreign = PumpEvent::Request { request_id: doc("1"), call: None };
    assert_eq!(backend::pump(&mut store, &foreign, 1), PumpStep::Reject);
    assert_eq!(store.outbox.len(), 0);
    assert_eq!(backend::REJECTION_CODE, -32601);
    assert_eq!(backend::rejection_message(), "unsupported or invalid interactive request");
}

#[test]
fn lost_messages_give_the_connection_up() {
    let mut store = store();
    let step = backend::pump(&mut store, &PumpEvent::Lagged { skipped: 4 }, 1);
    assert_eq!(step, PumpStep::Exit { lost: true });
    assert!(matches!(
        &store.outbox[0],
        Effect::Notify(event)
            if value(event) == parsed(r#"{"method":"stream/lagged","params":{"skipped":4}}"#)
    ));
    assert_eq!(
        backend::pump(&mut store, &PumpEvent::Disconnected, 1),
        PumpStep::Exit { lost: true }
    );
    assert_eq!(
        backend::pump(&mut store, &PumpEvent::Stopping, 1),
        PumpStep::Exit { lost: false }
    );
    assert!(backend::ended_well(true, false));
    assert!(backend::ended_well(false, true));
    assert!(!backend::ended_well(false, false));
}

#[test]
fn a_message_that_cannot_be_recorded_ends_the_connection() {
    let mut store = Store::open(Vec::new(), Vec::new(), Vec::new(), Vec::new(), Vec::new());
    let params = Create {
        environment: Environment::Nowhere,
        agent_id: None,
        agent: Some(doc(r#"{"model":"m"}"#)),
        input: UserInput::Text("hi".into()),
        stream: false,
        metadata: Vec::new(),
        vault_ids: None,
    };
    assert!(sessions::create_as(&mut store, &params, &vec![], "s", "a", 1).is_ok());
    let mut row = store.session_row("s").unwrap();
    row.thread_id = Some("th".into());
    store.save(Change::Session(row));
    store.outbox.clear();
    let nameless = doc(r#"{"method":"turn/started","params":{"threadId":"th","turn":{}}}"#);
    let step = backend::take_message(&mut store, &nameless, "null", 1);
    assert_eq!(step, PumpStep::Exit { lost: false });
    assert_eq!(store.outbox.len(), 0);
    let named = doc(r#"{"method":"turn/started","params":{"threadId":"th","turn":{"id":"t"}}}"#);
    assert_eq!(backend::take_message(&mut store, &named, "null", 1), PumpStep::Continue);
    assert!(store.record("s", RecordKind::Turn, "t").is_some());
}

/// The rows after carrying out what was put up, on rows that were kept apart.
fn carry_out(kept: &mut Store, effects: Vec<Effect>) {
    for effect in effects {
        match effect {
            Effect::Save(change) => kept.save(change),
            Effect::Publish(event) => {
                let event = value(&event);
                if let Some(session) = event.get("session") {
                    assert!(kept.public_sessions.iter().any(|row| value(&row.data) == *session));
                }
                for (name, kind) in [("turn", RecordKind::Turn), ("item", RecordKind::Item)] {
                    if let Some(told) = event.get(name) {
                        assert!(kept
                            .records
                            .iter()
                            .any(|row| row.kind == kind && value(&row.data) == *told));
                    }
                }
            }
            Effect::Close(_) | Effect::Notify(_) => {}
        }
    }
}

#[test]
fn what_is_written_out_is_what_the_rows_hold() {
    let mut store = Store::open(Vec::new(), Vec::new(), Vec::new(), Vec::new(), Vec::new());
    let mut kept = Store::open(Vec::new(), Vec::new(), Vec::new(), Vec::new(), Vec::new());
    let params = Create {
        environment: Environment::Nowhere,
        agent_id: None,
        agent: Some(doc(
            r#"{"model":"m","tools":[{"type":"function","name":"lookup","description":"","parameters":{"type":"object"}}]}"#,
        )),
        input: UserInput::Text("hi".into()),
        stream: false,
        metadata: Vec::new(),
        vault_ids: None,
    };
    assert!(sessions::create_as(&mut store, &params, &vec![true], "s", "a", 1).is_ok());
    let mut row = store.session_row("s").unwrap();
    row.thread_id = Some("th".into());
    store.save(Change::Session(row));
    for message in [
        r#"{"method":"turn/started","params":{"threadId":"th","turn":{"id":"t","status":"inProgress"}}}"#,
        r#"{"method":"item/started","params":{"threadId":"th","turnId":"t","item":{"id":"m","type":"agentMessage","text":""}}}"#,
        r#"{"method":"item/completed","params":{"threadId":"th","turnId":"t","item":{"id":"m","type":"agentMessage","text":"x"}}}"#,
    ] {
        let step = backend::pump(&mut store, &PumpEvent::Notification(doc(message)), 2);
        assert_eq!(step, PumpStep::Continue);
    }
    assert_eq!(backend::pump(&mut store, &request("lookup"), 3), PumpStep::Continue);
    codex_agents_api::disconnect::disconnect_bookkeeping(&mut store, 4);
    let history = doc(r#"{"data":[{"id":"t","status":"completed"}]}"#);
    let reconciled =
        codex_agents_api::reconcile::reconcile_session(&mut store, "s", &history, 5);
    assert!(reconciled.is_ok());
    let effects = std::mem::take(&mut store.outbox);
    carry_out(&mut kept, effects);
    assert_eq!(kept.sessions.len(), store.sessions.len());
    assert_eq!(kept.sessions[0].thread_id, store.sessions[0].thread_id);
    assert_eq!(kept.calls.len(), 1);
    assert_eq!(kept.calls[0].status, CallStatus::Submitted);
    assert_eq!(kept.records.len(), store.records.len());
    for (one, other) in kept.records.iter().zip(store.records.iter()) {
        assert_eq!(value(&one.data), value(&other.data));
    }
    assert_eq!(value(&kept.public_sessions[0].data), value(&store.public_sessions[0].data));
}
