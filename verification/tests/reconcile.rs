use codex_agents_api::json::Json;
use codex_agents_api::outside::read_document;
use codex_agents_api::outside::write_document;
use codex_agents_api::reconcile;
use codex_agents_api::records;
use codex_agents_api::resources::Agent;
use codex_agents_api::resources::AgentConfig;
use codex_agents_api::resources::Environment;
use codex_agents_api::resources::RequiredAction;
use codex_agents_api::store::CallStatus;
use codex_agents_api::store::Change;
use codex_agents_api::store::RecordKind;
use codex_agents_api::store::Store;
use codex_agents_api::store::ToolCall;
use serde_json::Value;

fn parsed(text: &str) -> Value {
    serde_json::from_str(text).unwrap()
}

fn doc(text: &str) -> Json {
    read_document(text.as_bytes()).unwrap()
}

fn value(json: &Json) -> Value {
    parsed(&write_document(json))
}

fn session(store: &mut Store, id: &str, thread: Option<&str>) {
    let agent = Agent { id: "a".into(), config: AgentConfig::default(), created_at: 1 };
    store.add_session(id, agent, Environment::Nowhere).ok().unwrap();
    let mut row = store.session_row(id).unwrap();
    row.thread_id = thread.map(str::to_string);
    store.save(Change::Session(row));
    let data = doc(&format!("{{\"id\":\"{id}\",\"status\":\"failed\",\"error\":\"backend connection lost\"}}"));
    records::save_session(store, id, &data);
}

fn turn(store: &mut Store, session: &str, id: &str, code: &str) {
    let data = doc(&format!(
        "{{\"id\":\"{id}\",\"status\":\"failed\",\"completed_at\":5,\"error\":{{\"code\":\"{code}\",\"message\":\"m\"}}}}"
    ));
    assert!(records::save(store, session, RecordKind::Turn, &data, id).is_ok());
}

fn call(store: &mut Store, session: &str, turn: &str, id: &str, status: CallStatus) {
    store.save(Change::Call(ToolCall {
        session_id: session.into(),
        turn_id: turn.into(),
        call_id: id.into(),
        request_id: "1".into(),
        action: RequiredAction {
            turn_id: turn.into(),
            call_id: id.into(),
            name: "f".into(),
            arguments: Json::Null,
        },
        status,
        result: Some("kept".into()),
    }));
}

fn empty() -> Store {
    Store::open(Vec::new(), Vec::new(), Vec::new(), Vec::new(), Vec::new())
}

fn read(store: &Store, session: &str, turn: &str) -> Value {
    value(&store.record(session, RecordKind::Turn, turn).unwrap().data)
}

#[test]
fn sessions_with_something_open_are_listed_once_in_order() {
    let mut store = empty();
    turn(&mut store, "s2", "t1", "connection_failed");
    turn(&mut store, "s2", "t2", "connection_failed");
    turn(&mut store, "s3", "t1", "internal_error");
    call(&mut store, "s1", "t", "a", CallStatus::Unavailable);
    call(&mut store, "s2", "t", "a", CallStatus::Submitting);
    call(&mut store, "s4", "t", "a", CallStatus::Pending);
    call(&mut store, "s5", "t", "a", CallStatus::Submitted);
    assert_eq!(reconcile::run(&store), vec!["s1".to_string(), "s2".to_string()]);
    assert_eq!(reconcile::run(&empty()), Vec::<String>::new());
}

#[test]
fn the_history_of_the_thread_is_asked_for() {
    let mut store = empty();
    session(&mut store, "s", Some("th"));
    session(&mut store, "new", None);
    let call = reconcile::history_request(&store, "s").unwrap();
    assert_eq!(call.method, "thread/turns/list");
    assert_eq!(
        value(&call.params),
        parsed(r#"{"threadId":"th","limit":100,"itemsView":"summary"}"#)
    );
    assert!(reconcile::history_request(&store, "new").is_none());
    assert!(reconcile::history_request(&store, "missing").is_none());
}

#[test]
fn a_completed_turn_lost_to_a_disconnect_is_recovered() {
    let mut store = empty();
    session(&mut store, "s", Some("th"));
    turn(&mut store, "s", "done", "connection_failed");
    turn(&mut store, "s", "stopped", "connection_failed");
    turn(&mut store, "s", "broken", "connection_failed");
    turn(&mut store, "s", "open", "connection_failed");
    turn(&mut store, "s", "gone", "connection_failed");
    turn(&mut store, "s", "model", "internal_error");
    turn(&mut store, "other", "done", "connection_failed");
    let response = doc(
        r#"{"data":[
            {"id":"done","status":"inProgress"},
            {"id":"done","status":"completed","completed_at":77},
            {"id":"stopped","status":"interrupted"},
            {"id":"broken","status":"failed","error":{"message":"why"}},
            {"id":"open","status":"inProgress"},
            {"id":"model","status":"completed"},
            {"status":"completed"}]}"#,
    );
    assert!(reconcile::reconcile_session(&mut store, "s", &response, 9).is_ok());
    let done = read(&store, "s", "done");
    assert_eq!(done["status"], "completed");
    assert_eq!(done["error"], Value::Null);
    assert_eq!(done["completed_at"], 77);
    let stopped = read(&store, "s", "stopped");
    assert_eq!(stopped["status"], "cancelled");
    assert_eq!(stopped["error"], Value::Null);
    assert_eq!(stopped["completed_at"], 5);
    let broken = read(&store, "s", "broken");
    assert_eq!(broken["status"], "failed");
    assert_eq!(broken["error"], parsed(r#"{"code":"internal_error","message":"why"}"#));
    for kept in ["open", "gone"] {
        assert_eq!(read(&store, "s", kept)["error"]["code"], "connection_failed");
    }
    assert_eq!(read(&store, "s", "model")["status"], "failed");
    assert_eq!(read(&store, "other", "done")["status"], "failed");
    let session = value(&records::session(&store, "s").ok().unwrap());
    assert_eq!(session["status"], "idle");
    assert_eq!(session["error"], Value::Null);
    let effects = store.outbox.len();
    assert!(reconcile::reconcile_session(&mut store, "s", &response, 10).is_ok());
    assert_eq!(store.outbox.len(), effects);
}

#[test]
fn a_submitted_result_lost_to_a_disconnect_is_recovered() {
    let mut store = empty();
    session(&mut store, "s", Some("th"));
    call(&mut store, "s", "done", "a", CallStatus::Unavailable);
    call(&mut store, "s", "done", "b", CallStatus::Submitting);
    call(&mut store, "s", "done", "c", CallStatus::Cancelled);
    call(&mut store, "s", "stopped", "d", CallStatus::Unavailable);
    call(&mut store, "s", "gone", "e", CallStatus::Unavailable);
    call(&mut store, "other", "done", "f", CallStatus::Unavailable);
    let response = doc(
        r#"{"data":[{"id":"done","status":"completed"},{"id":"stopped","status":"interrupted"}]}"#,
    );
    assert!(reconcile::reconcile_session(&mut store, "s", &response, 9).is_ok());
    let statuses: Vec<CallStatus> = store.calls.iter().map(|c| c.status).collect();
    assert_eq!(
        statuses,
        vec![
            CallStatus::Submitted,
            CallStatus::Submitted,
            CallStatus::Cancelled,
            CallStatus::Unavailable,
            CallStatus::Unavailable,
            CallStatus::Unavailable
        ]
    );
    assert_eq!(store.calls[0].result.as_deref(), Some("kept"));
    let session = value(&records::session(&store, "s").ok().unwrap());
    assert_eq!(session["status"], "failed");
}

#[test]
fn a_history_without_turns_changes_nothing() {
    let mut store = empty();
    session(&mut store, "s", Some("th"));
    turn(&mut store, "s", "t", "connection_failed");
    let effects = store.outbox.len();
    for response in ["{}", r#"{"data":null}"#, r#"{"data":[]}"#, "[]"] {
        assert!(reconcile::reconcile_session(&mut store, "s", &doc(response), 9).is_ok());
        assert_eq!(store.outbox.len(), effects);
    }
}

#[test]
fn a_recovered_turn_of_no_public_session_is_reported() {
    let mut store = empty();
    turn(&mut store, "s", "t", "connection_failed");
    let response = doc(r#"{"data":[{"id":"t","status":"completed"}]}"#);
    let error = reconcile::reconcile_session(&mut store, "s", &response, 9).err().unwrap();
    assert_eq!(error.status, 404);
    assert_eq!(read(&store, "s", "t")["status"], "completed");
}
