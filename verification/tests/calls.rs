use codex_agents_api::actions;
use codex_agents_api::actions::CallParams;
use codex_agents_api::actions::Delivery;
use codex_agents_api::actions::Refusal;
use codex_agents_api::disconnect::disconnect_bookkeeping;
use codex_agents_api::json::Json;
use codex_agents_api::outside::read_document;
use codex_agents_api::outside::write_document;
use codex_agents_api::reconcile;
use codex_agents_api::records;
use codex_agents_api::resources::Agent;
use codex_agents_api::resources::AgentConfig;
use codex_agents_api::resources::Environment;
use codex_agents_api::resources::FunctionTool;
use codex_agents_api::resources::ToolResult;
use codex_agents_api::store::CallStatus;
use codex_agents_api::store::Change;
use codex_agents_api::store::Effect;
use codex_agents_api::store::RecordKind;
use codex_agents_api::store::Store;
use serde_json::Value;

fn parsed(text: &str) -> Value {
    serde_json::from_str(text).unwrap()
}

fn doc(text: &str) -> Json {
    read_document(text.as_bytes()).unwrap()
}

fn value(json: &Json) -> Value {
    parsed(&write_document(json))
}

/// A store with the session `s`, public or not, in the thread `th`.
fn store(public: bool) -> Store {
    let mut store = Store::open(Vec::new(), Vec::new(), Vec::new(), Vec::new(), Vec::new());
    let agent = Agent {
        id: "agent".into(),
        config: AgentConfig {
            model: "m".into(),
            tools: vec![FunctionTool {
                name: "lookup".into(),
                description: "".into(),
                parameters: doc(r#"{"type":"object"}"#),
            }],
            ..Default::default()
        },
        created_at: 1,
    };
    store.add_session("s", agent, Environment::Nowhere).ok().unwrap();
    let mut row = store.session_row("s").unwrap();
    row.thread_id = Some("th".into());
    store.save(Change::Session(row));
    if public {
        let data = doc(r#"{"id":"s","agent":{"id":"agent"},"status":"in_progress"}"#);
        records::save_session(&mut store, "s", &data);
        let turn = doc(
            r#"{"method":"turn/started","params":{"threadId":"th","turn":{"id":"t","status":"inProgress"}}}"#,
        );
        assert!(records::notification(&mut store, &turn, 1).is_ok());
    }
    store.outbox.clear();
    store
}

fn params(call: &str) -> CallParams {
    CallParams {
        thread_id: "th".into(),
        turn_id: "t".into(),
        call_id: call.into(),
        namespace: None,
        tool: "lookup".into(),
        arguments: doc(r#"{"orderId":"7"}"#),
    }
}

fn answer(call: &str, output: &str) -> ToolResult {
    ToolResult { call_id: call.into(), success: true, output: doc(output) }
}

fn status(store: &Store, call: &str) -> CallStatus {
    store.call("s", "t", call).unwrap().status
}

fn refused(delivery: Delivery) -> (u16, String) {
    match delivery {
        Delivery::Refused(error) => (error.status, error.message),
        Delivery::Known(_) => panic!("known"),
        Delivery::Forward { .. } => panic!("forwarded"),
    }
}

fn forwarded(delivery: Delivery) -> (String, Value) {
    match delivery {
        Delivery::Forward { request_id, response } => (request_id, value(&response)),
        Delivery::Refused(error) => panic!("{}", error.message),
        Delivery::Known(_) => panic!("known"),
    }
}

#[test]
fn a_call_is_saved_before_the_application_is_told() {
    let mut store = store(true);
    let request = doc(r#""req-1""#);
    assert_eq!(actions::register(&mut store, &request, &params("c"), 5), Ok(()));
    let call = store.call("s", "t", "c").unwrap();
    assert_eq!(call.request_id, "\"req-1\"");
    assert_eq!(call.status, CallStatus::Pending);
    assert_eq!(call.result, None);
    assert!(matches!(&store.outbox[0], Effect::Save(Change::Call(row)) if row.call_id == "c"));
    let event = match store.outbox.last() {
        Some(Effect::Notify(event)) => value(event),
        _ => panic!("no event"),
    };
    assert_eq!(
        event,
        parsed(
            r#"{"method":"session.requires_action","params":{"threadId":"th","sessionId":"s",
                "action":{"turnId":"t","callId":"c","name":"lookup","arguments":{"orderId":"7"}}}}"#
        )
    );
    let session = value(&records::session(&store, "s").ok().unwrap());
    assert_eq!(session["status"], "requires_action");
    assert_eq!(
        session["required_actions"],
        parsed(
            r#"[{"type":"function_call","turn_id":"t","call_id":"c","name":"lookup","arguments":{"orderId":"7"}}]"#
        )
    );
    let turn = value(&store.record("s", RecordKind::Turn, "t").unwrap().data);
    assert_eq!(turn["status"], "waiting");
}

#[test]
fn calls_that_may_not_be_made_are_refused() {
    let mut store = store(false);
    let request = doc("1");
    let mut elsewhere = params("c");
    elsewhere.thread_id = "unknown".into();
    assert_eq!(
        actions::register(&mut store, &request, &elsewhere, 1),
        Err(Refusal::UnknownThread)
    );
    let mut unknown = params("c");
    unknown.tool = "other".into();
    assert_eq!(
        actions::register(&mut store, &request, &unknown, 1),
        Err(Refusal::UnregisteredFunction)
    );
    let mut spaced = params("c");
    spaced.namespace = Some("ns".into());
    assert_eq!(
        actions::register(&mut store, &request, &spaced, 1),
        Err(Refusal::UnregisteredFunction)
    );
    let mut large = params("c");
    large.arguments = Json::Text("x".repeat(8191));
    assert_eq!(
        actions::register(&mut store, &request, &large, 1),
        Err(Refusal::TooManyOrOversized)
    );
    assert_eq!(store.outbox.len(), 0);
    large.arguments = Json::Text("x".repeat(8190));
    assert_eq!(actions::register(&mut store, &request, &large, 1), Ok(()));
    assert_eq!(
        actions::register(&mut store, &request, &params("c"), 1),
        Err(Refusal::AlreadyRegistered)
    );
}

#[test]
fn at_most_thirty_two_calls_wait() {
    let mut store = store(false);
    for n in 0..32 {
        let call = params(&format!("c{n}"));
        assert_eq!(actions::register_sized(&mut store, "1", &call, 10, 1), Ok(()));
    }
    assert_eq!(
        actions::register_sized(&mut store, "1", &params("more"), 10, 1),
        Err(Refusal::TooManyOrOversized)
    );
    assert_eq!(store.session("s").unwrap().required_actions.len(), 32);
    assert_eq!(
        actions::register_sized(&mut store, "1", &params("big"), 8193, 1),
        Err(Refusal::TooManyOrOversized)
    );
}

#[test]
fn an_answer_is_forwarded_and_retries_get_the_receipt() {
    let mut store = store(true);
    assert!(actions::register(&mut store, &doc("42"), &params("c"), 5).is_ok());
    store.outbox.clear();
    let result = answer("c", r#"{"status":"shipped"}"#);
    let (request_id, response) =
        forwarded(actions::begin_delivery(&mut store, "s", "t", &result));
    assert_eq!(request_id, "42");
    assert_eq!(
        response,
        parsed(
            r#"{"success":true,"contentItems":[{"type":"inputText","text":"{\"status\":\"shipped\"}"}]}"#
        )
    );
    let call = store.call("s", "t", "c").unwrap();
    assert_eq!(call.status, CallStatus::Submitting);
    assert_eq!(
        call.result.as_deref(),
        Some(r#"{"callId":"c","success":true,"output":{"status":"shipped"}}"#)
    );
    assert_eq!(
        refused(actions::begin_delivery(&mut store, "s", "t", &result)),
        (409, "tool call is submitting; result cannot be submitted".to_string())
    );
    store.outbox.clear();
    let receipt =
        actions::finish_delivery(&mut store, "s", "t", "c", true, 6).ok().unwrap();
    let expected = parsed(r#"{"turnId":"t","callId":"c","status":"submitted"}"#);
    assert_eq!(value(&receipt), expected);
    assert_eq!(status(&store, "c"), CallStatus::Submitted);
    let turn = value(&store.record("s", RecordKind::Turn, "t").unwrap().data);
    assert_eq!(turn["status"], "in_progress");
    let last = match store.outbox.last() {
        Some(Effect::Publish(event)) => value(event),
        _ => panic!("no event"),
    };
    assert_eq!(last["type"], "agent.session.turn.in_progress");
    assert_eq!(last["turn"], turn);
    let session = value(&records::session(&store, "s").ok().unwrap());
    assert_eq!(session["status"], "in_progress");
    let before = store.outbox.len();
    match actions::begin_delivery(&mut store, "s", "t", &result) {
        Delivery::Known(again) => assert_eq!(value(&again), expected),
        _ => panic!("no receipt"),
    }
    assert_eq!(
        refused(actions::begin_delivery(&mut store, "s", "t", &answer("c", r#""other""#))),
        (409, "tool call is submitted; result cannot be submitted".to_string())
    );
    assert_eq!(store.outbox.len(), before);
}

#[test]
fn a_text_is_given_to_the_model_as_it_is() {
    let mut store = store(false);
    assert!(actions::register(&mut store, &doc("1"), &params("c"), 1).is_ok());
    let result =
        ToolResult { call_id: "c".into(), success: false, output: Json::Text("oh \"no\"".into()) };
    let (_, response) = forwarded(actions::begin_delivery(&mut store, "s", "t", &result));
    assert_eq!(response["success"], false);
    assert_eq!(response["contentItems"][0]["text"], "oh \"no\"");
    assert_eq!(
        store.call("s", "t", "c").unwrap().result.as_deref(),
        Some("{\"callId\":\"c\",\"success\":false,\"output\":\"oh \\\"no\\\"\"}")
    );
}

#[test]
fn a_session_that_is_not_public_gets_no_public_events() {
    let mut store = store(false);
    assert!(actions::register(&mut store, &doc("1"), &params("c"), 1).is_ok());
    let _ = actions::begin_delivery(&mut store, "s", "t", &answer("c", "1"));
    store.outbox.clear();
    assert!(actions::finish_delivery(&mut store, "s", "t", "c", true, 6).is_ok());
    assert_eq!(store.outbox.len(), 1);
}

#[test]
fn a_turn_waits_until_the_last_call_is_answered() {
    let mut store = store(true);
    assert!(actions::register(&mut store, &doc("1"), &params("a"), 1).is_ok());
    assert!(actions::register(&mut store, &doc("2"), &params("b"), 1).is_ok());
    let _ = actions::begin_delivery(&mut store, "s", "t", &answer("a", "1"));
    assert!(actions::finish_delivery(&mut store, "s", "t", "a", true, 6).is_ok());
    let turn = value(&store.record("s", RecordKind::Turn, "t").unwrap().data);
    assert_eq!(turn["status"], "waiting");
    let _ = actions::begin_delivery(&mut store, "s", "t", &answer("b", "1"));
    assert!(actions::finish_delivery(&mut store, "s", "t", "b", true, 6).is_ok());
    let turn = value(&store.record("s", RecordKind::Turn, "t").unwrap().data);
    assert_eq!(turn["status"], "in_progress");
}

#[test]
fn an_unknown_call_is_not_found() {
    let mut store = store(false);
    assert!(actions::register(&mut store, &doc("1"), &params("c"), 1).is_ok());
    let not_found = (404, "tool call not found".to_string());
    for (session, turn, call) in [("x", "t", "c"), ("s", "x", "c"), ("s", "t", "x")] {
        assert_eq!(
            refused(actions::begin_delivery(&mut store, session, turn, &answer(call, "1"))),
            not_found
        );
    }
}

#[test]
fn an_answer_that_may_be_lost_is_not_sent_again() {
    let mut store = store(false);
    assert!(actions::register(&mut store, &doc("1"), &params("c"), 1).is_ok());
    let _ = actions::begin_delivery(&mut store, "s", "t", &answer("c", "1"));
    let error = actions::finish_delivery(&mut store, "s", "t", "c", false, 6).err().unwrap();
    assert_eq!(
        (error.status, error.message.as_str()),
        (503, "tool result delivery unknown")
    );
    assert_eq!(status(&store, "c"), CallStatus::Unavailable);
    assert_eq!(
        refused(actions::begin_delivery(&mut store, "s", "t", &answer("c", "1"))),
        (409, "tool call is unavailable; result cannot be submitted".to_string())
    );
    assert_eq!(actions::unknown_delivery().status, 503);
}

#[test]
fn a_stale_call_conflicts_after_the_connection_is_lost() {
    let mut store = store(true);
    assert!(actions::register(&mut store, &doc("1"), &params("c"), 1).is_ok());
    disconnect_bookkeeping(&mut store, 2);
    let session = store.session("s").unwrap();
    assert_eq!(session.required_actions.len(), 0);
    assert_eq!(session.unresolved_actions.len(), 1);
    assert_eq!(session.unresolved_actions[0].call_id, "c");
    assert_eq!(
        refused(actions::begin_delivery(&mut store, "s", "t", &answer("c", "1"))),
        (409, "tool call is unavailable; result cannot be submitted".to_string())
    );
}

#[test]
fn a_large_answer_or_none_to_take_it_is_refused() {
    let fits = ToolResult { call_id: "c".into(), success: true, output: Json::Text("é".repeat(511)) };
    assert!(actions::submit(&fits, true).is_ok());
    let error = actions::submit(&fits, false).err().unwrap();
    assert_eq!((error.status, error.message.as_str()), (503, "app-server disconnected"));
    let large = ToolResult { call_id: "c".into(), success: true, output: Json::Text("é".repeat(512)) };
    let error = actions::submit(&large, false).err().unwrap();
    assert_eq!(
        (error.status, error.message.as_str()),
        (400, "tool output must be at most 1024 bytes")
    );
    assert!(actions::submit_sized(1024, true).is_ok());
    assert!(actions::submit_sized(1025, true).is_err());
}

#[test]
fn a_request_that_the_backend_resolved_is_withdrawn() {
    let mut store = store(false);
    assert!(actions::register(&mut store, &doc(r#""one""#), &params("a"), 1).is_ok());
    assert!(actions::register(&mut store, &doc(r#""two""#), &params("b"), 1).is_ok());
    store.outbox.clear();
    let elsewhere = doc(
        r#"{"method":"serverRequest/resolved","params":{"threadId":"x","requestId":"one"}}"#,
    );
    actions::notification(&mut store, &elsewhere);
    assert_eq!(store.outbox.len(), 0);
    let resolved = doc(
        r#"{"method":"serverRequest/resolved","params":{"threadId":"th","requestId":"one"}}"#,
    );
    actions::notification(&mut store, &resolved);
    assert_eq!(status(&store, "a"), CallStatus::Cancelled);
    assert_eq!(status(&store, "b"), CallStatus::Pending);
    assert_eq!(store.outbox.len(), 1);
    assert_eq!(
        refused(actions::begin_delivery(&mut store, "s", "t", &answer("a", "1"))),
        (409, "tool call is cancelled; result cannot be submitted".to_string())
    );
}

#[test]
fn a_turn_that_is_over_withdraws_its_calls() {
    let mut store = store(false);
    assert!(actions::register(&mut store, &doc("1"), &params("a"), 1).is_ok());
    let mut later = params("b");
    later.turn_id = "t2".into();
    assert!(actions::register(&mut store, &doc("2"), &later, 1).is_ok());
    let over = doc(r#"{"method":"turn/completed","params":{"threadId":"th","turn":{"id":"t"}}}"#);
    actions::notification(&mut store, &over);
    assert_eq!(status(&store, "a"), CallStatus::Cancelled);
    assert_eq!(store.call("s", "t2", "b").unwrap().status, CallStatus::Pending);
    actions::notification_naming(
        &mut store,
        &doc(r#"{"method":"serverRequest/resolved","params":{"threadId":"th"}}"#),
        "2",
    );
    assert_eq!(store.call("s", "t2", "b").unwrap().status, CallStatus::Cancelled);
}

#[test]
fn a_completed_turn_settles_the_call_of_a_lost_connection() {
    let mut store = store(true);
    assert!(actions::register(&mut store, &doc("1"), &params("c"), 1).is_ok());
    assert_eq!(store.session("s").unwrap().required_actions[0].call_id, "c");
    let _ = forwarded(actions::begin_delivery(&mut store, "s", "t", &answer("c", "1")));
    disconnect_bookkeeping(&mut store, 2);
    assert_eq!(store.session("s").unwrap().unresolved_actions[0].call_id, "c");
    let history = doc(r#"{"data":[{"id":"t","status":"completed"}]}"#);
    assert!(reconcile::reconcile_session(&mut store, "s", &history, 3).is_ok());
    assert_eq!(status(&store, "c"), CallStatus::Submitted);
    let session = store.session("s").unwrap();
    assert_eq!(session.required_actions.len(), 0);
    assert_eq!(session.unresolved_actions.len(), 0);
    let turn = value(&store.record("s", RecordKind::Turn, "t").unwrap().data);
    assert_eq!((&turn["status"], &turn["error"]), (&parsed("\"completed\""), &Value::Null));
    assert_eq!(value(&records::session(&store, "s").ok().unwrap())["status"], "idle");
    match actions::begin_delivery(&mut store, "s", "t", &answer("c", "1")) {
        Delivery::Known(receipt) => assert_eq!(
            value(&receipt),
            parsed(r#"{"turnId":"t","callId":"c","status":"submitted"}"#)
        ),
        _ => panic!("no receipt"),
    }
    assert_eq!(
        refused(actions::begin_delivery(&mut store, "s", "t", &answer("c", "2"))),
        (409, "tool call is submitted; result cannot be submitted".to_string())
    );
}
