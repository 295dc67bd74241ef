use codex_agents_api::contract::ConfigError;
use codex_agents_api::error::ApiError;
use codex_agents_api::json::Json;
use codex_agents_api::outside::read_document;
use codex_agents_api::outside::write_document;
use codex_agents_api::records;
use codex_agents_api::resources::AgentConfig;
use codex_agents_api::resources::Environment;
use codex_agents_api::sessions;
use codex_agents_api::sessions::Create;
use codex_agents_api::sessions::Entry;
use codex_agents_api::sessions::InputEvent;
use codex_agents_api::sessions::InputStep;
use codex_agents_api::sessions::Message;
use codex_agents_api::sessions::StreamStep;
use codex_agents_api::sessions::UserInput;
use codex_agents_api::store::Change;
use codex_agents_api::store::Effect;
use codex_agents_api::store::Store;
use serde_json::Value;

fn parsed(text: &str) -> Value {
    serde_json::from_str(text).unwrap()
}

fn doc(text: &str) -> Json {
    read_document(text.as_bytes()).unwrap()
}

fn value(json: &Json) -> Value {
    parsed(&write_document(json))
}

fn empty() -> Store {
    Store::open(Vec::new(), Vec::new(), Vec::new(), Vec::new(), Vec::new())
}

fn create() -> Create {
    Create {
        environment: Environment::Nowhere,
        agent_id: None,
        agent: Some(doc(r#"{"model":"mock-model"}"#)),
        input: UserInput::Text("hello".into()),
        stream: false,
        metadata: vec![Entry { key: "k".into(), value: "v".into() }],
        vault_ids: None,
    }
}

fn message(role: &str, parts: &[&str], kind: Option<&str>) -> UserInput {
    UserInput::Messages(vec![Message {
        role: role.into(),
        content: parts.iter().map(|p| p.to_string()).collect(),
        kind: kind.map(str::to_string),
    }])
}

fn problem(result: Result<String, ConfigError>) -> (u16, String) {
    match result {
        Err(ConfigError::Invalid(error)) => (error.status, error.message),
        Err(_) => panic!("malformed"),
        Ok(_) => panic!("created"),
    }
}

#[test]
fn a_text_or_one_message_of_the_user_is_taken() {
    let said = |input: UserInput| sessions::text(&input).ok().unwrap();
    assert_eq!(said(UserInput::Text(" hi ".into())), " hi ");
    assert_eq!(said(message("user", &["a", "b", "c"], None)), "abc");
    assert_eq!(said(message("user", &["a"], Some("message"))), "a");
    assert_eq!(said(UserInput::Text("é".repeat(4096))).len(), 8192);
}

#[test]
fn any_other_input_is_refused() {
    let refused = |input: UserInput| {
        let error = sessions::text(&input).err().unwrap();
        assert_eq!(error.status, 400);
        error.message
    };
    let size = "input must be 1-8192 bytes";
    assert_eq!(refused(UserInput::Text(" \n".into())), size);
    assert_eq!(refused(UserInput::Text("x".repeat(8193))), size);
    assert_eq!(refused(message("user", &[], None)), size);
    assert_eq!(refused(message("assistant", &["a"], None)), "input must be a user message");
    assert_eq!(refused(message("user", &["a"], Some("item"))), "input must be a user message");
    assert_eq!(
        refused(UserInput::Messages(Vec::new())),
        "exactly one user message is currently supported"
    );
    assert_eq!(refused(UserInput::Malformed("bad".into())), "bad");
    assert!(sessions::check_input("x").is_ok());
    assert_eq!(sessions::check_input("").err().unwrap().message, size);
}

#[test]
fn a_session_is_saved_before_it_is_announced() {
    let mut store = empty();
    let text = sessions::create_as(&mut store, &create(), &vec![], "s", "a", 40).ok().unwrap();
    assert_eq!(text, "hello");
    let session = store.session("s").unwrap();
    assert_eq!(session.agent.id, "a");
    assert_eq!(session.agent.config.model, "mock-model");
    assert_eq!(session.agent.created_at, 40);
    let public = value(&sessions::read(&store, "s").ok().unwrap());
    assert_eq!(
        public,
        parsed(
            r#"{"id":"s","object":"agent.session","created_at":40,"last_active_at":40,"environment":{"type":"none"},
                "agent":{"id":"a","model":"mock-model","instructions":"","name":null,
                    "multi_agent":{"enabled":false,"max_concurrent_subagents":0},
                    "reasoning":{"effort":null,"summary":null},"service_tier":"auto",
                    "text":{"format":{"type":"text"},"verbosity":"medium"},"tools":[]},
                "metadata":{"k":"v"},"vault_ids":[],"required_actions":[],"status":"in_progress","error":null,"usage":null}"#
        )
    );
    assert_eq!(store.outbox.len(), 3);
    assert!(matches!(&store.outbox[0], Effect::Save(Change::Session(_))));
    assert!(matches!(&store.outbox[1], Effect::Save(Change::PublicSession(_))));
    match &store.outbox[2] {
        Effect::Publish(event) => {
            let event = value(event);
            assert_eq!(event["type"], "agent.session.created");
            assert_eq!(event["session"], public);
        }
        _ => panic!("no event"),
    }
}

#[test]
fn a_saved_agent_is_a_starting_point() {
    let mut store = empty();
    let saved = store
        .create_agent(AgentConfig {
            model: "saved".into(),
            instructions: "be kind".into(),
            ..Default::default()
        })
        .ok()
        .unwrap();
    let params = Create {
        agent_id: Some(saved.id.clone()),
        agent: Some(doc(r#"{"instructions":null}"#)),
        ..create()
    };
    let plan = sessions::plan(&store, &params).ok().unwrap();
    assert_eq!(plan.model, "saved");
    assert_eq!(plan.instructions, "");
    let created = sessions::create(&mut store, &params, &vec![], 1).ok().unwrap();
    assert_eq!(created.input, "hello");
    assert_eq!(created.id.len(), 36);
    let session = store.session(&created.id).unwrap();
    assert_eq!(session.agent.id, saved.id);
    assert_eq!(session.agent.config.instructions, "");
    assert_eq!(store.agent(&saved.id).unwrap().config.instructions, "be kind");
    let none = Create { agent_id: Some(saved.id), agent: None, ..create() };
    let created = sessions::create(&mut store, &none, &vec![], 1).ok().unwrap();
    let session = store.session(&created.id).unwrap();
    assert_eq!(session.agent.config.instructions, "be kind");
}

#[test]
fn a_session_that_may_not_be_created_changes_nothing() {
    let mut store = empty();
    let mut attempt = |params: Create| {
        let result = problem(sessions::create_as(&mut store, &params, &vec![], "s", "a", 1));
        assert_eq!(store.outbox.len(), 0);
        assert_eq!(store.sessions.len(), 0);
        result
    };
    let bad = |text: &str| (400, text.to_string());
    assert_eq!(
        attempt(Create { environment: Environment::Local { cwd: "/w".into() }, ..create() }),
        bad("only environment none is implemented on this API path")
    );
    assert_eq!(
        attempt(Create { vault_ids: Some(vec!["v".into()]), ..create() }),
        bad("vaults are not implemented")
    );
    assert_eq!(
        attempt(Create { input: UserInput::Text("".into()), ..create() }),
        bad("input must be 1-8192 bytes")
    );
    let limits = bad("metadata exceeds documented limits");
    let entries = |n: usize, key: usize, value: usize| -> Vec<Entry> {
        (0..n)
            .map(|_| Entry { key: "é".repeat(key), value: "é".repeat(value) })
            .collect()
    };
    assert_eq!(attempt(Create { metadata: entries(17, 1, 1), ..create() }), limits);
    assert_eq!(attempt(Create { metadata: entries(1, 65, 1), ..create() }), limits);
    assert_eq!(attempt(Create { metadata: entries(1, 1, 513), ..create() }), limits);
    assert_eq!(
        attempt(Create { agent_id: Some("missing".into()), ..create() }),
        (404, "agent not found".to_string())
    );
    assert_eq!(
        attempt(Create { agent: None, ..create() }),
        bad("model must be 1-256 bytes; instructions must be at most 1024 bytes")
    );
    let fits = Create {
        metadata: entries(16, 64, 512),
        vault_ids: Some(Vec::new()),
        ..create()
    };
    assert!(sessions::create_as(&mut store, &fits, &vec![], "s", "a", 1).is_ok());
    assert_eq!(
        problem(sessions::create_as(&mut store, &create(), &vec![], "s", "a", 1)),
        (500, "internal API error".to_string())
    );
}

#[test]
fn a_first_input_that_is_refused_fails_the_session() {
    let mut store = empty();
    assert!(sessions::create_as(&mut store, &create(), &vec![], "s", "a", 1).is_ok());
    let error = sessions::fail_creation(&mut store, "s", ApiError::new(503, "gone"), 9);
    assert_eq!((error.status, error.message.as_str()), (503, "gone"));
    let public = value(&sessions::read(&store, "s").ok().unwrap());
    assert_eq!(public["status"], "failed");
    assert_eq!(public["error"], "gone");
    let error = sessions::fail_creation(&mut store, "x", ApiError::new(503, "gone"), 9);
    assert_eq!(error.status, 404);
}

fn result(success: bool, output: Option<&str>, error: Option<&str>) -> InputEvent {
    InputEvent::ToolResult {
        call_id: "c".into(),
        turn_id: "t".into(),
        success,
        output: output.map(str::to_string),
        error: error.map(str::to_string),
    }
}

#[test]
fn one_thing_at_a_time_is_sent_to_a_session() {
    let mut store = empty();
    assert!(sessions::create_as(&mut store, &create(), &vec![], "s", "a", 1).is_ok());
    let say = || InputEvent::Message { input: UserInput::Text("more".into()) };
    match sessions::input(&store, "s", false, &vec![say()]) {
        Ok(InputStep::Say(text)) => assert_eq!(text, "more"),
        _ => panic!("not said"),
    }
    let refused = |keyed: bool, id: &str, events: Vec<InputEvent>| {
        let error = sessions::input(&store, id, keyed, &events).err().unwrap();
        (error.status, error.message)
    };
    assert_eq!(
        refused(true, "s", vec![say()]),
        (400, "event idempotency keys are not implemented".to_string())
    );
    let one = (400, "exactly one input event is currently supported".to_string());
    assert_eq!(refused(false, "s", vec![]), one);
    assert_eq!(refused(false, "s", vec![say(), say()]), one);
    assert_eq!(refused(false, "x", vec![say()]), (404, "session not found".to_string()));
    assert_eq!(
        refused(false, "s", vec![result(true, None, Some("e"))]),
        (400, "a successful tool result cannot contain an error".to_string())
    );
    assert_eq!(
        refused(false, "s", vec![result(false, Some("o"), Some("e"))]),
        (400, "combined function output and error are not implemented".to_string())
    );
    let blank = InputEvent::Message { input: UserInput::Text(" ".into()) };
    assert_eq!(refused(false, "s", vec![blank]).1, "input must be 1-8192 bytes");
}

#[test]
fn an_answer_is_a_text() {
    let mut store = empty();
    assert!(sessions::create_as(&mut store, &create(), &vec![], "s", "a", 1).is_ok());
    for (event, success, text) in [
        (result(true, Some("o"), None), true, "o"),
        (result(false, None, Some("e")), false, "e"),
        (result(true, None, None), true, ""),
    ] {
        match sessions::input(&store, "s", false, &vec![event]) {
            Ok(InputStep::Answer { turn_id, result }) => {
                assert_eq!(turn_id, "t");
                assert_eq!(result.call_id, "c");
                assert_eq!(result.success, success);
                assert_eq!(value(&result.output), text);
            }
            _ => panic!("no answer"),
        }
    }
}

#[test]
fn a_wish_to_stop_interrupts_the_active_turn() {
    let mut store = empty();
    assert!(sessions::create_as(&mut store, &create(), &vec![], "s", "a", 1).is_ok());
    assert!(matches!(
        sessions::input(&store, "s", false, &vec![InputEvent::Cancel]),
        Ok(InputStep::Nothing)
    ));
    let mut row = store.session_row("s").unwrap();
    row.thread_id = Some("th".into());
    store.save(Change::Session(row));
    let turn = doc(r#"{"method":"turn/started","params":{"threadId":"th","turn":{"id":"t7"}}}"#);
    assert!(records::notification(&mut store, &turn, 1).is_ok());
    match sessions::input(&store, "s", false, &vec![InputEvent::Cancel]) {
        Ok(InputStep::Interrupt(turn)) => assert_eq!(turn, "t7"),
        _ => panic!("not interrupted"),
    }
}

#[test]
fn a_session_is_listened_to_while_a_backend_is_connected() {
    let mut store = empty();
    assert!(sessions::create_as(&mut store, &create(), &vec![], "s", "a", 1).is_ok());
    assert!(sessions::stream(&store, "s", true).is_ok());
    assert_eq!(sessions::stream(&store, "s", false).err().unwrap().status, 503);
    assert_eq!(sessions::stream(&store, "x", true).err().unwrap().status, 404);
}

#[test]
fn a_stream_sends_what_tells_of_its_session() {
    let sent = |event: &str, id: &str| match sessions::sse(Some(&doc(event)), id) {
        StreamStep::Send { name, data } => Some((name, parsed(&data))),
        StreamStep::Skip => None,
        StreamStep::End => panic!("ended"),
    };
    let turn = r#"{"type":"agent.session.turn.created","session_id":"s"}"#;
    assert_eq!(
        sent(turn, "s"),
        Some(("agent.session.turn.created".to_string(), parsed(turn)))
    );
    assert_eq!(sent(turn, "x"), None);
    let session = r#"{"type":"agent.session.idle","session":{"id":"s"}}"#;
    assert!(sent(session, "s").is_some());
    assert_eq!(sent(session, "x"), None);
    assert_eq!(sent(r#"{"session_id":"s"}"#, "s").unwrap().0, "");
    assert!(matches!(
        sessions::sse(Some(&doc(r#"{"type":"disconnect"}"#)), "s"),
        StreamStep::End
    ));
    assert!(matches!(sessions::sse(None, "s"), StreamStep::End));
}
