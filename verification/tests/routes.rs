use codex_agents_api::json::Json;
use codex_agents_api::outside::read_document;
use codex_agents_api::outside::write_document;
use codex_agents_api::resources::AgentConfig;
use codex_agents_api::resources::Environment;
use codex_agents_api::resources::FunctionTool;
use codex_agents_api::resources::InputParams;
use codex_agents_api::resources::McpSelection;
use codex_agents_api::resources::PageParams;
use codex_agents_api::resources::Reasoning;
use codex_agents_api::resources::SessionCreateParams;
use codex_agents_api::routes;
use codex_agents_api::routes::Inquiry;
use codex_agents_api::routes::InputStage;
use codex_agents_api::routes::Progress;
use codex_agents_api::sessions::StreamStep;
use codex_agents_api::store::Change;
use codex_agents_api::store::Effect;
use codex_agents_api::store::Store;
use serde_json::Value;

const TOKEN: &str = "test-token-for-agents-api-12345678";

fn parsed(text: &str) -> Value {
    serde_json::from_str(text).unwrap()
}

fn doc(text: &str) -> Json {
    read_document(text.as_bytes()).unwrap()
}

fn value(json: &Json) -> Value {
    parsed(&write_document(json))
}

fn empty() -> Store {
    Store::open(Vec::new(), Vec::new(), Vec::new(), Vec::new(), Vec::new())
}

fn config() -> AgentConfig {
    AgentConfig { model: "m".into(), instructions: "i".into(), ..Default::default() }
}

/// A store with the session `id` of a saved agent.
fn with_session(config: AgentConfig, environment: Environment) -> (Store, String) {
    let mut store = empty();
    let schemas = vec![true; config.tools.len()];
    let agent = routes::create_agent(&mut store, config, &schemas).ok().unwrap();
    let params = SessionCreateParams { agent_id: agent.id, environment };
    let session = routes::create_session(&mut store, params).ok().unwrap();
    (store, session.id)
}

fn bind(store: &mut Store, id: &str, thread: &str) {
    let mut row = store.session_row(id).unwrap();
    row.thread_id = Some(thread.into());
    store.save(Change::Session(row));
}

fn ask(progress: Progress) -> (InputStage, String, Value) {
    match progress {
        Progress::Ask { stage, call } => (stage, call.method.to_string(), value(&call.params)),
        Progress::Done(_) => panic!("done"),
    }
}

#[test]
fn requests_need_the_token() {
    let bearer = format!("Bearer {TOKEN}");
    assert!(routes::authorize("/v1/agents", None, Some(&bearer), TOKEN).is_none());
    for wrong in [None, Some("Bearer "), Some(TOKEN), Some("bearer x")] {
        let refusal = routes::authorize("/v1/agents", None, wrong, TOKEN).unwrap();
        assert_eq!(refusal.status, 401);
        assert_eq!(value(&refusal.body), parsed(r#"{"error":"bearer token required"}"#));
    }
    let longer = format!("Bearer {TOKEN}x");
    assert!(routes::authorize("/v1/agents", None, Some(&longer), TOKEN).is_some());
}

#[test]
fn compatible_requests_are_refused_in_their_form() {
    let public = parsed(
        r#"{"error":{"message":"bearer token required","type":"invalid_request_error","param":null,"code":null}}"#,
    );
    for (path, beta) in [
        ("/v1/agents/sessions", None),
        ("/v1/agents/sessions/x/items", None),
        ("/v1/agents", Some("agents=v1")),
    ] {
        assert!(routes::compatible(path, beta));
        let refusal = routes::authorize(path, beta, None, TOKEN).unwrap();
        assert_eq!(refusal.status, 401);
        assert_eq!(value(&refusal.body), public);
    }
    assert!(!routes::compatible("/v1/agents", None));
    assert!(!routes::compatible("/v1/agents", Some("agents=v2")));
    assert!(!routes::compatible("/v1/sessions", None));
}

#[test]
fn errors_take_the_compatible_form() {
    let shaped = |status: u16, body: &str| {
        routes::reshape(true, status, body.as_bytes()).map(|r| (r.status, value(&r.body)))
    };
    assert_eq!(
        shaped(404, r#"{"error":"session not found"}"#),
        Some((
            404,
            parsed(
                r#"{"error":{"message":"session not found","type":"invalid_request_error","param":null,"code":null}}"#
            )
        ))
    );
    let (status, body) = shaped(422, "Failed to deserialize").unwrap();
    assert_eq!(status, 400);
    assert_eq!(body["error"]["message"], "Failed to deserialize");
    let (status, body) = shaped(503, r#"{"error":{"nested":1}}"#).unwrap();
    assert_eq!(status, 503);
    assert_eq!(body["error"]["type"], "server_error");
    assert_eq!(body["error"]["message"], r#"{"error":{"nested":1}}"#);
    assert_eq!(shaped(200, "{}"), None);
    assert_eq!(shaped(302, "{}"), None);
    assert!(routes::reshape(false, 500, b"{}").is_none());
    let invalid = routes::reshape(true, 500, &[0x61, 0xff, 0x62]).unwrap();
    assert_eq!(value(&invalid.body)["error"]["message"], "a\u{fffd}b");
    let given = routes::reshape_as(true, 400, Some(&doc(r#"{"error":"e"}"#)), "t").unwrap();
    assert_eq!(value(&given.body)["error"]["message"], "e");
    let none = routes::reshape_as(true, 400, None, "t").unwrap();
    assert_eq!(value(&none.body)["error"]["message"], "t");
}

#[test]
fn agents_are_saved_and_read() {
    let mut store = empty();
    let agent = routes::create_agent(&mut store, config(), &vec![]).ok().unwrap();
    let read = routes::read_agent(&store, &agent.id).ok().unwrap();
    assert_eq!(read.id, agent.id);
    assert_eq!(read.config.model, "m");
    let error = routes::read_agent(&store, "missing").err().unwrap();
    assert_eq!((error.status, error.message.as_str()), (404, "agent not found"));
    let shown = value(&routes::public_agent(&agent));
    assert_eq!(shown["object"], "agent");
    assert_eq!(shown["metadata"], parsed("{}"));
    assert_eq!(shown["created_at"], shown["updated_at"]);
    assert_eq!(shown["id"], agent.id.as_str());
}

#[test]
fn agents_that_may_not_be_saved_are_refused() {
    let mut store = empty();
    let blank = AgentConfig { model: "\t".into(), ..config() };
    let error = routes::create_agent(&mut store, blank, &vec![]).err().unwrap();
    assert_eq!(error.status, 400);
    assert_eq!(
        error.message,
        "model must be 1-256 bytes; instructions must be at most 1024 bytes"
    );
    let tool = FunctionTool {
        name: "f".into(),
        description: "".into(),
        parameters: doc(r#"{"type":"object"}"#),
    };
    let unsupported = AgentConfig { tools: vec![tool], ..config() };
    let error = routes::create_agent(&mut store, unsupported, &vec![false]).err().unwrap();
    assert_eq!(error.message, "invalid or oversized agent capabilities");
    assert_eq!(store.outbox.len(), 0);
    assert!(routes::create_agent_as(&mut store, config(), &vec![], &vec![], "a", 5).is_ok());
    assert_eq!(store.agent("a").unwrap().created_at, 5);
    let ultra = AgentConfig {
        reasoning: Some(Reasoning { effort: "ultra".into() }),
        mcp_servers: vec![McpSelection { server: "w".into(), allowed_tools: vec![] }],
        ..config()
    };
    assert!(routes::create_agent(&mut store, ultra, &vec![]).is_ok());
}

#[test]
fn sessions_are_of_saved_agents() {
    let mut store = empty();
    let params = SessionCreateParams {
        agent_id: "missing".into(),
        environment: Environment::Nowhere,
    };
    let error = routes::create_session(&mut store, params).err().unwrap();
    assert_eq!((error.status, error.message.as_str()), (404, "agent not found"));
    assert!(routes::create_agent_as(&mut store, config(), &vec![], &vec![], "a", 5).is_ok());
    let params = SessionCreateParams {
        agent_id: "a".into(),
        environment: Environment::Local { cwd: "/w".into() },
    };
    let session = routes::create_session_as(&mut store, params, "s").ok().unwrap();
    assert_eq!(session.id, "s");
    let read = routes::read_session(&store, "s").ok().unwrap();
    assert!(matches!(&read.environment, Environment::Local { cwd } if cwd == "/w"));
    let error = routes::read_session(&store, "x").err().unwrap();
    assert_eq!((error.status, error.message.as_str()), (404, "session not found"));
}

#[test]
fn the_first_input_starts_names_and_binds_a_thread() {
    let tools = vec![FunctionTool {
        name: "lookup".into(),
        description: "d".into(),
        parameters: doc(r#"{"type":"object"}"#),
    }];
    let (mut store, id) = with_session(
        AgentConfig { tools, ..config() },
        Environment::Local { cwd: "/w".into() },
    );
    store.outbox.clear();
    let first = routes::input(&store, &id, &InputParams { input: "hi".into() }).ok().unwrap();
    let (stage, method, params) = ask(first);
    assert_eq!(method, "config/read");
    assert_eq!(params, parsed(r#"{"cwd":"/w"}"#));
    let effective = doc(r#"{"config":{"mcp_servers":{"w":{"url":"x"}}}}"#);
    let next = routes::advance_input(&mut store, stage, effective).ok().unwrap();
    let (stage, method, params) = ask(next);
    assert_eq!(method, "thread/start");
    assert_eq!(params["model"], "m");
    assert_eq!(params["developerInstructions"], "i");
    assert_eq!(params["environments"], parsed(r#"[{"environmentId":"local","cwd":"/w"}]"#));
    assert_eq!(params["config"]["mcp_servers"], parsed(r#"{"w":{"enabled":false}}"#));
    assert_eq!(
        params["dynamicTools"],
        parsed(
            r#"[{"type":"function","name":"lookup","description":"d","inputSchema":{"type":"object"}}]"#
        )
    );
    assert_eq!(params["approvalPolicy"], "never");
    assert_eq!(params["sandbox"], "read-only");
    assert_eq!(params["ephemeral"], false);
    let reply = doc(r#"{"thread":{"id":"th"}}"#);
    let next = routes::advance_input(&mut store, stage, reply).ok().unwrap();
    assert_eq!(store.session(&id).unwrap().thread_id, None);
    let (stage, method, params) = ask(next);
    assert_eq!(method, "thread/name/set");
    assert_eq!(params["threadId"], "th");
    assert_eq!(params["name"], format!("API session {id}"));
    assert_eq!(store.outbox.len(), 0);
    let next = routes::advance_input(&mut store, stage, doc("{}")).ok().unwrap();
    assert_eq!(store.session(&id).unwrap().thread_id.as_deref(), Some("th"));
    assert!(matches!(&store.outbox[0], Effect::Save(Change::Session(row)) if row.thread_id.as_deref() == Some("th")));
    let (stage, method, params) = ask(next);
    assert_eq!(method, "turn/start");
    assert_eq!(params, parsed(r#"{"threadId":"th","input":[{"type":"text","text":"hi"}]}"#));
    match routes::advance_input(&mut store, stage, doc(r#"{"turn":{"id":"t"}}"#)) {
        Ok(Progress::Done(reply)) => assert_eq!(value(&reply), parsed(r#"{"turn":{"id":"t"}}"#)),
        _ => panic!("not done"),
    }
}

#[test]
fn a_later_input_resumes_the_thread() {
    let (mut store, id) = with_session(config(), Environment::Nowhere);
    bind(&mut store, &id, "th");
    let first = routes::input(&store, &id, &InputParams { input: "hi".into() }).ok().unwrap();
    let (stage, _, params) = ask(first);
    assert_eq!(params, parsed(r#"{"cwd":null}"#));
    let (stage, method, params) =
        ask(routes::advance_input(&mut store, stage, doc("{}")).ok().unwrap());
    assert_eq!(method, "thread/resume");
    assert_eq!(params["threadId"], "th");
    assert_eq!(params["excludeTurns"], true);
    assert_eq!(params["model"], "m");
    let (_, method, _) = ask(routes::advance_input(&mut store, stage, doc("{}")).ok().unwrap());
    assert_eq!(method, "turn/start");
}

#[test]
fn inputs_that_cannot_go_on_are_refused() {
    let selecting = AgentConfig {
        mcp_servers: vec![McpSelection { server: "w".into(), allowed_tools: vec![] }],
        ..config()
    };
    let (mut store, id) = with_session(selecting, Environment::Nowhere);
    let error = routes::input(&store, &id, &InputParams { input: " ".into() }).err().unwrap();
    assert_eq!((error.status, error.message.as_str()), (400, "input must be 1-8192 bytes"));
    let error = routes::input(&store, "x", &InputParams { input: "a".into() }).err().unwrap();
    assert_eq!(error.status, 404);
    let first = routes::input(&store, &id, &InputParams { input: "hi".into() }).ok().unwrap();
    let (stage, _, _) = ask(first);
    let error = routes::advance_input(&mut store, stage, doc("{}")).err().unwrap();
    assert_eq!(error.message, "unknown MCP server: w");
    let starting = InputStage::Starting { session_id: id, text: "hi".into() };
    let error = routes::advance_input(&mut store, starting, doc(r#"{"thread":{}}"#)).err().unwrap();
    assert_eq!(error.status, 500);
}

#[test]
fn turns_are_asked_of_the_backend() {
    let (mut store, id) = with_session(config(), Environment::Nowhere);
    let page = |limit: Option<u32>| PageParams { cursor: Some("c".into()), limit };
    match routes::turns(&store, &id, &page(None)) {
        Ok(Inquiry::Known(answer)) => assert_eq!(
            value(&answer),
            parsed(r#"{"data":[],"nextCursor":null,"backwardsCursor":null}"#)
        ),
        _ => panic!("asked"),
    }
    bind(&mut store, &id, "th");
    for (limit, shown) in [(None, 20), (Some(0), 1), (Some(7), 7), (Some(500), 100)] {
        match routes::turns(&store, &id, &page(limit)) {
            Ok(Inquiry::Ask(call)) => {
                assert_eq!(call.method, "thread/turns/list");
                let params = value(&call.params);
                assert_eq!(params["limit"], shown);
                assert_eq!(params["cursor"], "c");
                assert_eq!(params["threadId"], "th");
                assert_eq!(params["itemsView"], "summary");
            }
            _ => panic!("known"),
        }
    }
    assert_eq!(routes::turns(&store, "x", &page(None)).err().unwrap().status, 404);
}

#[test]
fn a_turn_is_interrupted_in_its_thread() {
    let (mut store, id) = with_session(config(), Environment::Nowhere);
    let error = routes::cancel(&store, &id, "t").err().unwrap();
    assert_eq!((error.status, error.message.as_str()), (409, "session has no turn"));
    bind(&mut store, &id, "th");
    let call = routes::cancel(&store, &id, "t").ok().unwrap();
    assert_eq!(call.method, "turn/interrupt");
    assert_eq!(value(&call.params), parsed(r#"{"threadId":"th","turnId":"t"}"#));
    assert_eq!(routes::cancel(&store, "x", "t").err().unwrap().status, 404);
}

#[test]
fn events_reach_those_who_listen_to_their_session() {
    let (mut store, id) = with_session(config(), Environment::Nowhere);
    bind(&mut store, &id, "th");
    let name = |event: &str, id: &str| match routes::events(&store, id, &doc(event)) {
        StreamStep::Send { name, data } => {
            assert_eq!(parsed(&data), parsed(event));
            Some(name)
        }
        _ => None,
    };
    let own = r#"{"method":"turn/started","params":{"threadId":"th"}}"#;
    assert_eq!(name(own, &id), Some("turn/started".to_string()));
    assert_eq!(name(own, "x"), None);
    assert_eq!(name(r#"{"method":"turn/started","params":{"threadId":"no"}}"#, &id), None);
    assert_eq!(
        name(r#"{"method":"stream/disconnected"}"#, &id),
        Some("stream/disconnected".to_string())
    );
    assert_eq!(name(r#"{"method":"account/updated"}"#, &id), None);
    assert_eq!(name(r#"{"params":{"threadId":"th"}}"#, &id), Some("event".to_string()));
    assert!(routes::listen(&store, &id, true).is_ok());
    assert_eq!(routes::listen(&store, &id, false).err().unwrap().status, 503);
    assert_eq!(routes::listen(&store, "x", true).err().unwrap().status, 404);
    assert_eq!(
        value(&routes::lagged("channel lagged by 3")),
        parsed(r#"{"method":"stream/lagged","error":"channel lagged by 3"}"#)
    );
}
