use codex_agents_api::json::Json;
use codex_agents_api::model::Duplicate;
use codex_agents_api::resources::AgentConfig;
use codex_agents_api::resources::Environment;
use codex_agents_api::resources::RequiredAction;
use codex_agents_api::resources::SessionCreateParams;
use codex_agents_api::store::CallStatus;
use codex_agents_api::store::Change;
use codex_agents_api::store::Effect;
use codex_agents_api::store::Store;
use codex_agents_api::store::ToolCall;

fn empty() -> Store {
    Store::open(Vec::new(), Vec::new(), Vec::new(), Vec::new(), Vec::new())
}

fn config(model: &str, instructions: &str) -> AgentConfig {
    AgentConfig {
        model: model.into(),
        instructions: instructions.into(),
        ..Default::default()
    }
}

fn nowhere(agent_id: &str) -> SessionCreateParams {
    SessionCreateParams { agent_id: agent_id.into(), environment: Environment::Nowhere }
}

fn call(session: &str, turn: &str, id: &str, status: CallStatus) -> ToolCall {
    ToolCall {
        session_id: session.into(),
        turn_id: turn.into(),
        call_id: id.into(),
        request_id: "1".into(),
        action: RequiredAction {
            turn_id: turn.into(),
            call_id: id.into(),
            name: "lookup".into(),
            arguments: Json::Null,
        },
        status,
        result: None,
    }
}

fn is_uuid(id: &str) -> bool {
    let bytes = id.as_bytes();
    id.len() == 36
        && bytes[14] == b'4'
        && [8, 13, 18, 23].iter().all(|at| bytes[*at] == b'-')
        && id.chars().all(|c| c == '-' || c.is_ascii_digit() || ('a'..='f').contains(&c))
}

#[test]
fn empty_sessions_survive_restart_with_independent_configuration() {
    let mut store = empty();
    let agent = store.create_agent(config("model-a", "original")).ok().unwrap();
    let first = store.create_session(agent.duplicate(), nowhere(&agent.id)).ok().unwrap();
    let second = store.create_session(agent.duplicate(), nowhere(&agent.id)).ok().unwrap();
    assert_ne!(first.id, second.id);
    let mut updated = agent.duplicate();
    updated.config.instructions = "changed".into();
    store.save(Change::Agent(updated.duplicate()));
    let reopened = Store::open(
        store.agents,
        store.sessions,
        store.calls,
        store.public_sessions,
        store.records,
    );
    assert_eq!(reopened.agent(&agent.id), Some(updated));
    assert_eq!(first.agent, agent);
    assert_eq!(first.agent.config, config("model-a", "original"));
    assert_eq!(reopened.session(&first.id), Some(first));
    assert_eq!(reopened.session(&second.id), Some(second));
    assert_eq!(reopened.session("missing"), None);
    assert_eq!(reopened.agent("missing"), None);
}

#[test]
fn fresh_ids_are_random_uuids() {
    let mut store = empty();
    let one = store.create_agent(config("m", "")).ok().unwrap();
    let two = store.create_agent(config("m", "")).ok().unwrap();
    assert!(is_uuid(&one.id), "{}", one.id);
    assert!(is_uuid(&two.id), "{}", two.id);
    assert_ne!(one.id, two.id);
    assert!(one.created_at > 1_600_000_000);
}

#[test]
fn an_id_is_taken_once() {
    let mut store = empty();
    let agent = store.create_agent(config("m", "")).ok().unwrap();
    let outbox = store.outbox.len();
    let error = store.add_agent(agent).err().unwrap();
    assert_eq!(error.status, 500);
    assert_eq!(error.message, "internal API error");
    assert_eq!(store.outbox.len(), outbox);
    assert_eq!(store.agents.len(), 1);
    let agent = store.create_agent(config("m", "")).ok().unwrap();
    let again = store.agent(&agent.id).unwrap();
    assert!(store.add_session("s", agent, Environment::Nowhere).is_ok());
    let refused = store.add_session("s", again, Environment::Nowhere).err().unwrap();
    assert_eq!(refused.status, 500);
    assert_eq!(store.sessions.len(), 1);
}

#[test]
fn saving_replaces_the_row_of_the_same_key_and_is_put_up_for_writing() {
    let mut store = empty();
    store.save(Change::Call(call("s", "t", "b", CallStatus::Pending)));
    store.save(Change::Call(call("s", "t", "a", CallStatus::Pending)));
    store.save(Change::Call(call("s", "t", "b", CallStatus::Submitted)));
    assert_eq!(store.calls.len(), 2);
    assert_eq!(store.calls[0].call_id, "b");
    assert_eq!(store.calls[0].status, CallStatus::Submitted);
    assert_eq!(store.outbox.len(), 3);
    assert!(matches!(
        &store.outbox[2],
        Effect::Save(Change::Call(row)) if row.status == CallStatus::Submitted
    ));
    assert!(store.call("s", "t", "b").is_some());
    assert!(store.call("s", "t", "c").is_none());
    assert!(store.call("x", "t", "b").is_none());
}

#[test]
fn a_session_shows_its_open_calls_in_order() {
    let mut store = empty();
    let agent = store.create_agent(config("m", "")).ok().unwrap();
    let session = store.add_session("s", agent, Environment::Nowhere).ok().unwrap();
    assert_eq!(session.id, "s");
    for (turn, id, status) in [
        ("t2", "a", CallStatus::Pending),
        ("t1", "b", CallStatus::Pending),
        ("t1", "a", CallStatus::Unavailable),
        ("t1", "aa", CallStatus::Submitting),
        ("t1", "c", CallStatus::Submitted),
        ("t1", "d", CallStatus::Cancelled),
        ("t1", "é", CallStatus::Pending),
        ("t1", "z", CallStatus::Pending),
    ] {
        store.save(Change::Call(call("s", turn, id, status)));
    }
    store.save(Change::Call(call("other", "t0", "a", CallStatus::Pending)));
    let read = store.session("s").unwrap();
    let required: Vec<(String, String)> = read
        .required_actions
        .iter()
        .map(|a| (a.turn_id.clone(), a.call_id.clone()))
        .collect();
    let pair = |a: &str, b: &str| (a.to_string(), b.to_string());
    assert_eq!(
        required,
        vec![pair("t1", "b"), pair("t1", "z"), pair("t1", "é"), pair("t2", "a")]
    );
    let unresolved: Vec<String> =
        read.unresolved_actions.iter().map(|a| a.call_id.clone()).collect();
    assert_eq!(unresolved, vec!["a".to_string(), "aa".to_string()]);
}

#[test]
fn opening_records_what_was_left_unfinished() {
    let mut store = empty();
    store.save(Change::Call(call("s", "t", "a", CallStatus::Pending)));
    store.save(Change::Call(call("s", "t", "b", CallStatus::Submitting)));
    store.save(Change::Call(call("s", "t", "c", CallStatus::Submitted)));
    store.save(Change::Call(call("s", "t", "d", CallStatus::Cancelled)));
    let reopened = Store::open(
        store.agents,
        store.sessions,
        store.calls,
        store.public_sessions,
        store.records,
    );
    let statuses: Vec<CallStatus> = reopened.calls.iter().map(|c| c.status).collect();
    assert_eq!(
        statuses,
        vec![
            CallStatus::Unavailable,
            CallStatus::Unavailable,
            CallStatus::Submitted,
            CallStatus::Cancelled
        ]
    );
    assert_eq!(reopened.outbox.len(), 2);
    let again = Store::open(
        reopened.agents,
        reopened.sessions,
        reopened.calls,
        reopened.public_sessions,
        reopened.records,
    );
    assert_eq!(again.outbox.len(), 0);
}
