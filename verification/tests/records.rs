use codex_agents_api::disconnect::disconnect_bookkeeping;
use codex_agents_api::disconnect::disconnected;
use codex_agents_api::json::Json;
use codex_agents_api::outside::read_document;
use codex_agents_api::outside::write_document;
use codex_agents_api::pages;
use codex_agents_api::pages::Page;
use codex_agents_api::records;
use codex_agents_api::resources::Agent;
use codex_agents_api::resources::AgentConfig;
use codex_agents_api::resources::Environment;
use codex_agents_api::store::Change;
use codex_agents_api::store::Effect;
use codex_agents_api::store::RecordKind;
use codex_agents_api::store::Store;
use serde_json::Value;

fn parsed(text: &str) -> Value {
    serde_json::from_str(text).unwrap()
}

fn doc(text: &str) -> Json {
    read_document(text.as_bytes()).unwrap()
}

fn value(json: &Json) -> Value {
    parsed(&write_document(json))
}

/// A store with the public session `s` in the thread `th`.
fn store() -> Store {
    let mut store = Store::open(Vec::new(), Vec::new(), Vec::new(), Vec::new(), Vec::new());
    for (id, thread) in [("s", "th"), ("other", "th2")] {
        let agent = Agent {
            id: format!("agent-{id}"),
            config: AgentConfig { model: "m".into(), ..Default::default() },
            created_at: 1,
        };
        store.add_session(id, agent, Environment::Nowhere).ok().unwrap();
        let mut row = store.session_row(id).unwrap();
        row.thread_id = Some(thread.into());
        store.save(Change::Session(row));
        let data = doc(&format!(
            "{{\"id\":\"{id}\",\"object\":\"agent.session\",\"agent\":{{\"id\":\"agent-{id}\"}},\"required_actions\":[],\"status\":\"in_progress\",\"error\":null}}"
        ));
        records::save_session(&mut store, id, &data);
    }
    store.outbox.clear();
    store
}

fn published(store: &Store) -> Vec<Value> {
    store
        .outbox
        .iter()
        .filter_map(|effect| match effect {
            Effect::Publish(event) => Some(value(event)),
            _ => None,
        })
        .collect()
}

fn kinds(store: &Store) -> Vec<String> {
    published(store)
        .iter()
        .map(|event| event["type"].as_str().unwrap().to_string())
        .collect()
}

fn page() -> Page {
    Page { after: None, limit: None, order: None, turn_id: None }
}

fn started(turn: &str) -> Json {
    doc(&format!(
        "{{\"method\":\"turn/started\",\"params\":{{\"threadId\":\"th\",\"turn\":{{\"id\":\"{turn}\",\"status\":\"inProgress\",\"startedAt\":11}}}}}}"
    ))
}

fn item(method: &str, turn: &str, item: &str) -> Json {
    doc(&format!(
        "{{\"method\":\"{method}\",\"params\":{{\"threadId\":\"th\",\"turnId\":\"{turn}\",\"item\":{item}}}}}"
    ))
}

#[test]
fn a_started_turn_is_saved_and_announced() {
    let mut store = store();
    assert!(records::notification(&mut store, &started("t1"), 50).is_ok());
    let expected = parsed(
        r#"{"id":"t1","object":"agent.session.turn","session_id":"s","agent_id":"agent-s","created_at":11,
            "started_at":11,"completed_at":null,"status":"in_progress","usage":null,"subagent_id":null,"error":null}"#,
    );
    let row = store.record("s", RecordKind::Turn, "t1").unwrap();
    assert_eq!(value(&row.data), expected);
    assert_eq!(row.turn_id, "t1");
    assert_eq!(
        kinds(&store),
        vec![
            "agent.session.in_progress",
            "agent.session.turn.created",
            "agent.session.turn.in_progress"
        ]
    );
    let events = published(&store);
    assert_eq!(events[0]["session"]["status"], "in_progress");
    assert_eq!(events[0]["session"]["last_active_at"], 50);
    assert_eq!(events[1]["turn"], expected);
    assert_eq!(events[2]["session_id"], "s");
    assert_eq!(events[2]["turn_id"], "t1");
    assert_eq!(records::active_turn(&store, "s"), Some("t1".to_string()));
    assert_eq!(records::active_turn(&store, "other"), None);
    assert!(matches!(&store.outbox[0], Effect::Save(Change::Record(_))));
    assert!(matches!(&store.outbox[1], Effect::Save(Change::PublicSession(_))));
}

#[test]
fn a_turn_without_a_start_was_created_now() {
    let mut store = store();
    let raw = doc(r#"{"method":"turn/started","params":{"threadId":"th","turn":{"id":"t1"}}}"#);
    assert!(records::notification(&mut store, &raw, 77).is_ok());
    let row = store.record("s", RecordKind::Turn, "t1").unwrap();
    assert_eq!(value(&row.data)["created_at"], 77);
    assert_eq!(value(&row.data)["started_at"], Value::Null);
}

#[test]
fn a_completed_turn_leaves_the_session_idle() {
    for (status, shown) in [
        ("completed", "completed"),
        ("interrupted", "cancelled"),
        ("failed", "failed"),
    ] {
        let mut store = store();
        assert!(records::notification(&mut store, &started("t1"), 50).is_ok());
        store.outbox.clear();
        let raw = doc(&format!(
            "{{\"method\":\"turn/completed\",\"params\":{{\"threadId\":\"th\",\"turn\":{{\"id\":\"t1\",\"status\":\"{status}\",\"startedAt\":11,\"completedAt\":12,\"error\":{{\"message\":\"boom\"}}}}}}}}"
        ));
        assert!(records::notification(&mut store, &raw, 51).is_ok());
        let turn = value(&store.record("s", RecordKind::Turn, "t1").unwrap().data);
        assert_eq!(turn["status"], shown);
        assert_eq!(turn["completed_at"], 12);
        if status == "failed" {
            assert_eq!(turn["error"], parsed(r#"{"code":"internal_error","message":"boom"}"#));
        } else {
            assert_eq!(turn["error"], Value::Null);
        }
        assert_eq!(
            kinds(&store),
            vec![format!("agent.session.turn.{shown}"), "agent.session.idle".to_string()]
        );
        let session = value(&records::session(&store, "s").ok().unwrap());
        assert_eq!(session["status"], "idle");
        assert_eq!(records::active_turn(&store, "s"), None);
        assert_eq!(store.records.len(), 1);
    }
}

#[test]
fn a_failed_turn_without_a_message_has_a_default_one() {
    let mut store = store();
    let raw = doc(
        r#"{"method":"turn/completed","params":{"threadId":"th","turn":{"id":"t1","status":"failed"}}}"#,
    );
    assert!(records::notification(&mut store, &raw, 51).is_ok());
    let turn = value(&store.record("s", RecordKind::Turn, "t1").unwrap().data);
    assert_eq!(turn["error"]["message"], "turn failed");
}

#[test]
fn what_concerns_no_public_session_changes_nothing() {
    let mut store = store();
    for raw in [
        r#"{"method":"turn/started","params":{"threadId":"unknown","turn":{"id":"t1"}}}"#,
        r#"{"method":"turn/started","params":{"turn":{"id":"t1"}}}"#,
        r#"{"method":"thread/started","params":{"threadId":"th"}}"#,
        r#"{"params":{"threadId":"th"}}"#,
        r#"{"method":"item/started","params":{"threadId":"th","turnId":"t","item":{"id":"i","type":"commandExecution"}}}"#,
    ] {
        assert!(records::notification(&mut store, &doc(raw), 1).is_ok());
        assert_eq!(store.outbox.len(), 0, "{raw}");
    }
}

#[test]
fn a_turn_or_an_item_without_an_id_is_an_internal_error() {
    for raw in [
        r#"{"method":"turn/started","params":{"threadId":"th","turn":{}}}"#,
        r#"{"method":"item/started","params":{"threadId":"th","item":{"id":"i","type":"agentMessage"}}}"#,
        r#"{"method":"item/started","params":{"threadId":"th","turnId":"t","item":{"type":"agentMessage"}}}"#,
    ] {
        let mut store = store();
        let error = records::notification(&mut store, &doc(raw), 1).err().unwrap();
        assert_eq!(error.status, 500);
        assert_eq!(error.message, "internal API error");
        assert_eq!(store.outbox.len(), 0);
    }
}

#[test]
fn a_user_message_is_complete_at_once() {
    let mut store = store();
    let raw = item(
        "item/started",
        "t1",
        r#"{"id":"u","type":"userMessage","content":[{"type":"text","text":"hi"},{"type":"image"},{"type":"text","text":"there"}]}"#,
    );
    assert!(records::notification(&mut store, &raw, 1).is_ok());
    let row = store.record("s", RecordKind::Item, "item_t1_u").unwrap();
    assert_eq!(
        value(&row.data),
        parsed(
            r#"{"type":"message","role":"user","phase":null,"id":"item_t1_u","turn_id":"t1","status":"completed",
                "content":[{"type":"input_text","text":"hi"},{"type":"input_text","text":"there"}]}"#
        )
    );
    assert_eq!(kinds(&store), vec!["agent.session.turn.item.added"]);
    assert_eq!(published(&store)[0]["output_index"], Value::Null);
    store.outbox.clear();
    let raw = item("item/completed", "t1", r#"{"id":"u","type":"userMessage","content":[]}"#);
    assert!(records::notification(&mut store, &raw, 1).is_ok());
    assert_eq!(kinds(&store), Vec::<String>::new());
}

#[test]
fn outputs_of_a_turn_are_numbered_as_they_come() {
    let mut store = store();
    for raw in [
        item("item/completed", "t1", r#"{"id":"u","type":"userMessage","content":[]}"#),
        item("item/started", "t1", r#"{"id":"r","type":"reasoning","summary":["why"]}"#),
        item("item/started", "t1", r#"{"id":"a","type":"agentMessage","text":"","phase":"final"}"#),
        item("item/started", "t2", r#"{"id":"a","type":"agentMessage","text":""}"#),
        item("item/completed", "t1", r#"{"id":"a","type":"agentMessage","text":"done","phase":"final"}"#),
    ] {
        assert!(records::notification(&mut store, &raw, 1).is_ok());
    }
    let events = published(&store);
    let seen: Vec<(String, Value)> = events
        .iter()
        .map(|e| (e["type"].as_str().unwrap().to_string(), e["output_index"].clone()))
        .collect();
    let added = "agent.session.turn.item.added".to_string();
    assert_eq!(
        seen,
        vec![
            (added.clone(), Value::Null),
            (added.clone(), Value::from(0)),
            (added.clone(), Value::from(1)),
            (added, Value::from(0)),
            ("agent.session.turn.output_text.done".to_string(), Value::from(1)),
            ("agent.session.turn.item.done".to_string(), Value::from(1)),
        ]
    );
    assert_eq!(
        events[4],
        parsed(
            r#"{"type":"agent.session.turn.output_text.done","session_id":"s","turn_id":"t1","item_id":"item_t1_a",
                "output_index":1,"content_index":0,"text":"done"}"#
        )
    );
    assert_eq!(
        events[5]["item"],
        parsed(
            r#"{"type":"message","role":"assistant","phase":"final","id":"item_t1_a","turn_id":"t1","status":"completed",
                "content":[{"type":"output_text","text":"done"}]}"#
        )
    );
    assert_eq!(
        events[1]["item"],
        parsed(
            r#"{"type":"reasoning","summary":[{"type":"summary_text","text":"why"}],"id":"item_t1_r","turn_id":"t1","status":"in_progress"}"#
        )
    );
}

#[test]
fn a_function_call_shows_its_output() {
    let mut store = store();
    let raw = item(
        "item/completed",
        "t1",
        r#"{"id":"c","type":"dynamicToolCall","tool":"lookup","arguments":{"id":7},"status":"completed","success":true,
            "contentItems":[{"type":"inputText","text":"one"},{"type":"inputImage"},{"type":"inputText","text":"two"}]}"#,
    );
    assert!(records::notification(&mut store, &raw, 1).is_ok());
    let call = store.record("s", RecordKind::Item, "item_t1_c").unwrap();
    assert_eq!(
        value(&call.data),
        parsed(
            r#"{"type":"function_call","call_id":"c","name":"lookup","arguments":{"id":7},"id":"item_t1_c","turn_id":"t1","status":"completed"}"#
        )
    );
    let output = store.record("s", RecordKind::Item, "output_item_t1_c").unwrap();
    assert_eq!(
        value(&output.data),
        parsed(
            r#"{"id":"output_item_t1_c","type":"function_call_output","turn_id":"t1","call_id":"c","status":"completed",
                "output":"one\ntwo","error":null}"#
        )
    );
    assert_eq!(
        kinds(&store),
        vec![
            "agent.session.turn.item.added",
            "agent.session.turn.item.done",
            "agent.session.turn.item.added"
        ]
    );
    assert_eq!(published(&store)[2]["output_index"], Value::Null);
}

#[test]
fn a_function_call_that_failed_shows_its_error() {
    let mut store = store();
    let raw = item(
        "item/completed",
        "t1",
        r#"{"id":"c","type":"dynamicToolCall","tool":"lookup","arguments":null,"status":"failed","contentItems":[{"text":"no"}]}"#,
    );
    assert!(records::notification(&mut store, &raw, 1).is_ok());
    let call = value(&store.record("s", RecordKind::Item, "item_t1_c").unwrap().data);
    assert_eq!(call["status"], "failed");
    let output = value(&store.record("s", RecordKind::Item, "output_item_t1_c").unwrap().data);
    assert_eq!(output["status"], "failed");
    assert_eq!(output["output"], Value::Null);
    assert_eq!(output["error"], "no");
    let raw = item(
        "item/completed",
        "t1",
        r#"{"id":"d","type":"dynamicToolCall","tool":"lookup","success":false}"#,
    );
    assert!(records::notification(&mut store, &raw, 1).is_ok());
    let call = value(&store.record("s", RecordKind::Item, "item_t1_d").unwrap().data);
    assert_eq!(call["status"], "completed");
    let output = value(&store.record("s", RecordKind::Item, "output_item_t1_d").unwrap().data);
    assert_eq!(output["status"], "failed");
    assert_eq!(output["error"], "");
}

#[test]
fn a_call_for_the_application_makes_the_turn_wait() {
    let mut store = store();
    assert!(records::notification(&mut store, &started("t1"), 1).is_ok());
    let raw = doc(
        r#"{"method":"session.requires_action","params":{"threadId":"th","action":{"turnId":"t1"}}}"#,
    );
    assert!(records::notification(&mut store, &raw, 1).is_ok());
    let turn = value(&store.record("s", RecordKind::Turn, "t1").unwrap().data);
    assert_eq!(turn["status"], "waiting");
    let session = value(&records::session(&store, "s").ok().unwrap());
    assert_eq!(session["status"], "requires_action");
}

#[test]
fn the_other_session_is_spared() {
    let mut store = store();
    let before = value(&records::session(&store, "other").ok().unwrap());
    assert!(records::notification(&mut store, &started("t1"), 9).is_ok());
    assert_eq!(value(&records::session(&store, "other").ok().unwrap()), before);
    assert!(store.record("other", RecordKind::Turn, "t1").is_none());
    let session = value(&records::session(&store, "s").ok().unwrap());
    assert_eq!(session["last_active_at"], 9);
}

#[test]
fn an_unknown_session_is_not_found() {
    let mut store = store();
    let error = records::session(&store, "missing").err().unwrap();
    assert_eq!((error.status, error.message.as_str()), (404, "session not found"));
    let error = records::session_status(&mut store, "missing", "idle", None, 1).err().unwrap();
    assert_eq!(error.status, 404);
    let error = pages::turns(&store, "missing", page()).err().unwrap();
    assert_eq!(error.status, 404);
    let error = pages::turn(&store, "s", "missing").err().unwrap();
    assert_eq!((error.status, error.message.as_str()), (404, "turn not found"));
}

#[test]
fn a_public_form_without_a_session_is_an_internal_error() {
    let mut store = store();
    records::save_session(&mut store, "ghost", &doc(r#"{"id":"ghost"}"#));
    let error = records::session(&store, "ghost").err().unwrap();
    assert_eq!(error.status, 500);
}

#[test]
fn a_status_carries_its_error() {
    let mut store = store();
    assert!(records::session_status(&mut store, "s", "failed", Some("why"), 8).is_ok());
    let session = value(&records::session(&store, "s").ok().unwrap());
    assert_eq!(session["status"], "failed");
    assert_eq!(session["error"], "why");
    assert_eq!(session["last_active_at"], 8);
    assert_eq!(kinds(&store), vec!["agent.session.failed"]);
}

#[test]
fn an_event_gets_an_id_of_its_own() {
    let one = value(&records::emit(doc(r#"{"type":"x"}"#)));
    let two = value(&records::emit(doc(r#"{"type":"x"}"#)));
    assert_eq!(one["type"], "x");
    assert_eq!(one["event_id"].as_str().unwrap().len(), 36);
    assert_ne!(one["event_id"], two["event_id"]);
    let given = value(&records::stamp(doc(r#"{"event_id":"old","type":"x"}"#), "new"));
    assert_eq!(given, parsed(r#"{"event_id":"new","type":"x"}"#));
}

#[test]
fn a_record_that_is_saved_again_keeps_its_place_and_turn() {
    let mut store = store();
    for (id, turn) in [("a", "t1"), ("b", "t1"), ("a", "t2")] {
        let data = doc(&format!("{{\"id\":\"{id}\",\"turn\":\"{turn}\"}}"));
        assert!(records::save(&mut store, "s", RecordKind::Item, &data, turn).is_ok());
    }
    assert_eq!(store.records.len(), 2);
    assert_eq!(store.records[0].id, "a");
    assert_eq!(store.records[0].turn_id, "t1");
    assert_eq!(value(&store.records[0].data)["turn"], "t2");
    let nameless = doc(r#"{"id":7}"#);
    let error = records::save(&mut store, "s", RecordKind::Item, &nameless, "t").err().unwrap();
    assert_eq!(error.status, 500);
}

#[test]
fn pages_continue_where_they_end() {
    let mut store = store();
    for n in 1..=5 {
        let data = doc(&format!("{{\"id\":\"i{n}\"}}"));
        let turn = if n % 2 == 0 { "even" } else { "odd" };
        assert!(records::save(&mut store, "s", RecordKind::Item, &data, turn).is_ok());
        assert!(records::save(&mut store, "other", RecordKind::Item, &data, turn).is_ok());
    }
    let ids = |json: &Value| -> Vec<String> {
        json["data"]
            .as_array()
            .unwrap()
            .iter()
            .map(|v| v["id"].as_str().unwrap().to_string())
            .collect()
    };
    for (order, expected) in [
        (Some("asc"), vec!["i1", "i2", "i3", "i4", "i5"]),
        (None, vec!["i5", "i4", "i3", "i2", "i1"]),
    ] {
        let mut seen = Vec::new();
        let mut after = None;
        loop {
            let request = Page {
                after,
                limit: Some(2),
                order: order.map(str::to_string),
                turn_id: None,
            };
            let list = value(&pages::items(&store, "s", request).ok().unwrap());
            assert_eq!(list["object"], "list");
            let found = ids(&list);
            assert_eq!(list["first_id"], found[0].as_str());
            assert_eq!(list["last_id"], found[found.len() - 1].as_str());
            seen.extend(found);
            after = list["last_id"].as_str().map(str::to_string);
            if list["has_more"] == false {
                break;
            }
        }
        assert_eq!(seen, expected);
    }
    let request = Page { turn_id: Some("even".into()), ..page() };
    let list = value(&pages::items(&store, "s", request).ok().unwrap());
    assert_eq!(ids(&list), vec!["i4", "i2"]);
    assert_eq!(list["has_more"], false);
}

#[test]
fn an_empty_page_names_no_record() {
    let store = store();
    let list = value(&pages::turns(&store, "s", page()).ok().unwrap());
    assert_eq!(
        list,
        parsed(r#"{"object":"list","first_id":null,"last_id":null,"data":[],"has_more":false}"#)
    );
}

#[test]
fn pages_that_may_not_be_asked_for_are_refused() {
    let mut store = store();
    let data = doc(r#"{"id":"i1"}"#);
    assert!(records::save(&mut store, "s", RecordKind::Item, &data, "t").is_ok());
    let bad = |request: Page| {
        let error = pages::items(&store, "s", request).err().unwrap();
        (error.status, error.message)
    };
    let parameters = (400, "invalid pagination parameters".to_string());
    assert_eq!(bad(Page { limit: Some(0), ..page() }), parameters);
    assert_eq!(bad(Page { limit: Some(101), ..page() }), parameters);
    assert_eq!(bad(Page { order: Some("up".into()), ..page() }), parameters);
    let cursor = (400, "invalid after cursor".to_string());
    assert_eq!(bad(Page { after: Some("i9".into()), ..page() }), cursor);
    assert_eq!(
        bad(Page { after: Some("i1".into()), turn_id: Some("x".into()), ..page() }),
        cursor
    );
    assert!(pages::items(&store, "s", Page { limit: Some(100), ..page() }).is_ok());
    let error =
        pages::turns(&store, "s", Page { turn_id: Some("t".into()), ..page() }).err().unwrap();
    assert_eq!(error.message, "invalid pagination parameters");
}

#[test]
fn the_loss_of_the_connection_fails_what_was_active() {
    let mut store = store();
    assert!(records::notification(&mut store, &started("t1"), 1).is_ok());
    let begun = item("item/started", "t1", r#"{"id":"a","type":"agentMessage","text":""}"#);
    assert!(records::notification(&mut store, &begun, 1).is_ok());
    let over = doc(
        r#"{"method":"turn/completed","params":{"threadId":"th2","turn":{"id":"t9","status":"completed"}}}"#,
    );
    assert!(records::notification(&mut store, &over, 1).is_ok());
    let kept = value(&store.record("other", RecordKind::Turn, "t9").unwrap().data);
    store.outbox.clear();
    disconnect_bookkeeping(&mut store, 99);
    let turn = value(&store.record("s", RecordKind::Turn, "t1").unwrap().data);
    assert_eq!(turn["status"], "failed");
    assert_eq!(turn["completed_at"], 99);
    assert_eq!(
        turn["error"],
        parsed(r#"{"code":"connection_failed","message":"backend connection lost"}"#)
    );
    let open = value(&store.record("s", RecordKind::Item, "item_t1_a").unwrap().data);
    assert_eq!(open["status"], "incomplete");
    let session = value(&records::session(&store, "s").ok().unwrap());
    assert_eq!(session["status"], "failed");
    assert_eq!(session["error"], "backend connection lost");
    let idle = value(&records::session(&store, "other").ok().unwrap());
    assert_eq!(idle["status"], "idle");
    assert_eq!(value(&store.record("other", RecordKind::Turn, "t9").unwrap().data), kept);
    let count = store.outbox.len();
    assert_eq!(count, 5);
    assert!(matches!(&store.outbox[3], Effect::Notify(e) if value(e) == parsed(r#"{"method":"stream/disconnected"}"#)));
    assert!(matches!(&store.outbox[4], Effect::Close(e) if value(e) == parsed(r#"{"type":"disconnect"}"#)));
    disconnected(&mut store, 100);
    assert_eq!(store.outbox.len(), count);
}

#[test]
fn a_completed_item_keeps_the_place_in_which_it_started() {
    let mut store = store();
    for raw in [
        item("item/started", "t1", r#"{"id":"f","type":"dynamicToolCall","tool":"lookup","arguments":{}}"#),
        item("item/started", "t1", r#"{"id":"a","type":"agentMessage","text":""}"#),
        item(
            "item/completed",
            "t1",
            r#"{"id":"f","type":"dynamicToolCall","tool":"lookup","arguments":{},"success":true,
                "contentItems":[{"text":"shipped"}]}"#,
        ),
    ] {
        assert!(records::notification(&mut store, &raw, 1).is_ok());
    }
    let ids: Vec<&str> = store.records.iter().map(|row| row.id.as_str()).collect();
    assert_eq!(ids, vec!["item_t1_f", "item_t1_a", "output_item_t1_f"]);
    assert_eq!(value(&store.records[0].data)["status"], "completed");
    let added: Vec<Value> = published(&store)
        .iter()
        .filter(|event| event["type"] == "agent.session.turn.item.added")
        .map(|event| event["item"]["id"].clone())
        .collect();
    assert_eq!(added, vec!["item_t1_f", "item_t1_a", "output_item_t1_f"]);
}
