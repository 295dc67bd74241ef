use codex_agents_api::capabilities::identifier;
use codex_agents_api::capabilities::overrides;
use codex_agents_api::capabilities::validate;
use codex_agents_api::capabilities::validate_sized;
use codex_agents_api::contract::agent;
use codex_agents_api::contract::check_sized;
use codex_agents_api::contract::configure;
use codex_agents_api::contract::merge;
use codex_agents_api::contract::now;
use codex_agents_api::contract::now_from;
use codex_agents_api::contract::refused;
use codex_agents_api::contract::ConfigError;
use codex_agents_api::error::ApiError;
use codex_agents_api::json::Json;
use codex_agents_api::outside::read_document;
use codex_agents_api::outside::write_document;
use codex_agents_api::resources::Agent;
use codex_agents_api::resources::AgentConfig;
use codex_agents_api::resources::FunctionTool;
use codex_agents_api::resources::McpSelection;
use codex_agents_api::resources::Reasoning;
use serde_json::Value;

fn parsed(text: &str) -> Value {
    serde_json::from_str(text).unwrap()
}

fn doc(text: &str) -> Json {
    read_document(text.as_bytes()).unwrap()
}

fn value(json: &Json) -> Value {
    parsed(&write_document(json))
}

fn tool(name: &str) -> FunctionTool {
    FunctionTool {
        name: name.into(),
        description: "d".into(),
        parameters: doc(r#"{"type":"object"}"#),
    }
}

fn selection(server: &str, tools: &[&str]) -> McpSelection {
    McpSelection {
        server: server.into(),
        allowed_tools: tools.iter().map(|t| t.to_string()).collect(),
    }
}

fn config() -> AgentConfig {
    AgentConfig {
        model: "model-a".into(),
        instructions: "original".into(),
        tools: vec![tool("lookup")],
        mcp_servers: Vec::new(),
        reasoning: Some(Reasoning { effort: "low".into() }),
    }
}

fn message<T>(result: Result<T, ConfigError>) -> String {
    match result {
        Ok(_) => panic!("accepted"),
        Err(ConfigError::Invalid(error)) => {
            assert_eq!(error.status, 400);
            error.message
        }
        Err(ConfigError::MalformedTool(json)) => format!("tool {}", write_document(&json)),
        Err(ConfigError::MalformedReasoning(json)) => {
            format!("reasoning {}", write_document(&json))
        }
    }
}

const CAPABILITIES: &str = "invalid or oversized agent capabilities";

#[test]
fn identifiers_are_short_ascii_names() {
    assert!(identifier("a"));
    assert!(identifier("Lookup_Order-2"));
    assert!(identifier(&"x".repeat(128)));
    assert!(!identifier(""));
    assert!(!identifier(&"x".repeat(129)));
    assert!(!identifier("a b"));
    assert!(!identifier("é"));
    assert!(!identifier("a.b"));
}

#[test]
fn the_clock_stands_at_the_epoch_or_later() {
    assert_eq!(now_from(None), 0);
    assert_eq!(now_from(Some(7)), 7);
    assert!(now() > 1_600_000_000);
}

#[test]
fn an_agent_has_a_compatible_form() {
    let saved = Agent { id: "a".into(), config: config(), created_at: 3 };
    assert_eq!(
        value(&agent(&saved)),
        parsed(
            r#"{"id":"a","model":"model-a","instructions":"original","name":null,
                "multi_agent":{"enabled":false,"max_concurrent_subagents":0},
                "reasoning":{"effort":"low","summary":null},"service_tier":"auto",
                "text":{"format":{"type":"text"},"verbosity":"medium"},
                "tools":[{"type":"function","name":"lookup","description":"d","parameters":{"type":"object"},"defer_loading":false}]}"#
        )
    );
    let plain = Agent { id: "a".into(), config: AgentConfig::default(), created_at: 3 };
    assert_eq!(value(&agent(&plain))["reasoning"]["effort"], Value::Null);
}

#[test]
fn omitted_fields_are_inherited() {
    let merged = configure(config(), &doc("{}"), &vec![true]).ok().unwrap();
    assert_eq!(merged.model, "model-a");
    assert_eq!(merged.instructions, "original");
    assert_eq!(merged.tools.len(), 1);
    assert_eq!(merged.reasoning.unwrap().effort, "low");
}

#[test]
fn given_fields_take_effect_and_null_clears() {
    let patch = doc(
        r#"{"model":"model-b","instructions":null,"tools":null,"reasoning":null}"#,
    );
    let merged = configure(config(), &patch, &vec![]).ok().unwrap();
    assert_eq!(merged.model, "model-b");
    assert_eq!(merged.instructions, "");
    assert!(merged.tools.is_empty());
    assert!(merged.reasoning.is_none());
    let patch = doc(
        r#"{"instructions":"new","reasoning":{"effort":"max"},"tools":[
            {"type":"function","name":"f","description":"g","parameters":{"type":"object","x":1},"defer_loading":false}]}"#,
    );
    let merged = configure(config(), &patch, &vec![true]).ok().unwrap();
    assert_eq!(merged.instructions, "new");
    assert_eq!(merged.reasoning.unwrap().effort, "max");
    assert_eq!(merged.tools.len(), 1);
    assert_eq!(merged.tools[0].name, "f");
    assert_eq!(value(&merged.tools[0].parameters), parsed(r#"{"type":"object","x":1}"#));
    let listed = merge(config(), &doc(r#"{"reasoning":["high"]}"#)).ok().unwrap();
    assert_eq!(listed.reasoning.unwrap().effort, "high");
}

#[test]
fn what_is_not_supported_is_refused() {
    let refuse = |patch: &str| message(merge(config(), &doc(patch)));
    assert_eq!(refuse("[]"), "agent must be an object");
    assert_eq!(refuse(r#"{"model":null}"#), "model must be a string");
    assert_eq!(refuse(r#"{"instructions":7}"#), "instructions must be a string or null");
    assert_eq!(refuse(r#"{"tools":{}}"#), "tools must be an array or null");
    assert_eq!(
        refuse(r#"{"tools":[{"type":"web_search"}]}"#),
        "only function tools are implemented on this API path"
    );
    assert_eq!(
        refuse(r#"{"tools":["function"]}"#),
        "only function tools are implemented on this API path"
    );
    assert_eq!(refuse(r#"{"reasoning":{"effort":"ultra"}}"#), "unsupported reasoning effort");
    assert_eq!(refuse(r#"{"metadata":{}}"#), "agent field metadata is not implemented");
}

#[test]
fn malformed_functions_and_reasoning_are_told_apart() {
    let refuse = |patch: &str| message(merge(config(), &doc(patch)));
    assert_eq!(
        refuse(r#"{"tools":[{"type":"function","name":"f","description":"g"}]}"#),
        r#"tool {"description":"g","name":"f"}"#
    );
    assert_eq!(
        refuse(
            r#"{"tools":[{"type":"function","name":"f","description":"g","parameters":{},"defer_loading":true}]}"#
        ),
        r#"tool {"defer_loading":true,"description":"g","name":"f","parameters":{}}"#
    );
    assert_eq!(
        refuse(r#"{"tools":[{"type":"function","name":1,"description":"g","parameters":{}}]}"#),
        r#"tool {"description":"g","name":1,"parameters":{}}"#
    );
    assert_eq!(refuse(r#"{"reasoning":{}}"#), "reasoning {}");
    assert_eq!(
        refuse(r#"{"reasoning":{"effort":"low","summary":null}}"#),
        r#"reasoning {"effort":"low","summary":null}"#
    );
    assert_eq!(refuse(r#"{"reasoning":["low","low"]}"#), r#"reasoning ["low","low"]"#);
    assert_eq!(refuse(r#"{"reasoning":"low"}"#), r#"reasoning "low""#);
}

#[test]
fn a_configuration_keeps_its_limits() {
    let texts = "model must be 1-256 bytes; instructions must be at most 1024 bytes";
    let check = |config: AgentConfig| message(configure(config, &doc("{}"), &vec![true]));
    assert_eq!(check(AgentConfig { model: " ".into(), ..config() }), texts);
    assert_eq!(check(AgentConfig { model: "m".repeat(257), ..config() }), texts);
    assert_eq!(check(AgentConfig { instructions: "é".repeat(513), ..config() }), texts);
    assert!(configure(
        AgentConfig { model: "m".repeat(256), instructions: "é".repeat(512), ..config() },
        &doc("{}"),
        &vec![true]
    )
    .is_ok());
    assert_eq!(
        check(AgentConfig { mcp_servers: vec![selection("w", &[])], ..config() }),
        "saved MCP configurations are not supported on this API path"
    );
    assert_eq!(
        check(AgentConfig {
            reasoning: Some(Reasoning { effort: "ultra".into() }),
            ..config()
        }),
        "saved reasoning effort is not supported on this API path"
    );
    assert_eq!(check(AgentConfig { tools: vec![tool("mcp")], ..config() }), CAPABILITIES);
    assert!(check_sized(&config(), &vec![1024], &vec![true]).is_ok());
    assert_eq!(
        check_sized(&config(), &vec![1025], &vec![true]).err().unwrap().message,
        CAPABILITIES
    );
}

#[test]
fn capabilities_keep_their_limits() {
    let valid = |tools: Vec<FunctionTool>| {
        let schemas = vec![true; tools.len()];
        match validate(&AgentConfig { tools, ..config() }, &schemas) {
            Ok(_) => true,
            Err(error) => {
                assert_eq!((error.status, error.message.as_str()), (400, CAPABILITIES));
                false
            }
        }
    };
    assert!(valid(Vec::new()));
    assert!(valid((0..16).map(|n| tool(&format!("f{n}"))).collect()));
    assert!(!valid((0..17).map(|n| tool(&format!("f{n}"))).collect()));
    assert!(!valid(vec![tool("a"), tool("a")]));
    assert!(!valid(vec![tool("mcp")]));
    assert!(!valid(vec![tool("mcp__server__tool")]));
    assert!(valid(vec![tool("mcp_server")]));
    assert!(!valid(vec![tool("a b")]));
    assert!(!valid(vec![FunctionTool { parameters: doc("{}"), ..tool("a") }]));
    assert!(!valid(vec![FunctionTool { parameters: doc(r#"{"type":"array"}"#), ..tool("a") }]));
    let overhead =
        r#"{"name":"a","description":"","parameters":{"type":"object"}}"#.len();
    let sized = |size: usize| FunctionTool { description: "d".repeat(size - overhead), ..tool("a") };
    assert!(valid(vec![sized(1024)]));
    assert!(!valid(vec![sized(1025)]));
}

#[test]
fn unsupported_schemas_are_refused() {
    let config = AgentConfig { tools: vec![tool("a"), tool("b")], ..config() };
    assert!(validate(&config, &vec![true, true]).is_ok());
    assert!(validate(&config, &vec![true, false]).is_err());
    assert!(validate(&config, &vec![true]).is_err());
    assert!(validate_sized(&config, &vec![1, 1], &vec![true, true]).is_ok());
    assert!(validate_sized(&config, &vec![1], &vec![true, true]).is_err());
}

#[test]
fn selections_of_servers_keep_their_limits() {
    let valid = |mcp_servers: Vec<McpSelection>| {
        validate(&AgentConfig { mcp_servers, ..config() }, &vec![true]).is_ok()
    };
    assert!(valid(vec![selection("warehouse", &["lookup"])]));
    assert!(!valid(vec![selection("ware house", &[])]));
    assert!(!valid(vec![selection("w", &[]), selection("w", &[])]));
    assert!(!valid(vec![selection("w", &["a", "a"])]));
    assert!(!valid(vec![selection("w", &["a b"])]));
    let names: Vec<String> = (0..33).map(|n| format!("t{n}")).collect();
    let refs: Vec<&str> = names.iter().map(|n| n.as_str()).collect();
    assert!(valid(vec![selection("w", &refs[..32])]));
    assert!(!valid(vec![selection("w", &refs)]));
    assert!(!valid((0..17).map(|n| selection(&format!("s{n}"), &[])).collect()));
}

#[test]
fn reasoning_efforts_are_known_words() {
    for effort in ["none", "minimal", "low", "medium", "high", "xhigh", "max", "ultra", "persistent"] {
        let config = AgentConfig {
            reasoning: Some(Reasoning { effort: effort.into() }),
            ..config()
        };
        assert!(validate(&config, &vec![true]).is_ok());
    }
    let config = AgentConfig { reasoning: Some(Reasoning { effort: "huge".into() }), ..config() };
    assert!(validate(&config, &vec![true]).is_err());
}

#[test]
fn only_selected_servers_are_enabled() {
    let effective = doc(
        r#"{"config":{"mcp_servers":{
            "warehouse":{"url":"http://secret","enabled_tools":["lookup","list"],"disabled_tools":["drop"]},
            "other":{"command":"x","env":{"KEY":"hidden"}}}}}"#,
    );
    let config = AgentConfig {
        mcp_servers: vec![selection("warehouse", &["lookup"])],
        ..config()
    };
    let policy = overrides(&config, &effective).ok().unwrap();
    assert_eq!(
        value(&policy),
        parsed(
            r#"{"mcp_servers":{"warehouse":{"enabled":true,"enabled_tools":["lookup"]},"other":{"enabled":false}},
                "features.plugins":false,"features.apps":false,"features.enable_mcp_apps":false,"web_search":"disabled",
                "agents.enabled":false,"features.multi_agent_v2":false,
                "tools.experimental_request_user_input.enabled":false,"model_reasoning_effort":"low"}"#
        )
    );
    assert!(!write_document(&policy).contains("secret"));
    assert!(!write_document(&policy).contains("hidden"));
    let silent = AgentConfig { reasoning: None, mcp_servers: Vec::new(), ..config };
    let policy = value(&overrides(&silent, &doc("{}")).ok().unwrap());
    assert_eq!(policy["mcp_servers"], parsed("{}"));
    assert_eq!(policy.get("model_reasoning_effort"), None);
}

#[test]
fn selections_may_not_exceed_the_policy() {
    let effective = doc(
        r#"{"config":{"mcp_servers":{
            "off":{"enabled":false},
            "filtered":{"enabled_tools":["a"]},
            "denied":{"disabled_tools":["b"]},
            "open":{"enabled":true,"enabled_tools":null}}}}"#,
    );
    let ask = |server: &str, tools: &[&str]| {
        let config = AgentConfig { mcp_servers: vec![selection(server, tools)], ..config() };
        match overrides(&config, &effective) {
            Ok(_) => "ok".to_string(),
            Err(error) => {
                assert_eq!(error.status, 400);
                error.message
            }
        }
    };
    let exceeds = "MCP selection exceeds server-side policy";
    assert_eq!(ask("missing", &[]), "unknown MCP server: missing");
    assert_eq!(ask("off", &[]), exceeds);
    assert_eq!(ask("filtered", &["a"]), "ok");
    assert_eq!(ask("filtered", &["a", "c"]), exceeds);
    assert_eq!(ask("denied", &["a"]), "ok");
    assert_eq!(ask("denied", &["b"]), exceeds);
    assert_eq!(ask("open", &["anything"]), "ok");
    let first = AgentConfig {
        mcp_servers: vec![selection("off", &[]), selection("missing", &[])],
        ..config()
    };
    assert_eq!(overrides(&first, &effective).err().unwrap().message, exceeds);
}

#[test]
fn every_refusal_of_a_configuration_is_a_bad_request() {
    for patch in [
        r#"7"#,
        r#"{"name":"x"}"#,
        r#"{"tools":[{"type":"web_search"}]}"#,
        r#"{"tools":[{"type":"function","name":"f","description":"","parameters":{"type":"object"},"defer_loading":true}]}"#,
        r#"{"tools":[{"type":"function","name":"f"}]}"#,
        r#"{"reasoning":{"effort":"ultra"}}"#,
        r#"{"reasoning":{"effort":1}}"#,
        r#"{"model":""}"#,
    ] {
        let error = configure(config(), &doc(patch), &vec![true]).err().unwrap();
        assert_eq!(refused(error, "problem").status, 400, "{patch}");
    }
    let malformed = refused(ConfigError::MalformedTool(Json::Null), "missing field `name`");
    assert_eq!((malformed.status, malformed.message.as_str()), (400, "missing field `name`"));
    let malformed = refused(ConfigError::MalformedReasoning(Json::Null), "bad effort");
    assert_eq!((malformed.status, malformed.message.as_str()), (400, "bad effort"));
    let own = refused(ConfigError::Invalid(ApiError::new(404, "agent not found")), "unused");
    assert_eq!((own.status, own.message.as_str()), (404, "agent not found"));
}
