//! The compatible form of the API: agents, inputs and sessions.
use crate::capabilities::capability_failure;
use crate::capabilities::compatible_effort;
use crate::capabilities::is_compatible_effort;
use crate::capabilities::lengths;
use crate::capabilities::tool_sizes;
use crate::capabilities::valid_capabilities;
use crate::capabilities::validate;
use crate::capabilities::validate_sized;
use crate::error::bad_request;
use crate::error::invalid;
use crate::error::ApiError;
use crate::error::ApiErrorView;
use crate::json::json_view;
use crate::json::list;
use crate::json::object;
use crate::json::Json;
use crate::json::JsonView;
use crate::model::option_view;
use crate::model::outcome;
use crate::model::verdict;
use crate::model::views;
use crate::outside::since_epoch;
use crate::records::number;
use crate::resources::Agent;
use crate::resources::AgentConfig;
use crate::resources::AgentConfigView;
use crate::resources::AgentView;
use crate::resources::FunctionTool;
use crate::resources::FunctionToolView;
use crate::resources::Reasoning;
use crate::resources::ReasoningView;
use crate::text::blank;
use crate::text::byte_len;
use crate::text::is_blank;
use crate::text::joined;
use crate::text::same;
use crate::text::utf8_len;
use vstd::prelude::*;

verus! {

/// The time that a reading of the clock stands for: the epoch itself where the
/// clock stands before it.
pub fn now_from(since_epoch: Option<u64>) -> (seconds: u64)
    ensures
        seconds == match since_epoch {
            Some(passed) => passed,
            None => 0,
        },
{
    match since_epoch {
        Some(passed) => passed,
        None => 0,
    }
}

/// Seconds since the Unix epoch. Nothing can be said of what the clock shows.
pub fn now() -> (seconds: u64) {
    now_from(since_epoch())
}

/// The most bytes that the name of a model may take.
pub const MAX_MODEL_BYTES: usize = 256;

/// The most bytes that the instructions of an agent may take.
pub const MAX_INSTRUCTION_BYTES: usize = 1024;

/// The most bytes that an input may take.
pub const MAX_INPUT_BYTES: usize = 8192;

/// The compatible form of a function.
pub open spec fn public_tool(tool: FunctionToolView) -> JsonView {
    object().entry("type"@, JsonView::Text("function"@)).entry(
        "name"@,
        JsonView::Text(tool.name),
    ).entry("description"@, JsonView::Text(tool.description)).entry(
        "parameters"@,
        tool.parameters,
    ).entry("defer_loading"@, JsonView::Bool(false))
}

/// The compatible form of functions.
pub open spec fn public_tools(tools: Seq<FunctionToolView>) -> JsonView
    decreases tools.len(),
{
    if tools.len() == 0 {
        list()
    } else {
        public_tools(tools.drop_last()).item(public_tool(tools.last()))
    }
}

/// The compatible form of an agent.
pub open spec fn agent_document(agent: AgentView) -> JsonView {
    object().entry("id"@, JsonView::Text(agent.id)).entry(
        "model"@,
        JsonView::Text(agent.config.model),
    ).entry("instructions"@, JsonView::Text(agent.config.instructions)).entry(
        "name"@,
        JsonView::Null,
    ).entry(
        "multi_agent"@,
        object().entry("enabled"@, JsonView::Bool(false)).entry(
            "max_concurrent_subagents"@,
            number(0),
        ),
    ).entry(
        "reasoning"@,
        object().entry(
            "effort"@,
            match agent.config.reasoning {
                Some(reasoning) => JsonView::Text(reasoning.effort),
                None => JsonView::Null,
            },
        ).entry("summary"@, JsonView::Null),
    ).entry("service_tier"@, JsonView::Text("auto"@)).entry(
        "text"@,
        object().entry(
            "format"@,
            object().entry("type"@, JsonView::Text("text"@)),
        ).entry("verbosity"@, JsonView::Text("medium"@)),
    ).entry("tools"@, public_tools(agent.config.tools))
}

/// The compatible form of functions.
fn documents_of_tools(tools: &Vec<FunctionTool>) -> (json: Json)
    ensures
        json@ == public_tools(views(tools@)),
{
    let ghost model = views(tools@);
    let mut json = Json::list();
    let mut i: usize = 0;
    assert(model.take(0) =~= Seq::<FunctionToolView>::empty());
    while i < tools.len()
        invariant
            i <= tools@.len(),
            model == views(tools@),
            json@ == public_tools(model.take(i as int)),
        decreases tools@.len() - i,
    {
        let tool = &tools[i];
        proof {
            assert(model.take(i + 1).drop_last() =~= model.take(i as int));
            assert(model.take(i + 1).last() == tool@);
        }
        json =
        json.item(
            Json::object()
                .entry("type", Json::string("function"))
                .entry("name", Json::string(tool.name.as_str()))
                .entry("description", Json::string(tool.description.as_str()))
                .entry("parameters", tool.parameters.copy())
                .entry("defer_loading", Json::Bool(false)),
        );
        i += 1;
    }
    assert(model.take(i as int) =~= model);
    json
}

/// The compatible form of an agent.
pub fn agent(saved: &Agent) -> (json: Json)
    ensures
        json@ == agent_document(saved@),
{
    let effort = match &saved.config.reasoning {
        Some(reasoning) => Json::string(reasoning.effort.as_str()),
        None => Json::Null,
    };
    let format = Json::object().entry("type", Json::string("text"));
    Json::object()
        .entry("id", Json::string(saved.id.as_str()))
        .entry("model", Json::string(saved.config.model.as_str()))
        .entry("instructions", Json::string(saved.config.instructions.as_str()))
        .entry("name", Json::Null)
        .entry(
            "multi_agent",
            Json::object().entry("enabled", Json::Bool(false)).entry(
                "max_concurrent_subagents",
                Json::unsigned(0),
            ),
        )
        .entry("reasoning", Json::object().entry("effort", effort).entry("summary", Json::Null))
        .entry("service_tier", Json::string("auto"))
        .entry(
            "text",
            Json::object().entry("format", format).entry("verbosity", Json::string("medium")),
        )
        .entry("tools", documents_of_tools(&saved.config.tools))
}

/// Why an agent cannot be configured as a client asks.
pub enum ConfigError {
    /// It breaks a rule of the API.
    Invalid(ApiError),
    /// The document does not have the form of a function.
    MalformedTool(Json),
    /// The document does not have the form of a reasoning setting.
    MalformedReasoning(Json),
}

/// What a [`ConfigError`] stands for.
pub enum ConfigErrorView {
    Invalid(ApiErrorView),
    MalformedTool(JsonView),
    MalformedReasoning(JsonView),
}

impl View for ConfigError {
    type V = ConfigErrorView;

    open spec fn view(&self) -> ConfigErrorView {
        match self {
            ConfigError::Invalid(error) => ConfigErrorView::Invalid(error@),
            ConfigError::MalformedTool(json) => ConfigErrorView::MalformedTool(json@),
            ConfigError::MalformedReasoning(json) => ConfigErrorView::MalformedReasoning(json@),
        }
    }
}

/// A configuration that breaks a rule of the API.
pub open spec fn config_failure(message: Seq<char>) -> ConfigErrorView {
    ConfigErrorView::Invalid(bad_request(message))
}

/// What a client is told of a configuration that is refused. `problem` says what
/// is wrong with the form of a document.
pub open spec fn refusal_told(error: ConfigErrorView, problem: Seq<char>) -> ApiErrorView {
    match error {
        ConfigErrorView::Invalid(error) => error,
        _ => bad_request(problem),
    }
}

/// Whether every field has one of three names.
pub open spec fn named_only(
    fields: Seq<(Seq<char>, JsonView)>,
    a: Seq<char>,
    b: Seq<char>,
    c: Seq<char>,
) -> bool {
    forall|i: int|
        0 <= i < fields.len() ==> (#[trigger] fields[i]).0 == a || fields[i].0 == b || fields[i].0
            == c
}

/// The function that a document describes: it has a name, a description and
/// parameters, and nothing else.
pub open spec fn tool_in(document: JsonView) -> Option<FunctionToolView> {
    match document {
        JsonView::Object(fields) if named_only(
            fields,
            "name"@,
            "description"@,
            "parameters"@,
        ) => match (
            document.field("name"@).text(),
            document.field("description"@).text(),
            document.get("parameters"@),
        ) {
            (Some(name), Some(description), Some(parameters)) => Some(
                FunctionToolView { name, description, parameters },
            ),
            _ => None,
        },
        _ => None,
    }
}

/// The definition that a tagged function carries.
pub open spec fn untagged(tool: JsonView) -> JsonView {
    let plain = tool.without("type"@);
    if plain.get("defer_loading"@) == Some(JsonView::Bool(false)) {
        plain.without("defer_loading"@)
    } else {
        plain
    }
}

/// The functions that a client asks for.
pub open spec fn tools_in(documents: Seq<JsonView>) -> Result<
    Seq<FunctionToolView>,
    ConfigErrorView,
>
    decreases documents.len(),
{
    if documents.len() == 0 {
        Ok(Seq::empty())
    } else {
        match tools_in(documents.drop_last()) {
            Err(error) => Err(error),
            Ok(tools) => {
                let document = documents.last();
                if document.field("type"@) != JsonView::Text("function"@) {
                    Err(config_failure("only function tools are implemented on this API path"@))
                } else {
                    match tool_in(untagged(document)) {
                        Some(tool) => Ok(tools.push(tool)),
                        None => Err(ConfigErrorView::MalformedTool(untagged(document))),
                    }
                }
            },
        }
    }
}

/// The effort that a reasoning setting asks for: the only field of an object,
/// or the only element of an array.
pub open spec fn effort_in(document: JsonView) -> Option<Seq<char>> {
    match document {
        JsonView::Object(fields) if named_only(
            fields,
            "effort"@,
            "effort"@,
            "effort"@,
        ) => document.field("effort"@).text(),
        JsonView::Array(items) if items.len() == 1 => items[0].text(),
        _ => None,
    }
}

/// The configuration after a client has set one field of it. Null clears the
/// instructions, the functions and the reasoning.
pub open spec fn field_set(config: AgentConfigView, key: Seq<char>, value: JsonView) -> Result<
    AgentConfigView,
    ConfigErrorView,
> {
    if key == "model"@ {
        match value.text() {
            Some(model) => Ok(AgentConfigView { model, ..config }),
            None => Err(config_failure("model must be a string"@)),
        }
    } else if key == "instructions"@ {
        if value == JsonView::Null {
            Ok(AgentConfigView { instructions: ""@, ..config })
        } else {
            match value.text() {
                Some(instructions) => Ok(AgentConfigView { instructions, ..config }),
                None => Err(config_failure("instructions must be a string or null"@)),
            }
        }
    } else if key == "tools"@ {
        if value == JsonView::Null {
            Ok(AgentConfigView { tools: Seq::empty(), ..config })
        } else if value !is Array {
            Err(config_failure("tools must be an array or null"@))
        } else {
            match tools_in(value.elements()) {
                Ok(tools) => Ok(AgentConfigView { tools, ..config }),
                Err(error) => Err(error),
            }
        }
    } else if key == "reasoning"@ {
        if value == JsonView::Null {
            Ok(AgentConfigView { reasoning: None, ..config })
        } else {
            match effort_in(value) {
                None => Err(ConfigErrorView::MalformedReasoning(value)),
                Some(effort) => if compatible_effort(effort) {
                    Ok(AgentConfigView { reasoning: Some(ReasoningView { effort }), ..config })
                } else {
                    Err(config_failure("unsupported reasoning effort"@))
                },
            }
        }
    } else {
        Err(config_failure("agent field "@ + key + " is not implemented"@))
    }
}

/// The configuration after a client has set fields of it, one by one.
pub open spec fn fields_set(config: AgentConfigView, fields: Seq<(Seq<char>, JsonView)>) -> Result<
    AgentConfigView,
    ConfigErrorView,
>
    decreases fields.len(),
{
    if fields.len() == 0 {
        Ok(config)
    } else {
        match fields_set(config, fields.drop_last()) {
            Err(error) => Err(error),
            Ok(before) => field_set(before, fields.last().0, fields.last().1),
        }
    }
}

/// The configuration with what a client asks for in place of what it was.
pub open spec fn merged(config: AgentConfigView, patch: JsonView) -> Result<
    AgentConfigView,
    ConfigErrorView,
> {
    match patch {
        JsonView::Object(fields) => fields_set(config, fields),
        _ => Err(config_failure("agent must be an object"@)),
    }
}

/// Whether the texts of a configuration have the sizes that they may have.
pub open spec fn valid_texts(config: AgentConfigView) -> bool {
    &&& !blank(config.model)
    &&& utf8_len(config.model) <= MAX_MODEL_BYTES
    &&& utf8_len(config.instructions) <= MAX_INSTRUCTION_BYTES
}

/// The answer to a client whose texts have other sizes.
pub open spec fn text_failure() -> ApiErrorView {
    bad_request("model must be 1-256 bytes; instructions must be at most 1024 bytes"@)
}

/// Why a configuration cannot be used in the compatible form of the API, if it
/// cannot.
pub open spec fn config_refusal(
    config: AgentConfigView,
    sizes: Seq<nat>,
    schemas: Seq<bool>,
) -> Option<ApiErrorView> {
    if !valid_texts(config) {
        Some(text_failure())
    } else if config.mcp_servers.len() > 0 {
        Some(bad_request("saved MCP configurations are not supported on this API path"@))
    } else if config.reasoning is Some && !compatible_effort(config.reasoning->0.effort) {
        Some(bad_request("saved reasoning effort is not supported on this API path"@))
    } else if !valid_capabilities(config, sizes, schemas) {
        Some(capability_failure())
    } else {
        None
    }
}

/// The configuration that a client asks for, if it may be used.
pub open spec fn configured(config: AgentConfigView, patch: JsonView, schemas: Seq<bool>) -> Result<
    AgentConfigView,
    ConfigErrorView,
> {
    match merged(config, patch) {
        Err(error) => Err(error),
        Ok(config) => match config_refusal(config, tool_sizes(config.tools), schemas) {
            Some(error) => Err(ConfigErrorView::Invalid(error)),
            None => Ok(config),
        },
    }
}

/// Whether every field of an object has one of three names.
fn has_only(fields: &Vec<(String, Json)>, a: &str, b: &str, c: &str) -> (result: bool)
    ensures
        result == named_only(json_view(Json::Object(*fields))->Object_0, a@, b@, c@),
{
    let ghost model = json_view(Json::Object(*fields))->Object_0;
    let mut i: usize = 0;
    while i < fields.len()
        invariant
            i <= fields@.len(),
            model == json_view(Json::Object(*fields))->Object_0,
            forall|j: int|
                0 <= j < i ==> (#[trigger] model[j]).0 == a@ || model[j].0 == b@ || model[j].0
                    == c@,
        decreases fields@.len() - i,
    {
        assert(model[i as int].0 == fields@[i as int].0@);
        let name = fields[i].0.as_str();
        if !same(name, a) && !same(name, b) && !same(name, c) {
            assert(!named_only(model, a@, b@, c@));
            return false;
        }
        i += 1;
    }
    true
}

/// The function that a document describes.
fn parse_tool(document: &Json) -> (tool: Option<FunctionTool>)
    ensures
        option_view(tool) == tool_in(document@),
{
    match document {
        Json::Object(fields) => if has_only(fields, "name", "description", "parameters") {
            match (
                document.field("name").as_text(),
                document.field("description").as_text(),
                document.get("parameters"),
            ) {
                (Some(name), Some(description), Some(parameters)) => Some(
                    FunctionTool {
                        name: name.clone(),
                        description: description.clone(),
                        parameters: parameters.copy(),
                    },
                ),
                _ => None,
            }
        } else {
            None
        },
        _ => None,
    }
}

/// The definition that a tagged function carries.
fn untag(tool: &Json) -> (plain: Json)
    ensures
        plain@ == untagged(tool@),
{
    let mut plain = tool.copy();
    plain.remove("type");
    let immediate = match plain.get("defer_loading") {
        Some(value) => value.is_false(),
        None => false,
    };
    if immediate {
        plain.remove("defer_loading");
    }
    plain
}

/// The functions that a client asks for.
fn parse_tools(documents: &Vec<Json>) -> (result: Result<Vec<FunctionTool>, ConfigError>)
    ensures
        match result {
            Ok(tools) => tools_in(views(documents@)) == Ok::<
                Seq<FunctionToolView>,
                ConfigErrorView,
            >(views(tools@)),
            Err(error) => tools_in(views(documents@)) == Err::<
                Seq<FunctionToolView>,
                ConfigErrorView,
            >(error@),
        },
{
    let ghost model = views(documents@);
    let mut tools: Vec<FunctionTool> = Vec::new();
    let mut i: usize = 0;
    assert(model.take(0) =~= Seq::<JsonView>::empty());
    assert(views(tools@) =~= Seq::<FunctionToolView>::empty());
    while i < documents.len()
        invariant
            i <= documents@.len(),
            model == views(documents@),
            tools_in(model.take(i as int)) == Ok::<Seq<FunctionToolView>, ConfigErrorView>(
                views(tools@),
            ),
        decreases documents@.len() - i,
    {
        let document = &documents[i];
        proof {
            assert(model.take(i + 1).drop_last() =~= model.take(i as int));
            assert(model.take(i + 1).last() == document@);
        }
        if !document.field("type").is_text("function") {
            proof {
                lemma_tools_fail(model, i + 1);
            }
            return Err(
                ConfigError::Invalid(
                    invalid("only function tools are implemented on this API path"),
                ),
            );
        }
        let plain = untag(document);
        match parse_tool(&plain) {
            Some(tool) => {
                let ghost before = views(tools@);
                tools.push(tool);
                assert(views(tools@) =~= before.push(tool@));
            },
            None => {
                proof {
                    lemma_tools_fail(model, i + 1);
                }
                return Err(ConfigError::MalformedTool(plain));
            },
        }
        i += 1;
    }
    assert(model.take(i as int) =~= model);
    Ok(tools)
}

/// The failure of the first functions is the failure of all.
proof fn lemma_tools_fail(documents: Seq<JsonView>, n: int)
    requires
        0 <= n <= documents.len(),
        tools_in(documents.take(n)) is Err,
    ensures
        tools_in(documents) == tools_in(documents.take(n)),
    decreases documents.len(),
{
    if n == documents.len() {
        assert(documents.take(n) =~= documents);
    } else {
        assert(documents.drop_last().take(n) =~= documents.take(n));
        lemma_tools_fail(documents.drop_last(), n);
    }
}

/// The failure of the first fields is the failure of all.
proof fn lemma_fields_fail(config: AgentConfigView, fields: Seq<(Seq<char>, JsonView)>, n: int)
    requires
        0 <= n <= fields.len(),
        fields_set(config, fields.take(n)) is Err,
    ensures
        fields_set(config, fields) == fields_set(config, fields.take(n)),
    decreases fields.len(),
{
    if n == fields.len() {
        assert(fields.take(n) =~= fields);
    } else {
        assert(fields.drop_last().take(n) =~= fields.take(n));
        lemma_fields_fail(config, fields.drop_last(), n);
    }
}

/// The effort that a reasoning setting asks for.
fn parse_effort(document: &Json) -> (effort: Option<String>)
    ensures
        option_view(effort) == effort_in(document@),
{
    let text = match document {
        Json::Object(fields) => if has_only(fields, "effort", "effort", "effort") {
            document.field("effort").as_text()
        } else {
            None
        },
        Json::Array(items) => if items.len() == 1 {
            items[0].as_text()
        } else {
            None
        },
        _ => None,
    };
    match text {
        Some(effort) => Some(effort.clone()),
        None => None,
    }
}

/// Set one field of a configuration.
fn set_field(config: AgentConfig, key: &str, value: &Json) -> (result: Result<
    AgentConfig,
    ConfigError,
>)
    ensures
        outcome(result) == field_set(config@, key@, value@),
{
    let mut config = config;
    if same(key, "model") {
        match value.as_text() {
            Some(model) => {
                config.model = model.clone();
                Ok(config)
            },
            None => Err(ConfigError::Invalid(invalid("model must be a string"))),
        }
    } else if same(key, "instructions") {
        if value.is_null() {
            config.instructions = "".to_owned();
            Ok(config)
        } else {
            match value.as_text() {
                Some(instructions) => {
                    config.instructions = instructions.clone();
                    Ok(config)
                },
                None => Err(
                    ConfigError::Invalid(invalid("instructions must be a string or null")),
                ),
            }
        }
    } else if same(key, "tools") {
        match value {
            Json::Null => {
                config.tools = Vec::new();
                assert(views(config.tools@) =~= Seq::<FunctionToolView>::empty());
                Ok(config)
            },
            Json::Array(items) => {
                assert(views(items@) =~= value@.elements());
                match parse_tools(items) {
                    Ok(tools) => {
                        config.tools = tools;
                        Ok(config)
                    },
                    Err(error) => Err(error),
                }
            },
            _ => Err(ConfigError::Invalid(invalid("tools must be an array or null"))),
        }
    } else if same(key, "reasoning") {
        if value.is_null() {
            config.reasoning = None;
            Ok(config)
        } else {
            match parse_effort(value) {
                None => Err(ConfigError::MalformedReasoning(value.copy())),
                Some(effort) => if is_compatible_effort(effort.as_str()) {
                    config.reasoning = Some(Reasoning { effort });
                    Ok(config)
                } else {
                    Err(ConfigError::Invalid(invalid("unsupported reasoning effort")))
                },
            }
        }
    } else {
        let start = joined("agent field ", key);
        let message = joined(start.as_str(), " is not implemented");
        Err(ConfigError::Invalid(invalid(message.as_str())))
    }
}

/// Put what a client asks for in place of what a configuration says.
pub fn merge(config: AgentConfig, patch: &Json) -> (result: Result<AgentConfig, ConfigError>)
    ensures
        outcome(result) == merged(config@, patch@),
{
    match patch {
        Json::Object(fields) => {
            let ghost start = config@;
            let ghost model = patch@->Object_0;
            let mut current = config;
            let mut i: usize = 0;
            assert(model.take(0) =~= Seq::<(Seq<char>, JsonView)>::empty());
            while i < fields.len()
                invariant
                    i <= fields@.len(),
                    *patch == Json::Object(*fields),
                    model == patch@->Object_0,
                    fields_set(start, model.take(i as int)) == Ok::<
                        AgentConfigView,
                        ConfigErrorView,
                    >(current@),
                    start == config@,
                decreases fields@.len() - i,
            {
                proof {
                    assert(model.take(i + 1).drop_last() =~= model.take(i as int));
                    assert(model.take(i + 1).last() == (
                        fields@[i as int].0@,
                        fields@[i as int].1@,
                    ));
                }
                match set_field(current, fields[i].0.as_str(), &fields[i].1) {
                    Ok(changed) => {
                        current = changed;
                    },
                    Err(error) => {
                        proof {
                            lemma_fields_fail(start, model, i + 1);
                        }
                        return Err(error);
                    },
                }
                i += 1;
            }
            assert(model.take(i as int) =~= model);
            Ok(current)
        },
        _ => Err(ConfigError::Invalid(invalid("agent must be an object"))),
    }
}

/// Whether the texts of a configuration have the sizes that they may have.
pub fn has_valid_texts(config: &AgentConfig) -> (result: bool)
    ensures
        result == valid_texts(config@),
{
    !is_blank(config.model.as_str()) && byte_len(config.model.as_str()) <= MAX_MODEL_BYTES
        && byte_len(config.instructions.as_str()) <= MAX_INSTRUCTION_BYTES
}

/// The answer to a client whose texts have other sizes.
pub fn invalid_texts() -> (error: ApiError)
    ensures
        error@ == text_failure(),
{
    invalid("model must be 1-256 bytes; instructions must be at most 1024 bytes")
}

/// Check that a configuration may be used in the compatible form of the API, but
/// for its capabilities.
fn check_compatible(config: &AgentConfig) -> (result: Result<(), ApiError>)
    ensures
        match result {
            Ok(_) => forall|sizes: Seq<nat>, schemas: Seq<bool>| #[trigger]
                config_refusal(config@, sizes, schemas) == if valid_capabilities(
                    config@,
                    sizes,
                    schemas,
                ) {
                    None
                } else {
                    Some(capability_failure())
                },
            Err(error) => forall|sizes: Seq<nat>, schemas: Seq<bool>| #[trigger]
                config_refusal(config@, sizes, schemas) == Some(error@),
        },
{
    assert(config@.mcp_servers.len() == config.mcp_servers@.len());
    let compatible = match &config.reasoning {
        Some(reasoning) => is_compatible_effort(reasoning.effort.as_str()),
        None => true,
    };
    if !has_valid_texts(config) {
        Err(invalid_texts())
    } else if config.mcp_servers.len() > 0 {
        Err(invalid("saved MCP configurations are not supported on this API path"))
    } else if !compatible {
        Err(invalid("saved reasoning effort is not supported on this API path"))
    } else {
        Ok(())
    }
}

/// What a client is told of a configuration that is refused. `problem` says what
/// is wrong with the form of a document; it is not used where the refusal has a
/// message of its own.
pub fn refused(error: ConfigError, problem: &str) -> (told: ApiError)
    ensures
        told@ == refusal_told(error@, problem@),
{
    match error {
        ConfigError::Invalid(error) => error,
        ConfigError::MalformedTool(_) => invalid(problem),
        ConfigError::MalformedReasoning(_) => invalid(problem),
    }
}

/// Check that a configuration may be used in the compatible form of the API.
/// `sizes` are the bytes that the definitions of its functions take; `schemas`
/// tell which of their parameters are a supported JSON Schema.
pub fn check_sized(config: &AgentConfig, sizes: &Vec<usize>, schemas: &Vec<bool>) -> (result:
    Result<(), ApiError>)
    ensures
        verdict(result) == match config_refusal(config@, lengths(sizes@), schemas@) {
            Some(error) => Err::<(), ApiErrorView>(error),
            None => Ok(()),
        },
{
    match check_compatible(config) {
        Err(error) => Err(error),
        Ok(_) => validate_sized(config, sizes, schemas),
    }
}

/// The configuration that a client asks for, if it may be used. `schemas` tell
/// which of the parameters of its functions are a supported JSON Schema.
pub fn configure(config: AgentConfig, patch: &Json, schemas: &Vec<bool>) -> (result: Result<
    AgentConfig,
    ConfigError,
>)
    ensures
        outcome(result) == configured(config@, patch@, schemas@),
{
    match merge(config, patch) {
        Err(error) => Err(error),
        Ok(config) => match check_compatible(&config) {
            Err(error) => {
                assert(config_refusal(config@, tool_sizes(config@.tools), schemas@) == Some(
                    error@,
                ));
                Err(ConfigError::Invalid(error))
            },
            Ok(_) => {
                let ghost refusal = config_refusal(
                    config@,
                    tool_sizes(config@.tools),
                    schemas@,
                );
                match validate(&config, schemas) {
                    Err(error) => {
                        assert(refusal == Some(error@));
                        Err(ConfigError::Invalid(error))
                    },
                    Ok(_) => {
                        assert(refusal is None);
                        Ok(config)
                    },
                }
            },
        },
    }
}

} // verus!
