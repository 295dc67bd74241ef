//! What an agent may be allowed to do.
use crate::error::bad_request;
use crate::error::invalid;
use crate::error::ApiError;
use crate::error::ApiErrorView;
use crate::json::list;
use crate::json::object;
use crate::json::Json;
use crate::json::JsonView;
use crate::model::outcome;
use crate::model::verdict;
use crate::model::views;
use crate::outside::compact;
use crate::outside::compact_text;
use crate::resources::AgentConfig;
use crate::resources::AgentConfigView;
use crate::resources::Environment;
use crate::resources::EnvironmentView;
use crate::resources::FunctionTool;
use crate::resources::FunctionToolView;
use crate::resources::McpSelection;
use crate::resources::McpSelectionView;
use crate::text::byte_len;
use crate::text::characters;
use crate::text::joined;
use crate::text::same;
use crate::text::starts_with;
use crate::text::utf8_len;
use vstd::prelude::*;

verus! {

/// Whether `c` may stand in the name of a tool or a server.
pub open spec fn name_char(c: char) -> bool {
    ||| 'a' <= c <= 'z'
    ||| 'A' <= c <= 'Z'
    ||| '0' <= c <= '9'
    ||| c == '_'
    ||| c == '-'
}

/// A name of 1 to 128 letters, digits, underscores and hyphens.
pub open spec fn is_identifier(value: Seq<char>) -> bool {
    &&& 1 <= value.len() <= 128
    &&& forall|i: int| 0 <= i < value.len() ==> name_char(#[trigger] value[i])
}

/// Whether `value` is a name of 1 to 128 letters, digits, underscores and
/// hyphens.
pub fn identifier(value: &str) -> (result: bool)
    ensures
        result == is_identifier(value@),
{
    let chars = characters(value);
    if chars.len() == 0 || chars.len() > 128 {
        return false;
    }
    let mut i: usize = 0;
    while i < chars.len()
        invariant
            i <= chars@.len(),
            chars@ == value@,
            forall|j: int| 0 <= j < i ==> name_char(#[trigger] value@[j]),
        decreases chars@.len() - i,
    {
        let c = chars[i];
        if !(('a' <= c && c <= 'z') || ('A' <= c && c <= 'Z') || ('0' <= c && c <= '9') || c == '_'
            || c == '-') {
            assert(!name_char(value@[i as int]));
            return false;
        }
        i += 1;
    }
    true
}

/// The most functions, and the most MCP servers, that an agent may have.
pub const MAX_CAPABILITIES: usize = 16;

/// The most bytes that the definition of a function may take.
pub const MAX_DEFINITION_BYTES: usize = 1024;

/// The most tools of one MCP server that an agent may be allowed.
pub const MAX_ALLOWED_TOOLS: usize = 32;

/// Whether a name is kept for MCP tools.
pub open spec fn is_reserved(name: Seq<char>) -> bool {
    name == "mcp"@ || "mcp__"@.is_prefix_of(name)
}

/// The definition of a function as a document.
pub open spec fn tool_document(tool: FunctionToolView) -> JsonView {
    object().entry("name"@, JsonView::Text(tool.name)).entry(
        "description"@,
        JsonView::Text(tool.description),
    ).entry("parameters"@, tool.parameters)
}

/// The bytes that the definition of a function takes.
pub open spec fn tool_size(tool: FunctionToolView) -> nat {
    utf8_len(compact_text(tool_document(tool)))
}

/// Whether an agent may have a function whose definition takes `size` bytes;
/// `schema` tells whether its parameters are a supported JSON Schema.
pub open spec fn valid_tool(tool: FunctionToolView, size: nat, schema: bool) -> bool {
    &&& is_identifier(tool.name)
    &&& !is_reserved(tool.name)
    &&& size <= MAX_DEFINITION_BYTES
    &&& tool.parameters.get("type"@) == Some(JsonView::Text("object"@))
    &&& schema
}

/// Whether no text occurs twice.
pub open spec fn all_distinct(texts: Seq<Seq<char>>) -> bool {
    forall|i: int, j: int| 0 <= i < j < texts.len() ==> #[trigger] texts[i] != #[trigger] texts[j]
}

/// Whether an agent may be allowed the tools of an MCP server.
pub open spec fn valid_selection(selection: McpSelectionView) -> bool {
    &&& is_identifier(selection.server)
    &&& selection.allowed_tools.len() <= MAX_ALLOWED_TOOLS
    &&& forall|i: int|
        0 <= i < selection.allowed_tools.len() ==> is_identifier(
            #[trigger] selection.allowed_tools[i],
        )
    &&& all_distinct(selection.allowed_tools)
}

/// Whether a model may be asked to reason this much.
pub open spec fn known_effort(effort: Seq<char>) -> bool {
    compatible_effort(effort) || effort == "ultra"@ || effort == "persistent"@
}

/// Whether a model may be asked to reason this much in the compatible form of
/// the API.
pub open spec fn compatible_effort(effort: Seq<char>) -> bool {
    ||| effort == "none"@
    ||| effort == "minimal"@
    ||| effort == "low"@
    ||| effort == "medium"@
    ||| effort == "high"@
    ||| effort == "xhigh"@
    ||| effort == "max"@
}

/// The names of functions.
pub open spec fn tool_names(tools: Seq<FunctionToolView>) -> Seq<Seq<char>> {
    tools.map_values(|tool: FunctionToolView| tool.name)
}

/// The names of MCP servers.
pub open spec fn server_names(selections: Seq<McpSelectionView>) -> Seq<Seq<char>> {
    selections.map_values(|selection: McpSelectionView| selection.server)
}

/// The bytes that the definitions of functions take.
pub open spec fn tool_sizes(tools: Seq<FunctionToolView>) -> Seq<nat> {
    tools.map_values(|tool: FunctionToolView| tool_size(tool))
}

/// The sizes as mathematical numbers.
pub open spec fn lengths(sizes: Seq<usize>) -> Seq<nat> {
    sizes.map_values(|size: usize| size as nat)
}

/// Whether an agent may have these functions. `sizes` are the bytes that their
/// definitions take; `schemas` tell which of their parameters are a supported
/// JSON Schema.
pub open spec fn valid_tools(
    tools: Seq<FunctionToolView>,
    sizes: Seq<nat>,
    schemas: Seq<bool>,
) -> bool {
    &&& tools.len() <= sizes.len()
    &&& tools.len() <= schemas.len()
    &&& forall|i: int|
        0 <= i < tools.len() ==> valid_tool(#[trigger] tools[i], sizes[i], schemas[i])
    &&& all_distinct(tool_names(tools))
}

/// Whether an agent may be allowed the tools of these MCP servers.
pub open spec fn valid_selections(selections: Seq<McpSelectionView>) -> bool {
    &&& forall|i: int| 0 <= i < selections.len() ==> valid_selection(#[trigger] selections[i])
    &&& all_distinct(server_names(selections))
}

/// Whether an agent may have these capabilities. `sizes` are the bytes that the
/// definitions of its functions take; `schemas` tell which of their parameters
/// are a supported JSON Schema.
pub open spec fn valid_capabilities(
    config: AgentConfigView,
    sizes: Seq<nat>,
    schemas: Seq<bool>,
) -> bool {
    &&& config.tools.len() <= MAX_CAPABILITIES
    &&& config.mcp_servers.len() <= MAX_CAPABILITIES
    &&& valid_tools(config.tools, sizes, schemas)
    &&& valid_selections(config.mcp_servers)
    &&& config.reasoning is Some ==> known_effort(config.reasoning->0.effort)
}

/// The answer to a client that asks for capabilities which an agent may not
/// have.
pub open spec fn capability_failure() -> ApiErrorView {
    bad_request("invalid or oversized agent capabilities"@)
}

/// Whether a name is kept for MCP tools.
fn reserved(name: &str) -> (result: bool)
    ensures
        result == is_reserved(name@),
{
    same(name, "mcp") || starts_with(name, "mcp__")
}

/// Whether no text occurs twice.
fn are_distinct(texts: &Vec<String>) -> (result: bool)
    ensures
        result == all_distinct(views(texts@)),
{
    let ghost model = views(texts@);
    let mut i: usize = 0;
    while i < texts.len()
        invariant
            i <= texts@.len(),
            model == views(texts@),
            forall|a: int, b: int| 0 <= a < b < i ==> #[trigger] model[a] != #[trigger] model[b],
        decreases texts@.len() - i,
    {
        let mut j: usize = 0;
        while j < i
            invariant
                j <= i < texts@.len(),
                model == views(texts@),
                forall|a: int| 0 <= a < j ==> #[trigger] model[a] != model[i as int],
            decreases i - j,
        {
            assert(model[j as int] == texts@[j as int]@ && model[i as int] == texts@[i as int]@);
            if same(texts[j].as_str(), texts[i].as_str()) {
                return false;
            }
            j += 1;
        }
        i += 1;
    }
    true
}

/// Whether an agent may be allowed the tools of an MCP server.
fn is_valid_selection(selection: &McpSelection) -> (result: bool)
    ensures
        result == valid_selection(selection@),
{
    let ghost tools = selection@.allowed_tools;
    if !identifier(selection.server.as_str()) || selection.allowed_tools.len()
        > MAX_ALLOWED_TOOLS {
        return false;
    }
    let mut i: usize = 0;
    while i < selection.allowed_tools.len()
        invariant
            i <= selection.allowed_tools@.len(),
            tools == views(selection.allowed_tools@),
            tools == selection@.allowed_tools,
            forall|j: int| 0 <= j < i ==> is_identifier(#[trigger] tools[j]),
        decreases selection.allowed_tools@.len() - i,
    {
        assert(tools[i as int] == selection.allowed_tools@[i as int]@);
        if !identifier(selection.allowed_tools[i].as_str()) {
            return false;
        }
        i += 1;
    }
    are_distinct(&selection.allowed_tools)
}

/// Whether a model may be asked to reason this much in the compatible form of
/// the API.
pub fn is_compatible_effort(effort: &str) -> (result: bool)
    ensures
        result == compatible_effort(effort@),
{
    same(effort, "none") || same(effort, "minimal") || same(effort, "low") || same(
        effort,
        "medium",
    ) || same(effort, "high") || same(effort, "xhigh") || same(effort, "max")
}

/// Whether an agent may have the functions that it has, given the bytes that
/// their definitions take and whether their parameters are supported.
fn are_valid_tools(tools: &Vec<FunctionTool>, sizes: &Vec<usize>, schemas: &Vec<bool>) -> (result:
    bool)
    ensures
        result == valid_tools(
            views(tools@),
            lengths(sizes@),
            schemas@,
        ),
{
    let ghost model = views(tools@);
    let ghost measured = lengths(sizes@);
    if sizes.len() < tools.len() || schemas.len() < tools.len() {
        return false;
    }
    let mut names: Vec<String> = Vec::new();
    let mut i: usize = 0;
    while i < tools.len()
        invariant
            i <= tools@.len(),
            i == names@.len(),
            model == views(tools@),
            measured == lengths(sizes@),
            forall|j: int| 0 <= j < i ==> (#[trigger] names@[j])@ == model[j].name,
            tools@.len() <= sizes@.len(),
            tools@.len() <= schemas@.len(),
            forall|j: int|
                0 <= j < i ==> valid_tool(#[trigger] model[j], measured[j], schemas@[j]),
        decreases tools@.len() - i,
    {
        let tool = &tools[i];
        assert(model[i as int] == tool@);
        assert(measured[i as int] == sizes@[i as int]);
        let typed = match tool.parameters.get("type") {
            Some(kind) => kind.is_text("object"),
            None => false,
        };
        if !identifier(tool.name.as_str()) || reserved(tool.name.as_str()) || sizes[i] > MAX_DEFINITION_BYTES || !typed || !schemas[i] {
            return false;
        }
        names.push(tool.name.clone());
        i += 1;
    }
    assert(views(names@) =~= tool_names(model));
    are_distinct(&names)
}

/// Whether an agent may be allowed the MCP servers that it names.
fn are_valid_selections(selections: &Vec<McpSelection>) -> (result: bool)
    ensures
        result == valid_selections(views(selections@)),
{
    let ghost model = views(selections@);
    let mut names: Vec<String> = Vec::new();
    let mut i: usize = 0;
    while i < selections.len()
        invariant
            i <= selections@.len(),
            i == names@.len(),
            model == views(selections@),
            forall|j: int| 0 <= j < i ==> (#[trigger] names@[j])@ == model[j].server,
            forall|j: int| 0 <= j < i ==> valid_selection(#[trigger] model[j]),
        decreases selections@.len() - i,
    {
        assert(model[i as int] == selections@[i as int]@);
        if !is_valid_selection(&selections[i]) {
            return false;
        }
        names.push(selections[i].server.clone());
        i += 1;
    }
    assert(views(names@) =~= server_names(model));
    are_distinct(&names)
}

/// Check that an agent may have the capabilities that it asks for. `sizes` are
/// the bytes that the definitions of its functions take; `schemas` tell which of
/// their parameters are a supported JSON Schema.
pub fn validate_sized(config: &AgentConfig, sizes: &Vec<usize>, schemas: &Vec<bool>) -> (result:
    Result<(), ApiError>)
    ensures
        verdict(result) == if valid_capabilities(
            config@,
            lengths(sizes@),
            schemas@,
        ) {
            Ok::<(), ApiErrorView>(())
        } else {
            Err(capability_failure())
        },
{
    let known = match &config.reasoning {
        Some(reasoning) => {
            let effort = reasoning.effort.as_str();
            is_compatible_effort(effort) || same(effort, "ultra") || same(effort, "persistent")
        },
        None => true,
    };
    if config.tools.len() > MAX_CAPABILITIES || config.mcp_servers.len() > MAX_CAPABILITIES
        || !are_valid_tools(&config.tools, sizes, schemas) || !are_valid_selections(
        &config.mcp_servers,
    ) || !known {
        Err(invalid("invalid or oversized agent capabilities"))
    } else {
        Ok(())
    }
}

/// The bytes that the definitions of functions take.
fn measure(tools: &Vec<FunctionTool>) -> (sizes: Vec<usize>)
    ensures
        lengths(sizes@) == tool_sizes(views(tools@)),
{
    let ghost model = views(tools@);
    let mut sizes: Vec<usize> = Vec::new();
    let mut i: usize = 0;
    while i < tools.len()
        invariant
            i <= tools@.len(),
            i == sizes@.len(),
            model == views(tools@),
            forall|j: int| 0 <= j < i ==> #[trigger] sizes@[j] == tool_size(model[j]),
        decreases tools@.len() - i,
    {
        let tool = &tools[i];
        assert(model[i as int] == tool@);
        let definition = Json::object()
            .entry("name", Json::string(tool.name.as_str()))
            .entry("description", Json::string(tool.description.as_str()))
            .entry("parameters", tool.parameters.copy());
        sizes.push(byte_len(compact(&definition).as_str()));
        i += 1;
    }
    assert(lengths(sizes@) =~= tool_sizes(model));
    sizes
}

/// Check that an agent may have the capabilities that it asks for. `schemas`
/// tell which of the parameters of its functions are a supported JSON Schema.
pub fn validate(config: &AgentConfig, schemas: &Vec<bool>) -> (result: Result<(), ApiError>)
    ensures
        verdict(result) == if valid_capabilities(config@, tool_sizes(config@.tools), schemas@) {
            Ok::<(), ApiErrorView>(())
        } else {
            Err(capability_failure())
        },
{
    let sizes = measure(&config.tools);
    validate_sized(config, &sizes, schemas)
}

/// What the backend is asked of its configuration for an environment.
pub open spec fn config_params(environment: EnvironmentView) -> JsonView {
    object().entry(
        "cwd"@,
        match environment {
            EnvironmentView::Nowhere => JsonView::Null,
            EnvironmentView::Local { cwd } => JsonView::Text(cwd),
        },
    )
}

/// The MCP servers of the backend's configuration.
pub open spec fn configured_servers(effective: JsonView) -> Seq<(Seq<char>, JsonView)> {
    match effective.field("config"@).field("mcp_servers"@) {
        JsonView::Object(servers) => servers,
        _ => Seq::empty(),
    }
}

/// Whether a document is an array with an element.
pub open spec fn lists(document: Option<JsonView>, element: JsonView) -> bool {
    document is Some && document->0 is Array && document->0->Array_0.contains(element)
}

/// Whether a server's configuration keeps a tool from being used.
pub open spec fn tool_denied(server: JsonView, tool: Seq<char>) -> bool {
    let enabled = server.get("enabled_tools"@);
    ||| enabled is Some && enabled->0 is Array && !lists(enabled, JsonView::Text(tool))
    ||| lists(server.get("disabled_tools"@), JsonView::Text(tool))
}

/// Whether a selection asks for more than a server's configuration allows.
pub open spec fn exceeds_policy(server: JsonView, selection: McpSelectionView) -> bool {
    ||| server.get("enabled"@) == Some(JsonView::Bool(false))
    ||| exists|i: int|
        0 <= i < selection.allowed_tools.len() && tool_denied(
            server,
            #[trigger] selection.allowed_tools[i],
        )
}

/// Why a selection is refused, if it is.
pub open spec fn selection_failure(
    servers: Seq<(Seq<char>, JsonView)>,
    selection: McpSelectionView,
) -> Option<ApiErrorView> {
    match JsonView::Object(servers).get(selection.server) {
        None => Some(bad_request("unknown MCP server: "@ + selection.server)),
        Some(server) => if exceeds_policy(server, selection) {
            Some(bad_request("MCP selection exceeds server-side policy"@))
        } else {
            None
        },
    }
}

/// Why the first selection that is refused is refused.
pub open spec fn first_failure(
    servers: Seq<(Seq<char>, JsonView)>,
    selections: Seq<McpSelectionView>,
) -> Option<ApiErrorView>
    decreases selections.len(),
{
    if selections.len() == 0 {
        None
    } else {
        match first_failure(servers, selections.drop_last()) {
            Some(error) => Some(error),
            None => selection_failure(servers, selections.last()),
        }
    }
}

/// The first selection of a server.
pub open spec fn selection_of(selections: Seq<McpSelectionView>, server: Seq<char>) -> Option<
    McpSelectionView,
>
    decreases selections.len(),
{
    if selections.len() == 0 {
        None
    } else {
        match selection_of(selections.drop_last(), server) {
            Some(selection) => Some(selection),
            None => if selections.last().server == server {
                Some(selections.last())
            } else {
                None
            },
        }
    }
}

/// The array of texts.
pub open spec fn text_list(texts: Seq<Seq<char>>) -> JsonView
    decreases texts.len(),
{
    if texts.len() == 0 {
        list()
    } else {
        text_list(texts.drop_last()).item(JsonView::Text(texts.last()))
    }
}

/// What a thread may use of a server: the tools that are selected, or nothing.
pub open spec fn server_policy(selections: Seq<McpSelectionView>, server: Seq<char>) -> JsonView {
    match selection_of(selections, server) {
        Some(selection) => object().entry("enabled"@, JsonView::Bool(true)).entry(
            "enabled_tools"@,
            text_list(selection.allowed_tools),
        ),
        None => object().entry("enabled"@, JsonView::Bool(false)),
    }
}

/// What a thread may use of each server.
pub open spec fn server_policies(
    servers: Seq<(Seq<char>, JsonView)>,
    selections: Seq<McpSelectionView>,
) -> Seq<(Seq<char>, JsonView)> {
    servers.map_values(
        |server: (Seq<char>, JsonView)| (server.0, server_policy(selections, server.0)),
    )
}

/// What a thread's configuration overrides, given the names of the configured
/// servers: every source of capabilities that the agent does not select is off.
pub open spec fn thread_config(
    config: AgentConfigView,
    servers: Seq<(Seq<char>, JsonView)>,
) -> JsonView {
    let policy = object().entry(
        "mcp_servers"@,
        JsonView::Object(server_policies(servers, config.mcp_servers)),
    ).entry("features.plugins"@, JsonView::Bool(false)).entry(
        "features.apps"@,
        JsonView::Bool(false),
    ).entry("features.enable_mcp_apps"@, JsonView::Bool(false)).entry(
        "web_search"@,
        JsonView::Text("disabled"@),
    ).entry("agents.enabled"@, JsonView::Bool(false)).entry(
        "features.multi_agent_v2"@,
        JsonView::Bool(false),
    ).entry("tools.experimental_request_user_input.enabled"@, JsonView::Bool(false));
    match config.reasoning {
        Some(reasoning) => policy.entry(
            "model_reasoning_effort"@,
            JsonView::Text(reasoning.effort),
        ),
        None => policy,
    }
}

/// What a thread's configuration overrides, given the backend's configuration.
pub open spec fn overriding(config: AgentConfigView, effective: JsonView) -> Result<
    JsonView,
    ApiErrorView,
> {
    let servers = configured_servers(effective);
    match first_failure(servers, config.mcp_servers) {
        Some(error) => Err(error),
        None => Ok(thread_config(config, servers)),
    }
}

/// What the backend is asked of its configuration for an environment.
pub fn config_request(environment: &Environment) -> (params: Json)
    ensures
        params@ == config_params(environment@),
{
    let cwd = match environment {
        Environment::Nowhere => Json::Null,
        Environment::Local { cwd } => Json::string(cwd.as_str()),
    };
    Json::object().entry("cwd", cwd)
}

/// Whether a document is an array with the text as an element.
fn lists_text(document: Option<&Json>, text: &str) -> (result: bool)
    ensures
        result == lists(
            match document {
                Some(json) => Some(json@),
                None => None,
            },
            JsonView::Text(text@),
        ),
{
    match document {
        Some(json) => match json {
            Json::Array(items) => {
                let ghost model = json@->Array_0;
                let mut i: usize = 0;
                while i < items.len()
                    invariant
                        i <= items@.len(),
                        document == Some(json),
                        *json == Json::Array(*items),
                        model == json@->Array_0,
                        forall|j: int| 0 <= j < i ==> #[trigger] model[j] != JsonView::Text(text@),
                    decreases items@.len() - i,
                {
                    assert(model[i as int] == items@[i as int]@);
                    if items[i].is_text(text) {
                        assert(model.contains(JsonView::Text(text@)));
                        return true;
                    }
                    i += 1;
                }
                false
            },
            _ => false,
        },
        None => false,
    }
}

/// Whether a server's configuration keeps a tool from being used.
fn is_tool_denied(server: &Json, tool: &str) -> (result: bool)
    ensures
        result == tool_denied(server@, tool@),
{
    let enabled = server.get("enabled_tools");
    let filtered = match enabled {
        Some(json) => match json {
            Json::Array(_) => true,
            _ => false,
        },
        None => false,
    };
    (filtered && !lists_text(enabled, tool)) || lists_text(server.get("disabled_tools"), tool)
}

/// Whether a selection asks for more than a server's configuration allows.
fn exceeds(server: &Json, selection: &McpSelection) -> (result: bool)
    ensures
        result == exceeds_policy(server@, selection@),
{
    match server.get("enabled") {
        Some(enabled) => {
            if enabled.is_false() {
                return true;
            }
        },
        None => {},
    }
    let ghost tools = selection@.allowed_tools;
    let mut i: usize = 0;
    while i < selection.allowed_tools.len()
        invariant
            i <= selection.allowed_tools@.len(),
            tools == views(selection.allowed_tools@),
            tools == selection@.allowed_tools,
            forall|j: int| 0 <= j < i ==> !tool_denied(server@, #[trigger] tools[j]),
        decreases selection.allowed_tools@.len() - i,
    {
        assert(tools[i as int] == selection.allowed_tools@[i as int]@);
        if is_tool_denied(server, selection.allowed_tools[i].as_str()) {
            return true;
        }
        i += 1;
    }
    false
}

/// Check the selections against the configured servers.
fn check_selections(servers: &Json, selections: &Vec<McpSelection>) -> (result: Result<
    (),
    ApiError,
>)
    requires
        servers@ is Object,
    ensures
        match result {
            Ok(_) => first_failure(servers@->Object_0, views(selections@)) is None,
            Err(error) => first_failure(servers@->Object_0, views(selections@)) == Some(error@),
        },
{
    let ghost model = views(selections@);
    let ghost fields = servers@->Object_0;
    let mut i: usize = 0;
    assert(model.take(0) =~= Seq::<McpSelectionView>::empty());
    while i < selections.len()
        invariant
            i <= selections@.len(),
            model == views(selections@),
            servers@ is Object,
            fields == servers@->Object_0,
            first_failure(fields, model.take(i as int)) is None,
        decreases selections@.len() - i,
    {
        let selection = &selections[i];
        proof {
            assert(model.take(i + 1).drop_last() =~= model.take(i as int));
            assert(model.take(i + 1).last() == selection@);
            assert(servers@ == JsonView::Object(fields));
        }
        let error = match servers.get(selection.server.as_str()) {
            None => Some(
                invalid(joined("unknown MCP server: ", selection.server.as_str()).as_str()),
            ),
            Some(server) => if exceeds(server, selection) {
                Some(invalid("MCP selection exceeds server-side policy"))
            } else {
                None
            },
        };
        match error {
            Some(error) => {
                proof {
                    lemma_first_failure(fields, model, i + 1);
                }
                return Err(error);
            },
            None => {},
        }
        i += 1;
    }
    assert(model.take(i as int) =~= model);
    Ok(())
}

/// The failure of the first selections is the first failure of all.
proof fn lemma_first_failure(
    servers: Seq<(Seq<char>, JsonView)>,
    selections: Seq<McpSelectionView>,
    n: int,
)
    requires
        0 <= n <= selections.len(),
        first_failure(servers, selections.take(n)) is Some,
    ensures
        first_failure(servers, selections) == first_failure(servers, selections.take(n)),
    decreases selections.len(),
{
    if n == selections.len() {
        assert(selections.take(n) =~= selections);
    } else {
        assert(selections.drop_last().take(n) =~= selections.take(n));
        lemma_first_failure(servers, selections.drop_last(), n);
    }
}

/// The selection among the first ones is the selection among all.
proof fn lemma_selection_of(selections: Seq<McpSelectionView>, server: Seq<char>, n: int)
    requires
        0 <= n <= selections.len(),
        selection_of(selections.take(n), server) is Some,
    ensures
        selection_of(selections, server) == selection_of(selections.take(n), server),
    decreases selections.len(),
{
    if n == selections.len() {
        assert(selections.take(n) =~= selections);
    } else {
        assert(selections.drop_last().take(n) =~= selections.take(n));
        lemma_selection_of(selections.drop_last(), server, n);
    }
}

/// The array of texts.
fn document_of_texts(texts: &Vec<String>) -> (json: Json)
    ensures
        json@ == text_list(views(texts@)),
{
    let ghost model = views(texts@);
    let mut json = Json::list();
    let mut i: usize = 0;
    assert(model.take(0) =~= Seq::<Seq<char>>::empty());
    while i < texts.len()
        invariant
            i <= texts@.len(),
            model == views(texts@),
            json@ == text_list(model.take(i as int)),
        decreases texts@.len() - i,
    {
        proof {
            assert(model.take(i + 1).drop_last() =~= model.take(i as int));
            assert(model.take(i + 1).last() == texts@[i as int]@);
        }
        json = json.item(Json::string(texts[i].as_str()));
        i += 1;
    }
    assert(model.take(i as int) =~= model);
    json
}

/// What a thread may use of a server.
fn policy_of_server(selections: &Vec<McpSelection>, server: &str) -> (json: Json)
    ensures
        json@ == server_policy(views(selections@), server@),
{
    let ghost model = views(selections@);
    let mut i: usize = 0;
    assert(model.take(0) =~= Seq::<McpSelectionView>::empty());
    while i < selections.len()
        invariant
            i <= selections@.len(),
            model == views(selections@),
            selection_of(model.take(i as int), server@) is None,
        decreases selections@.len() - i,
    {
        proof {
            assert(model.take(i + 1).drop_last() =~= model.take(i as int));
            assert(model.take(i + 1).last() == selections@[i as int]@);
        }
        if same(selections[i].server.as_str(), server) {
            proof {
                lemma_selection_of(model, server@, i + 1);
            }
            return Json::object().entry("enabled", Json::Bool(true)).entry(
                "enabled_tools",
                document_of_texts(&selections[i].allowed_tools),
            );
        }
        i += 1;
    }
    assert(model.take(i as int) =~= model);
    Json::object().entry("enabled", Json::Bool(false))
}

/// What a thread may use of each server.
fn policies_of_servers(servers: &Json, selections: &Vec<McpSelection>) -> (json: Json)
    requires
        servers@ is Object,
    ensures
        json@ == JsonView::Object(server_policies(servers@->Object_0, views(selections@))),
{
    let ghost model = servers@->Object_0;
    let mut policies: Vec<(String, Json)> = Vec::new();
    match servers {
        Json::Object(fields) => {
            let mut i: usize = 0;
            while i < fields.len()
                invariant
                    i <= fields@.len(),
                    i == policies@.len(),
                    *servers == Json::Object(*fields),
                    model == servers@->Object_0,
                    forall|j: int|
                        0 <= j < i ==> (#[trigger] policies@[j]).0@ == model[j].0
                            && policies@[j].1@ == server_policy(
                            views(selections@),
                            model[j].0,
                        ),
                decreases fields@.len() - i,
            {
                assert(model[i as int].0 == fields@[i as int].0@);
                let name = fields[i].0.clone();
                let policy = policy_of_server(selections, name.as_str());
                policies.push((name, policy));
                i += 1;
            }
        },
        _ => {},
    }
    let json = Json::Object(policies);
    assert(json@->Object_0 =~= server_policies(model, views(selections@)));
    json
}

/// What the configuration of a thread overrides, given the backend's own
/// configuration: only the tools that the agent selects may be used, and only
/// those that the backend allows may be selected.
pub fn overrides(config: &AgentConfig, effective: &Json) -> (result: Result<Json, ApiError>)
    ensures
        outcome(result) == overriding(config@, effective@),
{
    let nothing = Json::object();
    let configured = effective.field("config").field("mcp_servers");
    let servers = match configured {
        Json::Object(_) => configured,
        _ => &nothing,
    };
    assert(servers@->Object_0 == configured_servers(effective@));
    match check_selections(servers, &config.mcp_servers) {
        Err(error) => {
            return Err(error);
        },
        Ok(_) => {},
    }
    let policy = Json::object()
        .entry("mcp_servers", policies_of_servers(servers, &config.mcp_servers))
        .entry("features.plugins", Json::Bool(false))
        .entry("features.apps", Json::Bool(false))
        .entry("features.enable_mcp_apps", Json::Bool(false))
        .entry("web_search", Json::string("disabled"))
        .entry("agents.enabled", Json::Bool(false))
        .entry("features.multi_agent_v2", Json::Bool(false))
        .entry("tools.experimental_request_user_input.enabled", Json::Bool(false));
    Ok(
        match &config.reasoning {
            Some(reasoning) => policy.entry(
                "model_reasoning_effort",
                Json::string(reasoning.effort.as_str()),
            ),
            None => policy,
        },
    )
}

} // verus!
