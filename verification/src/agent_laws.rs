//! What holds of how agents are configured, and of what their threads may use.
use crate::capabilities::all_distinct;
use crate::capabilities::compatible_effort;
use crate::capabilities::configured_servers;
use crate::capabilities::first_failure;
use crate::capabilities::is_identifier;
use crate::capabilities::name_char;
use crate::capabilities::overriding;
use crate::capabilities::selection_failure;
use crate::capabilities::selection_of;
use crate::capabilities::server_names;
use crate::capabilities::text_list;
use crate::capabilities::tool_denied;
use crate::capabilities::tool_document;
use crate::capabilities::tool_names;
use crate::capabilities::tool_sizes;
use crate::capabilities::valid_capabilities;
use crate::capabilities::valid_selection;
use crate::capabilities::valid_tool;
use crate::config_laws::law_unselected_servers_are_off;
use crate::config_laws::lemma_present_applied;
use crate::config_laws::lemma_selection_found;
use crate::config_laws::lemma_tools_refusal;
use crate::config_laws::names_once;
use crate::contract::agent_document;
use crate::contract::config_refusal;
use crate::contract::configured;
use crate::contract::effort_in;
use crate::contract::field_set;
use crate::contract::merged;
use crate::contract::named_only;
use crate::contract::refusal_told;
use crate::contract::tool_in;
use crate::contract::tools_in;
use crate::contract::untagged;
use crate::contract::valid_texts;
use crate::input_laws::lemma_agent_shown;
use crate::input_laws::shows_agent;
use crate::json::first_named;
use crate::json::group_object_reads;
use crate::json::index_named;
use crate::json::JsonView;
use crate::json::lemma_named;
use crate::json::lemma_object_get;
use crate::json::lemma_without_get;
use crate::json::named;
use crate::json::object;
use crate::names::lemma_agent_names;
use crate::names::lemma_policy_names;
use crate::names::lemma_tool_names;
use crate::outside::compact_text;
use crate::records::number;
use crate::resources::AgentConfigView;
use crate::resources::AgentView;
use crate::resources::empty_config;
use crate::resources::FunctionToolView;
use crate::resources::McpSelectionView;
use crate::routes::agent_created;
use crate::routes::saved_agent_document;
use crate::resources::Agent;
use crate::store::StoreView;
use crate::table::lemma_put_lookup;
use crate::text::blank;
use crate::text::utf8_len;
use vstd::prelude::*;

verus! {

/// The names of the fields that an override may set differ.
proof fn lemma_override_names()
    ensures
        "model"@ != "instructions"@,
        "model"@ != "tools"@,
        "model"@ != "reasoning"@,
        "instructions"@ != "tools"@,
        "instructions"@ != "reasoning"@,
        "tools"@ != "reasoning"@,
{
    reveal_strlit("model");
    reveal_strlit("instructions");
    reveal_strlit("tools");
    reveal_strlit("reasoning");
    assert("model"@.len() == 5);
    assert("instructions"@.len() == 12);
    assert("tools"@.len() == 5);
    assert("reasoning"@.len() == 9);
    assert("model"@[0] != "tools"@[0]);
}

/// Whether a text may name something: 1 to 128 letters, digits, underscores and
/// hyphens.
pub open spec fn may_name(name: Seq<char>) -> bool {
    &&& 1 <= name.len() <= 128
    &&& forall|i: int|
        0 <= i < name.len() ==> {
            let c = #[trigger] name[i];
            ||| 'a' <= c && c <= 'z'
            ||| 'A' <= c && c <= 'Z'
            ||| '0' <= c && c <= '9'
            ||| c == '_' || c == '-'
        }
}

/// Whether a function may be offered: its definition takes at most 1024 bytes, its
/// name is none that MCP keeps for itself, and it takes an object.
pub open spec fn may_be_offered(tool: FunctionToolView, size: nat, schema: bool) -> bool {
    &&& may_name(tool.name)
    &&& tool.name != "mcp"@
    &&& !(tool.name.len() >= 5 && tool.name.take(5) == "mcp__"@)
    &&& size <= 1024
    &&& tool.parameters.get("type"@) == Some(JsonView::Text("object"@))
    &&& schema
}

/// Whether a server may be selected: with at most 32 tools, none of them twice.
pub open spec fn may_be_selected(selection: McpSelectionView) -> bool {
    &&& may_name(selection.server)
    &&& selection.allowed_tools.len() <= 32
    &&& forall|i: int|
        0 <= i < selection.allowed_tools.len() ==> may_name(#[trigger] selection.allowed_tools[i])
    &&& selection.allowed_tools.no_duplicates()
}

/// Whether an effort is one of those that every route takes.
pub open spec fn common_effort(effort: Seq<char>) -> bool {
    seq!["none"@, "minimal"@, "low"@, "medium"@, "high"@, "xhigh"@, "max"@].contains(effort)
}

/// Whether an agent may be saved: with a model of at most 256 bytes that is not
/// blank, instructions of at most 1024 bytes, and at most 16 functions and 16 servers
/// that may be offered and selected, none of them twice.
pub open spec fn may_be_saved(
    config: AgentConfigView,
    sizes: Seq<nat>,
    schemas: Seq<bool>,
) -> bool {
    let tools = config.tools;
    let servers = config.mcp_servers;
    &&& !blank(config.model)
    &&& utf8_len(config.model) <= 256
    &&& utf8_len(config.instructions) <= 1024
    &&& tools.len() <= 16
    &&& forall|i: int|
        0 <= i < tools.len() ==> may_be_offered(#[trigger] tools[i], sizes[i], schemas[i])
    &&& forall|i: int, j: int|
        0 <= i < tools.len() && 0 <= j < tools.len() && i != j ==> (#[trigger] tools[i]).name != (
        #[trigger] tools[j]).name
    &&& servers.len() <= 16
    &&& forall|i: int| 0 <= i < servers.len() ==> may_be_selected(#[trigger] servers[i])
    &&& forall|i: int, j: int|
        0 <= i < servers.len() && 0 <= j < servers.len() && i != j ==> (
        #[trigger] servers[i]).server != (#[trigger] servers[j]).server
    &&& config.reasoning is Some ==> {
        let effort = config.reasoning->0.effort;
        common_effort(effort) || effort == "ultra"@ || effort == "persistent"@
    }
}

/// What a name may be.
proof fn lemma_may_name(name: Seq<char>)
    ensures
        is_identifier(name) == may_name(name),
{
    if is_identifier(name) {
        assert forall|i: int| 0 <= i < name.len() implies {
            let c = #[trigger] name[i];
            ||| 'a' <= c && c <= 'z'
            ||| 'A' <= c && c <= 'Z'
            ||| '0' <= c && c <= '9'
            ||| c == '_' || c == '-'
        } by {
            assert(name_char(name[i]));
        }
    }
}

/// Which functions may be offered.
proof fn lemma_may_be_offered(tool: FunctionToolView, size: nat, schema: bool)
    ensures
        valid_tool(tool, size, schema) == may_be_offered(tool, size, schema),
{
    lemma_may_name(tool.name);
    reveal_strlit("mcp__");
    assert("mcp__"@.len() == 5);
    if tool.name.len() >= 5 {
        assert("mcp__"@.is_prefix_of(tool.name) == ("mcp__"@ =~= tool.name.take(5)));
    }
}

/// Which servers may be selected.
proof fn lemma_may_be_selected(selection: McpSelectionView)
    ensures
        valid_selection(selection) == may_be_selected(selection),
{
    let tools = selection.allowed_tools;
    lemma_may_name(selection.server);
    assert forall|i: int| 0 <= i < tools.len() implies is_identifier(#[trigger] tools[i])
        == may_name(tools[i]) by {
        lemma_may_name(tools[i]);
    }
    if all_distinct(tools) {
        assert forall|i: int, j: int| 0 <= i < tools.len() && 0 <= j < tools.len() && i
            != j implies tools[i] != tools[j] by {
            if i < j {
                assert(tools[i] != tools[j]);
            } else {
                assert(tools[j] != tools[i]);
            }
        }
    }
}

/// Which efforts every route takes.
proof fn lemma_common_effort(effort: Seq<char>)
    ensures
        compatible_effort(effort) == common_effort(effort),
{
    let efforts = seq!["none"@, "minimal"@, "low"@, "medium"@, "high"@, "xhigh"@, "max"@];
    assert(efforts[0] == "none"@ && efforts[1] == "minimal"@ && efforts[2] == "low"@);
    assert(efforts[3] == "medium"@ && efforts[4] == "high"@ && efforts[5] == "xhigh"@);
    assert(efforts[6] == "max"@);
}

/// The functions and servers of an agent that may be saved are valid.
proof fn lemma_capabilities(config: AgentConfigView, sizes: Seq<nat>, schemas: Seq<bool>)
    requires
        sizes.len() == config.tools.len(),
        schemas.len() == config.tools.len(),
    ensures
        (valid_texts(config) && valid_capabilities(config, sizes, schemas)) == may_be_saved(
            config,
            sizes,
            schemas,
        ),
{
    let tools = config.tools;
    let servers = config.mcp_servers;
    assert forall|i: int| 0 <= i < tools.len() implies valid_tool(
        #[trigger] tools[i],
        sizes[i],
        schemas[i],
    ) == may_be_offered(tools[i], sizes[i], schemas[i]) by {
        lemma_may_be_offered(tools[i], sizes[i], schemas[i]);
    }
    assert forall|i: int| 0 <= i < servers.len() implies valid_selection(#[trigger] servers[i])
        == may_be_selected(servers[i]) by {
        lemma_may_be_selected(servers[i]);
    }
    if config.reasoning is Some {
        lemma_common_effort(config.reasoning->0.effort);
    }
    let names = tool_names(tools);
    let others = server_names(servers);
    if all_distinct(names) {
        assert forall|i: int, j: int|
            0 <= i < tools.len() && 0 <= j < tools.len() && i != j implies (
        #[trigger] tools[i]).name != (#[trigger] tools[j]).name by {
            if i < j {
                assert(names[i] != names[j]);
            } else {
                assert(names[j] != names[i]);
            }
        }
    }
    if all_distinct(others) {
        assert forall|i: int, j: int|
            0 <= i < servers.len() && 0 <= j < servers.len() && i != j implies (
        #[trigger] servers[i]).server != (#[trigger] servers[j]).server by {
            if i < j {
                assert(others[i] != others[j]);
            } else {
                assert(others[j] != others[i]);
            }
        }
    }
    if may_be_saved(config, sizes, schemas) {
        assert forall|i: int, j: int| 0 <= i < j < names.len() implies #[trigger] names[i]
            != #[trigger] names[j] by {
            assert(tools[i].name != tools[j].name);
        }
        assert forall|i: int, j: int| 0 <= i < j < others.len() implies #[trigger] others[i]
            != #[trigger] others[j] by {
            assert(servers[i].server != servers[j].server);
        }
    }
}

/// An agent is saved as it was asked for if and only if it may be; any other is a bad
/// request, and saves nothing.
pub proof fn law_agents_are_saved_within_the_limits(
    store: StoreView,
    config: AgentConfigView,
    sizes: Seq<nat>,
    schemas: Seq<bool>,
    id: Seq<char>,
    now: u64,
)
    requires
        sizes.len() == config.tools.len(),
        schemas.len() == config.tools.len(),
        store.agent(id) is None,
    ensures
        ({
            let (after, result) = agent_created(store, config, sizes, schemas, id, now);
            &&& result is Ok <==> may_be_saved(config, sizes, schemas)
            &&& result matches Ok(agent) ==> {
                &&& agent.id == id
                &&& agent.config == config
                &&& agent.created_at == now
                &&& after.agent(id) == Some(agent)
            }
            &&& result matches Err(error) ==> {
                &&& after == store
                &&& error.status == 400
                &&& error.message == if blank(config.model) || utf8_len(config.model) > 256
                    || utf8_len(config.instructions) > 1024 {
                    "model must be 1-256 bytes; instructions must be at most 1024 bytes"@
                } else {
                    "invalid or oversized agent capabilities"@
                }
            }
        }),
{
    lemma_capabilities(config, sizes, schemas);
    lemma_put_lookup::<Agent>(store.agents, AgentView { id, config, created_at: now }, seq![id]);
}

/// A session takes the agent that its overrides leave if and only if that agent may
/// be saved, selects no server, and has an effort that every route takes.
pub proof fn law_overridden_agents_keep_to_the_limits(
    config: AgentConfigView,
    patch: JsonView,
    schemas: Seq<bool>,
)
    requires
        merged(config, patch) matches Ok(after) ==> schemas.len() == after.tools.len(),
    ensures
        ({
            let result = configured(config, patch, schemas);
            match merged(config, patch) {
                Err(error) => result == Err::<AgentConfigView, _>(error),
                Ok(after) => {
                    &&& result is Ok <==> {
                        &&& may_be_saved(after, tool_sizes(after.tools), schemas)
                        &&& after.mcp_servers.len() == 0
                        &&& after.reasoning is Some ==> common_effort(after.reasoning->0.effort)
                    }
                    &&& result matches Ok(taken) ==> taken == after
                },
            }
        }),
{
    match merged(config, patch) {
        Ok(after) => {
            lemma_capabilities(after, tool_sizes(after.tools), schemas);
            if after.reasoning is Some {
                lemma_common_effort(after.reasoning->0.effort);
            }
        },
        Err(_) => {},
    }
}

/// The size of a function is that of the JSON text of its definition: its name, what
/// it is for and what it takes.
pub proof fn law_definitions_hold_all_of_a_function(tools: Seq<FunctionToolView>, i: int)
    requires
        0 <= i < tools.len(),
    ensures
        tool_sizes(tools).len() == tools.len(),
        exists|definition: JsonView|
            {
                &&& tool_sizes(tools)[i] == utf8_len(#[trigger] compact_text(definition))
                &&& definition is Object
                &&& definition->Object_0.len() == 3
                &&& definition.field("name"@) == JsonView::Text(tools[i].name)
                &&& definition.field("description"@) == JsonView::Text(tools[i].description)
                &&& definition.field("parameters"@) == tools[i].parameters
            },
{
    lemma_tool_names();
    broadcast use group_object_reads;

    let definition = tool_document(tools[i]);
    assert(definition->Object_0.len() == 3);
    assert(tool_sizes(tools)[i] == utf8_len(compact_text(definition)));
}

/// Whether a document defines a function: a function by its type, with a name, what
/// it is for and what it takes; one that is loaded at once, and with no other field.
pub open spec fn defines(document: JsonView, tool: FunctionToolView) -> bool {
    &&& document is Object
    &&& document.get("type"@) == Some(JsonView::Text("function"@))
    &&& document.get("name"@) == Some(JsonView::Text(tool.name))
    &&& document.get("description"@) == Some(JsonView::Text(tool.description))
    &&& document.get("parameters"@) == Some(tool.parameters)
    &&& document.get("defer_loading"@) is None || document.get("defer_loading"@) == Some(
        JsonView::Bool(false),
    )
    &&& forall|key: Seq<char>|
        (#[trigger] document.get(key)) is Some ==> key == "type"@ || key == "name"@ || key
            == "description"@ || key == "parameters"@ || key == "defer_loading"@
}

/// Whether a document defines some function.
pub open spec fn defines_some(document: JsonView) -> bool {
    exists|tool: FunctionToolView| defines(document, tool)
}

/// Whether no name stands twice in a document.
pub open spec fn named_once(document: JsonView) -> bool {
    document matches JsonView::Object(fields) ==> names_once(fields)
}

/// What is left of a document without a field: every other field, each name once.
proof fn lemma_taken_out(document: JsonView, key: Seq<char>)
    requires
        named_once(document),
    ensures
        named_once(document.without(key)),
        document.without(key).get(key) is None,
        document is Object ==> document.without(key) is Object,
        forall|other: Seq<char>|
            other != key ==> #[trigger] document.without(key).get(other) == document.get(other),
{
    assert forall|other: Seq<char>| other != key implies #[trigger] document.without(key).get(other)
        == document.get(other) by {
        lemma_without_get(document, key, other);
    }
    match document {
        JsonView::Object(fields) => {
            if named(fields, key) {
                let k = index_named(fields, key);
                assert(first_named(fields, key, k));
                let after = fields.remove(k);
                assert forall|j: int| 0 <= j < after.len() implies #[trigger] after[j] == if j < k {
                    fields[j]
                } else {
                    fields[j + 1]
                } by {}
                assert forall|i: int, j: int| 0 <= i < j < after.len() implies (
                #[trigger] after[i]).0 != (#[trigger] after[j]).0 by {
                    let a = if i < k {
                        i
                    } else {
                        i + 1
                    };
                    let b = if j < k {
                        j
                    } else {
                        j + 1
                    };
                    assert(fields[a].0 != fields[b].0);
                }
                if named(after, key) {
                    let j = index_named(after, key);
                    assert(first_named(after, key, j));
                    if j < k {
                        assert(fields[j].0 != fields[k].0);
                    } else {
                        assert(fields[k].0 != fields[j + 1].0);
                    }
                }
            }
        },
        _ => {},
    }
}

/// The names of an object's fields are those that it has a value for.
proof fn lemma_field_names_read(fields: Seq<(Seq<char>, JsonView)>, a: Seq<char>, b: Seq<char>, c: Seq<char>)
    ensures
        named_only(fields, a, b, c) <==> forall|key: Seq<char>|
            (#[trigger] JsonView::Object(fields).get(key)) is Some ==> key == a || key == b || key
                == c,
{
    let document = JsonView::Object(fields);
    if named_only(fields, a, b, c) {
        assert forall|key: Seq<char>| (#[trigger] document.get(key)) is Some implies key == a || key
            == b || key == c by {
            assert(first_named(fields, key, index_named(fields, key)));
        }
    }
    if forall|key: Seq<char>|
        (#[trigger] document.get(key)) is Some ==> key == a || key == b || key == c {
        assert forall|i: int| 0 <= i < fields.len() implies (#[trigger] fields[i]).0 == a
            || fields[i].0 == b || fields[i].0 == c by {
            lemma_named(fields, fields[i].0, i);
            assert(document.get(fields[i].0) is Some);
        }
    }
}

/// A document is read as the function that it defines, and as none where it defines
/// none.
proof fn lemma_defines(document: JsonView)
    requires
        named_once(document),
    ensures
        document.field("type"@) == JsonView::Text("function"@) ==> match tool_in(
            untagged(document),
        ) {
            Some(tool) => defines(document, tool),
            None => !defines_some(document),
        },
{
    if document.field("type"@) == JsonView::Text("function"@) {
        lemma_tool_names();
        let plain = document.without("type"@);
        lemma_taken_out(document, "type"@);
        lemma_taken_out(plain, "defer_loading"@);
        let bare = untagged(document);
        assert(bare is Object);
        lemma_field_names_read(bare->Object_0, "name"@, "description"@, "parameters"@);
        assert(bare == JsonView::Object(bare->Object_0));
        assert(bare.get("name"@) == document.get("name"@));
        assert(bare.get("description"@) == document.get("description"@));
        assert(bare.get("parameters"@) == document.get("parameters"@));
        match tool_in(bare) {
            Some(tool) => {
                assert forall|key: Seq<char>| (#[trigger] document.get(key)) is Some implies key
                    == "type"@ || key == "name"@ || key == "description"@ || key == "parameters"@
                    || key == "defer_loading"@ by {
                    if key != "type"@ && key != "defer_loading"@ {
                        assert(plain.get(key) == document.get(key));
                        assert(bare.get(key) is Some);
                    }
                }
                assert(plain.get("defer_loading"@) == document.get("defer_loading"@));
                assert(bare.get("defer_loading"@) is None);
            },
            None => {
                assert forall|tool: FunctionToolView| !defines(document, tool) by {
                    if defines(document, tool) {
                        assert forall|key: Seq<char>| (#[trigger] bare.get(key)) is Some implies key
                            == "name"@ || key == "description"@ || key == "parameters"@ by {
                            assert(plain.get("type"@) is None);
                            assert(plain.get("defer_loading"@) == document.get("defer_loading"@));
                            assert(bare.get("type"@) is None);
                            assert(bare.get("defer_loading"@) is None);
                            assert(plain.get(key) == document.get(key));
                            assert(document.get(key) is Some);
                        }
                    }
                }
            },
        }
    }
}

/// Each document of a list is read as the function that it defines, in its place.
proof fn lemma_functions_read(documents: Seq<JsonView>)
    requires
        forall|i: int| 0 <= i < documents.len() ==> named_once(#[trigger] documents[i]),
    ensures
        match tools_in(documents) {
            Ok(tools) => {
                &&& tools.len() == documents.len()
                &&& forall|i: int|
                    0 <= i < documents.len() ==> defines(#[trigger] documents[i], tools[i])
            },
            Err(_) => exists|i: int|
                0 <= i < documents.len() && !defines_some(#[trigger] documents[i]),
        },
    decreases documents.len(),
{
    if documents.len() > 0 {
        let front = documents.drop_last();
        let last = documents.last();
        assert forall|i: int| 0 <= i < front.len() implies named_once(#[trigger] front[i]) by {
            assert(front[i] == documents[i]);
        }
        lemma_functions_read(front);
        assert(last == documents[documents.len() - 1]);
        lemma_defines(last);
        match tools_in(front) {
            Ok(tools) => {
                match tools_in(documents) {
                    Ok(all) => {
                        assert forall|i: int| 0 <= i < documents.len() implies defines(
                            #[trigger] documents[i],
                            all[i],
                        ) by {
                            if i < front.len() {
                                assert(defines(front[i], tools[i]));
                            }
                        }
                    },
                    Err(_) => {
                        assert(!defines_some(documents[documents.len() - 1]));
                    },
                }
            },
            Err(_) => {
                let i = choose|i: int|
                    0 <= i < front.len() && !defines_some(#[trigger] front[i]);
                assert(documents[i] == front[i]);
            },
        }
    }
}

/// A session that overrides the functions of its agent gets those that it defines,
/// one for one; one that overrides the effort gets that effort.
pub proof fn law_overrides_are_taken_as_they_are(
    config: AgentConfigView,
    fields: Seq<(Seq<char>, JsonView)>,
)
    requires
        names_once(fields),
        merged(config, JsonView::Object(fields)) is Ok,
    ensures
        ({
            let patch = JsonView::Object(fields);
            let after = merged(config, patch)->Ok_0;
            let documents = patch.field("tools"@).elements();
            let reasoning = patch.field("reasoning"@);
            &&& patch.field("tools"@) is Array && (forall|i: int|
                0 <= i < documents.len() ==> named_once(#[trigger] documents[i])) ==> {
                &&& after.tools.len() == documents.len()
                &&& forall|i: int|
                    0 <= i < documents.len() ==> defines(#[trigger] documents[i], after.tools[i])
            }
            &&& patch.get("tools"@) is Some ==> patch.field("tools"@) is Array || patch.field(
                "tools"@,
            ) is Null && after.tools.len() == 0
            &&& patch.get("reasoning"@) is Some && reasoning !is Null ==> {
                &&& after.reasoning is Some
                &&& common_effort(after.reasoning->0.effort)
                &&& JsonView::Text(after.reasoning->0.effort) == match reasoning {
                    JsonView::Array(items) => items[0],
                    _ => reasoning.field("effort"@),
                }
            }
            &&& reasoning is Null && patch.get("reasoning"@) is Some ==> after.reasoning is None
        }),
{
    let patch = JsonView::Object(fields);
    let documents = patch.field("tools"@).elements();
    assert forall|key: Seq<char>| (#[trigger] patch.get(key)) is Some implies first_named(
        fields,
        key,
        index_named(fields, key),
    ) by {}
    if patch.get("tools"@) is Some {
        lemma_present_applied(config, fields, index_named(fields, "tools"@));
        if forall|i: int| 0 <= i < documents.len() ==> named_once(#[trigger] documents[i]) {
            lemma_functions_read(documents);
        }
    }
    if patch.get("reasoning"@) is Some {
        lemma_present_applied(config, fields, index_named(fields, "reasoning"@));
        lemma_common_effort(merged(config, patch)->Ok_0.reasoning->0.effort);
    }
}

/// Whether an override may be made: a model that is a text, instructions that are a
/// text or nothing, functions that are all defined or nothing, and an effort that
/// every route takes or nothing.
pub open spec fn may_be_set(key: Seq<char>, value: JsonView) -> bool {
    ||| key == "model"@ && value is Text
    ||| key == "instructions"@ && (value is Text || value is Null)
    ||| key == "tools"@ && (value is Null || value is Array && forall|i: int|
        0 <= i < value.elements().len() ==> defines_some(#[trigger] value.elements()[i]))
    ||| key == "reasoning"@ && (value is Null || exists|effort: Seq<char>| #[trigger]
        common_effort(effort) && (value == JsonView::Array(seq![JsonView::Text(effort)])
            || value is Object && value.get("effort"@) == Some(JsonView::Text(effort))
            && forall|other: Seq<char>|
            (#[trigger] value.get(other)) is Some ==> other == "effort"@))
}

/// What sets a field is an override that may be made.
proof fn lemma_may_be_set(config: AgentConfigView, key: Seq<char>, value: JsonView)
    requires
        forall|i: int| 0 <= i < value.elements().len() ==> named_once(#[trigger] value.elements()[i]),
    ensures
        field_set(config, key, value) is Ok <==> may_be_set(key, value),
{
    lemma_override_names();
    if key == "tools"@ && value is Array {
        let documents = value.elements();
        lemma_functions_read(documents);
        match tools_in(documents) {
            Ok(tools) => {
                assert forall|i: int| 0 <= i < documents.len() implies defines_some(
                    #[trigger] documents[i],
                ) by {
                    assert(defines(documents[i], tools[i]));
                }
            },
            Err(_) => {
                let i = choose|i: int|
                    0 <= i < documents.len() && !defines_some(#[trigger] documents[i]);
                assert(documents[i] == value.elements()[i]);
            },
        }
    }
    if key == "reasoning"@ && value !is Null {
        match value {
            JsonView::Object(fields) => {
                lemma_field_names_read(fields, "effort"@, "effort"@, "effort"@);
            },
            JsonView::Array(items) => {
                if items.len() == 1 && items[0] is Text {
                    assert(items =~= seq![JsonView::Text(items[0]->Text_0)]);
                }
            },
            _ => {},
        }
        match effort_in(value) {
            Some(effort) => {
                lemma_common_effort(effort);
                if common_effort(effort) {
                    assert(may_be_set(key, value));
                } else if may_be_set(key, value) {
                    let other = choose|other: Seq<char>| #[trigger]
                        common_effort(other) && (value == JsonView::Array(
                            seq![JsonView::Text(other)],
                        ) || value is Object && value.get("effort"@) == Some(JsonView::Text(other))
                            && forall|name: Seq<char>|
                            (#[trigger] value.get(name)) is Some ==> name == "effort"@);
                    assert(seq![JsonView::Text(other)][0] == JsonView::Text(other));
                }
            },
            None => {
                if may_be_set(key, value) {
                    let other = choose|other: Seq<char>| #[trigger]
                        common_effort(other) && (value == JsonView::Array(
                            seq![JsonView::Text(other)],
                        ) || value is Object && value.get("effort"@) == Some(JsonView::Text(other))
                            && forall|name: Seq<char>|
                            (#[trigger] value.get(name)) is Some ==> name == "effort"@);
                    assert(seq![JsonView::Text(other)][0] == JsonView::Text(other));
                    assert(seq![JsonView::Text(other)].len() == 1);
                }
            },
        }
    }
}

/// Overrides are taken if and only if each of them may be made.
pub proof fn law_overrides_are_taken_where_they_may_be_made(
    config: AgentConfigView,
    fields: Seq<(Seq<char>, JsonView)>,
)
    requires
        forall|i: int, j: int|
            0 <= i < fields.len() && 0 <= j < fields[i].1.elements().len() ==> named_once(
                #[trigger] fields[i].1.elements()[j],
            ),
    ensures
        merged(config, JsonView::Object(fields)) is Ok <==> forall|i: int|
            0 <= i < fields.len() ==> may_be_set((#[trigger] fields[i]).0, fields[i].1),
    decreases fields.len(),
{
    if fields.len() > 0 {
        let front = fields.drop_last();
        let last = fields[fields.len() - 1];
        assert forall|i: int, j: int|
            0 <= i < front.len() && 0 <= j < front[i].1.elements().len() implies named_once(
            #[trigger] front[i].1.elements()[j],
        ) by {
            assert(front[i] == fields[i]);
            assert(named_once(fields[i].1.elements()[j]));
        }
        law_overrides_are_taken_where_they_may_be_made(config, front);
        let before = merged(config, JsonView::Object(front));
        assert forall|j: int| 0 <= j < last.1.elements().len() implies named_once(
            #[trigger] last.1.elements()[j],
        ) by {
            assert(named_once(fields[fields.len() - 1].1.elements()[j]));
        }
        if before is Ok {
            lemma_may_be_set(before->Ok_0, last.0, last.1);
        }
        assert forall|i: int| 0 <= i < front.len() implies may_be_set(
            (#[trigger] front[i]).0,
            front[i].1,
        ) == may_be_set(fields[i].0, fields[i].1) by {}
        if forall|i: int|
            0 <= i < fields.len() ==> may_be_set((#[trigger] fields[i]).0, fields[i].1) {
            assert forall|i: int| 0 <= i < front.len() implies may_be_set(
                (#[trigger] front[i]).0,
                front[i].1,
            ) by {
                assert(may_be_set(fields[i].0, fields[i].1));
            }
            assert(may_be_set(last.0, last.1));
        }
        if merged(config, JsonView::Object(fields)) is Ok {
            assert forall|i: int| 0 <= i < fields.len() implies may_be_set(
                (#[trigger] fields[i]).0,
                fields[i].1,
            ) by {
                if i < front.len() {
                    assert(may_be_set(front[i].0, front[i].1));
                }
            }
        }
    }
}

/// An agent for which nothing is named begins with nothing set.
pub proof fn law_fresh_agents_have_nothing_set()
    ensures
        empty_config().model.len() == 0,
        empty_config().instructions.len() == 0,
        empty_config().tools.len() == 0,
        empty_config().mcp_servers.len() == 0,
        empty_config().reasoning is None,
{
}

/// A saved agent is shown with when it was made, and with no metadata.
pub proof fn law_saved_agents_are_shown(agent: AgentView)
    ensures
        ({
            let shown = saved_agent_document(agent);
            &&& shows_agent(shown, agent)
            &&& shown.field("object"@) == JsonView::Text("agent"@)
            &&& shown.field("created_at"@).unsigned() == Some(agent.created_at)
            &&& shown.field("updated_at"@).unsigned() == Some(agent.created_at)
            &&& shown.field("metadata"@) is Object
            &&& shown.field("metadata"@)->Object_0.len() == 0
        }),
{
    let document = agent_document(agent);
    lemma_agent_shown(agent);
    assert(document is Object) by {
        broadcast use group_object_reads;

    }
    assert(document.get("object"@) is None && document.get("created_at"@) is None && document.get(
        "updated_at"@,
    ) is None && document.get("metadata"@) is None) by {
        lemma_agent_names();
        broadcast use group_object_reads;

    }
    lemma_agent_names();
    lemma_entries_added(document, agent.created_at);
}

/// What is read of a document after what a saved agent adds to it.
proof fn lemma_entries_added(document: JsonView, now: u64)
    requires
        document is Object,
        document.get("object"@) is None,
        document.get("created_at"@) is None,
        document.get("updated_at"@) is None,
        document.get("metadata"@) is None,
    ensures
        ({
            let shown = document.entry("object"@, JsonView::Text("agent"@)).entry(
                "created_at"@,
                number(now),
            ).entry("updated_at"@, number(now)).entry("metadata"@, object());
            &&& shown.get("object"@) == Some(JsonView::Text("agent"@))
            &&& shown.get("created_at"@) == Some(number(now))
            &&& shown.get("updated_at"@) == Some(number(now))
            &&& shown.get("metadata"@) == Some(object())
            &&& forall|key: Seq<char>|
                key != "object"@ && key != "created_at"@ && key != "updated_at"@ && key
                    != "metadata"@ ==> #[trigger] shown.get(key) == document.get(key)
        }),
{
    lemma_agent_names();
    broadcast use group_object_reads;

}

/// Whether a server lets a tool be used: its list of tools, where it has one, has it,
/// and its list of tools that are off has not.
pub open spec fn lets_use(server: JsonView, tool: Seq<char>) -> bool {
    let on = server.field("enabled_tools"@);
    let off = server.field("disabled_tools"@);
    &&& on is Array ==> exists|i: int|
        0 <= i < on.elements().len() && #[trigger] on.elements()[i] == JsonView::Text(tool)
    &&& off is Array ==> forall|i: int|
        0 <= i < off.elements().len() ==> #[trigger] off.elements()[i] != JsonView::Text(tool)
}

/// Whether a selection keeps to what is configured: its server is there and not off,
/// and lets each of its tools be used.
pub open spec fn keeps_to(effective: JsonView, selection: McpSelectionView) -> bool {
    let servers = effective.field("config"@).field("mcp_servers"@);
    let server = servers.get(selection.server);
    &&& server is Some
    &&& server->0.field("enabled"@) != JsonView::Bool(false)
    &&& forall|i: int|
        0 <= i < selection.allowed_tools.len() ==> lets_use(
            server->0,
            #[trigger] selection.allowed_tools[i],
        )
}

/// What a server that denies a tool does not let use.
proof fn lemma_lets_use(server: JsonView, tool: Seq<char>)
    ensures
        tool_denied(server, tool) == !lets_use(server, tool),
{
    let on = server.field("enabled_tools"@);
    let off = server.field("disabled_tools"@);
    if on is Array {
        assert(on->Array_0 == on.elements());
        if on.elements().contains(JsonView::Text(tool)) {
            let i = choose|i: int|
                0 <= i < on.elements().len() && on.elements()[i] == JsonView::Text(tool);
            assert(on.elements()[i] == JsonView::Text(tool));
        }
    }
    if off is Array {
        assert(off->Array_0 == off.elements());
        if off.elements().contains(JsonView::Text(tool)) {
            let i = choose|i: int|
                0 <= i < off.elements().len() && off.elements()[i] == JsonView::Text(tool);
            assert(off.elements()[i] == JsonView::Text(tool));
        }
    }
}

/// A selection that keeps to what is configured does not fail.
proof fn lemma_keeps_to(effective: JsonView, selection: McpSelectionView)
    ensures
        ({
            let failed = selection_failure(configured_servers(effective), selection);
            let server = effective.field("config"@).field("mcp_servers"@).get(selection.server);
            &&& failed is None <==> keeps_to(effective, selection)
            &&& failed matches Some(error) ==> {
                &&& error.status == 400
                &&& error.message == if server is None {
                    "unknown MCP server: "@ + selection.server
                } else {
                    "MCP selection exceeds server-side policy"@
                }
            }
        }),
{
    let servers = effective.field("config"@).field("mcp_servers"@);
    let server = JsonView::Object(configured_servers(effective)).get(selection.server);
    if servers !is Object {
        lemma_object_get(selection.server);
    }
    assert(server == servers.get(selection.server));
    if server is Some {
        assert forall|i: int| 0 <= i < selection.allowed_tools.len() implies tool_denied(
            server->0,
            #[trigger] selection.allowed_tools[i],
        ) == !lets_use(server->0, selection.allowed_tools[i]) by {
            lemma_lets_use(server->0, selection.allowed_tools[i]);
        }
    }
}

/// The first failure among selections is that of the first that does not keep to what
/// is configured.
proof fn lemma_first_failure(effective: JsonView, selections: Seq<McpSelectionView>)
    ensures
        match first_failure(configured_servers(effective), selections) {
            None => forall|i: int|
                0 <= i < selections.len() ==> keeps_to(effective, #[trigger] selections[i]),
            Some(error) => error.status == 400 && exists|i: int|
                0 <= i < selections.len() && !keeps_to(effective, #[trigger] selections[i])
                    && error.message == if effective.field("config"@).field("mcp_servers"@).get(
                    selections[i].server,
                ) is None {
                    "unknown MCP server: "@ + selections[i].server
                } else {
                    "MCP selection exceeds server-side policy"@
                } && forall|j: int|
                    0 <= j < i ==> keeps_to(effective, #[trigger] selections[j]),
        },
    decreases selections.len(),
{
    if selections.len() > 0 {
        let front = selections.drop_last();
        let last = selections[selections.len() - 1];
        lemma_first_failure(effective, front);
        lemma_keeps_to(effective, last);
        assert(forall|i: int| 0 <= i < front.len() ==> #[trigger] selections[i] == front[i]);
        match first_failure(configured_servers(effective), front) {
            Some(error) => {
                let i = choose|i: int|
                    0 <= i < front.len() && !keeps_to(effective, #[trigger] front[i])
                        && error.message == if effective.field("config"@).field(
                        "mcp_servers"@,
                    ).get(front[i].server) is None {
                        "unknown MCP server: "@ + front[i].server
                    } else {
                        "MCP selection exceeds server-side policy"@
                    } && forall|j: int| 0 <= j < i ==> keeps_to(effective, #[trigger] front[j]);
                assert(!keeps_to(effective, selections[i]));
                assert forall|j: int| 0 <= j < i implies keeps_to(
                    effective,
                    #[trigger] selections[j],
                ) by {
                    assert(keeps_to(effective, front[j]));
                }
            },
            None => {
                assert forall|j: int| 0 <= j < front.len() implies keeps_to(
                    effective,
                    #[trigger] selections[j],
                ) by {
                    assert(keeps_to(effective, front[j]));
                }
                assert(selections[selections.len() - 1] == last);
            },
        }
    }
}

/// A thread is set up if and only if every selection of its agent keeps to what is
/// configured; the first that does not is told as a bad request.
pub proof fn law_threads_are_set_up_where_selections_keep_to_the_policy(
    config: AgentConfigView,
    effective: JsonView,
)
    ensures
        match overriding(config, effective) {
            Ok(_) => forall|i: int|
                0 <= i < config.mcp_servers.len() ==> keeps_to(
                    effective,
                    #[trigger] config.mcp_servers[i],
                ),
            Err(error) => error.status == 400 && exists|i: int|
                0 <= i < config.mcp_servers.len() && !keeps_to(
                    effective,
                    #[trigger] config.mcp_servers[i],
                ) && error.message == if effective.field("config"@).field("mcp_servers"@).get(
                    config.mcp_servers[i].server,
                ) is None {
                    "unknown MCP server: "@ + config.mcp_servers[i].server
                } else {
                    "MCP selection exceeds server-side policy"@
                } && forall|j: int|
                    0 <= j < i ==> keeps_to(effective, #[trigger] config.mcp_servers[j]),
        },
{
    lemma_first_failure(effective, config.mcp_servers);
}

/// A list of texts holds each of them, in its place.
proof fn lemma_text_list(texts: Seq<Seq<char>>)
    ensures
        text_list(texts) is Array,
        text_list(texts).elements().len() == texts.len(),
        forall|i: int|
            0 <= i < texts.len() ==> #[trigger] text_list(texts).elements()[i] == JsonView::Text(
                texts[i],
            ),
    decreases texts.len(),
{
    if texts.len() > 0 {
        lemma_text_list(texts.drop_last());
    }
}

/// A thread is set up with each configured server off but those that its agent
/// selects, which let just the selected tools be used.
pub proof fn law_threads_use_only_what_is_selected(
    config: AgentConfigView,
    effective: JsonView,
    i: int,
)
    requires
        overriding(config, effective) is Ok,
        0 <= i < configured_servers(effective).len(),
        forall|a: int, b: int|
            0 <= a < b < config.mcp_servers.len() ==> (#[trigger] config.mcp_servers[a]).server != (
            #[trigger] config.mcp_servers[b]).server,
    ensures
        ({
            let policy = overriding(config, effective)->Ok_0;
            let servers = policy.field("mcp_servers"@);
            let name = configured_servers(effective)[i].0;
            let server = servers->Object_0[i].1;
            let tools = server.get("enabled_tools"@);
            &&& servers is Object
            &&& servers->Object_0.len() == configured_servers(effective).len()
            &&& servers->Object_0[i].0 == name
            &&& server.field("enabled"@) == JsonView::Bool(
                exists|j: int|
                    0 <= j < config.mcp_servers.len() && (#[trigger] config.mcp_servers[j]).server
                        == name,
            )
            &&& forall|j: int|
                0 <= j < config.mcp_servers.len() && (#[trigger] config.mcp_servers[j]).server
                    == name ==> {
                    let selected = config.mcp_servers[j].allowed_tools;
                    &&& tools is Some
                    &&& tools->0 is Array
                    &&& tools->0.elements().len() == selected.len()
                    &&& forall|k: int|
                        0 <= k < selected.len() ==> #[trigger] tools->0.elements()[k]
                            == JsonView::Text(selected[k])
                }
        }),
{
    let servers = configured_servers(effective);
    let name = servers[i].0;
    law_unselected_servers_are_off(config, servers, i);
    lemma_selection_found(config.mcp_servers, name);
    match selection_of(config.mcp_servers, name) {
        Some(selection) => {
            lemma_text_list(selection.allowed_tools);
            let at = choose|at: int|
                0 <= at < config.mcp_servers.len() && #[trigger] config.mcp_servers[at]
                    == selection;
            assert(config.mcp_servers[at].server == name);
            assert forall|j: int|
                0 <= j < config.mcp_servers.len() && (#[trigger] config.mcp_servers[j]).server
                    == name implies j == at by {
                if j < at {
                    assert(config.mcp_servers[j].server != config.mcp_servers[at].server);
                } else if at < j {
                    assert(config.mcp_servers[at].server != config.mcp_servers[j].server);
                }
            }
        },
        None => {},
    }
    lemma_policy_names();
    broadcast use group_object_reads;

}

/// Whatever is configured, a thread has plugins, apps, searches, other agents and
/// questions to the user off, and the effort of its agent.
pub proof fn law_threads_have_the_rest_off(config: AgentConfigView, effective: JsonView)
    requires
        overriding(config, effective) is Ok,
    ensures
        ({
            let policy = overriding(config, effective)->Ok_0;
            &&& policy.field("features.plugins"@) == JsonView::Bool(false)
            &&& policy.field("features.apps"@) == JsonView::Bool(false)
            &&& policy.field("features.enable_mcp_apps"@) == JsonView::Bool(false)
            &&& policy.field("web_search"@) == JsonView::Text("disabled"@)
            &&& policy.field("agents.enabled"@) == JsonView::Bool(false)
            &&& policy.field("features.multi_agent_v2"@) == JsonView::Bool(false)
            &&& policy.field("tools.experimental_request_user_input.enabled"@) == JsonView::Bool(
                false,
            )
            &&& policy.get("model_reasoning_effort"@) == match config.reasoning {
                Some(reasoning) => Some(JsonView::Text(reasoning.effort)),
                None => None,
            }
        }),
{
    lemma_policy_names();
    broadcast use group_object_reads;

}

/// What is told of an override that may not be made.
pub open spec fn override_problem(key: Seq<char>, value: JsonView, problem: Seq<char>) -> Seq<char> {
    if key == "model"@ {
        "model must be a string"@
    } else if key == "instructions"@ {
        "instructions must be a string or null"@
    } else if key == "tools"@ && value !is Array {
        "tools must be an array or null"@
    } else if key == "tools"@ {
        let bad = choose|i: int|
            0 <= i < value.elements().len() && !defines_some(#[trigger] value.elements()[i])
                && forall|j: int|
                0 <= j < i ==> defines_some(#[trigger] value.elements()[j]);
        if value.elements()[bad].field("type"@) != JsonView::Text("function"@) {
            "only function tools are implemented on this API path"@
        } else {
            problem
        }
    } else if key == "reasoning"@ {
        match value {
            JsonView::Object(fields) if value.get("effort"@) is Some && value.field("effort"@)
                is Text && forall|other: Seq<char>|
                (#[trigger] value.get(other)) is Some ==> other == "effort"@ =>
                "unsupported reasoning effort"@,
            JsonView::Array(items) if items.len() == 1 && items[0] is Text =>
                "unsupported reasoning effort"@,
            _ => problem,
        }
    } else {
        "agent field "@ + key + " is not implemented"@
    }
}

/// What is told of the first document that defines no function.
proof fn lemma_functions_problem(documents: Seq<JsonView>, problem: Seq<char>) -> (bad: int)
    requires
        forall|i: int| 0 <= i < documents.len() ==> named_once(#[trigger] documents[i]),
        tools_in(documents) is Err,
    ensures
        0 <= bad < documents.len(),
        !defines_some(documents[bad]),
        forall|j: int| 0 <= j < bad ==> defines_some(#[trigger] documents[j]),
        refusal_told(tools_in(documents)->Err_0, problem).message == if documents[bad].field(
            "type"@,
        ) != JsonView::Text("function"@) {
            "only function tools are implemented on this API path"@
        } else {
            problem
        },
    decreases documents.len(),
{
    let front = documents.drop_last();
    assert forall|i: int| 0 <= i < front.len() implies named_once(#[trigger] front[i]) by {
        assert(front[i] == documents[i]);
    }
    match tools_in(front) {
        Err(_) => {
            let bad = lemma_functions_problem(front, problem);
            assert forall|j: int| 0 <= j < bad implies defines_some(#[trigger] documents[j]) by {
                assert(defines_some(front[j]));
            }
            bad
        },
        Ok(tools) => {
            lemma_functions_read(front);
            let bad = documents.len() - 1;
            assert(named_once(documents[bad]));
            lemma_defines(documents[bad]);
            assert forall|j: int| 0 <= j < bad implies defines_some(#[trigger] documents[j]) by {
                assert(defines(front[j], tools[j]));
            }
            bad
        },
    }
}

/// What is told of a field that cannot be set.
proof fn lemma_override_problem(
    config: AgentConfigView,
    key: Seq<char>,
    value: JsonView,
    problem: Seq<char>,
)
    requires
        forall|i: int| 0 <= i < value.elements().len() ==> named_once(#[trigger] value.elements()[i]),
        field_set(config, key, value) is Err,
    ensures
        refusal_told(field_set(config, key, value)->Err_0, problem).status == 400,
        refusal_told(field_set(config, key, value)->Err_0, problem).message == override_problem(
            key,
            value,
            problem,
        ),
{
    lemma_override_names();
    if key == "tools"@ && value is Array {
        let documents = value.elements();
        let bad = lemma_functions_problem(documents, problem);
        let chosen = choose|i: int|
            0 <= i < value.elements().len() && !defines_some(#[trigger] value.elements()[i])
                && forall|j: int| 0 <= j < i ==> defines_some(#[trigger] value.elements()[j]);
        assert(!defines_some(value.elements()[bad]));
        if chosen < bad {
            assert(defines_some(documents[chosen]));
        } else if bad < chosen {
            assert(defines_some(value.elements()[bad]));
        }
        lemma_tools_refusal(documents, problem);
    }
    if key == "reasoning"@ {
        match value {
            JsonView::Object(fields) => {
                lemma_field_names_read(fields, "effort"@, "effort"@, "effort"@);
            },
            _ => {},
        }
    }
}

/// Overrides that are not taken are told by the first of them that may not be made;
/// `problem` is what is told of a function or a reasoning that cannot be read.
pub proof fn law_refused_overrides_are_told_why(
    config: AgentConfigView,
    fields: Seq<(Seq<char>, JsonView)>,
    problem: Seq<char>,
) -> (bad: int)
    requires
        forall|i: int, j: int|
            0 <= i < fields.len() && 0 <= j < fields[i].1.elements().len() ==> named_once(
                #[trigger] fields[i].1.elements()[j],
            ),
        merged(config, JsonView::Object(fields)) is Err,
    ensures
        0 <= bad < fields.len(),
        !may_be_set(fields[bad].0, fields[bad].1),
        forall|j: int| 0 <= j < bad ==> may_be_set((#[trigger] fields[j]).0, fields[j].1),
        refusal_told(merged(config, JsonView::Object(fields))->Err_0, problem).status == 400,
        refusal_told(merged(config, JsonView::Object(fields))->Err_0, problem).message
            == override_problem(fields[bad].0, fields[bad].1, problem),
    decreases fields.len(),
{
    let front = fields.drop_last();
    let last = fields[fields.len() - 1];
    assert forall|i: int, j: int|
        0 <= i < front.len() && 0 <= j < front[i].1.elements().len() implies named_once(
        #[trigger] front[i].1.elements()[j],
    ) by {
        assert(front[i] == fields[i]);
        assert(named_once(fields[i].1.elements()[j]));
    }
    match merged(config, JsonView::Object(front)) {
        Err(_) => {
            let bad = law_refused_overrides_are_told_why(config, front, problem);
            assert forall|j: int| 0 <= j < bad implies may_be_set(
                (#[trigger] fields[j]).0,
                fields[j].1,
            ) by {
                assert(may_be_set(front[j].0, front[j].1));
            }
            bad
        },
        Ok(before) => {
            law_overrides_are_taken_where_they_may_be_made(config, front);
            assert forall|j: int| 0 <= j < last.1.elements().len() implies named_once(
                #[trigger] last.1.elements()[j],
            ) by {
                assert(named_once(fields[fields.len() - 1].1.elements()[j]));
            }
            lemma_may_be_set(before, last.0, last.1);
            lemma_override_problem(before, last.0, last.1, problem);
            assert forall|j: int| 0 <= j < front.len() implies may_be_set(
                (#[trigger] fields[j]).0,
                fields[j].1,
            ) by {
                assert(may_be_set(front[j].0, front[j].1));
            }
            fields.len() - 1
        },
    }
}

/// An agent that a session may not take is told by the first of these that holds of
/// it: its texts are too long or its model is blank, it selects servers, its effort is
/// none that every route takes, or what it offers is not valid.
pub proof fn law_refused_agents_are_told_why(
    config: AgentConfigView,
    sizes: Seq<nat>,
    schemas: Seq<bool>,
)
    ensures
        config_refusal(config, sizes, schemas) matches Some(error) ==> {
            &&& error.status == 400
            &&& error.message == if blank(config.model) || utf8_len(config.model) > 256 || utf8_len(
                config.instructions,
            ) > 1024 {
                "model must be 1-256 bytes; instructions must be at most 1024 bytes"@
            } else if config.mcp_servers.len() > 0 {
                "saved MCP configurations are not supported on this API path"@
            } else if config.reasoning is Some && !common_effort(config.reasoning->0.effort) {
                "saved reasoning effort is not supported on this API path"@
            } else {
                "invalid or oversized agent capabilities"@
            }
        },
{
    if config.reasoning is Some {
        lemma_common_effort(config.reasoning->0.effort);
    }
}

/// An overriding document that is no object is told so.
pub proof fn law_overrides_are_an_object(
    config: AgentConfigView,
    patch: JsonView,
    problem: Seq<char>,
)
    requires
        patch !is Object,
    ensures
        merged(config, patch) is Err,
        refusal_told(merged(config, patch)->Err_0, problem).status == 400,
        refusal_told(merged(config, patch)->Err_0, problem).message == "agent must be an object"@,
{
}

} // verus!
