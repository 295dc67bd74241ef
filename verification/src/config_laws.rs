//! What holds of the configuration of agents.
use crate::capabilities::compatible_effort;
use crate::capabilities::configured_servers;
use crate::capabilities::first_failure;
use crate::capabilities::overriding;
use crate::capabilities::selection_failure;
use crate::capabilities::selection_of;
use crate::capabilities::server_policies;
use crate::capabilities::text_list;
use crate::capabilities::thread_config;
use crate::capabilities::tool_denied;
use crate::capabilities::tool_sizes;
use crate::capabilities::valid_capabilities;
use crate::contract::config_refusal;
use crate::contract::configured;
use crate::contract::effort_in;
use crate::contract::field_set;
use crate::contract::fields_set;
use crate::contract::merged;
use crate::contract::refusal_told;
use crate::contract::tool_in;
use crate::contract::tools_in;
use crate::contract::untagged;
use crate::contract::valid_texts;
use crate::contract::ConfigErrorView;
use crate::error::missing;
use crate::json::first_named;
use crate::json::group_object_reads;
use crate::json::index_named;
use crate::json::lemma_named;
use crate::json::lemma_without_get;
use crate::json::object;
use crate::json::JsonView;
use crate::resources::AgentConfigView;
use crate::resources::FunctionToolView;
use crate::resources::McpSelectionView;
use crate::routes::agent_refusal;
use crate::sessions::created;
use crate::sessions::first_agent;
use crate::sessions::first_input;
use crate::sessions::patch_of;
use crate::sessions::CreateView;
use crate::store::StoreView;
use vstd::prelude::*;

verus! {

/// The names of the fields of an agent differ.
proof fn lemma_field_names()
    ensures
        "model"@ != "instructions"@,
        "model"@ != "tools"@,
        "model"@ != "reasoning"@,
        "instructions"@ != "tools"@,
        "instructions"@ != "reasoning"@,
        "tools"@ != "reasoning"@,
{
    reveal_strlit("model");
    reveal_strlit("instructions");
    reveal_strlit("tools");
    reveal_strlit("reasoning");
    assert("model"@.len() == 5 && "instructions"@.len() == 12 && "tools"@.len() == 5);
    assert("reasoning"@.len() == 9);
    assert("model"@[0] == 'm' && "tools"@[0] == 't');
}

/// Whether no field has the name.
pub open spec fn absent(fields: Seq<(Seq<char>, JsonView)>, key: Seq<char>) -> bool {
    forall|i: int| 0 <= i < fields.len() ==> (#[trigger] fields[i]).0 != key
}

/// What is not named is kept.
proof fn lemma_absent_kept(config: AgentConfigView, fields: Seq<(Seq<char>, JsonView)>)
    ensures
        fields_set(config, fields) matches Ok(after) ==> {
            &&& absent(fields, "model"@) ==> after.model == config.model
            &&& absent(fields, "instructions"@) ==> after.instructions == config.instructions
            &&& absent(fields, "tools"@) ==> after.tools == config.tools
            &&& absent(fields, "reasoning"@) ==> after.reasoning == config.reasoning
            &&& after.mcp_servers == config.mcp_servers
        },
    decreases fields.len(),
{
    if fields.len() > 0 {
        let front = fields.drop_last();
        lemma_absent_kept(config, front);
        lemma_field_names();
        assert forall|key: Seq<char>| absent(fields, key) implies #[trigger] absent(front, key) by {
            assert forall|i: int| 0 <= i < front.len() implies (#[trigger] front[i]).0 != key by {
                assert(front[i] == fields[i]);
            }
        }
        assert forall|key: Seq<char>| #[trigger] absent(fields, key) implies fields.last().0
            != key by {
            assert(fields[fields.len() - 1].0 != key);
        }
    }
}

/// A field that cannot be read has no name among the fields.
proof fn lemma_unread_absent(fields: Seq<(Seq<char>, JsonView)>, key: Seq<char>)
    requires
        JsonView::Object(fields).get(key) is None,
    ensures
        absent(fields, key),
{
    assert forall|i: int| 0 <= i < fields.len() implies (#[trigger] fields[i]).0 != key by {
        if fields[i].0 == key {
            lemma_named(fields, key, i);
        }
    }
}

/// What a client leaves out is inherited from the saved agent; the MCP servers
/// always are.
pub proof fn law_omitted_fields_are_inherited(config: AgentConfigView, patch: JsonView)
    ensures
        merged(config, object()) == Ok::<AgentConfigView, ConfigErrorView>(config),
        merged(config, patch) matches Ok(after) ==> {
            &&& patch.get("model"@) is None ==> after.model == config.model
            &&& patch.get("instructions"@) is None ==> after.instructions == config.instructions
            &&& patch.get("tools"@) is None ==> after.tools == config.tools
            &&& patch.get("reasoning"@) is None ==> after.reasoning == config.reasoning
            &&& after.mcp_servers == config.mcp_servers
        },
{
    match patch {
        JsonView::Object(fields) => {
            lemma_absent_kept(config, fields);
            if patch.get("model"@) is None {
                lemma_unread_absent(fields, "model"@);
            }
            if patch.get("instructions"@) is None {
                lemma_unread_absent(fields, "instructions"@);
            }
            if patch.get("tools"@) is None {
                lemma_unread_absent(fields, "tools"@);
            }
            if patch.get("reasoning"@) is None {
                lemma_unread_absent(fields, "reasoning"@);
            }
        },
        _ => {},
    }
}

/// Whether no two fields have the same name.
pub open spec fn names_once(fields: Seq<(Seq<char>, JsonView)>) -> bool {
    forall|i: int, j: int|
        0 <= i < j < fields.len() ==> (#[trigger] fields[i]).0 != (#[trigger] fields[j]).0
}

/// The configuration after a field has been set at some point has what the field
/// says, where no later field has its name.
pub proof fn lemma_present_applied(
    config: AgentConfigView,
    fields: Seq<(Seq<char>, JsonView)>,
    at: int,
)
    requires
        0 <= at < fields.len(),
        names_once(fields),
    ensures
        fields_set(config, fields) matches Ok(after) ==> {
            let value = fields[at].1;
            &&& fields[at].0 == "model"@ ==> value == JsonView::Text(after.model)
            &&& fields[at].0 == "instructions"@ ==> value == JsonView::Text(after.instructions) || (
            value == JsonView::Null && after.instructions == ""@)
            &&& fields[at].0 == "tools"@ && value == JsonView::Null ==> after.tools.len() == 0
            &&& fields[at].0 == "tools"@ && value != JsonView::Null ==> value is Array
                && tools_in(value.elements()) == Ok::<
                Seq<FunctionToolView>,
                ConfigErrorView,
            >(after.tools)
            &&& fields[at].0 == "reasoning"@ && value == JsonView::Null ==> after.reasoning is None
            &&& fields[at].0 == "reasoning"@ && value != JsonView::Null ==> after.reasoning is Some
                && effort_in(value) == Some(after.reasoning->0.effort)
                && compatible_effort(after.reasoning->0.effort)
        },
    decreases fields.len(),
{
    lemma_field_names();
    let front = fields.drop_last();
    if at < fields.len() - 1 {
        assert(names_once(front)) by {
            assert forall|i: int, j: int| 0 <= i < j < front.len() implies (#[trigger] front[i]).0
                != (#[trigger] front[j]).0 by {
                assert(front[i] == fields[i] && front[j] == fields[j]);
            }
        }
        lemma_present_applied(config, front, at);
        assert(fields[at].0 != fields[fields.len() - 1].0);
        assert(front[at] == fields[at]);
    }
}

/// What a client says takes the place of what the saved agent says; null clears
/// the instructions, the functions and the reasoning. No agent has a field
/// twice.
pub proof fn law_present_fields_take_effect(
    config: AgentConfigView,
    fields: Seq<(Seq<char>, JsonView)>,
)
    requires
        names_once(fields),
    ensures
        ({
            let patch = JsonView::Object(fields);
            merged(config, patch) matches Ok(after) ==> {
                &&& patch.get("model"@) is Some ==> patch.get("model"@)->0 == JsonView::Text(
                    after.model,
                )
                &&& patch.get("instructions"@) == Some(JsonView::Null) ==> after.instructions
                    == ""@
                &&& patch.get("instructions"@) is Some && patch.get("instructions"@)->0
                    != JsonView::Null ==> patch.get("instructions"@)->0 == JsonView::Text(
                    after.instructions,
                )
                &&& patch.get("tools"@) == Some(JsonView::Null) ==> after.tools.len() == 0
                &&& patch.get("reasoning"@) == Some(JsonView::Null) ==> after.reasoning is None
                &&& patch.get("reasoning"@) is Some && patch.get("reasoning"@)->0
                    != JsonView::Null ==> after.reasoning is Some && compatible_effort(
                    after.reasoning->0.effort,
                )
            }
        }),
{
    let patch = JsonView::Object(fields);
    assert forall|key: Seq<char>| (#[trigger] patch.get(key)) is Some implies first_named(
        fields,
        key,
        index_named(fields, key),
    ) by {
    }
    if patch.get("model"@) is Some {
        lemma_present_applied(config, fields, index_named(fields, "model"@));
    }
    if patch.get("instructions"@) is Some {
        lemma_present_applied(config, fields, index_named(fields, "instructions"@));
    }
    if patch.get("tools"@) is Some {
        lemma_present_applied(config, fields, index_named(fields, "tools"@));
    }
    if patch.get("reasoning"@) is Some {
        lemma_present_applied(config, fields, index_named(fields, "reasoning"@));
    }
}

/// A configuration that is accepted in the compatible form of the API keeps every
/// rule, so the agent or the session that it is for can be saved.
pub proof fn law_accepted_configuration_is_valid(
    config: AgentConfigView,
    patch: JsonView,
    schemas: Seq<bool>,
)
    ensures
        configured(config, patch, schemas) matches Ok(after) ==> {
            &&& valid_texts(after)
            &&& after.mcp_servers.len() == 0
            &&& after.reasoning is Some ==> compatible_effort(after.reasoning->0.effort)
            &&& valid_capabilities(after, tool_sizes(after.tools), schemas)
            &&& agent_refusal(after, tool_sizes(after.tools), schemas) is None
        },
{
}

/// Functions that are refused are refused as a bad request.
pub proof fn lemma_tools_refusal(documents: Seq<JsonView>, problem: Seq<char>)
    ensures
        tools_in(documents) matches Err(error) ==> refusal_told(error, problem).status == 400,
    decreases documents.len(),
{
    if documents.len() > 0 {
        lemma_tools_refusal(documents.drop_last(), problem);
    }
}

/// Fields that are refused are refused as a bad request.
proof fn lemma_fields_refusal(
    config: AgentConfigView,
    fields: Seq<(Seq<char>, JsonView)>,
    problem: Seq<char>,
)
    ensures
        fields_set(config, fields) matches Err(error) ==> refusal_told(error, problem).status
            == 400,
    decreases fields.len(),
{
    if fields.len() > 0 {
        lemma_fields_refusal(config, fields.drop_last(), problem);
        lemma_tools_refusal(fields.last().1.elements(), problem);
    }
}

/// Whoever asks for a configuration that is refused is told so as a bad request,
/// whatever the reason is.
pub proof fn law_refused_configuration_is_a_bad_request(
    config: AgentConfigView,
    patch: JsonView,
    schemas: Seq<bool>,
    problem: Seq<char>,
)
    ensures
        configured(config, patch, schemas) matches Err(error) ==> refusal_told(
            error,
            problem,
        ).status == 400,
{
    match patch {
        JsonView::Object(fields) => {
            lemma_fields_refusal(config, fields, problem);
        },
        _ => {},
    }
}

/// Whether a field of an agent has one of the names that are supported.
pub open spec fn supported_field(key: Seq<char>) -> bool {
    key == "model"@ || key == "instructions"@ || key == "tools"@ || key == "reasoning"@
}

/// Whether a client asks for a kind of tool that is not supported, or for one that
/// is loaded later.
pub open spec fn unsupported_tool(tool: JsonView) -> bool {
    tool.field("type"@) != JsonView::Text("function"@) || tool.field("defer_loading"@)
        == JsonView::Bool(true)
}

/// Whether a field of an agent asks for something that is not supported.
pub open spec fn unsupported_field(key: Seq<char>, value: JsonView) -> bool {
    ||| !supported_field(key)
    ||| key == "tools"@ && value is Array && exists|i: int|
        0 <= i < value.elements().len() && unsupported_tool(#[trigger] value.elements()[i])
    ||| key == "reasoning"@ && (value.field("effort"@) == JsonView::Text("ultra"@) || value.field(
        "effort"@,
    ) == JsonView::Text("persistent"@))
}

/// Whether a client asks for something that is not supported.
pub open spec fn unsupported(config: AgentConfigView, patch: JsonView) -> bool {
    ||| config.mcp_servers.len() > 0
    ||| match patch {
        JsonView::Object(fields) => exists|i: int|
            0 <= i < fields.len() && unsupported_field(
                (#[trigger] fields[i]).0,
                fields[i].1,
            ),
        _ => true,
    }
}

/// A function that is loaded later does not have the form of a function.
proof fn lemma_deferred_tool(tool: JsonView)
    requires
        tool.field("defer_loading"@) == JsonView::Bool(true),
    ensures
        tool_in(untagged(tool)) is None,
{
    reveal_strlit("type");
    reveal_strlit("defer_loading");
    reveal_strlit("name");
    reveal_strlit("description");
    reveal_strlit("parameters");
    assert("type"@.len() == 4 && "defer_loading"@.len() == 13 && "name"@.len() == 4);
    assert("description"@.len() == 11 && "parameters"@.len() == 10);
    lemma_without_get(tool, "type"@, "defer_loading"@);
    let plain = tool.without("type"@);
    assert(plain.get("defer_loading"@) == Some(JsonView::Bool(true)));
    assert(untagged(tool) == plain);
    let fields = plain->Object_0;
    let i = index_named(fields, "defer_loading"@);
    assert(first_named(fields, "defer_loading"@, i));
    assert(fields[i].0 == "defer_loading"@);
}

/// One tool that is not supported makes all be refused.
proof fn lemma_unsupported_tool(documents: Seq<JsonView>, i: int)
    requires
        0 <= i < documents.len(),
        unsupported_tool(documents[i]),
    ensures
        tools_in(documents) is Err,
    decreases documents.len(),
{
    if i < documents.len() - 1 {
        assert(documents.drop_last()[i] == documents[i]);
        lemma_unsupported_tool(documents.drop_last(), i);
    } else if documents[i].field("defer_loading"@) == JsonView::Bool(true) {
        lemma_deferred_tool(documents[i]);
    }
}

/// A field that asks for what is not supported is refused, whatever was set before
/// it.
proof fn lemma_unsupported_field(config: AgentConfigView, key: Seq<char>, value: JsonView)
    requires
        unsupported_field(key, value),
    ensures
        field_set(config, key, value) is Err,
{
    lemma_field_names();
    if key == "tools"@ {
        let i = choose|i: int|
            0 <= i < value.elements().len() && unsupported_tool(#[trigger] value.elements()[i]);
        lemma_unsupported_tool(value.elements(), i);
    } else if key == "reasoning"@ {
        assert(!compatible_effort("ultra"@) && !compatible_effort("persistent"@)) by {
            reveal_strlit("ultra");
            reveal_strlit("persistent");
            reveal_strlit("none");
            reveal_strlit("minimal");
            reveal_strlit("low");
            reveal_strlit("medium");
            reveal_strlit("high");
            reveal_strlit("xhigh");
            reveal_strlit("max");
            assert("ultra"@.len() == 5 && "persistent"@.len() == 10 && "none"@.len() == 4);
            assert("minimal"@.len() == 7 && "low"@.len() == 3 && "medium"@.len() == 6);
            assert("high"@.len() == 4 && "xhigh"@.len() == 5 && "max"@.len() == 3);
            assert("ultra"@[0] != "xhigh"@[0]);
        }
        assert(value is Object);
    }
}

/// One field that asks for what is not supported makes all be refused.
proof fn lemma_unsupported_fields(
    config: AgentConfigView,
    fields: Seq<(Seq<char>, JsonView)>,
    i: int,
)
    requires
        0 <= i < fields.len(),
        unsupported_field(fields[i].0, fields[i].1),
    ensures
        fields_set(config, fields) is Err,
    decreases fields.len(),
{
    let front = fields.drop_last();
    if i < fields.len() - 1 {
        assert(front[i] == fields[i]);
        lemma_unsupported_fields(config, front, i);
    } else {
        match fields_set(config, front) {
            Ok(before) => {
                lemma_unsupported_field(before, fields[i].0, fields[i].1);
            },
            Err(_) => {},
        }
    }
}

/// What is not supported is refused as a bad request, never left out in silence: a
/// field that is not known, a tool that is no function or is loaded later, an
/// effort or MCP servers that this form of the API does not have.
pub proof fn law_unsupported_configuration_is_refused(
    config: AgentConfigView,
    patch: JsonView,
    schemas: Seq<bool>,
    problem: Seq<char>,
)
    requires
        unsupported(config, patch),
    ensures
        match configured(config, patch, schemas) {
            Ok(_) => false,
            Err(error) => refusal_told(error, problem).status == 400,
        },
{
    law_refused_configuration_is_a_bad_request(config, patch, schemas, problem);
    law_omitted_fields_are_inherited(config, patch);
    match patch {
        JsonView::Object(fields) => {
            if config.mcp_servers.len() == 0 {
                let i = choose|i: int|
                    0 <= i < fields.len() && unsupported_field(
                        (#[trigger] fields[i]).0,
                        fields[i].1,
                    );
                lemma_unsupported_fields(config, fields, i);
            }
        },
        _ => {},
    }
}

/// A session that is refused leaves everything as it was, and whoever asks for it
/// is told so: that the agent was not found where that is the first that is wrong,
/// and else that the request was bad. `id` is an ID that no session has.
pub proof fn law_refused_creation_is_told(
    store: StoreView,
    params: CreateView,
    schemas: Seq<bool>,
    id: Seq<char>,
    fresh: Seq<char>,
    now: u64,
    problem: Seq<char>,
)
    requires
        store.session_row(id) is None,
    ensures
        ({
            let (after, result) = created(store, params, schemas, id, fresh, now);
            let unknown = first_input(params) is Ok && params.agent_id is Some && store.agent(
                params.agent_id->0,
            ) is None;
            &&& first_input(params) is Err ==> result is Err
            &&& unknown ==> result is Err
            &&& first_input(params) is Ok && !unknown ==> (result is Err <==> configured(
                first_agent(store, params.agent_id, fresh, now)->Ok_0.config,
                patch_of(params),
                schemas,
            ) is Err)
            &&& result matches Err(error) ==> {
                &&& after == store
                &&& if unknown {
                    refusal_told(error, problem) == missing("agent not found"@)
                } else {
                    refusal_told(error, problem).status == 400
                }
            }
        }),
{
    match first_agent(store, params.agent_id, fresh, now) {
        Ok(saved) => {
            law_refused_configuration_is_a_bad_request(
                saved.config,
                patch_of(params),
                schemas,
                problem,
            );
        },
        Err(_) => {},
    }
}

/// A saved agent that keeps every rule is taken as it is by a client that asks
/// for no change.
pub proof fn law_valid_agent_is_taken_unchanged(config: AgentConfigView, schemas: Seq<bool>)
    requires
        config_refusal(config, tool_sizes(config.tools), schemas) is None,
    ensures
        configured(config, object(), schemas) == Ok::<AgentConfigView, ConfigErrorView>(config),
{
    law_omitted_fields_are_inherited(config, object());
}

/// A selection that is refused makes all be refused.
proof fn lemma_no_failure(
    servers: Seq<(Seq<char>, JsonView)>,
    selections: Seq<McpSelectionView>,
    i: int,
)
    requires
        first_failure(servers, selections) is None,
        0 <= i < selections.len(),
    ensures
        selection_failure(servers, selections[i]) is None,
    decreases selections.len(),
{
    if i < selections.len() - 1 {
        lemma_no_failure(servers, selections.drop_last(), i);
        assert(selections.drop_last()[i] == selections[i]);
    }
}

/// What an agent selects is used only where the backend allows it: each server
/// that it names is configured and not switched off, and each tool is neither
/// left out of those that are enabled nor among those that are disabled.
pub proof fn law_selections_keep_to_the_policy(
    config: AgentConfigView,
    effective: JsonView,
    i: int,
    j: int,
)
    requires
        overriding(config, effective) is Ok,
        0 <= i < config.mcp_servers.len(),
    ensures
        ({
            let selection = config.mcp_servers[i];
            let server = JsonView::Object(configured_servers(effective)).get(selection.server);
            &&& server is Some
            &&& server->0.get("enabled"@) != Some(JsonView::Bool(false))
            &&& 0 <= j < selection.allowed_tools.len() ==> !tool_denied(
                server->0,
                selection.allowed_tools[j],
            )
        }),
{
    lemma_no_failure(configured_servers(effective), config.mcp_servers, i);
}

/// The first selection of a server is one of the selections, and of that server.
pub proof fn lemma_selection_found(selections: Seq<McpSelectionView>, server: Seq<char>)
    ensures
        match selection_of(selections, server) {
            Some(selection) => selection.server == server && exists|i: int|
                0 <= i < selections.len() && #[trigger] selections[i] == selection,
            None => forall|i: int|
                0 <= i < selections.len() ==> (#[trigger] selections[i]).server != server,
        },
    decreases selections.len(),
{
    if selections.len() > 0 {
        let front = selections.drop_last();
        lemma_selection_found(front, server);
        match selection_of(front, server) {
            Some(selection) => {
                let i = choose|i: int| 0 <= i < front.len() && #[trigger] front[i] == selection;
                assert(selections[i] == selection);
            },
            None => {
                assert forall|i: int| 0 <= i < front.len() implies (#[trigger] selections[i]).server
                    != server by {
                    assert(front[i] == selections[i]);
                }
                assert(selections[selections.len() - 1] == selections.last());
            },
        }
    }
}

/// A thread may use a configured server only where the agent selects it, and then
/// only the tools that the agent names; every other server is switched off.
pub proof fn law_unselected_servers_are_off(
    config: AgentConfigView,
    servers: Seq<(Seq<char>, JsonView)>,
    i: int,
)
    requires
        0 <= i < servers.len(),
    ensures
        ({
            let policies = server_policies(servers, config.mcp_servers);
            let selection = selection_of(config.mcp_servers, servers[i].0);
            &&& policies.len() == servers.len()
            &&& policies[i].0 == servers[i].0
            &&& selection is None ==> policies[i].1 == object().entry(
                "enabled"@,
                JsonView::Bool(false),
            )
            &&& selection is None <==> forall|j: int|
                0 <= j < config.mcp_servers.len() ==> (#[trigger] config.mcp_servers[j]).server
                    != servers[i].0
            &&& selection is Some ==> policies[i].1 == object().entry(
                "enabled"@,
                JsonView::Bool(true),
            ).entry("enabled_tools"@, text_list(selection->0.allowed_tools))
        }),
        thread_config(config, servers).get("mcp_servers"@) == Some(
            JsonView::Object(server_policies(servers, config.mcp_servers)),
        ),
{
    lemma_selection_found(config.mcp_servers, servers[i].0);
    match selection_of(config.mcp_servers, servers[i].0) {
        Some(selection) => {
            let j = choose|j: int|
                0 <= j < config.mcp_servers.len() && #[trigger] config.mcp_servers[j] == selection;
            assert(config.mcp_servers[j].server == servers[i].0);
        },
        None => {},
    }
    broadcast use group_object_reads;

}

/// What a thread is given depends on the backend's configuration only by the
/// names of its servers: nothing else of it, such as an address or a secret, is
/// passed on.
pub proof fn law_configuration_is_not_passed_on(
    config: AgentConfigView,
    one: JsonView,
    other: JsonView,
)
    requires
        overriding(config, one) is Ok,
        overriding(config, other) is Ok,
        configured_servers(one).len() == configured_servers(other).len(),
        forall|i: int|
            0 <= i < configured_servers(one).len() ==> (#[trigger] configured_servers(one)[i]).0
                == configured_servers(other)[i].0,
    ensures
        overriding(config, one) == overriding(config, other),
{
    let a = configured_servers(one);
    let b = configured_servers(other);
    assert(server_policies(a, config.mcp_servers) =~= server_policies(b, config.mcp_servers)) by {
        assert forall|i: int| 0 <= i < a.len() implies server_policies(a, config.mcp_servers)[i]
            == server_policies(b, config.mcp_servers)[i] by {
            assert(a[i].0 == b[i].0);
        }
    }
}

} // verus!
