//! What holds of the sessions that clients create and of what they send to them.
use crate::actions::submission;
use crate::contract::agent_document;
use crate::contract::ConfigErrorView;
use crate::contract::configured;
use crate::contract::merged;
use crate::contract::public_tool;
use crate::contract::public_tools;
use crate::error::ApiErrorView;
use crate::json::group_object_reads;
use crate::json::JsonView;
use crate::json::object;
use crate::names::lemma_agent_names;
use crate::names::lemma_event_fields;
use crate::names::lemma_session_names;
use crate::names::lemma_tool_names;
use crate::outside::compact_text;
use crate::resources::AgentConfigView;
use crate::resources::AgentView;
use crate::resources::empty_config;
use crate::resources::EnvironmentView;
use crate::resources::FunctionToolView;
use crate::records::public_actions;
use crate::resources::ToolResultView;
use crate::session_laws::law_session_is_read_back;
use crate::session_laws::lemma_status_read_back;
use crate::sessions::created;
use crate::sessions::CreateView;
use crate::sessions::created_event;
use crate::sessions::creation_failed;
use crate::sessions::EntryView;
use crate::sessions::first_agent;
use crate::sessions::first_input;
use crate::sessions::input_step;
use crate::sessions::input_text;
use crate::sessions::InputEventView;
use crate::sessions::InputStepView;
use crate::sessions::metadata_document;
use crate::sessions::new_session;
use crate::sessions::patch_of;
use crate::sessions::planned;
use crate::sessions::public_step;
use crate::sessions::run_together;
use crate::sessions::stream_verdict;
use crate::sessions::StreamStepView;
use crate::sessions::UserInputView;
use crate::soundness::lemma_public_session_found;
use crate::store::ChangeView;
use crate::store::PublicSession;
use crate::store::PublicSessionView;
use crate::store::StoreView;
use crate::table::lemma_put_lookup;
use crate::text::blank;
use crate::text::utf8_len;
use crate::text::white_space;
use crate::records::number;
use crate::json::list;
use crate::resources::RequiredActionView;
use crate::resources::SessionView;
use crate::store::EffectView;
use vstd::prelude::*;

verus! {

/// The names of the fields of an agent's parts differ.
proof fn lemma_agent_part_names()
    ensures
        "enabled"@ != "max_concurrent_subagents"@,
        "enabled"@ != "effort"@,
        "enabled"@ != "summary"@,
        "enabled"@ != "format"@,
        "enabled"@ != "verbosity"@,
        "enabled"@ != "type"@,
        "max_concurrent_subagents"@ != "effort"@,
        "max_concurrent_subagents"@ != "summary"@,
        "max_concurrent_subagents"@ != "format"@,
        "max_concurrent_subagents"@ != "verbosity"@,
        "max_concurrent_subagents"@ != "type"@,
        "effort"@ != "summary"@,
        "effort"@ != "format"@,
        "effort"@ != "verbosity"@,
        "effort"@ != "type"@,
        "summary"@ != "format"@,
        "summary"@ != "verbosity"@,
        "summary"@ != "type"@,
        "format"@ != "verbosity"@,
        "format"@ != "type"@,
        "verbosity"@ != "type"@,
{
    reveal_strlit("enabled");
    reveal_strlit("max_concurrent_subagents");
    reveal_strlit("effort");
    reveal_strlit("summary");
    reveal_strlit("format");
    reveal_strlit("verbosity");
    reveal_strlit("type");
    assert("enabled"@.len() == 7);
    assert("max_concurrent_subagents"@.len() == 24);
    assert("effort"@.len() == 6);
    assert("summary"@.len() == 7);
    assert("format"@.len() == 6);
    assert("verbosity"@.len() == 9);
    assert("type"@.len() == 4);
    assert("enabled"@[0] != "summary"@[0]);
    assert("effort"@[0] != "format"@[0]);
}

/// Whether a character leaves a blank, one of those that Unicode says do.
pub open spec fn leaves_a_blank(c: char) -> bool {
    let point = c as u32;
    ||| point == 0x9 || point == 0xa || point == 0xb || point == 0xc || point == 0xd
    ||| point == 0x20 || point == 0x85 || point == 0xa0 || point == 0x1680
    ||| point == 0x2000 || point == 0x2001 || point == 0x2002 || point == 0x2003
    ||| point == 0x2004 || point == 0x2005 || point == 0x2006 || point == 0x2007
    ||| point == 0x2008 || point == 0x2009 || point == 0x200a
    ||| point == 0x2028 || point == 0x2029 || point == 0x202f || point == 0x205f
    ||| point == 0x3000
}

/// A text is blank where it holds nothing but characters that leave a blank.
pub proof fn law_blank_texts_hold_white_space_only(text: Seq<char>)
    ensures
        blank(text) <==> forall|i: int| 0 <= i < text.len() ==> leaves_a_blank(#[trigger] text[i]),
{
    assert forall|c: char| leaves_a_blank(c) == white_space(c) by {}
    assert(blank(text) ==> forall|i: int|
        0 <= i < text.len() ==> leaves_a_blank(#[trigger] text[i]));
    if forall|i: int| 0 <= i < text.len() ==> leaves_a_blank(#[trigger] text[i]) {
        assert forall|i: int| 0 <= i < text.len() implies white_space(#[trigger] text[i]) by {
            assert(leaves_a_blank(text[i]));
        }
    }
}

/// What a client says: a text, or the texts of one user message, each behind the
/// one before.
pub open spec fn says(input: UserInputView, text: Seq<char>) -> bool {
    match input {
        UserInputView::Text(plain) => text == plain,
        UserInputView::Messages(messages) => messages.len() == 1 && messages[0].role == "user"@ && (
        messages[0].kind is None || messages[0].kind == Some("message"@)) && text
            == messages[0].content.flatten(),
        UserInputView::Malformed(_) => false,
    }
}

/// Texts run together as they are flattened.
proof fn lemma_run_together(texts: Seq<Seq<char>>)
    ensures
        run_together(texts) == texts.flatten(),
    decreases texts.len(),
{
    texts.lemma_flatten_and_flatten_alt_are_equivalent();
    if texts.len() > 0 {
        lemma_run_together(texts.drop_last());
        texts.drop_last().lemma_flatten_and_flatten_alt_are_equivalent();
    }
}

/// An input is taken if and only if it says something of 1 to 8192 bytes that is not
/// blank, and then as it was said. Any other is a bad request, and is told so.
pub proof fn law_input_is_taken_as_said(input: UserInputView)
    ensures
        match input_text(input) {
            Ok(text) => says(input, text) && !blank(text) && utf8_len(text) <= 8192,
            Err(error) => {
                &&& error.status == 400
                &&& forall|text: Seq<char>| #[trigger]
                    says(input, text) ==> blank(text) || utf8_len(text) > 8192
                &&& error.message == match input {
                    UserInputView::Malformed(problem) => problem,
                    UserInputView::Messages(messages) if messages.len() != 1 =>
                        "exactly one user message is currently supported"@,
                    UserInputView::Messages(messages) if !says(
                        input,
                        messages[0].content.flatten(),
                    ) => "input must be a user message"@,
                    _ => "input must be 1-8192 bytes"@,
                }
            },
        },
{
    match input {
        UserInputView::Messages(messages) => {
            if messages.len() == 1 {
                lemma_run_together(messages[0].content);
                assert(says(input, messages[0].content.flatten()) || messages[0].role != "user"@
                    || (messages[0].kind is Some && messages[0].kind != Some("message"@)));
            }
        },
        UserInputView::Text(text) => {
            assert(says(input, text));
        },
        _ => {},
    }
}

/// A session begins only in no environment, without vaults, and with at most 16
/// metadata entries whose keys have at most 64 characters and whose values have at
/// most 512; it begins with what the client said.
pub proof fn law_sessions_begin_within_the_limits(params: CreateView)
    ensures
        ({
            let metadata = params.metadata;
            let fits = metadata.len() <= 16 && forall|i: int|
                0 <= i < metadata.len() ==> (#[trigger] metadata[i]).key.len() <= 64
                    && metadata[i].value.len() <= 512;
            let bare = params.vault_ids is None || params.vault_ids->0.len() == 0;
            match first_input(params) {
                Ok(text) => {
                    &&& params.environment is Nowhere
                    &&& bare
                    &&& fits
                    &&& says(params.input, text)
                    &&& !blank(text)
                    &&& utf8_len(text) <= 8192
                },
                Err(error) => {
                    &&& error.status == 400
                    &&& params.environment !is Nowhere ==> error.message
                        == "only environment none is implemented on this API path"@
                    &&& params.environment is Nowhere && !bare ==> error.message
                        == "vaults are not implemented"@
                    &&& params.environment is Nowhere && bare ==> {
                        ||| input_text(params.input) == Err::<Seq<char>, ApiErrorView>(error)
                        ||| !fits && error.message == "metadata exceeds documented limits"@
                    }
                },
            }
        }),
{
    law_input_is_taken_as_said(params.input);
}

/// What a metadata document holds of entries with keys that differ.
proof fn lemma_metadata(metadata: Seq<EntryView>)
    requires
        forall|i: int, j: int|
            0 <= i < j < metadata.len() ==> (#[trigger] metadata[i]).key != (
            #[trigger] metadata[j]).key,
    ensures
        metadata_document(metadata) is Object,
        forall|i: int|
            0 <= i < metadata.len() ==> metadata_document(metadata).get(
                (#[trigger] metadata[i]).key,
            ) == Some(JsonView::Text(metadata[i].value)),
        forall|key: Seq<char>|
            (#[trigger] metadata_document(metadata).get(key)) is Some ==> exists|i: int|
                0 <= i < metadata.len() && (#[trigger] metadata[i]).key == key,
    decreases metadata.len(),
{
    broadcast use group_object_reads;

    if metadata.len() > 0 {
        let front = metadata.drop_last();
        let last = metadata.last();
        assert forall|i: int, j: int| 0 <= i < j < front.len() implies (#[trigger] front[i]).key != (
        #[trigger] front[j]).key by {
            assert(front[i] == metadata[i]);
            assert(front[j] == metadata[j]);
        }
        lemma_metadata(front);
        let document = metadata_document(metadata);
        assert(document == metadata_document(front).entry(last.key, JsonView::Text(last.value)));
        if metadata_document(front).get(last.key) is Some {
            let i = choose|i: int| 0 <= i < front.len() && (#[trigger] front[i]).key == last.key;
            assert(metadata[i].key == metadata[metadata.len() - 1].key);
        }
        assert forall|i: int| 0 <= i < metadata.len() implies document.get(
            (#[trigger] metadata[i]).key,
        ) == Some(JsonView::Text(metadata[i].value)) by {
            if i < front.len() {
                assert(front[i] == metadata[i]);
                assert(metadata[i].key != metadata[metadata.len() - 1].key);
            }
        }
        assert forall|key: Seq<char>| (#[trigger] document.get(key)) is Some implies exists|i: int|
            0 <= i < metadata.len() && (#[trigger] metadata[i]).key == key by {
            if key == last.key {
                assert(metadata[metadata.len() - 1].key == key);
            } else {
                assert(metadata_document(front).get(key) is Some);
                let i = choose|i: int| 0 <= i < front.len() && (#[trigger] front[i]).key == key;
                assert(metadata[i].key == key);
            }
        }
    }
}

/// Whether a document shows a function with its name, what it is for and what it
/// takes.
pub open spec fn shows_function(document: JsonView, tool: FunctionToolView) -> bool {
    &&& document.field("type"@) == JsonView::Text("function"@)
    &&& document.field("name"@) == JsonView::Text(tool.name)
    &&& document.field("description"@) == JsonView::Text(tool.description)
    &&& document.field("parameters"@) == tool.parameters
    &&& document.field("defer_loading"@) == JsonView::Bool(false)
}

/// Each function of a list is shown, in its place.
proof fn lemma_functions_shown(tools: Seq<FunctionToolView>)
    ensures
        public_tools(tools) is Array,
        public_tools(tools).elements().len() == tools.len(),
        forall|i: int|
            0 <= i < tools.len() ==> shows_function(
                #[trigger] public_tools(tools).elements()[i],
                tools[i],
            ),
    decreases tools.len(),
{
    if tools.len() > 0 {
        lemma_functions_shown(tools.drop_last());
        lemma_tool_names();
        broadcast use group_object_reads;

        let front = public_tools(tools.drop_last()).elements();
        assert(public_tools(tools).elements() == front.push(public_tool(tools.last())));
        assert forall|i: int| 0 <= i < tools.len() implies shows_function(
            #[trigger] public_tools(tools).elements()[i],
            tools[i],
        ) by {
            if i < front.len() {
                assert(shows_function(front[i], tools.drop_last()[i]));
            }
        }
    }
}

/// Whether a document shows an agent as it is configured.
pub open spec fn shows_agent(document: JsonView, agent: AgentView) -> bool {
    let tools = document.field("tools"@);
    &&& document.field("id"@) == JsonView::Text(agent.id)
    &&& document.field("model"@) == JsonView::Text(agent.config.model)
    &&& document.field("instructions"@) == JsonView::Text(agent.config.instructions)
    &&& document.get("name"@) == Some(JsonView::Null)
    &&& document.field("service_tier"@) == JsonView::Text("auto"@)
    &&& document.field("reasoning"@).get("effort"@) == Some(
        match agent.config.reasoning {
            Some(reasoning) => JsonView::Text(reasoning.effort),
            None => JsonView::Null,
        },
    )
    &&& document.field("reasoning"@).get("summary"@) == Some(JsonView::Null)
    &&& document.field("multi_agent"@).field("enabled"@) == JsonView::Bool(false)
    &&& document.field("multi_agent"@).field("max_concurrent_subagents"@).unsigned() == Some(0u64)
    &&& document.field("text"@).field("format"@).field("type"@) == JsonView::Text("text"@)
    &&& document.field("text"@).field("verbosity"@) == JsonView::Text("medium"@)
    &&& tools is Array
    &&& tools.elements().len() == agent.config.tools.len()
    &&& forall|i: int|
        0 <= i < agent.config.tools.len() ==> shows_function(
            #[trigger] tools.elements()[i],
            agent.config.tools[i],
        )
}

/// The document of an agent shows it.
pub proof fn lemma_agent_shown(agent: AgentView)
    ensures
        shows_agent(agent_document(agent), agent),
{
    lemma_functions_shown(agent.config.tools);
    lemma_agent_names();
    lemma_agent_part_names();
    broadcast use group_object_reads;

}

/// Whether a document shows a session that has just begun.
pub open spec fn shows_beginning(
    shown: JsonView,
    id: Seq<char>,
    agent: AgentView,
    now: u64,
) -> bool {
    &&& shown.field("id"@) == JsonView::Text(id)
    &&& shown.field("object"@) == JsonView::Text("agent.session"@)
    &&& shows_agent(shown.field("agent"@), agent)
    &&& shown.field("created_at"@).unsigned() == Some(now)
    &&& shown.field("last_active_at"@).unsigned() == Some(now)
    &&& shown.field("environment"@).field("type"@) == JsonView::Text("none"@)
    &&& shown.field("vault_ids"@) is Array
    &&& shown.field("vault_ids"@).elements().len() == 0
    &&& shown.field("required_actions"@) is Array
    &&& shown.field("required_actions"@).elements().len() == 0
    &&& shown.field("status"@) == JsonView::Text("in_progress"@)
    &&& shown.get("error"@) == Some(JsonView::Null)
    &&& shown.get("usage"@) == Some(JsonView::Null)
}

/// Whether a document holds the entries, and nothing else.
pub open spec fn holds_entries(document: JsonView, entries: Seq<EntryView>) -> bool {
    &&& document is Object
    &&& forall|i: int|
        0 <= i < entries.len() ==> document.get((#[trigger] entries[i]).key) == Some(
            JsonView::Text(entries[i].value),
        )
    &&& forall|key: Seq<char>|
        (#[trigger] document.get(key)) is Some ==> exists|i: int|
            0 <= i < entries.len() && (#[trigger] entries[i]).key == key
}

/// What a document of a session that has just begun reads, with an agent and
/// metadata.
spec fn reads_beginning(
    shown: JsonView,
    id: Seq<char>,
    agent: JsonView,
    metadata: JsonView,
    now: u64,
) -> bool {
    &&& shown is Object
    &&& shown.field("id"@) == JsonView::Text(id)
    &&& shown.field("object"@) == JsonView::Text("agent.session"@)
    &&& shown.field("agent"@) == agent
    &&& shown.field("created_at"@).unsigned() == Some(now)
    &&& shown.field("last_active_at"@).unsigned() == Some(now)
    &&& shown.field("environment"@).field("type"@) == JsonView::Text("none"@)
    &&& shown.field("metadata"@) == metadata
    &&& shown.field("vault_ids"@) is Array
    &&& shown.field("vault_ids"@).elements().len() == 0
    &&& shown.field("required_actions"@) is Array
    &&& shown.field("required_actions"@).elements().len() == 0
    &&& shown.field("status"@) == JsonView::Text("in_progress"@)
    &&& shown.get("error"@) == Some(JsonView::Null)
    &&& shown.get("usage"@) == Some(JsonView::Null)
}

/// The document of a session that has just begun.
spec fn beginning(id: Seq<char>, agent: JsonView, metadata: JsonView, now: u64) -> JsonView {
    object().entry("id"@, JsonView::Text(id)).entry(
        "object"@,
        JsonView::Text("agent.session"@),
    ).entry("agent"@, agent).entry("created_at"@, number(now)).entry(
        "last_active_at"@,
        number(now),
    ).entry("environment"@, object().entry("type"@, JsonView::Text("none"@))).entry(
        "metadata"@,
        metadata,
    ).entry("vault_ids"@, list()).entry("required_actions"@, list()).entry(
        "status"@,
        JsonView::Text("in_progress"@),
    ).entry("error"@, JsonView::Null).entry("usage"@, JsonView::Null)
}

/// The document of a session that has just begun reads so, with no action waited for.
proof fn lemma_beginning_fields(id: Seq<char>, agent: JsonView, metadata: JsonView, now: u64)
    ensures
        reads_beginning(beginning(id, agent, metadata, now), id, agent, metadata, now),
        reads_beginning(
            beginning(id, agent, metadata, now).with(
                "required_actions"@,
                public_actions(Seq::empty()),
            ),
            id,
            agent,
            metadata,
            now,
        ),
{
    lemma_session_names();
    broadcast use group_object_reads;

}

/// Whether an effect tells all streams of a session that has just begun.
pub open spec fn tells_beginning(
    effect: EffectView,
    id: Seq<char>,
    agent: AgentView,
    metadata: Seq<EntryView>,
    now: u64,
) -> bool {
    effect matches EffectView::Publish(event) && {
        &&& event.field("type"@) == JsonView::Text("agent.session.created"@)
        &&& shows_beginning(event.field("session"@), id, agent, now)
        &&& holds_entries(event.field("session"@).field("metadata"@), metadata)
    }
}

/// What the document of a new session shows.
proof fn lemma_beginning_shown(
    id: Seq<char>,
    agent: AgentView,
    metadata: Seq<EntryView>,
    now: u64,
)
    ensures
        new_session(id, agent, metadata, now) is Object,
        shows_beginning(new_session(id, agent, metadata, now), id, agent, now),
        shows_beginning(
            new_session(id, agent, metadata, now).with("required_actions"@, public_actions(Seq::empty())),
            id,
            agent,
            now,
        ),
        new_session(id, agent, metadata, now).field("metadata"@) == metadata_document(metadata),
        new_session(id, agent, metadata, now).with(
            "required_actions"@,
            public_actions(Seq::empty()),
        ).field("metadata"@) == metadata_document(metadata),
{
    let session = new_session(id, agent, metadata, now);
    let shown = session.with("required_actions"@, public_actions(Seq::empty()));
    lemma_agent_shown(agent);
    lemma_beginning_fields(id, agent_document(agent), metadata_document(metadata), now);
    assert(session == beginning(id, agent_document(agent), metadata_document(metadata), now));
    assert(reads_beginning(
        session,
        id,
        agent_document(agent),
        metadata_document(metadata),
        now,
    ));
    assert(reads_beginning(shown, id, agent_document(agent), metadata_document(metadata), now));
}

/// What the creation of a session leaves behind.
proof fn lemma_created(
    store: StoreView,
    params: CreateView,
    schemas: Seq<bool>,
    id: Seq<char>,
    fresh: Seq<char>,
    now: u64,
) -> (agent: AgentView)
    requires
        store.well_formed(),
        created(store, params, schemas, id, fresh, now).1 is Ok,
    ensures
        ({
            let (after, text) = created(store, params, schemas, id, fresh, now);
            let public = new_session(id, agent, params.metadata, now);
            &&& first_input(params) == Ok::<_, ApiErrorView>(text->Ok_0)
            &&& match params.agent_id {
                Some(agent_id) => {
                    &&& store.agent(agent_id) is Some
                    &&& agent.id == store.agent(agent_id)->0.id
                    &&& agent.created_at == store.agent(agent_id)->0.created_at
                    &&& params.agent is None ==> agent == store.agent(agent_id)->0
                },
                None => agent.id == fresh && agent.created_at == now,
            }
            &&& after.session(id) == Some(
                SessionView {
                    id,
                    agent,
                    environment: EnvironmentView::Nowhere,
                    thread_id: None,
                    required_actions: Seq::empty(),
                    unresolved_actions: Seq::empty(),
                },
            )
            &&& after.public_session(id) == Some(PublicSessionView { id, data: public })
            &&& after.outbox.last() == EffectView::Publish(created_event(public))
        }),
{
    let saved = first_agent(store, params.agent_id, fresh, now)->Ok_0;
    let config = configured(saved.config, patch_of(params), schemas)->Ok_0;
    let agent = AgentView { config, ..saved };
    let after = store.with_session(id, agent, EnvironmentView::Nowhere).0;
    law_session_is_read_back(store, id, agent, EnvironmentView::Nowhere, id);
    let public = new_session(id, agent, params.metadata, now);
    let form = PublicSessionView { id, data: public };
    lemma_put_lookup::<PublicSession>(after.public_sessions, form, seq![id]);
    let kept = after.saved(ChangeView::PublicSession(form));
    assert(kept.session(id) == after.session(id));
    if params.agent is None {
        assert(merged(saved.config, object()) == Ok::<_, ConfigErrorView>(saved.config));
    }
    agent
}

/// What the event of a new session holds.
proof fn lemma_created_event(session: JsonView)
    ensures
        created_event(session).field("type"@) == JsonView::Text("agent.session.created"@),
        created_event(session).field("session"@) == session,
{
    lemma_event_fields();
    broadcast use group_object_reads;

}

/// What is shown of a session that has just begun, and told of it.
proof fn lemma_beginning_told(
    after: StoreView,
    id: Seq<char>,
    agent: AgentView,
    metadata: Seq<EntryView>,
    now: u64,
)
    requires
        forall|i: int, j: int|
            0 <= i < j < metadata.len() ==> (#[trigger] metadata[i]).key != (
            #[trigger] metadata[j]).key,
        after.session(id) is Some,
        after.session(id)->0.required_actions == Seq::<RequiredActionView>::empty(),
        after.public_session(id) == Some(
            PublicSessionView { id, data: new_session(id, agent, metadata, now) },
        ),
        after.outbox.last() == EffectView::Publish(
            created_event(new_session(id, agent, metadata, now)),
        ),
    ensures
        after.public_view(id) is Ok,
        shows_beginning(after.public_view(id)->Ok_0, id, agent, now),
        holds_entries(after.public_view(id)->Ok_0.field("metadata"@), metadata),
        tells_beginning(after.outbox.last(), id, agent, metadata, now),
{
    let public = new_session(id, agent, metadata, now);
    lemma_beginning_shown(id, agent, metadata, now);
    lemma_metadata(metadata);
    lemma_created_event(public);
}

/// A session that a client has created is shown to it as it was asked for: with its
/// agent, its metadata, when it began, and nothing that is waited for; it is in
/// progress. All streams are told of it so. The agent is the one that was named, or
/// a fresh one, with the fields that were overridden.
pub proof fn law_created_session_is_shown_as_asked(
    store: StoreView,
    params: CreateView,
    schemas: Seq<bool>,
    id: Seq<char>,
    fresh: Seq<char>,
    now: u64,
)
    requires
        store.well_formed(),
        created(store, params, schemas, id, fresh, now).1 is Ok,
        forall|i: int, j: int|
            0 <= i < j < params.metadata.len() ==> (#[trigger] params.metadata[i]).key != (
            #[trigger] params.metadata[j]).key,
    ensures
        ({
            let (after, text) = created(store, params, schemas, id, fresh, now);
            let shown = after.public_view(id)->Ok_0;
            let session = after.session(id)->0;
            &&& says(params.input, text->Ok_0)
            &&& after.session(id) is Some
            &&& session.thread_id is None
            &&& session.environment is Nowhere
            &&& match params.agent_id {
                Some(agent_id) => {
                    &&& store.agent(agent_id) is Some
                    &&& session.agent.id == store.agent(agent_id)->0.id
                    &&& session.agent.created_at == store.agent(agent_id)->0.created_at
                    &&& params.agent is None ==> session.agent == store.agent(agent_id)->0
                },
                None => session.agent.id == fresh && session.agent.created_at == now,
            }
            &&& after.public_view(id) is Ok
            &&& shows_beginning(shown, id, session.agent, now)
            &&& holds_entries(shown.field("metadata"@), params.metadata)
            &&& tells_beginning(after.outbox.last(), id, session.agent, params.metadata, now)
        }),
{
    let after = created(store, params, schemas, id, fresh, now).0;
    let agent = lemma_created(store, params, schemas, id, fresh, now);
    law_sessions_begin_within_the_limits(params);
    lemma_beginning_told(after, id, agent, params.metadata, now);
}

/// A session whose first input the backend did not take is shown as failed, with
/// what went wrong, and the client is told the same.
pub proof fn law_failed_creation_says_why(
    store: StoreView,
    id: Seq<char>,
    error: ApiErrorView,
    now: u64,
)
    requires
        store.well_formed(),
        store.public_session(id) is Some,
    ensures
        ({
            let (after, told) = creation_failed(store, id, error, now);
            let shown = after.public_session(id)->0.data;
            &&& told == error
            &&& after.public_session(id) is Some
            &&& shown.field("status"@) == JsonView::Text("failed"@)
            &&& shown.field("error"@) == JsonView::Text(error.message)
        }),
{
    lemma_status_read_back(store, id, "failed"@, Some(error.message), now);
    lemma_public_session_found(store, id);
    assert(store.session_row(id) is Some);
}

/// A client sends one event at a time, without a key, to a session that there is;
/// what it says is handed on as it is, and nothing else is.
pub proof fn law_one_event_is_taken_at_a_time(
    store: StoreView,
    id: Seq<char>,
    keyed: bool,
    events: Seq<InputEventView>,
)
    requires
        store.well_formed(),
    ensures
        match input_step(store, id, keyed, events) {
            Err(error) => {
                &&& keyed ==> error.status == 400 && error.message
                    == "event idempotency keys are not implemented"@
                &&& !keyed && events.len() != 1 ==> error.status == 400 && error.message
                    == "exactly one input event is currently supported"@
                &&& !keyed && events.len() == 1 && store.public_session(id) is None ==> error.status
                    == 404 && error.message == "session not found"@
                &&& !keyed && events.len() == 1 && store.public_session(id) is Some ==> {
                    &&& error.status == 400
                    &&& events[0] !is Cancel
                    &&& events[0] matches InputEventView::Message { input } ==> input_text(input)
                        is Err
                }
            },
            Ok(step) => {
                &&& !keyed
                &&& events.len() == 1
                &&& store.public_session(id) is Some
                &&& match events[0] {
                    InputEventView::Message { input } => step matches InputStepView::Say(text)
                        && says(input, text) && !blank(text) && utf8_len(text) <= 8192,
                    InputEventView::Cancel => step is Interrupt || step is Nothing,
                    InputEventView::ToolResult { .. } => step is Answer,
                }
            },
        },
{
    if store.public_session(id) is Some {
        lemma_public_session_found(store, id);
        assert(store.session_row(id) is Some);
    }
    if events.len() == 1 {
        match events[0] {
            InputEventView::Message { input } => law_input_is_taken_as_said(input),
            _ => {},
        }
    }
}

/// The result of a function is handed on for the call and the turn that it was sent
/// for: what went wrong, or what came out, or nothing. A success does not say what
/// went wrong, and a result does not say both.
pub proof fn law_function_results_are_handed_on(
    store: StoreView,
    id: Seq<char>,
    call_id: Seq<char>,
    turn_id: Seq<char>,
    success: bool,
    output: Option<Seq<char>>,
    error: Option<Seq<char>>,
)
    requires
        store.well_formed(),
        store.public_session(id) is Some,
    ensures
        ({
            let event = InputEventView::ToolResult { call_id, turn_id, success, output, error };
            let told = |text: Seq<char>|
                Ok::<_, ApiErrorView>(
                    InputStepView::Answer {
                        turn_id,
                        result: ToolResultView { call_id, success, output: JsonView::Text(text) },
                    },
                );
            input_step(store, id, false, seq![event]) == match (output, error) {
                (None, None) => told(""@),
                (Some(text), None) => told(text),
                (None, Some(text)) if !success => told(text),
                (Some(_), Some(_)) if !success => Err(
                    ApiErrorView {
                        status: 400,
                        message: "combined function output and error are not implemented"@,
                    },
                ),
                _ => Err(
                    ApiErrorView {
                        status: 400,
                        message: "a successful tool result cannot contain an error"@,
                    },
                ),
            }
        }),
{
    lemma_public_session_found(store, id);
    assert(store.session_row(id) is Some);
}

/// The events of a session are open to a client if and only if there is such a
/// session, and then only while the backend is there.
pub proof fn law_streams_need_session_and_backend(store: StoreView, id: Seq<char>, connected: bool)
    requires
        store.well_formed(),
    ensures
        match stream_verdict(store, id, connected) {
            Ok(_) => store.public_session(id) is Some && connected,
            Err(error) => if store.public_session(id) is None {
                error.status == 404 && error.message == "session not found"@
            } else {
                !connected && error.status == 503 && error.message == "app-server disconnected"@
            },
        },
{
    if store.public_session(id) is Some {
        lemma_public_session_found(store, id);
        assert(store.session_row(id) is Some);
    }
}

/// A client is sent the events of its session under their types, each as its JSON
/// text. Its stream ends where events were missed or the backend is gone, and skips
/// what other sessions do.
pub proof fn law_streams_send_what_the_session_does(event: Option<JsonView>, id: Seq<char>)
    ensures
        ({
            let step = public_step(event, id);
            let value = event->0;
            let ends = event is None || value.field("type"@) == JsonView::Text("disconnect"@);
            let mine = {
                ||| value.field("session_id"@) == JsonView::Text(id)
                ||| value.field("session"@).field("id"@) == JsonView::Text(id)
            };
            &&& step is End <==> ends
            &&& step is Send <==> !ends && mine
            &&& step matches StreamStepView::Send { name, data } ==> {
                &&& data == compact_text(value)
                &&& value.field("type"@) == JsonView::Text(name) || (value.field("type"@) !is Text
                    && name.len() == 0)
            }
        }),
{
    reveal_strlit("");
}

/// An answer may be handed in if and only if it has at most 1024 bytes and the
/// backend is there.
pub proof fn law_answers_are_bounded(size: nat, connected: bool)
    ensures
        match submission(size, connected) {
            Ok(_) => size <= 1024 && connected,
            Err(error) => if size > 1024 {
                error.status == 400 && error.message == "tool output must be at most 1024 bytes"@
            } else {
                !connected && error.status == 503 && error.message == "app-server disconnected"@
            },
        },
{
}

/// What is planned for a session is what it gets: the configuration of the agent that
/// it names, or of a fresh one, with what it overrides. Where no plan can be made no
/// session is created, for the same reason.
pub proof fn law_sessions_are_created_as_planned(
    store: StoreView,
    params: CreateView,
    schemas: Seq<bool>,
    id: Seq<char>,
    fresh: Seq<char>,
    now: u64,
)
    requires
        store.well_formed(),
    ensures
        ({
            let plan = planned(store, params);
            let (after, result) = created(store, params, schemas, id, fresh, now);
            let base = match params.agent_id {
                Some(agent_id) => store.agent(agent_id)->0.config,
                None => empty_config(),
            };
            &&& plan matches Err(error) ==> result == Err::<Seq<char>, _>(error) && after == store
            &&& plan matches Ok(config) ==> {
                &&& params.agent is Some ==> merged(base, params.agent->0) == Ok::<
                    _,
                    ConfigErrorView,
                >(config)
                &&& params.agent is None ==> config == base
                &&& result is Ok ==> after.session(id) is Some && after.session(
                    id,
                )->0.agent.config == config
                &&& result is Err ==> after == store
            }
            &&& params.agent_id is Some && store.agent(params.agent_id->0) is None && first_input(
                params,
            ) is Ok ==> plan == Err::<AgentConfigView, _>(
                ConfigErrorView::Invalid(ApiErrorView { status: 404, message: "agent not found"@ }),
            )
        }),
{
    let (after, result) = created(store, params, schemas, id, fresh, now);
    match first_agent(store, params.agent_id, fresh, now) {
        Ok(saved) => {
            assert(merged(saved.config, object()) == Ok::<_, ConfigErrorView>(saved.config));
            match configured(saved.config, patch_of(params), schemas) {
                Ok(config) => {
                    if result is Ok {
                        let agent = AgentView { config, ..saved };
                        law_session_is_read_back(store, id, agent, EnvironmentView::Nowhere, id);
                        let opened = store.with_session(id, agent, EnvironmentView::Nowhere).0;
                        assert(after.session(id) == opened.session(id));
                    }
                },
                Err(_) => {},
            }
        },
        Err(_) => {},
    }
}

} // verus!
