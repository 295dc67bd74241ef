//! Sessions in the compatible form of the API: how they are created, spoken to
//! and listened to.
use crate::contract::agent;
use crate::contract::agent_document;
use crate::contract::configure;
use crate::contract::configured;
use crate::contract::merge;
use crate::contract::merged;
use crate::contract::ConfigError;
use crate::contract::ConfigErrorView;
use crate::contract::MAX_INPUT_BYTES;
use crate::error::bad_request;
use crate::error::disconnected_error;
use crate::error::disconnected_failure;
use crate::error::invalid;
use crate::error::missing;
use crate::error::ApiError;
use crate::error::ApiErrorView;
use crate::json::list;
use crate::json::object;
use crate::json::Json;
use crate::json::JsonView;
use crate::model::duplicate_all;
use crate::model::duplicate_option;
use crate::model::option_view;
use crate::model::outcome;
use crate::model::verdict;
use crate::model::views;
use crate::model::Duplicate;
use crate::outside::compact;
use crate::outside::compact_text;
use crate::outside::fresh_id;
use crate::outside::is_uuid4;
use crate::records::active_turn;
use crate::records::last_active_turn;
use crate::records::number;
use crate::records::save_session;
use crate::records::session;
use crate::records::session_status;
use crate::resources::empty_config;
use crate::resources::Agent;
use crate::resources::AgentConfig;
use crate::resources::AgentConfigView;
use crate::resources::AgentView;
use crate::resources::Environment;
use crate::resources::EnvironmentView;
use crate::resources::ToolResult;
use crate::resources::ToolResultView;
use crate::store::Store;
use crate::store::StoreView;
use crate::text::blank;
use crate::text::byte_len;
use crate::text::characters;
use crate::text::is_blank;
use crate::text::same;
use crate::text::utf8_len;
use vstd::prelude::*;

verus! {

/// The most entries that the metadata of a session may have.
pub const MAX_METADATA: usize = 16;

/// The most characters that the key of a metadata entry may have.
pub const MAX_METADATA_KEY: usize = 64;

/// The most characters that the value of a metadata entry may have.
pub const MAX_METADATA_VALUE: usize = 512;

/// A message to a session, in parts.
pub struct Message {
    pub role: String,
    /// The texts of its parts.
    pub content: Vec<String>,
    pub kind: Option<String>,
}

/// What a [`Message`] stands for.
pub struct MessageView {
    pub role: Seq<char>,
    pub content: Seq<Seq<char>>,
    pub kind: Option<Seq<char>>,
}

impl View for Message {
    type V = MessageView;

    open spec fn view(&self) -> MessageView {
        MessageView {
            role: self.role@,
            content: views(self.content@),
            kind: option_view(self.kind),
        }
    }
}

impl Duplicate for Message {
    fn duplicate(&self) -> (copy: Self) {
        Message {
            role: self.role.clone(),
            content: duplicate_all(&self.content),
            kind: duplicate_option(&self.kind),
        }
    }
}

/// What a client says to a session.
pub enum UserInput {
    /// A text.
    Text(String),
    /// A list of messages.
    Messages(Vec<Message>),
    /// Something else; the text tells what is wrong with it.
    Malformed(String),
}

/// What a [`UserInput`] stands for.
pub enum UserInputView {
    Text(Seq<char>),
    Messages(Seq<MessageView>),
    Malformed(Seq<char>),
}

impl View for UserInput {
    type V = UserInputView;

    open spec fn view(&self) -> UserInputView {
        match self {
            UserInput::Text(text) => UserInputView::Text(text@),
            UserInput::Messages(messages) => UserInputView::Messages(views(messages@)),
            UserInput::Malformed(problem) => UserInputView::Malformed(problem@),
        }
    }
}

/// The texts, one behind the other.
pub open spec fn run_together(texts: Seq<Seq<char>>) -> Seq<char>
    decreases texts.len(),
{
    if texts.len() == 0 {
        Seq::empty()
    } else {
        run_together(texts.drop_last()) + texts.last()
    }
}

/// Whether a text may be said to a session.
pub open spec fn acceptable_input(text: Seq<char>) -> bool {
    !blank(text) && utf8_len(text) <= MAX_INPUT_BYTES
}

/// The answer to a client that says something too long, or nothing.
pub open spec fn input_failure() -> ApiErrorView {
    bad_request("input must be 1-8192 bytes"@)
}

/// The text of a message of the user.
pub open spec fn user_text(input: UserInputView) -> Result<Seq<char>, ApiErrorView> {
    match input {
        UserInputView::Text(text) => Ok(text),
        UserInputView::Malformed(problem) => Err(bad_request(problem)),
        UserInputView::Messages(messages) => if messages.len() != 1 {
            Err(bad_request("exactly one user message is currently supported"@))
        } else if messages[0].role != "user"@ || (messages[0].kind is Some && messages[0].kind
            != Some("message"@)) {
            Err(bad_request("input must be a user message"@))
        } else {
            Ok(run_together(messages[0].content))
        },
    }
}

/// The text that a client says to a session, if it may be said.
pub open spec fn input_text(input: UserInputView) -> Result<Seq<char>, ApiErrorView> {
    match user_text(input) {
        Err(error) => Err(error),
        Ok(text) => if acceptable_input(text) {
            Ok(text)
        } else {
            Err(input_failure())
        },
    }
}

/// The texts, one behind the other.
fn run(texts: &Vec<String>) -> (text: String)
    ensures
        text@ == run_together(views(texts@)),
{
    let ghost model = views(texts@);
    let mut text = String::new();
    let mut i: usize = 0;
    assert(model.take(0) =~= Seq::<Seq<char>>::empty());
    while i < texts.len()
        invariant
            i <= texts@.len(),
            model == views(texts@),
            text@ == run_together(model.take(i as int)),
        decreases texts@.len() - i,
    {
        proof {
            assert(model.take(i + 1).drop_last() =~= model.take(i as int));
            assert(model.take(i + 1).last() == texts@[i as int]@);
        }
        text.append(texts[i].as_str());
        i += 1;
    }
    assert(model.take(i as int) =~= model);
    text
}

/// Check that a text may be said to a session.
pub fn check_input(text: &str) -> (result: Result<(), ApiError>)
    ensures
        verdict(result) == if acceptable_input(text@) {
            Ok::<(), ApiErrorView>(())
        } else {
            Err(input_failure())
        },
{
    if is_blank(text) || byte_len(text) > MAX_INPUT_BYTES {
        Err(invalid("input must be 1-8192 bytes"))
    } else {
        Ok(())
    }
}

/// The text that a client says to a session. Exactly one message of the user is
/// taken; its parts make one text.
pub fn text(input: &UserInput) -> (result: Result<String, ApiError>)
    ensures
        outcome(result) == input_text(input@),
{
    let said = match input {
        UserInput::Text(text) => text.clone(),
        UserInput::Malformed(problem) => {
            return Err(invalid(problem.as_str()));
        },
        UserInput::Messages(messages) => {
            if messages.len() != 1 {
                return Err(invalid("exactly one user message is currently supported"));
            }
            let message = &messages[0];
            assert(views(messages@)[0] == message@);
            let other = match &message.kind {
                Some(kind) => !same(kind.as_str(), "message"),
                None => false,
            };
            if other || !same(message.role.as_str(), "user") {
                return Err(invalid("input must be a user message"));
            }
            run(&message.content)
        },
    };
    match check_input(said.as_str()) {
        Err(error) => Err(error),
        Ok(_) => Ok(said),
    }
}

/// An entry of a session's metadata.
pub struct Entry {
    pub key: String,
    pub value: String,
}

/// What a [`Entry`] stands for.
pub struct EntryView {
    pub key: Seq<char>,
    pub value: Seq<char>,
}

impl View for Entry {
    type V = EntryView;

    open spec fn view(&self) -> EntryView {
        EntryView {
            key: self.key@,
            value: self.value@,
        }
    }
}

impl Duplicate for Entry {
    fn duplicate(&self) -> (copy: Self) {
        Entry {
            key: self.key.clone(),
            value: self.value.clone(),
        }
    }
}

/// What a client asks for when it creates a session.
pub struct Create {
    pub environment: Environment,
    /// The saved agent to start from.
    pub agent_id: Option<String>,
    /// What to put in place of what the saved agent says.
    pub agent: Option<Json>,
    pub input: UserInput,
    pub stream: bool,
    pub metadata: Vec<Entry>,
    pub vault_ids: Option<Vec<String>>,
}

/// What a [`Create`] stands for.
pub struct CreateView {
    pub environment: EnvironmentView,
    pub agent_id: Option<Seq<char>>,
    pub agent: Option<JsonView>,
    pub input: UserInputView,
    pub stream: bool,
    pub metadata: Seq<EntryView>,
    pub vault_ids: Option<Seq<Seq<char>>>,
}

impl View for Create {
    type V = CreateView;

    open spec fn view(&self) -> CreateView {
        CreateView {
            environment: self.environment@,
            agent_id: option_view(self.agent_id),
            agent: option_view(self.agent),
            input: self.input@,
            stream: self.stream,
            metadata: views(self.metadata@),
            vault_ids: match self.vault_ids {
                Some(ids) => Some(views(ids@)),
                None => None,
            },
        }
    }
}

/// Whether the metadata of a session are within their limits.
pub open spec fn valid_metadata(metadata: Seq<EntryView>) -> bool {
    &&& metadata.len() <= MAX_METADATA
    &&& forall|i: int|
        0 <= i < metadata.len() ==> (#[trigger] metadata[i]).key.len() <= MAX_METADATA_KEY
            && metadata[i].value.len() <= MAX_METADATA_VALUE
}

/// The text that a new session starts with, if the session may be created at
/// all.
pub open spec fn first_input(params: CreateView) -> Result<Seq<char>, ApiErrorView> {
    if params.environment !is Nowhere {
        Err(bad_request("only environment none is implemented on this API path"@))
    } else if params.vault_ids is Some && params.vault_ids->0.len() > 0 {
        Err(bad_request("vaults are not implemented"@))
    } else {
        match input_text(params.input) {
            Err(error) => Err(error),
            Ok(text) => if valid_metadata(params.metadata) {
                Ok(text)
            } else {
                Err(bad_request("metadata exceeds documented limits"@))
            },
        }
    }
}

/// The agent that a new session starts from: the saved one that is named, or
/// one that says nothing.
pub open spec fn first_agent(
    store: StoreView,
    agent_id: Option<Seq<char>>,
    fresh: Seq<char>,
    now: u64,
) -> Result<AgentView, ApiErrorView> {
    match agent_id {
        Some(id) => match store.agent(id) {
            Some(agent) => Ok(agent),
            None => Err(missing("agent not found"@)),
        },
        None => Ok(AgentView { id: fresh, config: empty_config(), created_at: now }),
    }
}

/// What a client puts in place of what the agent says.
pub open spec fn patch_of(params: CreateView) -> JsonView {
    match params.agent {
        Some(patch) => patch,
        None => object(),
    }
}

/// The metadata of a session as a document.
pub open spec fn metadata_document(metadata: Seq<EntryView>) -> JsonView
    decreases metadata.len(),
{
    if metadata.len() == 0 {
        object()
    } else {
        metadata_document(metadata.drop_last()).entry(
            metadata.last().key,
            JsonView::Text(metadata.last().value),
        )
    }
}

/// The public form of a new session.
pub open spec fn new_session(
    id: Seq<char>,
    agent: AgentView,
    metadata: Seq<EntryView>,
    now: u64,
) -> JsonView {
    object().entry("id"@, JsonView::Text(id)).entry(
        "object"@,
        JsonView::Text("agent.session"@),
    ).entry("agent"@, agent_document(agent)).entry("created_at"@, number(now)).entry(
        "last_active_at"@,
        number(now),
    ).entry("environment"@, object().entry("type"@, JsonView::Text("none"@))).entry(
        "metadata"@,
        metadata_document(metadata),
    ).entry("vault_ids"@, list()).entry("required_actions"@, list()).entry(
        "status"@,
        JsonView::Text("in_progress"@),
    ).entry("error"@, JsonView::Null).entry("usage"@, JsonView::Null)
}

/// The event that tells of a new session.
pub open spec fn created_event(session: JsonView) -> JsonView {
    object().entry("type"@, JsonView::Text("agent.session.created"@)).entry("session"@, session)
}

/// The configuration of a new session before it is checked.
pub open spec fn planned(store: StoreView, params: CreateView) -> Result<
    AgentConfigView,
    ConfigErrorView,
> {
    match first_input(params) {
        Err(error) => Err(ConfigErrorView::Invalid(error)),
        Ok(_) => match first_agent(store, params.agent_id, Seq::empty(), 0) {
            Err(error) => Err(ConfigErrorView::Invalid(error)),
            Ok(agent) => merged(agent.config, patch_of(params)),
        },
    }
}

/// The store after a session has been created under the ID `id`, and the text
/// that it starts with. An agent that is not saved gets the ID `fresh`.
pub open spec fn created(
    store: StoreView,
    params: CreateView,
    schemas: Seq<bool>,
    id: Seq<char>,
    fresh: Seq<char>,
    now: u64,
) -> (StoreView, Result<Seq<char>, ConfigErrorView>) {
    match first_input(params) {
        Err(error) => (store, Err(ConfigErrorView::Invalid(error))),
        Ok(text) => match first_agent(store, params.agent_id, fresh, now) {
            Err(error) => (store, Err(ConfigErrorView::Invalid(error))),
            Ok(saved) => match configured(saved.config, patch_of(params), schemas) {
                Err(error) => (store, Err(error)),
                Ok(config) => {
                    let agent = AgentView { config, ..saved };
                    match store.with_session(id, agent, EnvironmentView::Nowhere) {
                        (after, Err(error)) => (after, Err(ConfigErrorView::Invalid(error))),
                        (after, Ok(_)) => {
                            let public = new_session(id, agent, params.metadata, now);
                            (
                                after.with_public_session(id, public).published(
                                    created_event(public),
                                ),
                                Ok(text),
                            )
                        },
                    }
                },
            },
        },
    }
}

/// The store after the first input of a new session has been refused, and what
/// the client is told.
pub open spec fn creation_failed(
    store: StoreView,
    id: Seq<char>,
    error: ApiErrorView,
    now: u64,
) -> (StoreView, ApiErrorView) {
    match store.with_session_status(id, "failed"@, Some(error.message), now) {
        (after, Ok(_)) => (after, error),
        (after, Err(e)) => (after, e),
    }
}

/// Whether the metadata of a session are within their limits.
fn check_metadata(metadata: &Vec<Entry>) -> (result: bool)
    ensures
        result == valid_metadata(views(metadata@)),
{
    let ghost model = views(metadata@);
    if metadata.len() > MAX_METADATA {
        return false;
    }
    let mut i: usize = 0;
    while i < metadata.len()
        invariant
            i <= metadata@.len(),
            model == views(metadata@),
            forall|j: int|
                0 <= j < i ==> (#[trigger] model[j]).key.len() <= MAX_METADATA_KEY
                    && model[j].value.len() <= MAX_METADATA_VALUE,
        decreases metadata@.len() - i,
    {
        let entry = &metadata[i];
        assert(model[i as int] == entry@);
        if characters(entry.key.as_str()).len() > MAX_METADATA_KEY || characters(
            entry.value.as_str(),
        ).len() > MAX_METADATA_VALUE {
            return false;
        }
        i += 1;
    }
    true
}

/// The text that a new session starts with.
fn find_first_input(params: &Create) -> (result: Result<String, ApiError>)
    ensures
        outcome(result) == first_input(params@),
{
    match &params.environment {
        Environment::Nowhere => {},
        Environment::Local { cwd: _ } => {
            return Err(invalid("only environment none is implemented on this API path"));
        },
    }
    let vaults = match &params.vault_ids {
        Some(ids) => ids.len() > 0,
        None => false,
    };
    if vaults {
        return Err(invalid("vaults are not implemented"));
    }
    match text(&params.input) {
        Err(error) => Err(error),
        Ok(text) => if check_metadata(&params.metadata) {
            Ok(text)
        } else {
            Err(invalid("metadata exceeds documented limits"))
        },
    }
}

/// The agent that a new session starts from.
fn find_first_agent(store: &Store, agent_id: &Option<String>, fresh: &str, now: u64) -> (result:
    Result<Agent, ApiError>)
    ensures
        outcome(result) == first_agent(store@, option_view(*agent_id), fresh@, now),
{
    match agent_id {
        Some(id) => match store.agent(id.as_str()) {
            Some(agent) => Ok(agent),
            None => Err(ApiError::new(404, "agent not found")),
        },
        None => Ok(
            Agent { id: fresh.to_owned(), config: AgentConfig::default(), created_at: now },
        ),
    }
}

/// What a client puts in place of what the agent says.
fn find_patch(params: &Create) -> (patch: Json)
    ensures
        patch@ == patch_of(params@),
{
    match &params.agent {
        Some(patch) => patch.copy(),
        None => Json::object(),
    }
}

/// The metadata of a session as a document.
fn document_of_metadata(metadata: &Vec<Entry>) -> (json: Json)
    ensures
        json@ == metadata_document(views(metadata@)),
{
    let ghost model = views(metadata@);
    let mut json = Json::object();
    let mut i: usize = 0;
    assert(model.take(0) =~= Seq::<EntryView>::empty());
    while i < metadata.len()
        invariant
            i <= metadata@.len(),
            model == views(metadata@),
            json@ == metadata_document(model.take(i as int)),
        decreases metadata@.len() - i,
    {
        proof {
            assert(model.take(i + 1).drop_last() =~= model.take(i as int));
            assert(model.take(i + 1).last() == metadata@[i as int]@);
        }
        json =
        json.entry(metadata[i].key.as_str(), Json::string(metadata[i].value.as_str()));
        i += 1;
    }
    assert(model.take(i as int) =~= model);
    json
}

/// The public form of a new session.
fn document_of_session(id: &str, saved: &Agent, metadata: &Vec<Entry>, now: u64) -> (json: Json)
    ensures
        json@ == new_session(id@, saved@, views(metadata@), now),
{
    Json::object()
        .entry("id", Json::string(id))
        .entry("object", Json::string("agent.session"))
        .entry("agent", agent(saved))
        .entry("created_at", Json::unsigned(now))
        .entry("last_active_at", Json::unsigned(now))
        .entry("environment", Json::object().entry("type", Json::string("none")))
        .entry("metadata", document_of_metadata(metadata))
        .entry("vault_ids", Json::list())
        .entry("required_actions", Json::list())
        .entry("status", Json::string("in_progress"))
        .entry("error", Json::Null)
        .entry("usage", Json::Null)
}

/// The configuration that a new session would have, before it is checked: its
/// functions are the ones whose parameters are to be looked at.
pub fn plan(store: &Store, params: &Create) -> (result: Result<AgentConfig, ConfigError>)
    ensures
        outcome(result) == planned(store@, params@),
{
    match find_first_input(params) {
        Err(error) => Err(ConfigError::Invalid(error)),
        Ok(_) => {
            let nobody = String::new();
            match find_first_agent(store, &params.agent_id, nobody.as_str(), 0) {
                Err(error) => Err(ConfigError::Invalid(error)),
                Ok(agent) => merge(agent.config, &find_patch(params)),
            }
        },
    }
}

/// Create a session under the ID `id`, and say with which text it starts. An
/// agent that is not saved gets the ID `fresh`. `schemas` tell which of the
/// parameters of its functions are a supported JSON Schema.
pub fn create_as(
    store: &mut Store,
    params: &Create,
    schemas: &Vec<bool>,
    id: &str,
    fresh: &str,
    now: u64,
) -> (result: Result<String, ConfigError>)
    ensures
        (final(store)@, outcome(result)) == created(
            old(store)@,
            params@,
            schemas@,
            id@,
            fresh@,
            now,
        ),
{
    let text = match find_first_input(params) {
        Err(error) => {
            return Err(ConfigError::Invalid(error));
        },
        Ok(text) => text,
    };
    let saved = match find_first_agent(store, &params.agent_id, fresh, now) {
        Err(error) => {
            return Err(ConfigError::Invalid(error));
        },
        Ok(saved) => saved,
    };
    let config = match configure(saved.config, &find_patch(params), schemas) {
        Err(error) => {
            return Err(error);
        },
        Ok(config) => config,
    };
    let chosen = Agent { id: saved.id, config, created_at: saved.created_at };
    let public = document_of_session(id, &chosen, &params.metadata, now);
    match store.add_session(id, chosen, Environment::Nowhere) {
        Err(error) => Err(ConfigError::Invalid(error)),
        Ok(_) => {
            save_session(store, id, &public);
            store.publish(
                Json::object().entry("type", Json::string("agent.session.created")).entry(
                    "session",
                    public,
                ),
            );
            Ok(text)
        },
    }
}

/// A session that was created, and the text that it starts with.
pub struct Created {
    pub id: String,
    pub input: String,
}

/// Create a session under a fresh ID. The session and its public form are saved
/// before they are announced; what is said first is for the caller to hand to
/// the backend.
pub fn create(store: &mut Store, params: &Create, schemas: &Vec<bool>, now: u64) -> (result: Result<
    Created,
    ConfigError,
>)
    ensures
        exists|id: Seq<char>, fresh: Seq<char>|
            #![trigger created(old(store)@, params@, schemas@, id, fresh, now)]
            {
                &&& is_uuid4(id)
                &&& is_uuid4(fresh)
                &&& final(store)@ == created(old(store)@, params@, schemas@, id, fresh, now).0
                &&& match result {
                    Ok(session) => session.id@ == id && created(
                        old(store)@,
                        params@,
                        schemas@,
                        id,
                        fresh,
                        now,
                    ).1 == Ok::<Seq<char>, ConfigErrorView>(session.input@),
                    Err(error) => created(old(store)@, params@, schemas@, id, fresh, now).1 == Err::<
                        Seq<char>,
                        ConfigErrorView,
                    >(error@),
                }
            },
{
    let id = fresh_id();
    let fresh = fresh_id();
    match create_as(store, params, schemas, id.as_str(), fresh.as_str(), now) {
        Err(error) => Err(error),
        Ok(input) => Ok(Created { id, input }),
    }
}

/// Record that the first input of a new session was refused, and say what the
/// client is told.
pub fn fail_creation(store: &mut Store, id: &str, error: ApiError, now: u64) -> (told: ApiError)
    ensures
        (final(store)@, told@) == creation_failed(old(store)@, id@, error@, now),
{
    match session_status(store, id, "failed", Some(error.message.as_str()), now) {
        Ok(_) => error,
        Err(e) => e,
    }
}

/// The public form of a session.
pub fn read(store: &Store, id: &str) -> (result: Result<Json, ApiError>)
    ensures
        outcome(result) == store@.public_view(id@),
{
    session(store, id)
}

/// What a client sends to a session.
pub enum InputEvent {
    /// Something to say.
    Message { input: UserInput },
    /// The wish to stop.
    Cancel,
    /// The answer to a function call.
    ToolResult {
        call_id: String,
        turn_id: String,
        success: bool,
        output: Option<String>,
        error: Option<String>,
    },
}

/// What an [`InputEvent`] stands for.
pub enum InputEventView {
    Message { input: UserInputView },
    Cancel,
    ToolResult {
        call_id: Seq<char>,
        turn_id: Seq<char>,
        success: bool,
        output: Option<Seq<char>>,
        error: Option<Seq<char>>,
    },
}

impl View for InputEvent {
    type V = InputEventView;

    open spec fn view(&self) -> InputEventView {
        match self {
            InputEvent::Message { input } => InputEventView::Message { input: input@ },
            InputEvent::Cancel => InputEventView::Cancel,
            InputEvent::ToolResult { call_id, turn_id, success, output, error } =>
                InputEventView::ToolResult {
                call_id: call_id@,
                turn_id: turn_id@,
                success: *success,
                output: option_view(*output),
                error: option_view(*error),
            },
        }
    }
}

/// What is done about what a client sends.
pub enum InputStep {
    /// Say the text to the session.
    Say(String),
    /// Interrupt the turn.
    Interrupt(String),
    /// Nothing: no turn is active.
    Nothing,
    /// Answer a function call of the turn.
    Answer { turn_id: String, result: ToolResult },
}

/// What an [`InputStep`] stands for.
pub enum InputStepView {
    Say(Seq<char>),
    Interrupt(Seq<char>),
    Nothing,
    Answer { turn_id: Seq<char>, result: ToolResultView },
}

impl View for InputStep {
    type V = InputStepView;

    open spec fn view(&self) -> InputStepView {
        match self {
            InputStep::Say(text) => InputStepView::Say(text@),
            InputStep::Interrupt(turn_id) => InputStepView::Interrupt(turn_id@),
            InputStep::Nothing => InputStepView::Nothing,
            InputStep::Answer { turn_id, result } => InputStepView::Answer {
                turn_id: turn_id@,
                result: result@,
            },
        }
    }
}

/// What is done about one thing that a client sends.
pub open spec fn event_step(store: StoreView, id: Seq<char>, event: InputEventView) -> Result<
    InputStepView,
    ApiErrorView,
> {
    match event {
        InputEventView::Message { input } => match input_text(input) {
            Ok(text) => Ok(InputStepView::Say(text)),
            Err(error) => Err(error),
        },
        InputEventView::Cancel => match last_active_turn(store.records, id) {
            Some(turn_id) => Ok(InputStepView::Interrupt(turn_id)),
            None => Ok(InputStepView::Nothing),
        },
        InputEventView::ToolResult { call_id, turn_id, success, output, error } => if success
            && error is Some {
            Err(bad_request("a successful tool result cannot contain an error"@))
        } else if output is Some && error is Some {
            Err(bad_request("combined function output and error are not implemented"@))
        } else {
            let text = match error {
                Some(text) => text,
                None => match output {
                    Some(text) => text,
                    None => ""@,
                },
            };
            Ok(
                InputStepView::Answer {
                    turn_id,
                    result: ToolResultView { call_id, success, output: JsonView::Text(text) },
                },
            )
        },
    }
}

/// What is done about what a client sends: exactly one thing at a time, and
/// without an idempotency key.
pub open spec fn input_step(
    store: StoreView,
    id: Seq<char>,
    keyed: bool,
    events: Seq<InputEventView>,
) -> Result<InputStepView, ApiErrorView> {
    if keyed {
        Err(bad_request("event idempotency keys are not implemented"@))
    } else if events.len() != 1 {
        Err(bad_request("exactly one input event is currently supported"@))
    } else {
        match store.public_view(id) {
            Err(error) => Err(error),
            Ok(_) => event_step(store, id, events[0]),
        }
    }
}

/// What is done about one thing that a client sends.
fn step_of_event(store: &Store, id: &str, event: &InputEvent) -> (result: Result<
    InputStep,
    ApiError,
>)
    ensures
        outcome(result) == event_step(store@, id@, event@),
{
    match event {
        InputEvent::Message { input } => match text(input) {
            Ok(text) => Ok(InputStep::Say(text)),
            Err(error) => Err(error),
        },
        InputEvent::Cancel => match active_turn(store, id) {
            Some(turn_id) => Ok(InputStep::Interrupt(turn_id)),
            None => Ok(InputStep::Nothing),
        },
        InputEvent::ToolResult { call_id, turn_id, success, output, error } => if *success
            && error.is_some() {
            Err(invalid("a successful tool result cannot contain an error"))
        } else if output.is_some() && error.is_some() {
            Err(invalid("combined function output and error are not implemented"))
        } else {
            let text = match error {
                Some(text) => text.clone(),
                None => match output {
                    Some(text) => text.clone(),
                    None => "".to_owned(),
                },
            };
            Ok(
                InputStep::Answer {
                    turn_id: turn_id.clone(),
                    result: ToolResult {
                        call_id: call_id.clone(),
                        success: *success,
                        output: Json::Text(text),
                    },
                },
            )
        },
    }
}

/// What is done about what a client sends to a session. `keyed` tells whether
/// the request carries an idempotency key.
pub fn input(store: &Store, id: &str, keyed: bool, events: &Vec<InputEvent>) -> (result: Result<
    InputStep,
    ApiError,
>)
    ensures
        outcome(result) == input_step(store@, id@, keyed, views(events@)),
{
    if keyed {
        return Err(invalid("event idempotency keys are not implemented"));
    }
    if events.len() != 1 {
        return Err(invalid("exactly one input event is currently supported"));
    }
    match session(store, id) {
        Err(error) => Err(error),
        Ok(_) => {
            assert(views(events@)[0] == events@[0]@);
            step_of_event(store, id, &events[0])
        },
    }
}

/// Whether a client may listen to a session, and why not.
pub open spec fn stream_verdict(store: StoreView, id: Seq<char>, connected: bool) -> Result<
    (),
    ApiErrorView,
> {
    match store.public_view(id) {
        Err(error) => Err(error),
        Ok(_) => if connected {
            Ok(())
        } else {
            Err(disconnected_failure())
        },
    }
}

/// Whether a client may listen to a session.
pub fn stream(store: &Store, id: &str, connected: bool) -> (result: Result<(), ApiError>)
    ensures
        verdict(result) == stream_verdict(store@, id@, connected),
{
    match session(store, id) {
        Err(error) => Err(error),
        Ok(_) => if connected {
            Ok(())
        } else {
            Err(disconnected_error())
        },
    }
}

/// What a stream does with an event.
pub enum StreamStep {
    /// It ends.
    End,
    /// It passes the event over.
    Skip,
    /// It sends the event.
    Send { name: String, data: String },
}

/// What a [`StreamStep`] stands for.
pub enum StreamStepView {
    End,
    Skip,
    Send { name: Seq<char>, data: Seq<char> },
}

impl View for StreamStep {
    type V = StreamStepView;

    open spec fn view(&self) -> StreamStepView {
        match self {
            StreamStep::End => StreamStepView::End,
            StreamStep::Skip => StreamStepView::Skip,
            StreamStep::Send { name, data } => StreamStepView::Send { name: name@, data: data@ },
        }
    }
}

/// Whether a public event tells of a session.
pub open spec fn tells_of(event: JsonView, id: Seq<char>) -> bool {
    event.field("session_id"@) == JsonView::Text(id) || event.field("session"@).field("id"@)
        == JsonView::Text(id)
}

/// What the stream of a session does with a public event. It ends where events
/// were lost or the backend is gone, so that clients read what was saved.
pub open spec fn public_step(event: Option<JsonView>, id: Seq<char>) -> StreamStepView {
    match event {
        None => StreamStepView::End,
        Some(event) => if event.field("type"@) == JsonView::Text("disconnect"@) {
            StreamStepView::End
        } else if tells_of(event, id) {
            StreamStepView::Send {
                name: match event.field("type"@).text() {
                    Some(name) => name,
                    None => ""@,
                },
                data: compact_text(event),
            }
        } else {
            StreamStepView::Skip
        },
    }
}

/// What the stream of a session does with a public event; none where events
/// were lost.
pub fn sse(event: Option<&Json>, id: &str) -> (step: StreamStep)
    ensures
        step@ == public_step(
            match event {
                Some(json) => Some(json@),
                None => None,
            },
            id@,
        ),
{
    match event {
        None => StreamStep::End,
        Some(event) => {
            let kind = event.field("type");
            if kind.is_text("disconnect") {
                StreamStep::End
            } else if event.field("session_id").is_text(id) || event.field("session").field(
                "id",
            ).is_text(id) {
                let name = match kind.as_text() {
                    Some(name) => name.clone(),
                    None => "".to_owned(),
                };
                StreamStep::Send { name, data: compact(event) }
            } else {
                StreamStep::Skip
            }
        },
    }
}

} // verus!
