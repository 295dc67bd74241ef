//! The plain form of the API: who may use it, agents, sessions, inputs, turns
//! and events.
use crate::backend::Call;
use crate::backend::CallView;
use crate::capabilities::capability_failure;
use crate::capabilities::config_params;
use crate::capabilities::config_request;
use crate::capabilities::lengths;
use crate::capabilities::overrides;
use crate::capabilities::overriding;
use crate::capabilities::tool_sizes;
use crate::capabilities::valid_capabilities;
use crate::capabilities::validate;
use crate::capabilities::validate_sized;
use crate::contract::agent as compatible_agent;
use crate::contract::agent_document;
use crate::contract::has_valid_texts;
use crate::contract::invalid_texts;
use crate::contract::now;
use crate::contract::text_failure;
use crate::contract::valid_texts;
use crate::error::client_error;
use crate::error::disconnected_error;
use crate::error::disconnected_failure;
use crate::error::failure;
use crate::error::internal_failure;
use crate::error::missing;
use crate::error::server_error;
use crate::error::ApiError;
use crate::error::ApiErrorView;
use crate::json::list;
use crate::json::object;
use crate::json::optional_text;
use crate::json::Json;
use crate::json::JsonView;
use crate::model::option_view;
use crate::model::outcome;
use crate::model::verdict;
use crate::model::views;
use crate::outside::compact;
use crate::outside::compact_text;
use crate::outside::fresh_id;
use crate::outside::is_uuid4;
use crate::outside::lossy;
use crate::outside::lossy_text;
use crate::outside::parse;
use crate::outside::parsed_json;
use crate::records::number;
use crate::resources::Agent;
use crate::resources::AgentConfig;
use crate::resources::AgentConfigView;
use crate::resources::AgentView;
use crate::resources::Environment;
use crate::resources::EnvironmentView;
use crate::resources::FunctionTool;
use crate::resources::FunctionToolView;
use crate::resources::InputParams;
use crate::resources::PageParams;
use crate::resources::PageParamsView;
use crate::resources::Session;
use crate::resources::SessionCreateParams;
use crate::resources::SessionCreateParamsView;
use crate::resources::SessionView;
use crate::sessions::acceptable_input;
use crate::sessions::check_input;
use crate::sessions::input_failure;
use crate::sessions::StreamStep;
use crate::sessions::StreamStepView;
use crate::store::Change;
use crate::store::ChangeView;
use crate::store::SessionRowView;
use crate::store::Store;
use crate::store::StoreView;
use crate::text::joined;
use crate::text::same;
use crate::text::starts_with;
use vstd::prelude::*;

verus! {

/// What a client is answered.
pub struct Response {
    pub status: u16,
    pub body: Json,
}

/// What a [`Response`] stands for.
pub struct ResponseView {
    pub status: u16,
    pub body: JsonView,
}

impl View for Response {
    type V = ResponseView;

    open spec fn view(&self) -> ResponseView {
        ResponseView { status: self.status, body: self.body@ }
    }
}

/// The view of a header that a request may carry.
pub open spec fn header(value: Option<&str>) -> Option<Seq<char>> {
    match value {
        Some(text) => Some(text@),
        None => None,
    }
}

/// Whether a request asks for the compatible form of agents.
pub open spec fn asks_compatible(beta: Option<Seq<char>>) -> bool {
    beta == Some("agents=v1"@)
}

/// Whether a request uses the compatible form of the API.
pub open spec fn is_compatible(path: Seq<char>, beta: Option<Seq<char>>) -> bool {
    "/v1/agents/sessions"@.is_prefix_of(path) || asks_compatible(beta)
}

/// An error in the form that a request uses.
pub open spec fn error_response(error: ApiErrorView, compatible: bool) -> ResponseView {
    ResponseView {
        status: error.status,
        body: if compatible {
            error.public_body()
        } else {
            error.body()
        },
    }
}

/// How a request is refused that does not carry the token, if it is.
pub open spec fn authorization(
    path: Seq<char>,
    beta: Option<Seq<char>>,
    authorization: Option<Seq<char>>,
    token: Seq<char>,
) -> Option<ResponseView> {
    if authorization == Some("Bearer "@ + token) {
        None
    } else {
        Some(
            error_response(
                failure(401, "bearer token required"@),
                is_compatible(path, beta),
            ),
        )
    }
}

/// The message in the body of an error: what it says of the error, or all of it.
pub open spec fn error_message(document: Option<JsonView>, text: Seq<char>) -> Seq<char> {
    match document {
        Some(json) => match json.field("error"@).text() {
            Some(message) => message,
            None => text,
        },
        None => text,
    }
}

/// An error in its compatible form.
pub open spec fn compatible_error(status: u16, message: Seq<char>) -> ResponseView {
    error_response(
        failure(
            if status == 422 {
                400
            } else {
                status
            },
            message,
        ),
        true,
    )
}

/// Whether a response is put into the compatible form of an error.
pub open spec fn is_reshaped(compatible: bool, status: u16) -> bool {
    compatible && (client_error(status) || server_error(status))
}

/// Whether a request asks for the compatible form of agents.
pub fn wants_compatible(beta: Option<&str>) -> (result: bool)
    ensures
        result == asks_compatible(header(beta)),
{
    match beta {
        Some(value) => same(value, "agents=v1"),
        None => false,
    }
}

/// Whether a request uses the compatible form of the API.
pub fn compatible(path: &str, beta: Option<&str>) -> (result: bool)
    ensures
        result == is_compatible(path@, header(beta)),
{
    starts_with(path, "/v1/agents/sessions") || wants_compatible(beta)
}

/// Refuse a request that does not carry the token. `beta` and `authorization`
/// are the headers that it carries.
pub fn authorize(
    path: &str,
    beta: Option<&str>,
    authorization: Option<&str>,
    token: &str,
) -> (refusal: Option<Response>)
    ensures
        option_view(refusal) == self::authorization(
            path@,
            header(beta),
            header(authorization),
            token@,
        ),
{
    let expected = joined("Bearer ", token);
    let authorized = match authorization {
        Some(value) => same(value, expected.as_str()),
        None => false,
    };
    if authorized {
        None
    } else {
        let error = ApiError::new(401, "bearer token required");
        let body = if compatible(path, beta) {
            error.public_response()
        } else {
            error.into_response()
        };
        Some(Response { status: 401, body })
    }
}

/// Put the response to a request into the compatible form of an error, if it is
/// one. `document` is its body as JSON and `text` its body as text.
pub fn reshape_as(compatible: bool, status: u16, document: Option<&Json>, text: &str) -> (response:
    Option<Response>)
    ensures
        option_view(response) == if is_reshaped(compatible, status) {
            Some(
                compatible_error(
                    status,
                    error_message(
                        match document {
                            Some(json) => Some(json@),
                            None => None,
                        },
                        text@,
                    ),
                ),
            )
        } else {
            None
        },
{
    if !compatible || status < 400 || status >= 600 {
        return None;
    }
    let message = match document {
        Some(json) => match json.field("error").as_text() {
            Some(message) => message.as_str(),
            None => text,
        },
        None => text,
    };
    let shown: u16 = if status == 422 {
        400
    } else {
        status
    };
    let error = ApiError::new(shown, message);
    Some(Response { status: shown, body: error.public_response() })
}

/// Put the response to a request into the compatible form of an error, if it is
/// one.
pub fn reshape(compatible: bool, status: u16, body: &[u8]) -> (response: Option<Response>)
    ensures
        option_view(response) == if is_reshaped(compatible, status) {
            Some(
                compatible_error(
                    status,
                    error_message(parsed_json(body@), lossy_text(body@)),
                ),
            )
        } else {
            None
        },
{
    let document = parse(body);
    let text = lossy(body);
    match &document {
        Some(json) => reshape_as(compatible, status, Some(json), text.as_str()),
        None => reshape_as(compatible, status, None, text.as_str()),
    }
}

/// The compatible form of a saved agent.
pub open spec fn saved_agent_document(agent: AgentView) -> JsonView {
    agent_document(agent).entry("object"@, JsonView::Text("agent"@)).entry(
        "created_at"@,
        number(agent.created_at),
    ).entry("updated_at"@, number(agent.created_at)).entry("metadata"@, object())
}

/// The compatible form of a saved agent.
pub fn public_agent(agent: &Agent) -> (json: Json)
    ensures
        json@ == saved_agent_document(agent@),
{
    compatible_agent(agent)
        .entry("object", Json::string("agent"))
        .entry("created_at", Json::unsigned(agent.created_at))
        .entry("updated_at", Json::unsigned(agent.created_at))
        .entry("metadata", Json::object())
}

/// Why an agent cannot be saved, if it cannot. `sizes` are the bytes that the
/// definitions of its functions take; `schemas` tell which of their parameters
/// are a supported JSON Schema.
pub open spec fn agent_refusal(
    config: AgentConfigView,
    sizes: Seq<nat>,
    schemas: Seq<bool>,
) -> Option<ApiErrorView> {
    if !valid_texts(config) {
        Some(text_failure())
    } else if !valid_capabilities(config, sizes, schemas) {
        Some(capability_failure())
    } else {
        None
    }
}

/// The store after a client has asked for an agent to be saved under the ID `id`.
pub open spec fn agent_created(
    store: StoreView,
    config: AgentConfigView,
    sizes: Seq<nat>,
    schemas: Seq<bool>,
    id: Seq<char>,
    now: u64,
) -> (StoreView, Result<AgentView, ApiErrorView>) {
    match agent_refusal(config, sizes, schemas) {
        Some(error) => (store, Err(error)),
        None => store.with_agent(AgentView { id, config, created_at: now }),
    }
}

/// Save an agent under the ID `id`, if it may be saved. `sizes` are the bytes
/// that the definitions of its functions take; `schemas` tell which of their
/// parameters are a supported JSON Schema.
pub fn create_agent_as(
    store: &mut Store,
    config: AgentConfig,
    sizes: &Vec<usize>,
    schemas: &Vec<bool>,
    id: &str,
    now: u64,
) -> (result: Result<Agent, ApiError>)
    ensures
        (final(store)@, outcome(result)) == agent_created(
            old(store)@,
            config@,
            lengths(sizes@),
            schemas@,
            id@,
            now,
        ),
{
    if !has_valid_texts(&config) {
        return Err(invalid_texts());
    }
    match validate_sized(&config, sizes, schemas) {
        Err(error) => Err(error),
        Ok(_) => store.add_agent(Agent { id: id.to_owned(), config, created_at: now }),
    }
}

/// Save an agent under a fresh ID, if it may be saved. `schemas` tell which of
/// the parameters of its functions are a supported JSON Schema.
pub fn create_agent(store: &mut Store, config: AgentConfig, schemas: &Vec<bool>) -> (result: Result<
    Agent,
    ApiError,
>)
    ensures
        exists|id: Seq<char>, now: u64|
            is_uuid4(id) && (final(store)@, outcome(result)) == #[trigger] agent_created(
                old(store)@,
                config@,
                tool_sizes(config@.tools),
                schemas@,
                id,
                now,
            ),
{
    let id = fresh_id();
    let at: u64 = now();
    let ghost expected = agent_created(
        store@,
        config@,
        tool_sizes(config@.tools),
        schemas@,
        id@,
        at,
    );
    if !has_valid_texts(&config) {
        let result = Err(invalid_texts());
        assert((store@, outcome(result)) == expected);
        return result;
    }
    match validate(&config, schemas) {
        Err(error) => {
            let result = Err(error);
            assert((store@, outcome(result)) == expected);
            result
        },
        Ok(_) => {
            let result = store.add_agent(Agent { id, config, created_at: at });
            assert((store@, outcome(result)) == expected);
            result
        },
    }
}

/// A saved agent as a client reads it.
pub open spec fn agent_read(store: StoreView, id: Seq<char>) -> Result<AgentView, ApiErrorView> {
    match store.agent(id) {
        Some(agent) => Ok(agent),
        None => Err(missing("agent not found"@)),
    }
}

/// A saved agent.
pub fn read_agent(store: &Store, id: &str) -> (result: Result<Agent, ApiError>)
    ensures
        outcome(result) == agent_read(store@, id@),
{
    match store.agent(id) {
        Some(agent) => Ok(agent),
        None => Err(ApiError::new(404, "agent not found")),
    }
}

/// The store after a client has asked for a session of a saved agent, under the
/// ID `id`.
pub open spec fn session_created(
    store: StoreView,
    params: SessionCreateParamsView,
    id: Seq<char>,
) -> (StoreView, Result<SessionView, ApiErrorView>) {
    match agent_read(store, params.agent_id) {
        Err(error) => (store, Err(error)),
        Ok(agent) => store.with_session(id, agent, params.environment),
    }
}

/// Save a session of a saved agent under the ID `id`.
pub fn create_session_as(store: &mut Store, params: SessionCreateParams, id: &str) -> (result:
    Result<Session, ApiError>)
    ensures
        (final(store)@, outcome(result)) == session_created(old(store)@, params@, id@),
{
    match read_agent(store, params.agent_id.as_str()) {
        Err(error) => Err(error),
        Ok(agent) => store.add_session(id, agent, params.environment),
    }
}

/// Save a session of a saved agent under a fresh ID.
pub fn create_session(store: &mut Store, params: SessionCreateParams) -> (result: Result<
    Session,
    ApiError,
>)
    ensures
        exists|id: Seq<char>|
            is_uuid4(id) && (final(store)@, outcome(result)) == #[trigger] session_created(
                old(store)@,
                params@,
                id,
            ),
{
    let id = fresh_id();
    create_session_as(store, params, id.as_str())
}

/// A session as a client reads it.
pub open spec fn session_read(store: StoreView, id: Seq<char>) -> Result<
    SessionView,
    ApiErrorView,
> {
    match store.session(id) {
        Some(session) => Ok(session),
        None => Err(missing("session not found"@)),
    }
}

/// A session.
pub fn read_session(store: &Store, id: &str) -> (result: Result<Session, ApiError>)
    ensures
        outcome(result) == session_read(store@, id@),
{
    match store.session(id) {
        Some(session) => Ok(session),
        None => Err(ApiError::new(404, "session not found")),
    }
}

/// How far an input has come on its way to the backend.
pub enum InputStage {
    /// The backend's configuration is being read.
    Configuring { session: Session, text: String },
    /// The session's thread is being resumed.
    Resuming { thread_id: String, text: String },
    /// A thread is being started for the session.
    Starting { session_id: String, text: String },
    /// The session's thread is being named.
    Naming { session_id: String, thread_id: String, text: String },
    /// The turn is being started.
    Turning,
}

/// What an [`InputStage`] stands for.
pub enum InputStageView {
    Configuring { session: SessionView, text: Seq<char> },
    Resuming { thread_id: Seq<char>, text: Seq<char> },
    Starting { session_id: Seq<char>, text: Seq<char> },
    Naming { session_id: Seq<char>, thread_id: Seq<char>, text: Seq<char> },
    Turning,
}

impl View for InputStage {
    type V = InputStageView;

    open spec fn view(&self) -> InputStageView {
        match self {
            InputStage::Configuring { session, text } => InputStageView::Configuring {
                session: session@,
                text: text@,
            },
            InputStage::Resuming { thread_id, text } => InputStageView::Resuming {
                thread_id: thread_id@,
                text: text@,
            },
            InputStage::Starting { session_id, text } => InputStageView::Starting {
                session_id: session_id@,
                text: text@,
            },
            InputStage::Naming { session_id, thread_id, text } => InputStageView::Naming {
                session_id: session_id@,
                thread_id: thread_id@,
                text: text@,
            },
            InputStage::Turning => InputStageView::Turning,
        }
    }
}

/// What is done next about an input.
pub enum Progress {
    /// The backend is asked, and the input waits for its reply.
    Ask { stage: InputStage, call: Call },
    /// The backend has taken the input.
    Done(Json),
}

/// What a [`Progress`] stands for.
pub enum ProgressView {
    Ask { stage: InputStageView, call: CallView },
    Done(JsonView),
}

impl View for Progress {
    type V = ProgressView;

    open spec fn view(&self) -> ProgressView {
        match self {
            Progress::Ask { stage, call } => ProgressView::Ask { stage: stage@, call: call@ },
            Progress::Done(reply) => ProgressView::Done(reply@),
        }
    }
}

/// A function as the backend is told of it.
pub open spec fn dynamic_tool(tool: FunctionToolView) -> JsonView {
    object().entry("type"@, JsonView::Text("function"@)).entry(
        "name"@,
        JsonView::Text(tool.name),
    ).entry("description"@, JsonView::Text(tool.description)).entry(
        "inputSchema"@,
        tool.parameters,
    )
}

/// Functions as the backend is told of them.
pub open spec fn dynamic_tools(tools: Seq<FunctionToolView>) -> JsonView
    decreases tools.len(),
{
    if tools.len() == 0 {
        list()
    } else {
        dynamic_tools(tools.drop_last()).item(dynamic_tool(tools.last()))
    }
}

/// The environments that a thread may use.
pub open spec fn environments(environment: EnvironmentView) -> JsonView {
    match environment {
        EnvironmentView::Nowhere => list(),
        EnvironmentView::Local { cwd } => list().item(
            object().entry("environmentId"@, JsonView::Text("local"@)).entry(
                "cwd"@,
                JsonView::Text(cwd),
            ),
        ),
    }
}

/// The call that resumes the thread of a session.
pub open spec fn resume_call(
    thread_id: Seq<char>,
    config: AgentConfigView,
    policy: JsonView,
) -> CallView {
    CallView {
        method: "thread/resume"@,
        params: object().entry("threadId"@, JsonView::Text(thread_id)).entry(
            "excludeTurns"@,
            JsonView::Bool(true),
        ).entry("config"@, policy).entry("model"@, JsonView::Text(config.model)).entry(
            "developerInstructions"@,
            JsonView::Text(config.instructions),
        ),
    }
}

/// The call that starts a thread for a session. It may not write, and asks
/// nobody for approval.
pub open spec fn start_call(session: SessionView, policy: JsonView) -> CallView {
    let config = session.agent.config;
    CallView {
        method: "thread/start"@,
        params: object().entry("model"@, JsonView::Text(config.model)).entry(
            "developerInstructions"@,
            JsonView::Text(config.instructions),
        ).entry("environments"@, environments(session.environment)).entry(
            "config"@,
            policy,
        ).entry("dynamicTools"@, dynamic_tools(config.tools)).entry(
            "approvalPolicy"@,
            JsonView::Text("never"@),
        ).entry("sandbox"@, JsonView::Text("read-only"@)).entry(
            "ephemeral"@,
            JsonView::Bool(false),
        ),
    }
}

/// The call that names the thread of a session.
pub open spec fn name_call(session_id: Seq<char>, thread_id: Seq<char>) -> CallView {
    CallView {
        method: "thread/name/set"@,
        params: object().entry("threadId"@, JsonView::Text(thread_id)).entry(
            "name"@,
            JsonView::Text("API session "@ + session_id),
        ),
    }
}

/// The call that starts a turn with a text.
pub open spec fn turn_call(thread_id: Seq<char>, text: Seq<char>) -> CallView {
    CallView {
        method: "turn/start"@,
        params: object().entry("threadId"@, JsonView::Text(thread_id)).entry(
            "input"@,
            list().item(
                object().entry("type"@, JsonView::Text("text"@)).entry(
                    "text"@,
                    JsonView::Text(text),
                ),
            ),
        ),
    }
}

/// The step that starts a turn with a text.
pub open spec fn turn_step(thread_id: Seq<char>, text: Seq<char>) -> ProgressView {
    ProgressView::Ask { stage: InputStageView::Turning, call: turn_call(thread_id, text) }
}

/// The store after a session has been bound to its thread.
pub open spec fn thread_bound(
    store: StoreView,
    session_id: Seq<char>,
    thread_id: Seq<char>,
) -> StoreView {
    match store.session_row(session_id) {
        Some(row) => store.saved(
            ChangeView::Session(SessionRowView { thread_id: Some(thread_id), ..row }),
        ),
        None => store,
    }
}

/// What is done first about an input.
pub open spec fn input_begun(store: StoreView, id: Seq<char>, text: Seq<char>) -> Result<
    ProgressView,
    ApiErrorView,
> {
    if !acceptable_input(text) {
        Err(input_failure())
    } else {
        match session_read(store, id) {
            Err(error) => Err(error),
            Ok(session) => Ok(
                ProgressView::Ask {
                    stage: InputStageView::Configuring { session, text },
                    call: CallView {
                        method: "config/read"@,
                        params: config_params(session.environment),
                    },
                },
            ),
        }
    }
}

/// The store after the backend has replied to the call of a stage, and what is
/// done next. A session without a thread is bound to a new one once that one has
/// a name.
pub open spec fn input_advanced(store: StoreView, stage: InputStageView, reply: JsonView) -> (
    StoreView,
    Result<ProgressView, ApiErrorView>,
) {
    match stage {
        InputStageView::Configuring { session, text } => (
            store,
            match overriding(session.agent.config, reply) {
                Err(error) => Err(error),
                Ok(policy) => Ok(
                    match session.thread_id {
                        Some(thread_id) => ProgressView::Ask {
                            stage: InputStageView::Resuming { thread_id, text },
                            call: resume_call(thread_id, session.agent.config, policy),
                        },
                        None => ProgressView::Ask {
                            stage: InputStageView::Starting { session_id: session.id, text },
                            call: start_call(session, policy),
                        },
                    },
                ),
            },
        ),
        InputStageView::Resuming { thread_id, text } => (store, Ok(turn_step(thread_id, text))),
        InputStageView::Starting { session_id, text } => (
            store,
            match reply.field("thread"@).field("id"@).text() {
                None => Err(internal_failure()),
                Some(thread_id) => Ok(
                    ProgressView::Ask {
                        stage: InputStageView::Naming { session_id, thread_id, text },
                        call: name_call(session_id, thread_id),
                    },
                ),
            },
        ),
        InputStageView::Naming { session_id, thread_id, text } => (
            thread_bound(store, session_id, thread_id),
            Ok(turn_step(thread_id, text)),
        ),
        InputStageView::Turning => (store, Ok(ProgressView::Done(reply))),
    }
}

/// Functions as the backend is told of them.
fn documents_of_dynamic_tools(tools: &Vec<FunctionTool>) -> (json: Json)
    ensures
        json@ == dynamic_tools(views(tools@)),
{
    let ghost model = views(tools@);
    let mut json = Json::list();
    let mut i: usize = 0;
    assert(model.take(0) =~= Seq::<FunctionToolView>::empty());
    while i < tools.len()
        invariant
            i <= tools@.len(),
            model == views(tools@),
            json@ == dynamic_tools(model.take(i as int)),
        decreases tools@.len() - i,
    {
        let tool = &tools[i];
        proof {
            assert(model.take(i + 1).drop_last() =~= model.take(i as int));
            assert(model.take(i + 1).last() == tool@);
        }
        json =
        json.item(
            Json::object()
                .entry("type", Json::string("function"))
                .entry("name", Json::string(tool.name.as_str()))
                .entry("description", Json::string(tool.description.as_str()))
                .entry("inputSchema", tool.parameters.copy()),
        );
        i += 1;
    }
    assert(model.take(i as int) =~= model);
    json
}

/// The step that starts a turn with a text.
fn start_turn(thread_id: &str, text: &str) -> (progress: Progress)
    ensures
        progress@ == turn_step(thread_id@, text@),
{
    let said = Json::object().entry("type", Json::string("text")).entry(
        "text",
        Json::string(text),
    );
    let params = Json::object().entry("threadId", Json::string(thread_id)).entry(
        "input",
        Json::list().item(said),
    );
    Progress::Ask { stage: InputStage::Turning, call: Call { method: "turn/start", params } }
}

/// The step that resumes the thread of a session.
fn resume_thread(session: &Session, thread_id: &str, policy: Json, text: String) -> (progress:
    Progress)
    ensures
        progress@ == (ProgressView::Ask {
            stage: InputStageView::Resuming { thread_id: thread_id@, text: text@ },
            call: resume_call(thread_id@, session@.agent.config, policy@),
        }),
{
    let params = Json::object()
        .entry("threadId", Json::string(thread_id))
        .entry("excludeTurns", Json::Bool(true))
        .entry("config", policy)
        .entry("model", Json::string(session.agent.config.model.as_str()))
        .entry(
            "developerInstructions",
            Json::string(session.agent.config.instructions.as_str()),
        );
    Progress::Ask {
        stage: InputStage::Resuming { thread_id: thread_id.to_owned(), text },
        call: Call { method: "thread/resume", params },
    }
}

/// The step that starts a thread for a session.
fn start_thread(session: &Session, policy: Json, text: String) -> (progress: Progress)
    ensures
        progress@ == (ProgressView::Ask {
            stage: InputStageView::Starting { session_id: session@.id, text: text@ },
            call: start_call(session@, policy@),
        }),
{
    let places = match &session.environment {
        Environment::Nowhere => Json::list(),
        Environment::Local { cwd } => Json::list().item(
            Json::object().entry("environmentId", Json::string("local")).entry(
                "cwd",
                Json::string(cwd.as_str()),
            ),
        ),
    };
    let params = Json::object()
        .entry("model", Json::string(session.agent.config.model.as_str()))
        .entry(
            "developerInstructions",
            Json::string(session.agent.config.instructions.as_str()),
        )
        .entry("environments", places)
        .entry("config", policy)
        .entry("dynamicTools", documents_of_dynamic_tools(&session.agent.config.tools))
        .entry("approvalPolicy", Json::string("never"))
        .entry("sandbox", Json::string("read-only"))
        .entry("ephemeral", Json::Bool(false));
    Progress::Ask {
        stage: InputStage::Starting { session_id: session.id.clone(), text },
        call: Call { method: "thread/start", params },
    }
}

/// The step that names the thread of a session.
fn name_thread(session_id: String, thread_id: String, text: String) -> (progress: Progress)
    ensures
        progress@ == (ProgressView::Ask {
            stage: InputStageView::Naming {
                session_id: session_id@,
                thread_id: thread_id@,
                text: text@,
            },
            call: name_call(session_id@, thread_id@),
        }),
{
    let name = joined("API session ", session_id.as_str());
    let params = Json::object().entry("threadId", Json::string(thread_id.as_str())).entry(
        "name",
        Json::string(name.as_str()),
    );
    Progress::Ask {
        stage: InputStage::Naming { session_id, thread_id, text },
        call: Call { method: "thread/name/set", params },
    }
}

/// Bind a session to its thread.
fn bind_thread(store: &mut Store, session_id: &str, thread_id: &str)
    ensures
        final(store)@ == thread_bound(old(store)@, session_id@, thread_id@),
{
    match store.session_row(session_id) {
        Some(row) => {
            let mut row = row;
            row.thread_id = Some(thread_id.to_owned());
            store.save(Change::Session(row));
        },
        None => {},
    }
}

/// Take an input in, and say what the backend is asked first.
pub fn input(store: &Store, id: &str, params: &InputParams) -> (result: Result<Progress, ApiError>)
    ensures
        outcome(result) == input_begun(store@, id@, params@.input),
{
    match check_input(params.input.as_str()) {
        Err(error) => {
            return Err(error);
        },
        Ok(_) => {},
    }
    match read_session(store, id) {
        Err(error) => Err(error),
        Ok(session) => {
            let request = config_request(&session.environment);
            Ok(
                Progress::Ask {
                    stage: InputStage::Configuring { session, text: params.input.clone() },
                    call: Call { method: "config/read", params: request },
                },
            )
        },
    }
}

/// Take the backend's reply to the call of a stage in, and say what is done next.
pub fn advance_input(store: &mut Store, stage: InputStage, reply: Json) -> (result: Result<
    Progress,
    ApiError,
>)
    ensures
        (final(store)@, outcome(result)) == input_advanced(old(store)@, stage@, reply@),
{
    match stage {
        InputStage::Configuring { session, text } => match overrides(
            &session.agent.config,
            &reply,
        ) {
            Err(error) => Err(error),
            Ok(policy) => Ok(
                match &session.thread_id {
                    Some(thread_id) => resume_thread(
                        &session,
                        thread_id.as_str(),
                        policy,
                        text,
                    ),
                    None => start_thread(&session, policy, text),
                },
            ),
        },
        InputStage::Resuming { thread_id, text } => Ok(
            start_turn(thread_id.as_str(), text.as_str()),
        ),
        InputStage::Starting { session_id, text } => match reply.field("thread").field(
            "id",
        ).as_text() {
            None => Err(ApiError::internal()),
            Some(thread_id) => Ok(name_thread(session_id, thread_id.clone(), text)),
        },
        InputStage::Naming { session_id, thread_id, text } => {
            bind_thread(store, session_id.as_str(), thread_id.as_str());
            Ok(start_turn(thread_id.as_str(), text.as_str()))
        },
        InputStage::Turning => Ok(Progress::Done(reply)),
    }
}

/// What is done about a question that the backend may have to answer.
pub enum Inquiry {
    /// The answer is known.
    Known(Json),
    /// The backend is asked, and its reply is the answer.
    Ask(Call),
}

/// What an [`Inquiry`] stands for.
pub enum InquiryView {
    Known(JsonView),
    Ask(CallView),
}

impl View for Inquiry {
    type V = InquiryView;

    open spec fn view(&self) -> InquiryView {
        match self {
            Inquiry::Known(answer) => InquiryView::Known(answer@),
            Inquiry::Ask(call) => InquiryView::Ask(call@),
        }
    }
}

/// The size of a page of turns: 20 where none is asked for, and from 1 to 100.
pub open spec fn page_size(limit: Option<u32>) -> u64 {
    match limit {
        None => 20,
        Some(limit) => if limit < 1 {
            1
        } else if limit > 100 {
            100
        } else {
            limit as u64
        },
    }
}

/// How the turns of a session are found: a session that has not run has none.
pub open spec fn turns_inquiry(store: StoreView, id: Seq<char>, page: PageParamsView) -> Result<
    InquiryView,
    ApiErrorView,
> {
    match session_read(store, id) {
        Err(error) => Err(error),
        Ok(session) => Ok(
            match session.thread_id {
                None => InquiryView::Known(
                    object().entry("data"@, list()).entry("nextCursor"@, JsonView::Null).entry(
                        "backwardsCursor"@,
                        JsonView::Null,
                    ),
                ),
                Some(thread_id) => InquiryView::Ask(
                    CallView {
                        method: "thread/turns/list"@,
                        params: object().entry("threadId"@, JsonView::Text(thread_id)).entry(
                            "cursor"@,
                            optional_text(page.cursor),
                        ).entry("limit"@, number(page_size(page.limit))).entry(
                            "itemsView"@,
                            JsonView::Text("summary"@),
                        ),
                    },
                ),
            },
        ),
    }
}

/// How the turns of a session are found.
pub fn turns(store: &Store, id: &str, page: &PageParams) -> (result: Result<Inquiry, ApiError>)
    ensures
        outcome(result) == turns_inquiry(store@, id@, page@),
{
    match read_session(store, id) {
        Err(error) => Err(error),
        Ok(session) => Ok(
            match &session.thread_id {
                None => Inquiry::Known(
                    Json::object()
                        .entry("data", Json::list())
                        .entry("nextCursor", Json::Null)
                        .entry("backwardsCursor", Json::Null),
                ),
                Some(thread_id) => {
                    let limit: u64 = match page.limit {
                        None => 20,
                        Some(limit) => if limit < 1 {
                            1
                        } else if limit > 100 {
                            100
                        } else {
                            limit as u64
                        },
                    };
                    let params = Json::object()
                        .entry("threadId", Json::string(thread_id.as_str()))
                        .entry("cursor", Json::optional(&page.cursor))
                        .entry("limit", Json::unsigned(limit))
                        .entry("itemsView", Json::string("summary"));
                    Inquiry::Ask(Call { method: "thread/turns/list", params })
                },
            },
        ),
    }
}

/// How a turn of a session is interrupted.
pub open spec fn interruption(store: StoreView, id: Seq<char>, turn_id: Seq<char>) -> Result<
    CallView,
    ApiErrorView,
> {
    match session_read(store, id) {
        Err(error) => Err(error),
        Ok(session) => match session.thread_id {
            None => Err(failure(409, "session has no turn"@)),
            Some(thread_id) => Ok(
                CallView {
                    method: "turn/interrupt"@,
                    params: object().entry("threadId"@, JsonView::Text(thread_id)).entry(
                        "turnId"@,
                        JsonView::Text(turn_id),
                    ),
                },
            ),
        },
    }
}

/// How a turn of a session is interrupted.
pub fn cancel(store: &Store, id: &str, turn_id: &str) -> (result: Result<Call, ApiError>)
    ensures
        outcome(result) == interruption(store@, id@, turn_id@),
{
    match read_session(store, id) {
        Err(error) => Err(error),
        Ok(session) => match &session.thread_id {
            None => Err(ApiError::new(409, "session has no turn")),
            Some(thread_id) => Ok(
                Call {
                    method: "turn/interrupt",
                    params: Json::object().entry(
                        "threadId",
                        Json::string(thread_id.as_str()),
                    ).entry("turnId", Json::string(turn_id)),
                },
            ),
        },
    }
}

/// Whether a client may listen to the backend's events of a session, and why
/// not.
pub open spec fn listening(store: StoreView, id: Seq<char>, connected: bool) -> Result<
    (),
    ApiErrorView,
> {
    match session_read(store, id) {
        Err(error) => Err(error),
        Ok(_) => if connected {
            Ok(())
        } else {
            Err(disconnected_failure())
        },
    }
}

/// Whether a client may listen to the backend's events of a session.
pub fn listen(store: &Store, id: &str, connected: bool) -> (result: Result<(), ApiError>)
    ensures
        verdict(result) == listening(store@, id@, connected),
{
    match read_session(store, id) {
        Err(error) => Err(error),
        Ok(_) => if connected {
            Ok(())
        } else {
            Err(disconnected_error())
        },
    }
}

/// The event that tells that events were lost; `problem` says how many.
pub open spec fn lag_event(problem: Seq<char>) -> JsonView {
    object().entry("method"@, JsonView::Text("stream/lagged"@)).entry(
        "error"@,
        JsonView::Text(problem),
    )
}

/// The event that tells that events were lost; `problem` says how many.
pub fn lagged(problem: &str) -> (event: Json)
    ensures
        event@ == lag_event(problem@),
{
    Json::object().entry("method", Json::string("stream/lagged")).entry(
        "error",
        Json::string(problem),
    )
}

/// The name of an event of the backend.
pub open spec fn event_name(event: JsonView) -> Seq<char> {
    match event.field("method"@).text() {
        Some(method) => method,
        None => "event"@,
    }
}

/// Whether an event of the backend is for those who listen to a session: it
/// happened in the session's thread, or it is about the stream itself.
pub open spec fn is_own_event(store: StoreView, id: Seq<char>, event: JsonView) -> bool {
    match event.field("params"@).field("threadId"@).text() {
        Some(thread_id) => match store.session(id) {
            Some(session) => session.thread_id == Some(thread_id),
            None => false,
        },
        None => "stream/"@.is_prefix_of(event_name(event)),
    }
}

/// What the stream of a session does with an event of the backend.
pub open spec fn event_step(store: StoreView, id: Seq<char>, event: JsonView) -> StreamStepView {
    if is_own_event(store, id, event) {
        StreamStepView::Send { name: event_name(event), data: compact_text(event) }
    } else {
        StreamStepView::Skip
    }
}

/// What the stream of a session does with an event of the backend.
pub fn events(store: &Store, id: &str, event: &Json) -> (step: StreamStep)
    ensures
        step@ == event_step(store@, id@, event@),
{
    let name = match event.field("method").as_text() {
        Some(method) => method.clone(),
        None => "event".to_owned(),
    };
    let own = match event.field("params").field("threadId").as_text() {
        Some(thread_id) => match store.session(id) {
            Some(session) => match &session.thread_id {
                Some(thread) => same(thread.as_str(), thread_id.as_str()),
                None => false,
            },
            None => false,
        },
        None => starts_with(name.as_str(), "stream/"),
    };
    if own {
        StreamStep::Send { name, data: compact(event) }
    } else {
        StreamStep::Skip
    }
}

} // verus!
