//! The resources that clients name: agents, sessions, function calls.
use crate::json::Json;
use crate::json::JsonView;
use crate::model::duplicate_all;
use crate::model::duplicate_option;
use crate::model::option_view;
use crate::model::views;
use crate::model::Duplicate;
use vstd::prelude::*;

verus! {

/// A function that the application offers to the model.
#[derive(Debug, PartialEq)]
pub struct FunctionTool {
    pub name: String,
    pub description: String,
    /// The JSON Schema of the arguments.
    pub parameters: Json,
}

/// What a [`FunctionTool`] stands for.
pub struct FunctionToolView {
    pub name: Seq<char>,
    pub description: Seq<char>,
    pub parameters: JsonView,
}

impl View for FunctionTool {
    type V = FunctionToolView;

    open spec fn view(&self) -> FunctionToolView {
        FunctionToolView {
            name: self.name@,
            description: self.description@,
            parameters: self.parameters@,
        }
    }
}

impl Duplicate for FunctionTool {
    fn duplicate(&self) -> (copy: Self) {
        FunctionTool {
            name: self.name.clone(),
            description: self.description.clone(),
            parameters: self.parameters.duplicate(),
        }
    }
}

/// The tools of one configured MCP server that an agent may use.
#[derive(Debug, PartialEq)]
pub struct McpSelection {
    pub server: String,
    pub allowed_tools: Vec<String>,
}

/// What a [`McpSelection`] stands for.
pub struct McpSelectionView {
    pub server: Seq<char>,
    pub allowed_tools: Seq<Seq<char>>,
}

impl View for McpSelection {
    type V = McpSelectionView;

    open spec fn view(&self) -> McpSelectionView {
        McpSelectionView {
            server: self.server@,
            allowed_tools: views(self.allowed_tools@),
        }
    }
}

impl Duplicate for McpSelection {
    fn duplicate(&self) -> (copy: Self) {
        McpSelection {
            server: self.server.clone(),
            allowed_tools: duplicate_all(&self.allowed_tools),
        }
    }
}

/// How much a model is asked to reason.
#[derive(Debug, PartialEq)]
pub struct Reasoning {
    pub effort: String,
}

/// What a [`Reasoning`] stands for.
pub struct ReasoningView {
    pub effort: Seq<char>,
}

impl View for Reasoning {
    type V = ReasoningView;

    open spec fn view(&self) -> ReasoningView {
        ReasoningView {
            effort: self.effort@,
        }
    }
}

impl Duplicate for Reasoning {
    fn duplicate(&self) -> (copy: Self) {
        Reasoning {
            effort: self.effort.clone(),
        }
    }
}

/// What an agent is made of.
#[derive(Debug, PartialEq)]
pub struct AgentConfig {
    pub model: String,
    pub instructions: String,
    pub tools: Vec<FunctionTool>,
    pub mcp_servers: Vec<McpSelection>,
    pub reasoning: Option<Reasoning>,
}

/// What a [`AgentConfig`] stands for.
pub struct AgentConfigView {
    pub model: Seq<char>,
    pub instructions: Seq<char>,
    pub tools: Seq<FunctionToolView>,
    pub mcp_servers: Seq<McpSelectionView>,
    pub reasoning: Option<ReasoningView>,
}

impl View for AgentConfig {
    type V = AgentConfigView;

    open spec fn view(&self) -> AgentConfigView {
        AgentConfigView {
            model: self.model@,
            instructions: self.instructions@,
            tools: views(self.tools@),
            mcp_servers: views(self.mcp_servers@),
            reasoning: option_view(self.reasoning),
        }
    }
}

impl Duplicate for AgentConfig {
    fn duplicate(&self) -> (copy: Self) {
        AgentConfig {
            model: self.model.clone(),
            instructions: self.instructions.clone(),
            tools: duplicate_all(&self.tools),
            mcp_servers: duplicate_all(&self.mcp_servers),
            reasoning: duplicate_option(&self.reasoning),
        }
    }
}

/// A saved agent.
#[derive(Debug, PartialEq)]
pub struct Agent {
    pub id: String,
    pub config: AgentConfig,
    /// Seconds since the Unix epoch.
    pub created_at: u64,
}

/// What a [`Agent`] stands for.
pub struct AgentView {
    pub id: Seq<char>,
    pub config: AgentConfigView,
    pub created_at: u64,
}

impl View for Agent {
    type V = AgentView;

    open spec fn view(&self) -> AgentView {
        AgentView {
            id: self.id@,
            config: self.config@,
            created_at: self.created_at,
        }
    }
}

impl Duplicate for Agent {
    fn duplicate(&self) -> (copy: Self) {
        Agent {
            id: self.id.clone(),
            config: self.config.duplicate(),
            created_at: self.created_at,
        }
    }
}

/// A function call that waits for the application.
#[derive(Debug, PartialEq)]
pub struct RequiredAction {
    pub turn_id: String,
    pub call_id: String,
    pub name: String,
    pub arguments: Json,
}

/// What a [`RequiredAction`] stands for.
pub struct RequiredActionView {
    pub turn_id: Seq<char>,
    pub call_id: Seq<char>,
    pub name: Seq<char>,
    pub arguments: JsonView,
}

impl View for RequiredAction {
    type V = RequiredActionView;

    open spec fn view(&self) -> RequiredActionView {
        RequiredActionView {
            turn_id: self.turn_id@,
            call_id: self.call_id@,
            name: self.name@,
            arguments: self.arguments@,
        }
    }
}

impl Duplicate for RequiredAction {
    fn duplicate(&self) -> (copy: Self) {
        RequiredAction {
            turn_id: self.turn_id.clone(),
            call_id: self.call_id.clone(),
            name: self.name.clone(),
            arguments: self.arguments.duplicate(),
        }
    }
}

/// What the application answers to a function call.
#[derive(Debug, PartialEq)]
pub struct ToolResult {
    pub call_id: String,
    pub success: bool,
    pub output: Json,
}

/// What a [`ToolResult`] stands for.
pub struct ToolResultView {
    pub call_id: Seq<char>,
    pub success: bool,
    pub output: JsonView,
}

impl View for ToolResult {
    type V = ToolResultView;

    open spec fn view(&self) -> ToolResultView {
        ToolResultView {
            call_id: self.call_id@,
            success: self.success,
            output: self.output@,
        }
    }
}

impl Duplicate for ToolResult {
    fn duplicate(&self) -> (copy: Self) {
        ToolResult {
            call_id: self.call_id.clone(),
            success: self.success,
            output: self.output.duplicate(),
        }
    }
}

/// Where the commands of a session run.
#[derive(Debug, PartialEq)]
pub enum Environment {
    /// Nowhere: the session has no execution environment.
    Nowhere,
    /// On this machine, in the directory `cwd`.
    Local { cwd: String },
}

/// What an [`Environment`] stands for.
pub enum EnvironmentView {
    Nowhere,
    Local { cwd: Seq<char> },
}

impl View for Environment {
    type V = EnvironmentView;

    open spec fn view(&self) -> EnvironmentView {
        match self {
            Environment::Nowhere => EnvironmentView::Nowhere,
            Environment::Local { cwd } => EnvironmentView::Local { cwd: cwd@ },
        }
    }
}

impl Duplicate for Environment {
    fn duplicate(&self) -> (copy: Self) {
        match self {
            Environment::Nowhere => Environment::Nowhere,
            Environment::Local { cwd } => Environment::Local { cwd: cwd.clone() },
        }
    }
}

/// A session as it is read: its configuration snapshot, its thread, the calls that
/// wait for a result, and the calls whose delivery is uncertain.
#[derive(Debug, PartialEq)]
pub struct Session {
    pub id: String,
    pub agent: Agent,
    pub environment: Environment,
    pub thread_id: Option<String>,
    pub required_actions: Vec<RequiredAction>,
    pub unresolved_actions: Vec<RequiredAction>,
}

/// What a [`Session`] stands for.
pub struct SessionView {
    pub id: Seq<char>,
    pub agent: AgentView,
    pub environment: EnvironmentView,
    pub thread_id: Option<Seq<char>>,
    pub required_actions: Seq<RequiredActionView>,
    pub unresolved_actions: Seq<RequiredActionView>,
}

impl View for Session {
    type V = SessionView;

    open spec fn view(&self) -> SessionView {
        SessionView {
            id: self.id@,
            agent: self.agent@,
            environment: self.environment@,
            thread_id: option_view(self.thread_id),
            required_actions: views(self.required_actions@),
            unresolved_actions: views(self.unresolved_actions@),
        }
    }
}

impl Duplicate for Session {
    fn duplicate(&self) -> (copy: Self) {
        Session {
            id: self.id.clone(),
            agent: self.agent.duplicate(),
            environment: self.environment.duplicate(),
            thread_id: duplicate_option(&self.thread_id),
            required_actions: duplicate_all(&self.required_actions),
            unresolved_actions: duplicate_all(&self.unresolved_actions),
        }
    }
}

/// What a client asks for when it creates a session.
pub struct SessionCreateParams {
    pub agent_id: String,
    pub environment: Environment,
}

/// What a [`SessionCreateParams`] stands for.
pub struct SessionCreateParamsView {
    pub agent_id: Seq<char>,
    pub environment: EnvironmentView,
}

impl View for SessionCreateParams {
    type V = SessionCreateParamsView;

    open spec fn view(&self) -> SessionCreateParamsView {
        SessionCreateParamsView {
            agent_id: self.agent_id@,
            environment: self.environment@,
        }
    }
}

impl Duplicate for SessionCreateParams {
    fn duplicate(&self) -> (copy: Self) {
        SessionCreateParams {
            agent_id: self.agent_id.clone(),
            environment: self.environment.duplicate(),
        }
    }
}

/// What a client says to a session.
pub struct InputParams {
    pub input: String,
}

/// What a [`InputParams`] stands for.
pub struct InputParamsView {
    pub input: Seq<char>,
}

impl View for InputParams {
    type V = InputParamsView;

    open spec fn view(&self) -> InputParamsView {
        InputParamsView {
            input: self.input@,
        }
    }
}

impl Duplicate for InputParams {
    fn duplicate(&self) -> (copy: Self) {
        InputParams {
            input: self.input.clone(),
        }
    }
}

/// Which page of a session's turns a client asks the backend for.
pub struct PageParams {
    pub cursor: Option<String>,
    pub limit: Option<u32>,
}

/// What a [`PageParams`] stands for.
pub struct PageParamsView {
    pub cursor: Option<Seq<char>>,
    pub limit: Option<u32>,
}

impl View for PageParams {
    type V = PageParamsView;

    open spec fn view(&self) -> PageParamsView {
        PageParamsView {
            cursor: option_view(self.cursor),
            limit: self.limit,
        }
    }
}

impl Duplicate for PageParams {
    fn duplicate(&self) -> (copy: Self) {
        PageParams {
            cursor: duplicate_option(&self.cursor),
            limit: self.limit,
        }
    }
}

/// The configuration that says nothing.
pub open spec fn empty_config() -> AgentConfigView {
    AgentConfigView {
        model: Seq::empty(),
        instructions: Seq::empty(),
        tools: Seq::empty(),
        mcp_servers: Seq::empty(),
        reasoning: None,
    }
}

impl Default for AgentConfig {
    fn default() -> (config: Self)
        ensures
            config@ == empty_config(),
    {
        let config = AgentConfig {
            model: String::new(),
            instructions: String::new(),
            tools: Vec::new(),
            mcp_servers: Vec::new(),
            reasoning: None,
        };
        assert(views(config.tools@) =~= Seq::empty());
        assert(views(config.mcp_servers@) =~= Seq::empty());
        config
    }
}

} // verus!
