//! Intent types: what the kernel wants the runtime to do.

use vstd::prelude::*;
use crate::text::to_owned;

verus! {

/// Call a tool.
#[derive(Clone, Debug)]
pub struct ToolCall {
    pub name: String,
    pub arguments: serde_json::Value,
    pub working_dir: Option<String>,
    pub timeout_secs: Option<u64>,
}

impl ToolCall {
    pub fn new(name: &str, arguments: serde_json::Value) -> (r: Self)
        ensures
            r.name@ == name@,
            r.arguments == arguments,
            r.working_dir is None,
            r.timeout_secs is None,
    {
        ToolCall { name: to_owned(name), arguments, working_dir: None, timeout_secs: None }
    }

    pub fn with_working_dir(self, dir: &str) -> (r: Self)
        ensures
            r == (ToolCall { working_dir: r.working_dir, ..self }),
            r.working_dir matches Some(d) && d@ == dir@,
    {
        ToolCall { working_dir: Some(to_owned(dir)), ..self }
    }

    pub fn with_timeout(self, secs: u64) -> (r: Self)
        ensures
            r == (ToolCall { timeout_secs: Some(secs), ..self }),
    {
        ToolCall { timeout_secs: Some(secs), ..self }
    }
}

/// A conversation message.
#[derive(Clone, Debug)]
pub struct Message {
    pub role: Role,
    pub content: String,
}

/// Author of a message.
#[derive(Clone, Copy, Debug, PartialEq, Eq, Structural)]
pub enum Role {
    User,
    Assistant,
    System,
    Tool,
}

/// A tool definition offered to the LLM.
#[derive(Clone, Debug)]
pub struct ToolDef {
    pub name: String,
    pub description: String,
    pub parameters: serde_json::Value,
}

/// Tool schema (same as a tool definition).
pub type ToolSchema = ToolDef;

/// Token limits of a request.
#[derive(Clone, Copy, Debug, PartialEq, Eq, Structural)]
pub struct TokenBudget {
    pub max_tokens: u32,
    pub reserved_for_output: u32,
}

impl Default for TokenBudget {
    fn default() -> (r: Self)
        ensures
            r.max_tokens == 4096,
            r.reserved_for_output == 1024,
    {
        TokenBudget { max_tokens: 4096, reserved_for_output: 1024 }
    }
}

/// Context of an LLM request.
#[derive(Clone, Debug)]
pub struct Context {
    pub history: Vec<Message>,
    pub system_prompt: String,
    pub available_tools: Vec<ToolDef>,
    pub scratchpad: String,
    pub token_budget: TokenBudget,
}

impl Context {
    pub fn new(scratchpad: &str) -> (r: Self)
        ensures
            r.history@.len() == 0,
            r.system_prompt@ == Seq::<char>::empty(),
            r.available_tools@.len() == 0,
            r.scratchpad@ == scratchpad@,
            r.token_budget == (TokenBudget { max_tokens: 4096, reserved_for_output: 1024 }),
    {
        Context {
            history: Vec::new(),
            system_prompt: String::new(),
            available_tools: Vec::new(),
            scratchpad: to_owned(scratchpad),
            token_budget: TokenBudget::default(),
        }
    }

    pub fn with_system(self, prompt: &str) -> (r: Self)
        ensures
            r == (Context { system_prompt: r.system_prompt, ..self }),
            r.system_prompt@ == prompt@,
    {
        Context { system_prompt: to_owned(prompt), ..self }
    }
}

/// Requested output format.
#[derive(Clone, Debug)]
pub enum ResponseFormat {
    Text,
    JsonObject,
    JsonSchema { schema: serde_json::Value },
    Xml,
}

/// Specification of a worker to spawn.
#[derive(Clone, Debug)]
pub struct WorkerSpec {
    pub objective: String,
    pub context: String,
    pub max_iterations: Option<usize>,
    pub can_delegate: bool,
    pub allowed_tools: Option<Vec<String>>,
    pub model: Option<String>,
}

impl WorkerSpec {
    /// A worker for this objective, with no context, no delegation and no limits.
    pub fn new(objective: &str) -> (r: Self)
        ensures
            r.objective@ == objective@,
            r.context@ == Seq::<char>::empty(),
            r.max_iterations is None,
            !r.can_delegate,
            r.allowed_tools is None,
            r.model is None,
    {
        WorkerSpec {
            objective: to_owned(objective),
            context: String::new(),
            max_iterations: None,
            can_delegate: false,
            allowed_tools: None,
            model: None,
        }
    }

    pub fn with_context(self, context: &str) -> (r: Self)
        ensures
            r == (WorkerSpec { context: r.context, ..self }),
            r.context@ == context@,
    {
        WorkerSpec { context: to_owned(context), ..self }
    }

    pub fn with_delegation(self) -> (r: Self)
        ensures
            r == (WorkerSpec { can_delegate: true, ..self }),
    {
        WorkerSpec { can_delegate: true, ..self }
    }

    pub fn with_tools(self, tools: Vec<String>) -> (r: Self)
        ensures
            r == (WorkerSpec { allowed_tools: Some(tools), ..self }),
    {
        WorkerSpec { allowed_tools: Some(tools), ..self }
    }
}

/// Request for user approval of a tool call.
#[derive(Clone, Debug)]
pub struct ApprovalRequest {
    pub tool: String,
    pub args: String,
    pub reason: String,
}

/// Why the kernel halts.
#[derive(Clone, Debug)]
pub enum ExitReason {
    Completed,
    UserRequest,
    StepLimit,
    Error(String),
    Interrupted,
}

/// Priority of an intent; earlier variants come first.
#[derive(Clone, Copy, Debug, PartialEq, Eq, PartialOrd, Ord, Hash, Structural)]
pub enum Priority {
    Critical,
    High,
    Normal,
    Background,
}

impl Default for Priority {
    fn default() -> (r: Self)
        ensures
            r == Priority::Normal,
    {
        Priority::Normal
    }
}

} // verus!
