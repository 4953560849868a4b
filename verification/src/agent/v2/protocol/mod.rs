//! What one step of the agent decides, and the parsing of model replies.

pub mod parser;

use vstd::prelude::*;
use crate::agent::types::events::TokenUsage;

verus! {

/// Where a tool does its work, which decides how its output is shown.
#[derive(Debug, Clone, Copy, PartialEq, Eq, Structural)]
pub enum ToolKind {
    /// Runs inside the agent; its observation is echoed to the terminal.
    Internal,
    /// Runs a command in the user's terminal.
    Terminal,
    /// Reaches out to the web.
    Web,
}

/// The decision made by the agent after a step.
#[derive(Debug, Clone)]
pub enum AgentDecision {
    /// The model produced a text reply (a final answer or a question).
    Message(String, TokenUsage),
    /// The model wants to run a tool.
    Action { tool: String, args: String, kind: ToolKind },
    /// The model asked for a tool in a form that could not be parsed.
    MalformedAction(String),
    /// The step failed, or the iteration budget is spent.
    Error(String),
    /// The agent keeps failing with its tools and gives up.
    Stall { reason: String, tool_failures: usize },
}

} // verus!
