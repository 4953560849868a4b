//! Events that flow into the kernel, and token accounting.

use vstd::prelude::*;
use crate::agent::types::ids::IntentId;

verus! {

/// Worker identifier.
#[derive(Debug, Clone, Copy, PartialEq, Eq, Hash, Structural)]
pub struct WorkerId(pub u64);

impl WorkerId {
    pub fn new(id: u64) -> (r: Self)
        ensures
            r.0 == id,
    {
        WorkerId(id)
    }
}

/// `Result::clone`: clones whichever side is present.
pub assume_specification<T: Clone, E: Clone>[ <Result<T, E> as Clone>::clone ](
    r: &Result<T, E>,
) -> (c: Result<T, E>)
    ensures
        r is Ok ==> c is Ok && cloned::<T>(r->Ok_0, c->Ok_0),
        r is Err ==> c is Err && cloned::<E>(r->Err_0, c->Err_0),
;

/// Events that the kernel processes.
#[derive(Debug, Clone)]
pub enum KernelEvent {
    /// User sent a message.
    UserMessage { content: String },
    /// A tool was executed and returned a result.
    ToolCompleted { intent_id: IntentId, tool: String, result: ToolResult },
    /// An LLM request completed.
    LLMCompleted { intent_id: IntentId, response: LLMResponse },
    /// User approved or denied a tool execution.
    ApprovalGiven { intent_id: IntentId, outcome: ApprovalOutcome },
    /// A worker completed its task.
    WorkerCompleted { worker_id: WorkerId, result: Result<String, WorkerError> },
    /// A worker failed or stalled (`is_stall`: recoverable).
    WorkerFailed { worker_id: WorkerId, error: String, is_stall: bool },
    /// User requested interruption.
    Interrupt,
    /// System tick (for timeouts, periodic checks) at a logical time.
    Tick { time: u64 },
    /// Session-level event.
    Session { action: SessionAction },
    /// Runtime error occurred (e.g. an LLM request failed).
    RuntimeError { intent_id: IntentId, error: String },
}

/// Result of a tool execution.
#[derive(Debug, Clone)]
pub enum ToolResult {
    Success { output: String, structured: Option<serde_json::Value> },
    Error { message: String, code: Option<String>, retryable: bool },
    Cancelled,
}

/// Approval decision outcome.
#[derive(Debug, Clone)]
pub enum ApprovalOutcome {
    Granted,
    Denied { reason: Option<String> },
}

/// LLM response data.
#[derive(Debug, Clone)]
pub struct LLMResponse {
    pub content: String,
    pub usage: TokenUsage,
    pub model: String,
    pub provider: String,
    pub finish_reason: FinishReason,
    pub structured: Option<serde_json::Value>,
}

/// Token usage from an LLM call.
#[derive(Debug, Clone, Copy, PartialEq, Eq, Structural)]
pub struct TokenUsage {
    pub prompt_tokens: u32,
    pub completion_tokens: u32,
    pub total_tokens: u32,
}

impl Default for TokenUsage {
    fn default() -> (r: Self)
        ensures
            r == (TokenUsage { prompt_tokens: 0, completion_tokens: 0, total_tokens: 0 }),
    {
        TokenUsage { prompt_tokens: 0, completion_tokens: 0, total_tokens: 0 }
    }
}

impl TokenUsage {
    /// Usage of one call: the total is the sum of prompt and completion tokens.
    pub fn new(prompt: u32, completion: u32) -> (r: Self)
        requires
            prompt + completion <= u32::MAX,
        ensures
            r.prompt_tokens == prompt,
            r.completion_tokens == completion,
            r.total_tokens == prompt + completion,
    {
        TokenUsage {
            prompt_tokens: prompt,
            completion_tokens: completion,
            total_tokens: prompt + completion,
        }
    }

    /// Accumulates another usage, field by field.
    pub fn add(&mut self, other: &TokenUsage)
        requires
            old(self).prompt_tokens + other.prompt_tokens <= u32::MAX,
            old(self).completion_tokens + other.completion_tokens <= u32::MAX,
            old(self).total_tokens + other.total_tokens <= u32::MAX,
        ensures
            final(self).prompt_tokens == old(self).prompt_tokens + other.prompt_tokens,
            final(self).completion_tokens == old(self).completion_tokens + other.completion_tokens,
            final(self).total_tokens == old(self).total_tokens + other.total_tokens,
    {
        self.prompt_tokens = self.prompt_tokens + other.prompt_tokens;
        self.completion_tokens = self.completion_tokens + other.completion_tokens;
        self.total_tokens = self.total_tokens + other.total_tokens;
    }
}

/// A law of token accounting: when both usages have totals equal to prompt plus
/// completion tokens, so does their sum.
pub proof fn lemma_add_keeps_totals(a: TokenUsage, b: TokenUsage, sum: TokenUsage)
    requires
        a.total_tokens == a.prompt_tokens + a.completion_tokens,
        b.total_tokens == b.prompt_tokens + b.completion_tokens,
        sum.prompt_tokens == a.prompt_tokens + b.prompt_tokens,
        sum.completion_tokens == a.completion_tokens + b.completion_tokens,
        sum.total_tokens == a.total_tokens + b.total_tokens,
    ensures
        sum.total_tokens == sum.prompt_tokens + sum.completion_tokens,
{
}

/// Why the LLM finished generating.
#[derive(Debug, Clone)]
pub enum FinishReason {
    Stop,
    Length,
    TokenLimit,
    ContentFilter,
    ToolCall,
    Other(String),
}

/// Error from a worker.
#[derive(Debug, Clone)]
pub struct WorkerError {
    pub message: String,
    pub code: Option<String>,
}

/// Session-level actions.
#[derive(Debug, Clone)]
pub enum SessionAction {
    Start,
    Resume { session_id: String },
    Pause,
    Save,
    Load { session_id: String },
}

} // verus!
