//! Orchestrator types: task handles, execution states and configuration.

use vstd::prelude::*;
use crate::text::to_owned;
use crate::config::endpoints::Message;

verus! {

/// A lower-case hexadecimal digit.
pub open spec fn is_lower_hex(c: char) -> bool {
    ('0' <= c && c <= '9') || ('a' <= c && c <= 'f')
}

/// The text of a random (version 4) UUID: 36 characters, hyphens at 8, 13,
/// 18 and 23, lower-case hex digits elsewhere, the version digit `4` at 14
/// and the variant digit `8`, `9`, `a` or `b` at 19.
pub open spec fn uuid_v4_text(s: Seq<char>) -> bool {
    &&& s.len() == 36
    &&& forall|i: int|
        0 <= i < 36 ==> if i == 8 || i == 13 || i == 18 || i == 23 {
            #[trigger] s[i] == '-'
        } else {
            is_lower_hex(s[i])
        }
    &&& s[14] == '4'
    &&& (s[19] == '8' || s[19] == '9' || s[19] == 'a' || s[19] == 'b')
}

/// `Uuid::new_v4().to_string()`: a fresh random identifier. Which one is
/// chance; every outcome has the hyphenated lower-case form of a version 4
/// UUID.
#[verifier::external_body]
fn random_uuid_string() -> (r: String)
    ensures
        uuid_v4_text(r@),
{
    uuid::Uuid::new_v4().to_string()
}

/// Identifier of a task.
#[derive(Debug, Clone)]
pub struct TaskId(String);

impl TaskId {
    /// A fresh random identifier: the text of a version 4 UUID.
    pub fn new() -> (r: Self)
        ensures
            uuid_v4_text(r.view()),
    {
        TaskId(random_uuid_string())
    }

    /// An identifier with a given text.
    pub fn from_string(s: String) -> (r: Self)
        ensures
            r.view() == s@,
    {
        TaskId(s)
    }

    /// The identifier's text.
    pub closed spec fn view(&self) -> Seq<char> {
        self.0@
    }

    /// The identifier's text.
    pub fn as_str(&self) -> (r: &str)
        ensures
            r@ == self.view(),
    {
        self.0.as_str()
    }
}

impl Default for TaskId {
    fn default() -> (r: Self) {
        TaskId::new()
    }
}

/// Handle of a running task with its interrupt flag (shared between threads).
#[derive(Debug, Clone)]
pub struct TaskHandle {
    pub id: TaskId,
    pub interrupt_flag: std::sync::Arc<std::sync::atomic::AtomicBool>,
}

impl TaskHandle {
    /// A handle with a fresh id, not interrupted.
    pub fn new() -> (r: Self) {
        TaskHandle {
            id: TaskId::new(),
            interrupt_flag: std::sync::Arc::new(std::sync::atomic::AtomicBool::new(false)),
        }
    }

    /// Raises the interrupt flag.
    pub fn interrupt(&self) {
        self.interrupt_flag.store(true, std::sync::atomic::Ordering::SeqCst);
    }

    /// Whether the interrupt flag is raised (it may change concurrently).
    pub fn is_interrupted(&self) -> (r: bool) {
        self.interrupt_flag.load(std::sync::atomic::Ordering::SeqCst)
    }
}

impl Default for TaskHandle {
    fn default() -> (r: Self) {
        TaskHandle::new()
    }
}

/// Execution state shown to the user.
#[derive(Debug, Clone)]
pub enum ExecutionState {
    Idle,
    Thinking { model: String, provider: String },
    ExecutingTool { tool: String },
    WaitingForUser,
    SmartWaiting { active_workers: usize, iteration: usize },
    Completed,
    Error(String),
}

/// Configuration of the orchestrator.
#[derive(Debug, Clone, Copy)]
pub struct OrchestratorConfig {
    /// Maximum iterations of the agent loops (safety limit).
    pub max_driver_loops: usize,
    /// Maximum retries for malformed actions.
    pub max_retries: usize,
    /// Maximum smart-wait iterations before returning to idle.
    pub max_smart_wait_iterations: usize,
    /// Seconds between smart-wait checks.
    pub smart_wait_interval_secs: u64,
    /// Auto-approve terminal commands.
    pub auto_approve: bool,
    /// Enable memory recording.
    pub enable_memory: bool,
    /// Tool failures after which a worker is stalled.
    pub max_worker_tool_failures: usize,
}

impl Default for OrchestratorConfig {
    fn default() -> (r: Self)
        ensures
            r.max_driver_loops == 50,
            r.max_retries == 3,
            r.max_smart_wait_iterations == 5,
            r.smart_wait_interval_secs == 1,
            !r.auto_approve,
            r.enable_memory,
            r.max_worker_tool_failures == 3,
    {
        OrchestratorConfig {
            max_driver_loops: 50,
            max_retries: 3,
            max_smart_wait_iterations: 5,
            smart_wait_interval_secs: 1,
            auto_approve: false,
            enable_memory: true,
            max_worker_tool_failures: 3,
        }
    }
}

/// What a chat session receives from its users and workers.
#[derive(Debug, Clone)]
pub enum ChatSessionMessage {
    /// A user message to answer.
    UserMessage(Message),
    /// A worker event to pass on to the agent.
    WorkerEvent(String),
    /// Stop the session.
    Interrupt,
}

} // verus!
