//! Decisions of the event-driven agent loop.
//!
//! The loop itself (LLM steps, timers, channels, the event bus) runs outside
//! this module; each function here takes the loop state and what just
//! happened, updates the state, and says what to publish and whether the run
//! goes on.

use vstd::prelude::*;
use crate::agent::types::events::TokenUsage;
use crate::agent::v2::jobs::JobStatus;
use crate::text::{
    concat, contains_seq, decimal, ends_with_seq, join, join_seq, prefix_chars, prefix_seq,
    push_decimal, push_str, str_contains, str_ends_with, to_owned, trim, trim_seq, views,
};

verus! {

/// Reminder given to a worker agent that answered with prose instead of a tool call.
pub const WORKER_TOOL_USE_REMINDER: &'static str = "CRITICAL: You are a WORKER AGENT. You MUST use tools to complete your task. DO NOT just describe what you will do. EXECUTE the tool call using the Short-Key JSON format: {\"t\": \"thought\", \"a\": \"tool_name\", \"i\": \"arguments\"}If you have completed the task, provide a Final Answer using: {\"f\": \"your result\"}";

/// Counters and carried-over text of one run of the loop.
#[derive(Debug)]
pub struct LoopState {
    pub recovery_attempts: u32,
    pub consecutive_messages: u32,
    pub action_count: usize,
    pub last_action_summary: String,
    pub pending_observation: Option<String>,
}

impl LoopState {
    /// The state at the start of a run.
    pub fn new() -> (r: Self)
        ensures
            r.recovery_attempts == 0,
            r.consecutive_messages == 0,
            r.action_count == 0,
            r.last_action_summary@ == Seq::<char>::empty(),
            r.pending_observation is None,
    {
        LoopState {
            recovery_attempts: 0,
            consecutive_messages: 0,
            action_count: 0,
            last_action_summary: String::new(),
            pending_observation: None,
        }
    }

    /// A step succeeded: the recovery counter starts over.
    pub fn reset_recovery(&mut self)
        ensures
            *final(self) == (LoopState { recovery_attempts: 0, ..*old(self) }),
    {
        self.recovery_attempts = 0;
    }

    /// A tool ran: the count of conversational replies starts over.
    pub fn record_successful_tool_use(&mut self)
        ensures
            *final(self) == (LoopState { consecutive_messages: 0, ..*old(self) }),
    {
        self.consecutive_messages = 0;
    }
}

/// Limits of a run, from the agent's configuration.
#[derive(Debug, Clone, Copy)]
pub struct LoopLimits {
    pub max_consecutive_messages: u32,
    pub max_actions_before_stall: usize,
    pub max_recovery_attempts: u32,
}

/// Whether the loop goes on or the run ends with a message.
#[derive(Debug)]
pub enum StepOutcome {
    Continue,
    Done { message: String, usage: TokenUsage },
}

/// The run ends with this message and usage.
pub open spec fn is_done(o: StepOutcome, message: Seq<char>, usage: TokenUsage) -> bool {
    o matches StepOutcome::Done { message: m, usage: u } && m@ == message && u == usage
}

/// The text reads as a final answer.
pub open spec fn final_answer_spec(msg: Seq<char>) -> bool {
    contains_seq(msg, "Final Answer:"@) || contains_seq(msg, "\"f\":"@) || contains_seq(
        msg,
        "\"final_answer\":"@,
    )
}

/// The text, trimmed, is a question to the user.
pub open spec fn user_question_spec(msg: Seq<char>) -> bool {
    let t = trim_seq(msg);
    ends_with_seq(t, "?"@) && (contains_seq(t, "you"@) || contains_seq(t, "your"@) || contains_seq(
        t,
        "please provide"@,
    ))
}

/// A law of question detection: a reply that, trimmed, ends with `?` and
/// mentions `you` (as in `your`) or asks to `please provide` something is a
/// question to the user; one that does not end with `?` never is.
pub proof fn lemma_user_question(msg: Seq<char>)
    ensures
        ends_with_seq(trim_seq(msg), "?"@) && contains_seq(trim_seq(msg), "you"@) ==> user_question_spec(msg),
        ends_with_seq(trim_seq(msg), "?"@) && contains_seq(trim_seq(msg), "please provide"@)
            ==> user_question_spec(msg),
        !ends_with_seq(trim_seq(msg), "?"@) ==> !user_question_spec(msg),
{
}

/// Check if a message indicates a final answer.
pub fn is_final_answer(msg: &str) -> (r: bool)
    ensures
        r == final_answer_spec(msg@),
{
    str_contains(msg, "Final Answer:") || str_contains(msg, "\"f\":") || str_contains(
        msg,
        "\"final_answer\":",
    )
}

/// Check if a message is a question directed at the user.
pub fn is_user_question(msg: &str) -> (r: bool)
    ensures
        r == user_question_spec(msg@),
{
    let t = trim(msg);
    str_ends_with(t.as_str(), "?") && (str_contains(t.as_str(), "you") || str_contains(
        t.as_str(),
        "your",
    ) || str_contains(t.as_str(), "please provide"))
}

/// What to do with a conversational reply of the model.
#[derive(Debug)]
pub struct MessageStep {
    pub outcome: StepOutcome,
    /// Publish the reply to the chat (only the main agent does).
    pub publish_response: bool,
    /// Status line to publish, if any.
    pub status: Option<String>,
}

/// The abort message after too many conversational replies.
pub open spec fn conversation_abort_message(count: u32, msg: Seq<char>) -> Seq<char> {
    "Worker aborted after "@ + decimal(count as nat)
        + " consecutive conversational messages without tool execution. Workers must use tools to complete tasks. Final message: "@
        + prefix_seq(msg, 100)
}

/// Handles a text reply of the model. A final answer or a question to the user
/// ends the run; otherwise the count of conversational replies goes up and,
/// below the limit, the worker is reminded to use tools.
pub fn process_message(
    state: &mut LoopState,
    limits: &LoopLimits,
    is_worker: bool,
    msg: String,
    usage: TokenUsage,
) -> (r: MessageStep)
    requires
        old(state).consecutive_messages < u32::MAX,
    ensures
        r.publish_response == !is_worker,
        final_answer_spec(msg@) ==> is_done(r.outcome, msg@, usage) && r.status is None
            && *final(state) == *old(state),
        !final_answer_spec(msg@) && user_question_spec(msg@) ==> is_done(r.outcome, msg@, usage)
            && *final(state) == *old(state) && (r.status matches Some(s) && s@
            == "Agent is asking for clarification."@),
        !final_answer_spec(msg@) && !user_question_spec(msg@) ==> {
            let n = (old(state).consecutive_messages + 1) as u32;
            &&& final(state).consecutive_messages == n
            &&& final(state).recovery_attempts == old(state).recovery_attempts
            &&& final(state).action_count == old(state).action_count
            &&& final(state).last_action_summary == old(state).last_action_summary
            &&& if n >= limits.max_consecutive_messages {
                &&& is_done(r.outcome, conversation_abort_message(n, msg@), usage)
                &&& r.status matches Some(s) && s@ == conversation_abort_message(n, msg@)
                &&& final(state).pending_observation == old(state).pending_observation
            } else {
                &&& r.outcome is Continue
                &&& r.status is None
                &&& final(state).pending_observation matches Some(p) && p@
                    == WORKER_TOOL_USE_REMINDER@
            }
        },
{
    let publish_response = !is_worker;
    if is_final_answer(msg.as_str()) {
        return MessageStep {
            outcome: StepOutcome::Done { message: msg, usage },
            publish_response,
            status: None,
        };
    }
    if is_user_question(msg.as_str()) {
        return MessageStep {
            outcome: StepOutcome::Done { message: msg, usage },
            publish_response,
            status: Some(to_owned("Agent is asking for clarification.")),
        };
    }
    state.consecutive_messages = state.consecutive_messages + 1;
    if state.consecutive_messages >= limits.max_consecutive_messages {
        let mut m = to_owned("Worker aborted after ");
        push_decimal(&mut m, state.consecutive_messages as u64);
        push_str(
            &mut m,
            " consecutive conversational messages without tool execution. Workers must use tools to complete tasks. Final message: ",
        );
        let preview = prefix_chars(msg.as_str(), 100);
        push_str(&mut m, preview.as_str());
        let status = m.clone();
        return MessageStep {
            outcome: StepOutcome::Done { message: m, usage },
            publish_response,
            status: Some(status),
        };
    }
    state.pending_observation = Some(to_owned(WORKER_TOOL_USE_REMINDER));
    MessageStep { outcome: StepOutcome::Continue, publish_response, status: None }
}

/// What to do with a tool call of the model.
#[derive(Debug)]
pub enum ActionStep {
    /// The action budget is spent: the job stalls with this reason, and the run
    /// ends with `STALLED: <reason>`.
    Stalled { reason: String, message: String },
    /// Run the tool; publish the progress line if there is one.
    Execute { progress: Option<String> },
}

/// The status shown when the main agent starts a tool.
pub open spec fn executing_status_spec(tool: Seq<char>) -> Seq<char> {
    "Executing tool: '"@ + tool + "'"@
}

/// The status shown when the main agent starts a tool.
pub fn executing_status(tool: &str) -> (r: String)
    ensures
        r@ == executing_status_spec(tool@),
{
    let a = concat("Executing tool: '", tool);
    concat(a.as_str(), "'")
}

/// Why a job stalls once its action budget is spent.
pub open spec fn stall_reason(count: usize, last: Seq<char>) -> Seq<char> {
    "Worker exceeded action budget ("@ + decimal(count as nat)
        + " actions) without returning a final answer. Last action: "@ + last
        + ". This job is now STALLED and requires main agent intervention."@
}

/// Summary of an action kept for the stall message.
pub open spec fn action_summary(tool: Seq<char>, args: Seq<char>) -> Seq<char> {
    tool + " with args: "@ + prefix_seq(args, 100)
}

/// Handles a tool call: stalls once the action budget is spent (checked before
/// counting), otherwise counts the action and lets the tool run.
pub fn process_action(
    state: &mut LoopState,
    limits: &LoopLimits,
    is_worker: bool,
    tool: &str,
    args: &str,
) -> (r: ActionStep)
    ensures
        old(state).action_count >= limits.max_actions_before_stall ==> {
            &&& *final(state) == *old(state)
            &&& r matches ActionStep::Stalled { reason, message } && reason@ == stall_reason(
                old(state).action_count,
                old(state).last_action_summary@,
            ) && message@ == "STALLED: "@ + reason@
        },
        old(state).action_count < limits.max_actions_before_stall ==> {
            &&& final(state).action_count == old(state).action_count + 1
            &&& final(state).last_action_summary@ == action_summary(tool@, args@)
            &&& final(state).recovery_attempts == old(state).recovery_attempts
            &&& final(state).consecutive_messages == old(state).consecutive_messages
            &&& final(state).pending_observation == old(state).pending_observation
            &&& r matches ActionStep::Execute { progress } && (is_worker ==> progress is None) && (
            !is_worker ==> (progress matches Some(p) && p@ == "Action "@ + decimal(
                final(state).action_count as nat,
            ) + "/"@ + decimal(limits.max_actions_before_stall as nat) + ": "@ + tool@))
        },
{
    if state.action_count >= limits.max_actions_before_stall {
        let mut reason = to_owned("Worker exceeded action budget (");
        push_decimal(&mut reason, state.action_count as u64);
        push_str(&mut reason, " actions) without returning a final answer. Last action: ");
        push_str(&mut reason, state.last_action_summary.as_str());
        push_str(&mut reason, ". This job is now STALLED and requires main agent intervention.");
        let message = concat("STALLED: ", reason.as_str());
        return ActionStep::Stalled { reason, message };
    }
    state.action_count = state.action_count + 1;
    let mut summary = to_owned(tool);
    push_str(&mut summary, " with args: ");
    let preview = prefix_chars(args, 100);
    push_str(&mut summary, preview.as_str());
    state.last_action_summary = summary;
    if is_worker {
        ActionStep::Execute { progress: None }
    } else {
        let mut p = to_owned("Action ");
        push_decimal(&mut p, state.action_count as u64);
        push_str(&mut p, "/");
        push_decimal(&mut p, limits.max_actions_before_stall as u64);
        push_str(&mut p, ": ");
        push_str(&mut p, tool);
        ActionStep::Execute { progress: Some(p) }
    }
}

/// Records what a tool run gave: its observation (and the conversational
/// count starts over), or the error as the next observation.
pub fn record_tool_result(state: &mut LoopState, result: Result<String, String>)
    ensures
        final(state).recovery_attempts == old(state).recovery_attempts,
        final(state).action_count == old(state).action_count,
        final(state).last_action_summary == old(state).last_action_summary,
        match result {
            Ok(o) => final(state).consecutive_messages == 0 && final(state).pending_observation
                == Some(o),
            Err(e) => final(state).consecutive_messages == old(state).consecutive_messages && (
            final(state).pending_observation matches Some(p) && p@ == "Tool execution error: "@
                + e@),
        },
{
    match result {
        Ok(observation) => {
            state.record_successful_tool_use();
            state.pending_observation = Some(observation);
        },
        Err(e) => {
            state.pending_observation = Some(concat("Tool execution error: ", e.as_str()));
        },
    }
}

/// What to do after a failed step.
#[derive(Debug)]
pub enum ErrorStep {
    /// Recovery attempts are used up: the run ends with this message.
    GiveUp { message: String },
    /// Try again: publish this status; the error becomes the next observation.
    Retry { status: String },
}

/// Handles a failed step: counts a recovery attempt; past the limit the run
/// ends, otherwise the next step sees the error.
pub fn process_error(state: &mut LoopState, limits: &LoopLimits, error: &str) -> (r: ErrorStep)
    requires
        old(state).recovery_attempts < u32::MAX,
    ensures
        final(state).recovery_attempts == old(state).recovery_attempts + 1,
        final(state).consecutive_messages == old(state).consecutive_messages,
        final(state).action_count == old(state).action_count,
        final(state).last_action_summary == old(state).last_action_summary,
        final(state).recovery_attempts > limits.max_recovery_attempts ==> {
            &&& final(state).pending_observation == old(state).pending_observation
            &&& r matches ErrorStep::GiveUp { message } && message@ == "Recovery failed after "@
                + decimal(limits.max_recovery_attempts as nat) + " attempts. Last error: "@
                + error@
        },
        final(state).recovery_attempts <= limits.max_recovery_attempts ==> {
            &&& final(state).pending_observation matches Some(p) && p@
                == "Recovery mode after error: "@ + error@
            &&& r matches ErrorStep::Retry { status } && status@ == "Error: "@ + error@
                + ". Recovery attempt "@ + decimal(final(state).recovery_attempts as nat) + "/"@
                + decimal(limits.max_recovery_attempts as nat)
        },
{
    state.recovery_attempts = state.recovery_attempts + 1;
    if state.recovery_attempts > limits.max_recovery_attempts {
        let mut m = to_owned("Recovery failed after ");
        push_decimal(&mut m, limits.max_recovery_attempts as u64);
        push_str(&mut m, " attempts. Last error: ");
        push_str(&mut m, error);
        return ErrorStep::GiveUp { message: m };
    }
    let mut st = to_owned("Error: ");
    push_str(&mut st, error);
    push_str(&mut st, ". Recovery attempt ");
    push_decimal(&mut st, state.recovery_attempts as u64);
    push_str(&mut st, "/");
    push_decimal(&mut st, limits.max_recovery_attempts as u64);
    state.pending_observation = Some(concat("Recovery mode after error: ", error));
    ErrorStep::Retry { status: st }
}

/// What the driver does with a decision that is neither a reply nor a tool call.
#[derive(Debug)]
pub struct OtherDecisionStep {
    pub status: String,
    pub outcome: StepOutcome,
}

/// A malformed tool call: the model is told to follow the format and the run goes on.
pub fn process_malformed(state: &mut LoopState, error: &str) -> (r: OtherDecisionStep)
    ensures
        r.status@ == "Malformed action: "@ + error@ + ". Retrying..."@,
        r.outcome is Continue,
        *final(state) == (LoopState { pending_observation: final(state).pending_observation, ..*old(state) }),
        final(state).pending_observation matches Some(p) && p@ == "Error: "@ + error@
            + ". Please follow the correct format."@,
{
    let mut st = concat("Malformed action: ", error);
    push_str(&mut st, ". Retrying...");
    let mut obs = concat("Error: ", error);
    push_str(&mut obs, ". Please follow the correct format.");
    state.pending_observation = Some(obs);
    OtherDecisionStep { status: st, outcome: StepOutcome::Continue }
}

/// An agent error ends the run.
pub fn process_agent_error(error: &str, usage: TokenUsage) -> (r: OtherDecisionStep)
    ensures
        r.status@ == "Agent error: "@ + error@,
        is_done(r.outcome, "Error: "@ + error@, usage),
{
    OtherDecisionStep {
        status: concat("Agent error: ", error),
        outcome: StepOutcome::Done { message: concat("Error: ", error), usage },
    }
}

/// A stalled worker ends the run.
pub fn process_stall(reason: &str, tool_failures: usize, usage: TokenUsage) -> (r: OtherDecisionStep)
    ensures
        r.status@ == "Worker stalled: "@ + reason@ + " ("@ + decimal(tool_failures as nat)
            + " consecutive failures)"@,
        is_done(
            r.outcome,
            "Worker stalled: "@ + reason@ + ". Please check the task and retry if needed."@,
            usage,
        ),
{
    let mut st = concat("Worker stalled: ", reason);
    push_str(&mut st, " (");
    push_decimal(&mut st, tool_failures as u64);
    push_str(&mut st, " consecutive failures)");
    let mut m = concat("Worker stalled: ", reason);
    push_str(&mut m, ". Please check the task and retry if needed.");
    OtherDecisionStep { status: st, outcome: StepOutcome::Done { message: m, usage } }
}

/// The step budget is spent: the approval request to publish; `None` while
/// steps remain.
pub fn check_budget(iteration_count: usize, max_steps: usize) -> (r: Option<String>)
    ensures
        iteration_count < max_steps ==> r is None,
        iteration_count >= max_steps ==> (r matches Some(m) && m@ == "Step budget exceeded ("@
            + decimal(iteration_count as nat) + "/"@ + decimal(max_steps as nat)
            + "). Requesting approval..."@),
{
    if iteration_count < max_steps {
        return None;
    }
    let mut m = to_owned("Step budget exceeded (");
    push_decimal(&mut m, iteration_count as u64);
    push_str(&mut m, "/");
    push_decimal(&mut m, max_steps as u64);
    push_str(&mut m, "). Requesting approval...");
    Some(m)
}

/// The budget after an approved increase: one and a half times as many steps,
/// rounded down and capped at `usize::MAX`.
pub open spec fn increased_budget(max_steps: usize) -> int {
    let m = max_steps as int;
    if m + m / 2 > usize::MAX {
        usize::MAX as int
    } else {
        m + m / 2
    }
}

/// What the answer to a budget request leads to.
#[derive(Debug)]
pub enum BudgetDecision {
    /// Approved: the new step budget and the status line announcing it.
    Increase { max_steps: usize, status: String },
    /// Denied, or no one can answer: the run ends with this message.
    Stop { message: String },
}

/// Applies the answer to a budget request (`None`: the approval channel closed).
pub fn budget_decision(max_steps: usize, approval: Option<bool>) -> (r: BudgetDecision)
    ensures
        match approval {
            Some(true) => r matches BudgetDecision::Increase { max_steps: m, status } && m
                == increased_budget(max_steps) && status@ == "Budget increased to "@ + decimal(
                m as nat,
            ) + " steps."@,
            Some(false) => r matches BudgetDecision::Stop { message } && message@
                == "User denied budget increase. Stopping."@,
            None => r matches BudgetDecision::Stop { message } && message@
                == "Approval channel closed. Stopping."@,
        },
{
    match approval {
        Some(true) => {
            let half = max_steps / 2;
            let m = if max_steps > usize::MAX - half {
                usize::MAX
            } else {
                max_steps + half
            };
            let mut st = to_owned("Budget increased to ");
            push_decimal(&mut st, m as u64);
            push_str(&mut st, " steps.");
            BudgetDecision::Increase { max_steps: m, status: st }
        },
        Some(false) => BudgetDecision::Stop {
            message: to_owned("User denied budget increase. Stopping."),
        },
        None => BudgetDecision::Stop { message: to_owned("Approval channel closed. Stopping.") },
    }
}

/// The pending observation after a heartbeat gathered `observations`: they are
/// joined by blank lines and appended (after a blank line) to what was pending.
pub open spec fn combined_observation(
    pending: Option<Seq<char>>,
    observations: Seq<Seq<char>>,
) -> Option<Seq<char>> {
    if observations.len() == 0 {
        pending
    } else {
        let c = join_seq(observations, "\n\n"@);
        match pending {
            Some(p) => Some(p + "\n\n"@ + c),
            None => Some(c),
        }
    }
}

/// Adds a heartbeat's observations to the pending observation.
pub fn combine_observations(pending: &mut Option<String>, observations: &Vec<String>)
    ensures
        match combined_observation(
            match *old(pending) {
                Some(p) => Some(p@),
                None => None,
            },
            views(observations@),
        ) {
            Some(c) => *final(pending) matches Some(p) && p@ == c,
            None => *final(pending) is None,
        },
{
    if observations.len() == 0 {
        return;
    }
    let combined = join(observations, "\n\n");
    match pending {
        Some(existing) => {
            push_str(existing, "\n\n");
            push_str(existing, combined.as_str());
        },
        None => {
            *pending = Some(combined);
        },
    }
}

/// The user-facing status and, for finished jobs, the observation for the
/// agent, describing a background job update.
pub fn job_update_messages(
    description: &str,
    status: JobStatus,
    result_text: Option<String>,
    error: Option<String>,
) -> (r: (String, Option<String>))
    ensures
        ({
            let d = description@;
            match status {
                JobStatus::Completed => {
                    let res = match result_text {
                        Some(t) => t@,
                        None => "completed successfully"@,
                    };
                    r.0@ == "Job '"@ + d + "' completed: "@ + res && (r.1 matches Some(o) && o@
                        == "Background job '"@ + d + "' result: "@ + res)
                },
                JobStatus::Failed => {
                    let e = match error {
                        Some(t) => t@,
                        None => "Unknown error"@,
                    };
                    r.0@ == "Job '"@ + d + "' failed: "@ + e && (r.1 matches Some(o) && o@
                        == "Background job '"@ + d + "' failed: "@ + e)
                },
                JobStatus::Running => r.0@ == "Job '"@ + d + "' still running..."@ && r.1 is None,
                JobStatus::Cancelled => r.0@ == "Job '"@ + d + "' cancelled"@ && (r.1 matches Some(
                    o,
                ) && o@ == "Background job '"@ + d + "' cancelled by user"@),
            }
        }),
{
    let head = concat("Job '", description);
    let bg = concat("Background job '", description);
    match status {
        JobStatus::Completed => {
            let res = match result_text {
                Some(t) => t,
                None => to_owned("completed successfully"),
            };
            let mut a = head;
            push_str(&mut a, "' completed: ");
            push_str(&mut a, res.as_str());
            let mut b = bg;
            push_str(&mut b, "' result: ");
            push_str(&mut b, res.as_str());
            (a, Some(b))
        },
        JobStatus::Failed => {
            let e = match error {
                Some(t) => t,
                None => to_owned("Unknown error"),
            };
            let mut a = head;
            push_str(&mut a, "' failed: ");
            push_str(&mut a, e.as_str());
            let mut b = bg;
            push_str(&mut b, "' failed: ");
            push_str(&mut b, e.as_str());
            (a, Some(b))
        },
        JobStatus::Running => {
            let mut a = head;
            push_str(&mut a, "' still running...");
            (a, None)
        },
        JobStatus::Cancelled => {
            let mut a = head;
            push_str(&mut a, "' cancelled");
            let mut b = bg;
            push_str(&mut b, "' cancelled by user");
            (a, Some(b))
        },
    }
}

} // verus!
