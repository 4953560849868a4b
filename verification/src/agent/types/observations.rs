//! Observations: what the runtime reports back after executing intents.

use vstd::prelude::*;
use crate::agent::types::events::{
    ApprovalOutcome, KernelEvent, LLMResponse, TokenUsage, ToolResult, WorkerError, WorkerId,
};
use crate::agent::types::ids::IntentId;
use crate::text::to_owned;

verus! {

/// Result of executing an intent.
#[derive(Clone, Debug)]
pub enum Observation {
    ToolCompleted { intent_id: IntentId, result: ToolResult, execution_time_ms: u64 },
    LLMCompleted { intent_id: IntentId, response: LLMResponse },
    ApprovalCompleted { intent_id: IntentId, outcome: ApprovalOutcome },
    WorkerSpawned { intent_id: IntentId, worker_id: WorkerId },
    WorkerCompleted { worker_id: WorkerId, result: Result<String, WorkerError>, usage: TokenUsage },
    ResponseEmitted { intent_id: IntentId, content: String, is_partial: bool },
    Halted { intent_id: IntentId, reason: HaltReason },
    RuntimeError { intent_id: IntentId, error: ExecutionError },
    Timeout { intent_id: IntentId, timeout_secs: u64 },
    Cancelled { intent_id: IntentId },
}

/// The intent an observation answers, if it names one.
pub open spec fn observed_intent(o: Observation) -> Option<IntentId> {
    match o {
        Observation::ToolCompleted { intent_id, .. } => Some(intent_id),
        Observation::LLMCompleted { intent_id, .. } => Some(intent_id),
        Observation::ApprovalCompleted { intent_id, .. } => Some(intent_id),
        Observation::WorkerSpawned { intent_id, .. } => Some(intent_id),
        Observation::WorkerCompleted { .. } => None,
        Observation::ResponseEmitted { intent_id, .. } => Some(intent_id),
        Observation::Halted { intent_id, .. } => Some(intent_id),
        Observation::RuntimeError { intent_id, .. } => Some(intent_id),
        Observation::Timeout { intent_id, .. } => Some(intent_id),
        Observation::Cancelled { intent_id } => Some(intent_id),
    }
}

impl Observation {
    /// Sets the intent the observation answers (a worker completion names none).
    pub fn set_intent_id(&mut self, id: IntentId)
        ensures
            observed_intent(*final(self)) == match observed_intent(*old(self)) {
                Some(_) => Some(id),
                None => None,
            },
    {
        match self {
            Observation::ToolCompleted { intent_id, .. } => *intent_id = id,
            Observation::LLMCompleted { intent_id, .. } => *intent_id = id,
            Observation::ApprovalCompleted { intent_id, .. } => *intent_id = id,
            Observation::WorkerSpawned { intent_id, .. } => *intent_id = id,
            Observation::WorkerCompleted { .. } => {},
            Observation::ResponseEmitted { intent_id, .. } => *intent_id = id,
            Observation::Halted { intent_id, .. } => *intent_id = id,
            Observation::RuntimeError { intent_id, .. } => *intent_id = id,
            Observation::Timeout { intent_id, .. } => *intent_id = id,
            Observation::Cancelled { intent_id } => *intent_id = id,
        }
    }

    /// The kernel event for this observation.
    pub fn into_event(self) -> (r: KernelEvent)
        ensures
            match self {
                Observation::ToolCompleted { intent_id, result, .. } => r matches KernelEvent::ToolCompleted {
                    intent_id: i,
                    tool,
                    result: res,
                } && i == intent_id && tool@ == "unknown"@ && res == result,
                Observation::LLMCompleted { intent_id, response } => r == (KernelEvent::LLMCompleted {
                    intent_id,
                    response,
                }),
                Observation::ApprovalCompleted { intent_id, outcome } => r == (KernelEvent::ApprovalGiven {
                    intent_id,
                    outcome,
                }),
                Observation::WorkerCompleted { worker_id, result, .. } => r == (KernelEvent::WorkerCompleted {
                    worker_id,
                    result,
                }),
                Observation::Halted { .. } => r == KernelEvent::Interrupt,
                Observation::RuntimeError { intent_id, error } => r == (KernelEvent::RuntimeError {
                    intent_id,
                    error: error.message,
                }),
                _ => r == (KernelEvent::Tick { time: 0 }),
            },
    {
        match self {
            Observation::ToolCompleted { intent_id, result, .. } => KernelEvent::ToolCompleted {
                intent_id,
                tool: to_owned("unknown"),
                result,
            },
            Observation::LLMCompleted { intent_id, response } => KernelEvent::LLMCompleted {
                intent_id,
                response,
            },
            Observation::ApprovalCompleted { intent_id, outcome } => KernelEvent::ApprovalGiven {
                intent_id,
                outcome,
            },
            Observation::WorkerSpawned { .. } => KernelEvent::Tick { time: 0 },
            Observation::WorkerCompleted { worker_id, result, .. } => KernelEvent::WorkerCompleted {
                worker_id,
                result,
            },
            Observation::ResponseEmitted { .. } => KernelEvent::Tick { time: 0 },
            Observation::Halted { .. } => KernelEvent::Interrupt,
            Observation::RuntimeError { intent_id, error } => KernelEvent::RuntimeError {
                intent_id,
                error: error.message,
            },
            Observation::Timeout { .. } => KernelEvent::Tick { time: 0 },
            Observation::Cancelled { .. } => KernelEvent::Tick { time: 0 },
        }
    }
}

/// Why execution halted.
#[derive(Clone, Debug)]
pub enum HaltReason {
    Completed,
    UserRequest,
    StepLimitReached { max_steps: usize },
    Error(String),
    Interrupted,
}

/// Error of an execution.
#[derive(Clone, Debug)]
pub struct ExecutionError {
    pub message: String,
    pub code: Option<String>,
    pub retryable: bool,
}

impl ExecutionError {
    pub fn new(message: &str) -> (r: Self)
        ensures
            r.message@ == message@,
            r.code is None,
            !r.retryable,
    {
        ExecutionError { message: to_owned(message), code: None, retryable: false }
    }

    pub fn with_code(self, code: &str) -> (r: Self)
        ensures
            r.message == self.message,
            r.retryable == self.retryable,
            r.code matches Some(c) && c@ == code@,
    {
        ExecutionError { code: Some(to_owned(code)), ..self }
    }

    pub fn retryable(self) -> (r: Self)
        ensures
            r == (ExecutionError { retryable: true, ..self }),
    {
        ExecutionError { retryable: true, ..self }
    }
}

/// Counts of how a batch of intents went.
#[derive(Clone, Copy, Debug, PartialEq, Eq, Structural)]
pub struct ExecutionSummary {
    pub total_intents: usize,
    pub completed: usize,
    pub failed: usize,
    pub cancelled: usize,
    pub total_execution_time_ms: u64,
}

impl Default for ExecutionSummary {
    fn default() -> (r: Self)
        ensures
            r == (ExecutionSummary {
                total_intents: 0,
                completed: 0,
                failed: 0,
                cancelled: 0,
                total_execution_time_ms: 0,
            }),
    {
        ExecutionSummary {
            total_intents: 0,
            completed: 0,
            failed: 0,
            cancelled: 0,
            total_execution_time_ms: 0,
        }
    }
}

/// How an observation counts: 0 completed, 1 failed, 2 cancelled.
pub open spec fn outcome_class(o: Observation) -> int {
    match o {
        Observation::RuntimeError { .. } => 1,
        Observation::Timeout { .. } => 1,
        Observation::Cancelled { .. } => 2,
        _ => 0,
    }
}

/// The execution time an observation contributes.
pub open spec fn outcome_time(o: Observation) -> int {
    match o {
        Observation::ToolCompleted { execution_time_ms, .. } => execution_time_ms as int,
        _ => 0,
    }
}

/// Number of observations of class `c`.
pub open spec fn count_class(obs: Seq<Observation>, c: int) -> int
    decreases obs.len(),
{
    if obs.len() == 0 {
        0
    } else {
        count_class(obs.drop_last(), c) + if outcome_class(obs.last()) == c {
            1int
        } else {
            0int
        }
    }
}

/// Total execution time of the observations.
pub open spec fn total_time(obs: Seq<Observation>) -> int
    decreases obs.len(),
{
    if obs.len() == 0 {
        0
    } else {
        total_time(obs.drop_last()) + outcome_time(obs.last())
    }
}

proof fn lemma_counts_bounded(obs: Seq<Observation>)
    ensures
        0 <= count_class(obs, 0),
        0 <= count_class(obs, 1),
        0 <= count_class(obs, 2),
        count_class(obs, 0) + count_class(obs, 1) + count_class(obs, 2) == obs.len(),
        0 <= total_time(obs),
    decreases obs.len(),
{
    if obs.len() > 0 {
        lemma_counts_bounded(obs.drop_last());
    }
}

proof fn lemma_total_time_mono(obs: Seq<Observation>, i: int)
    requires
        0 <= i <= obs.len(),
    ensures
        total_time(obs.take(i)) <= total_time(obs),
    decreases obs.len() - i,
{
    if i < obs.len() {
        lemma_total_time_mono(obs, i + 1);
        assert(obs.take(i + 1).drop_last() =~= obs.take(i));
        lemma_counts_bounded(obs.take(i + 1));
    } else {
        assert(obs.take(i) =~= obs);
    }
}

impl ExecutionSummary {
    /// A summary for `total` intents, nothing counted yet.
    pub fn new(total: usize) -> (r: Self)
        ensures
            r == (ExecutionSummary {
                total_intents: total,
                completed: 0,
                failed: 0,
                cancelled: 0,
                total_execution_time_ms: 0,
            }),
    {
        ExecutionSummary {
            total_intents: total,
            completed: 0,
            failed: 0,
            cancelled: 0,
            total_execution_time_ms: 0,
        }
    }

    /// Counts one completed intent that took `time_ms`.
    pub fn record_completed(&mut self, time_ms: u64)
        requires
            old(self).completed < usize::MAX,
            old(self).total_execution_time_ms + time_ms <= u64::MAX,
        ensures
            *final(self) == (ExecutionSummary {
                completed: (old(self).completed + 1) as usize,
                total_execution_time_ms: (old(self).total_execution_time_ms + time_ms) as u64,
                ..*old(self)
            }),
    {
        self.completed = self.completed + 1;
        self.total_execution_time_ms = self.total_execution_time_ms + time_ms;
    }

    /// Counts one failed intent.
    pub fn record_failed(&mut self)
        requires
            old(self).failed < usize::MAX,
        ensures
            *final(self) == (ExecutionSummary { failed: (old(self).failed + 1) as usize, ..*old(self) }),
    {
        self.failed = self.failed + 1;
    }

    /// Counts one cancelled intent.
    pub fn record_cancelled(&mut self)
        requires
            old(self).cancelled < usize::MAX,
        ensures
            *final(self) == (ExecutionSummary {
                cancelled: (old(self).cancelled + 1) as usize,
                ..*old(self)
            }),
    {
        self.cancelled = self.cancelled + 1;
    }

    /// Whether every intent is accounted for.
    pub fn all_completed(&self) -> (r: bool)
        ensures
            r == (self.completed + self.failed + self.cancelled == self.total_intents),
    {
        (self.completed as u128) + (self.failed as u128) + (self.cancelled as u128)
            == (self.total_intents as u128)
    }

    /// Average execution time of the completed intents (0 when none).
    pub fn avg_execution_time_ms(&self) -> (r: u64)
        ensures
            self.completed == 0 ==> r == 0,
            self.completed > 0 ==> r == self.total_execution_time_ms / (self.completed as u64),
    {
        if self.completed == 0 {
            0
        } else {
            self.total_execution_time_ms / (self.completed as u64)
        }
    }

    /// The summary of a batch of observations: tool completions add their
    /// time, runtime errors and timeouts count as failed, cancellations as
    /// cancelled, everything else as completed.
    pub fn from_observations(observations: &Vec<Observation>) -> (r: Self)
        requires
            total_time(observations@) <= u64::MAX,
        ensures
            r.total_intents == observations@.len(),
            r.completed == count_class(observations@, 0),
            r.failed == count_class(observations@, 1),
            r.cancelled == count_class(observations@, 2),
            r.total_execution_time_ms == total_time(observations@),
    {
        let mut summary = ExecutionSummary::new(observations.len());
        let mut i: usize = 0;
        while i < observations.len()
            invariant
                i <= observations.len(),
                total_time(observations@) <= u64::MAX,
                summary.total_intents == observations@.len(),
                summary.completed == count_class(observations@.take(i as int), 0),
                summary.failed == count_class(observations@.take(i as int), 1),
                summary.cancelled == count_class(observations@.take(i as int), 2),
                summary.total_execution_time_ms == total_time(observations@.take(i as int)),
            decreases observations.len() - i,
        {
            let ghost pre = observations@.take(i as int);
            assert(observations@.take(i + 1).drop_last() =~= pre);
            assert(observations@.take(i + 1).last() == observations@[i as int]);
            proof {
                lemma_counts_bounded(observations@.take(i + 1));
                lemma_total_time_mono(observations@, i + 1);
            }
            match &observations[i] {
                Observation::ToolCompleted { execution_time_ms, .. } => {
                    summary.record_completed(*execution_time_ms);
                },
                Observation::RuntimeError { .. } => {
                    summary.record_failed();
                },
                Observation::Timeout { .. } => {
                    summary.record_failed();
                },
                Observation::Cancelled { .. } => {
                    summary.record_cancelled();
                },
                _ => {
                    summary.record_completed(0);
                },
            }
            i += 1;
        }
        assert(observations@.take(observations.len() as int) =~= observations@);
        summary
    }
}

/// A law of summaries: the summary of a batch of observations accounts for
/// every one of them, so `all_completed` holds of it.
pub proof fn lemma_summary_accounts_for_all(obs: Seq<Observation>)
    ensures
        count_class(obs, 0) + count_class(obs, 1) + count_class(obs, 2) == obs.len(),
{
    lemma_counts_bounded(obs);
}

} // verus!
