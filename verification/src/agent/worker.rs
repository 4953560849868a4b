//! Workers: what a worker is asked to do, and how its output becomes its
//! result.

use vstd::prelude::*;
use crate::agent::types::events::WorkerId;
use crate::text::{concat, decimal, decimal_string, join_seq, push_str, to_owned, views};

verus! {

/// The result a worker reports to its parent.
#[derive(Debug, Clone)]
pub struct WorkerResult {
    pub worker_id: WorkerId,
    pub output: String,
    pub success: bool,
}

/// What a worker is spawned with.
#[derive(Debug, Clone)]
pub struct WorkerSpawnParams {
    pub id: String,
    pub objective: String,
    pub parent_trace_id: String,
}

/// The system prompt of a worker with the given objective.
pub open spec fn worker_prompt_spec(objective: Seq<char>) -> Seq<char> {
    "You are a worker agent focused on completing a specific task.\n\nYour objective: "@
        + objective
        + "\n\nYou have access to the same tools as the main agent (shell, read_file, write_file, etc.).\nFocus on completing your assigned task efficiently.\nWhen done, respond with a summary of what you accomplished.\n\nBe concise and focused."@
}

/// Builds the system prompt of a worker.
pub fn build_worker_prompt(objective: &str) -> (r: String)
    ensures
        r@ == worker_prompt_spec(objective@),
{
    let mut s = to_owned(
        "You are a worker agent focused on completing a specific task.\n\nYour objective: ",
    );
    push_str(&mut s, objective);
    push_str(
        &mut s,
        "\n\nYou have access to the same tools as the main agent (shell, read_file, write_file, etc.).\nFocus on completing your assigned task efficiently.\nWhen done, respond with a summary of what you accomplished.\n\nBe concise and focused.",
    );
    s
}

/// An output event of a worker's session.
#[derive(Debug, Clone)]
pub enum WorkerOutputEvent {
    ResponseChunk { content: String },
    ResponseComplete,
    Halted,
    Error { message: String },
    /// Any other event, which the worker ignores.
    Other,
}

/// How a worker's session run ended.
#[derive(Debug, Clone)]
pub enum SessionRunOutcome {
    Finished { completed_successfully: bool, halt_reason: Option<String> },
    Failed { error: String },
    Panicked { error: String },
}

/// What a worker has produced so far: its output pieces and whether it
/// succeeded.
#[derive(Debug)]
pub struct WorkerCollector {
    pub pieces: Vec<String>,
    pub success: bool,
}

impl WorkerCollector {
    /// Nothing produced yet, not successful.
    pub fn new() -> (r: Self)
        ensures
            r.pieces@.len() == 0,
            !r.success,
    {
        WorkerCollector { pieces: Vec::new(), success: false }
    }

    /// Takes an output event; says whether the worker is done. Chunks are
    /// kept, a halt is a success, an error is kept as "Error: ..." and ends
    /// the worker; other events change nothing.
    pub fn on_output(&mut self, event: WorkerOutputEvent) -> (done: bool)
        ensures
            match event {
                WorkerOutputEvent::ResponseChunk { content } => !done && views(final(self).pieces@)
                    == views(old(self).pieces@).push(content@) && final(self).success
                    == old(self).success,
                WorkerOutputEvent::Halted => done && views(final(self).pieces@) == views(
                    old(self).pieces@,
                ) && final(self).success,
                WorkerOutputEvent::Error { message } => done && views(final(self).pieces@) == views(
                    old(self).pieces@,
                ).push("Error: "@ + message@) && final(self).success == old(self).success,
                _ => !done && views(final(self).pieces@) == views(old(self).pieces@)
                    && final(self).success == old(self).success,
            },
    {
        let ghost before = views(self.pieces@);
        match event {
            WorkerOutputEvent::ResponseChunk { content } => {
                self.pieces.push(content);
                assert(views(self.pieces@) =~= before.push(content@));
                false
            },
            WorkerOutputEvent::Halted => {
                self.success = true;
                true
            },
            WorkerOutputEvent::Error { message } => {
                let m = concat("Error: ", message.as_str());
                self.pieces.push(m);
                assert(views(self.pieces@) =~= before.push("Error: "@ + message@));
                true
            },
            _ => false,
        }
    }

    /// Takes the end of the session run, after which the worker is done:
    /// success is what the run says (false when it failed), and a halt
    /// reason or failure is kept.
    pub fn on_run_end(&mut self, outcome: SessionRunOutcome)
        ensures
            match outcome {
                SessionRunOutcome::Finished { completed_successfully, halt_reason } => {
                    &&& final(self).success == completed_successfully
                    &&& views(final(self).pieces@) == match halt_reason {
                        Some(reason) => views(old(self).pieces@).push("Halted: "@ + reason@),
                        None => views(old(self).pieces@),
                    }
                },
                SessionRunOutcome::Failed { error } => final(self).success == old(self).success
                    && views(final(self).pieces@) == views(old(self).pieces@).push(
                    "Session error: "@ + error@,
                ),
                SessionRunOutcome::Panicked { error } => final(self).success == old(self).success
                    && views(final(self).pieces@) == views(old(self).pieces@).push(
                    "Worker task panicked: "@ + error@,
                ),
            },
    {
        let ghost before = views(self.pieces@);
        match outcome {
            SessionRunOutcome::Finished { completed_successfully, halt_reason } => {
                self.success = completed_successfully;
                match halt_reason {
                    Some(reason) => {
                        let m = concat("Halted: ", reason.as_str());
                        self.pieces.push(m);
                        assert(views(self.pieces@) =~= before.push("Halted: "@ + reason@));
                    },
                    None => {},
                }
            },
            SessionRunOutcome::Failed { error } => {
                let m = concat("Session error: ", error.as_str());
                self.pieces.push(m);
                assert(views(self.pieces@) =~= before.push("Session error: "@ + error@));
            },
            SessionRunOutcome::Panicked { error } => {
                let m = concat("Worker task panicked: ", error.as_str());
                self.pieces.push(m);
                assert(views(self.pieces@) =~= before.push("Worker task panicked: "@ + error@));
            },
        }
    }

    /// The worker's result: its pieces joined without separator.
    pub fn finish(self, worker_id: WorkerId) -> (r: WorkerResult)
        ensures
            r.worker_id == worker_id,
            r.output@ == join_seq(views(self.pieces@), ""@),
            r.success == self.success,
    {
        let output = crate::text::join(&self.pieces, "");
        WorkerResult { worker_id, output, success: self.success }
    }
}

/// The result of a worker whose session could not be created.
pub fn session_failure_result(worker_id: WorkerId, error: &str) -> (r: WorkerResult)
    ensures
        r.worker_id == worker_id,
        r.output@ == "Failed to create worker session: "@ + error@,
        !r.success,
{
    WorkerResult {
        worker_id,
        output: concat("Failed to create worker session: ", error),
        success: false,
    }
}

/// The result of a simple worker task: its output on success, its error
/// otherwise.
pub fn simple_worker_result(worker_id: WorkerId, result: Result<String, String>) -> (r:
    WorkerResult)
    ensures
        r.worker_id == worker_id,
        match result {
            Ok(o) => r.output@ == o@ && r.success,
            Err(e) => r.output@ == e@ && !r.success,
        },
{
    match result {
        Ok(output) => WorkerResult { worker_id, output, success: true },
        Err(e) => WorkerResult { worker_id, output: e, success: false },
    }
}

/// The error of waiting on a worker whose result channel closed.
pub fn channel_closed_error(error: &str) -> (r: String)
    ensures
        r@ == "Worker channel closed: "@ + error@,
{
    concat("Worker channel closed: ", error)
}

/// The spawn parameters a capability derives from the active profile's name
/// length: the worker is numbered one past it.
pub fn capability_spawn_params(active_profile_len: u64, objective: String) -> (r: (
    WorkerId,
    WorkerSpawnParams,
))
    requires
        active_profile_len < u64::MAX,
    ensures
        r.0.0 == active_profile_len + 1,
        r.1.id@ == decimal((active_profile_len + 1) as nat),
        r.1.objective@ == objective@,
        r.1.parent_trace_id@ == "parent"@,
{
    let n = active_profile_len + 1;
    (
        WorkerId(n),
        WorkerSpawnParams {
            id: decimal_string(n),
            objective,
            parent_trace_id: to_owned("parent"),
        },
    )
}

} // verus!
