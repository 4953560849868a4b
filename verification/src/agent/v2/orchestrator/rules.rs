//! Decisions of the orchestrator's agent loops: how job updates become
//! observations, when a loop stops, and what the agent is told after an
//! approval, a tool run or a malformed reply. The loops themselves (locks,
//! channels, timers, tool execution) run outside this module.

use vstd::prelude::*;
use crate::agent::v2::orchestrator::types::ChatSessionMessage;
use crate::config::endpoints::Message;
use crate::agent::v2::jobs::{
    jobs_view, newest_first, running_jobs, BackgroundJob, JobStatus, JobTable, JobView,
};
use crate::text::{
    byte_len, char_index_at_byte, chars_of, concat, contains_seq, decimal, is_boundary, join,
    join_seq, lemma_char_pos_unique, push_decimal, push_str, slice_chars, str_contains, str_eq,
    string_of, to_owned, views,
};

verus! {

/// The observation given to the agent for a finished background job
/// (`None` while it runs, and for a cancelled job).
pub open spec fn worker_job_observation_spec(
    description: Seq<char>,
    status: JobStatus,
    result_text: Option<Seq<char>>,
    scratchpad: Seq<char>,
    error: Option<Seq<char>>,
) -> Option<Seq<char>> {
    match status {
        JobStatus::Completed => {
            let res = match result_text {
                Some(t) => t,
                None => "Job completed successfully"@,
            };
            let section = if scratchpad.len() == 0 {
                Seq::empty()
            } else {
                "\n\nWorker Coordination Log:\n```\n"@ + scratchpad + "\n```"@
            };
            Some(
                "✅ WORKER TASK COMPLETED: '"@ + description + "' finished successfully.\nResult: "@
                    + res
                    + "\n\nThe delegated task is now COMPLETE. Report the result to the user and ask if they need anything else."@
                    + section,
            )
        },
        JobStatus::Failed => {
            let e = match error {
                Some(t) => t,
                None => "Unknown error"@,
            };
            Some(
                "❌ WORKER TASK FAILED: '"@ + description + "' failed with error: "@ + e
                    + "\n\nThe delegated task failed. Report the failure to the user."@,
            )
        },
        _ => None,
    }
}

/// The observation for a finished background job: its result (the worker id
/// and result fields, already extracted) and coordination log when it
/// completed, its error when it failed.
pub fn worker_job_observation(
    description: &str,
    status: JobStatus,
    result_text: Option<String>,
    scratchpad: &str,
    error: Option<String>,
) -> (r: Option<String>)
    ensures
        match r {
            Some(s) => worker_job_observation_spec(
                description@,
                status,
                match result_text {
                    Some(t) => Some(t@),
                    None => None,
                },
                scratchpad@,
                match error {
                    Some(t) => Some(t@),
                    None => None,
                },
            ) == Some(s@),
            None => worker_job_observation_spec(
                description@,
                status,
                match result_text {
                    Some(t) => Some(t@),
                    None => None,
                },
                scratchpad@,
                match error {
                    Some(t) => Some(t@),
                    None => None,
                },
            ) is None,
        },
{
    match status {
        JobStatus::Completed => {
            let res = match result_text {
                Some(t) => t,
                None => to_owned("Job completed successfully"),
            };
            let mut s = concat("✅ WORKER TASK COMPLETED: '", description);
            push_str(&mut s, "' finished successfully.\nResult: ");
            push_str(&mut s, res.as_str());
            push_str(
                &mut s,
                "\n\nThe delegated task is now COMPLETE. Report the result to the user and ask if they need anything else.",
            );
            if !scratchpad.is_empty() {
                push_str(&mut s, "\n\nWorker Coordination Log:\n```\n");
                push_str(&mut s, scratchpad);
                push_str(&mut s, "\n```");
            }
            Some(s)
        },
        JobStatus::Failed => {
            let e = match error {
                Some(t) => t,
                None => to_owned("Unknown error"),
            };
            let mut s = concat("❌ WORKER TASK FAILED: '", description);
            push_str(&mut s, "' failed with error: ");
            push_str(&mut s, e.as_str());
            push_str(&mut s, "\n\nThe delegated task failed. Report the failure to the user.");
            Some(s)
        },
        _ => None,
    }
}

/// The pending observation after job updates: their texts joined by newlines,
/// after what was pending (one newline between).
pub open spec fn merged_observation(last: Option<Seq<char>>, jobs: Seq<Seq<char>>) -> Option<
    Seq<char>,
> {
    if jobs.len() == 0 {
        last
    } else {
        let t = join_seq(jobs, "\n"@);
        match last {
            Some(e) => Some(e + "\n"@ + t),
            None => Some(t),
        }
    }
}

/// Adds job observations to the pending observation.
pub fn merge_job_observations(last: Option<String>, jobs: &Vec<String>) -> (r: Option<String>)
    ensures
        match r {
            Some(s) => merged_observation(
                match last {
                    Some(e) => Some(e@),
                    None => None,
                },
                views(jobs@),
            ) == Some(s@),
            None => merged_observation(
                match last {
                    Some(e) => Some(e@),
                    None => None,
                },
                views(jobs@),
            ) is None,
        },
{
    if jobs.len() == 0 {
        return last;
    }
    let t = join(jobs, "\n");
    match last {
        Some(e) => {
            let mut s = e;
            push_str(&mut s, "\n");
            push_str(&mut s, t.as_str());
            Some(s)
        },
        None => Some(t),
    }
}

/// The reply once the classic loop exceeds its driver limit.
pub fn driver_limit_message(max_driver_loops: usize) -> (r: String)
    ensures
        r@ == "Error: Driver-level safety limit reached ("@ + decimal(max_driver_loops as nat)
            + " loops). Potential infinite loop detected."@,
{
    let mut s = to_owned("Error: Driver-level safety limit reached (");
    push_decimal(&mut s, max_driver_loops as u64);
    push_str(&mut s, " loops). Potential infinite loop detected.");
    s
}

/// The reply once the v2 loop exceeds its driver limit or the agent's step
/// limit; `None` while within both.
pub fn step_limit_message(loop_iteration: usize, max_driver_loops: usize, max_steps: usize) -> (r:
    Option<String>)
    ensures
        (loop_iteration > max_driver_loops || loop_iteration > max_steps) <==> r is Some,
        r matches Some(m) ==> m@ == "Error: Maximum step limit reached (loop: "@ + decimal(
            loop_iteration as nat,
        ) + ", steps: "@ + decimal(max_steps as nat) + ")."@,
{
    if loop_iteration > max_driver_loops || loop_iteration > max_steps {
        let mut s = to_owned("Error: Maximum step limit reached (loop: ");
        push_decimal(&mut s, loop_iteration as u64);
        push_str(&mut s, ", steps: ");
        push_decimal(&mut s, max_steps as u64);
        push_str(&mut s, ").");
        Some(s)
    } else {
        None
    }
}

/// What the v2 loop does before a step while workers run.
#[derive(Debug)]
pub enum SmartWait {
    /// Take a step now (the wait counter starts over).
    Proceed,
    /// Publish this status, sleep, and look again.
    Wait { iterations: usize, status: String },
    /// Stop waiting: reply with this message and return.
    GiveUp { iterations: usize, message: String },
}

/// Smart wait: after a step, with nothing to observe and workers running, the
/// loop waits (counting) instead of stepping, up to the configured limit.
pub fn smart_wait_step(
    has_executed_step: bool,
    has_observation: bool,
    active_workers: usize,
    has_new_observations: bool,
    iterations: usize,
    max_iterations: usize,
) -> (r: SmartWait)
    requires
        iterations < usize::MAX,
    ensures
        !(has_executed_step && !has_observation && active_workers > 0 && !has_new_observations)
            ==> r is Proceed,
        (has_executed_step && !has_observation && active_workers > 0 && !has_new_observations)
            ==> {
            let n = iterations + 1;
            if n >= max_iterations {
                r matches SmartWait::GiveUp { iterations: i, message } && i == n && message@
                    == "⏳ "@ + decimal(active_workers as nat)
                    + " worker(s) still running in background. You can send new messages while waiting."@
            } else {
                r matches SmartWait::Wait { iterations: i, status } && i == n && status@
                    == "Smart waiting for "@ + decimal(active_workers as nat) + " workers ("@
                    + decimal(n as nat) + "/"@ + decimal(max_iterations as nat) + ")"@
            }
        },
{
    if has_executed_step && !has_observation && active_workers > 0 && !has_new_observations {
        let n = iterations + 1;
        if n >= max_iterations {
            let mut m = to_owned("⏳ ");
            push_decimal(&mut m, active_workers as u64);
            push_str(
                &mut m,
                " worker(s) still running in background. You can send new messages while waiting.",
            );
            SmartWait::GiveUp { iterations: n, message: m }
        } else {
            let mut st = to_owned("Smart waiting for ");
            push_decimal(&mut st, active_workers as u64);
            push_str(&mut st, " workers (");
            push_decimal(&mut st, n as u64);
            push_str(&mut st, "/");
            push_decimal(&mut st, max_iterations as u64);
            push_str(&mut st, ")");
            SmartWait::Wait { iterations: n, status: st }
        }
    } else {
        SmartWait::Proceed
    }
}

/// The observation when a tool was not approved: `Some(true)` approved (no
/// observation), `Some(false)` rejected, `None` the approval channel closed.
pub fn approval_observation(tool: &str, answer: Option<bool>) -> (r: Option<String>)
    ensures
        match answer {
            Some(true) => r is None,
            Some(false) => r matches Some(m) && m@ == "❌ Tool '"@ + tool@
                + "' was rejected by user"@,
            None => r matches Some(m) && m@ == "❌ Approval channel closed for tool '"@ + tool@
                + "'"@,
        },
{
    match answer {
        Some(true) => None,
        Some(false) => {
            let mut m = concat("❌ Tool '", tool);
            push_str(&mut m, "' was rejected by user");
            Some(m)
        },
        None => {
            let mut m = concat("❌ Approval channel closed for tool '", tool);
            push_str(&mut m, "'");
            Some(m)
        },
    }
}

/// The observation when approval is needed but no channel can give it.
pub fn no_approval_channel_observation(tool: &str) -> (r: String)
    ensures
        r@ == "❌ Approval required for tool '"@ + tool@ + "' but no approval channel available"@,
{
    let mut m = concat("❌ Approval required for tool '", tool);
    push_str(&mut m, "' but no approval channel available");
    m
}

/// The observation after a terminal tool ran.
pub fn terminal_observation(output: &str) -> (r: String)
    ensures
        r@ == "--- TERMINAL CONTEXT ---\nCMD_OUTPUT:\n"@ + output@,
{
    concat("--- TERMINAL CONTEXT ---\nCMD_OUTPUT:\n", output)
}

/// What a failed tool run leads to.
#[derive(Debug)]
pub enum ToolFailure {
    /// The command was refused by the safety checks: reply with this message and stop.
    Blocked { message: String },
    /// Tell the agent about the error and go on.
    Observe { observation: String },
}

/// Classifies a failed tool run: errors about the allow-list or dangerous
/// commands stop the loop, others become the next observation.
pub fn tool_failure(error: &str) -> (r: ToolFailure)
    ensures
        (contains_seq(error@, "allowlist"@) || contains_seq(error@, "dangerous"@)) ==> (
        r matches ToolFailure::Blocked { message } && message@ == "⛔ Terminal command blocked: "@
            + error@),
        !(contains_seq(error@, "allowlist"@) || contains_seq(error@, "dangerous"@)) ==> (
        r matches ToolFailure::Observe { observation } && observation@ == "Error: "@ + error@),
{
    if str_contains(error, "allowlist") || str_contains(error, "dangerous") {
        ToolFailure::Blocked { message: concat("⛔ Terminal command blocked: ", error) }
    } else {
        ToolFailure::Observe { observation: concat("Error: ", error) }
    }
}

/// What a malformed reply leads to in the classic loop.
#[derive(Debug)]
pub enum MalformedStep {
    /// Retries are used up: publish and reply with this message, then stop.
    Fatal { message: String },
    /// Publish the status and give the agent the format reminder.
    Retry { status: String, nudge: String },
}

/// The classic loop's handling of a malformed reply (`retry_count` already
/// counts this one).
pub fn malformed_retry(retry_count: usize, max_retries: usize, error: &str) -> (r: MalformedStep)
    ensures
        retry_count > max_retries ==> (r matches MalformedStep::Fatal { message } && message@
            == "Fatal: Failed to parse agent response after "@ + decimal(max_retries as nat)
            + " attempts. Last error: "@ + error@),
        retry_count <= max_retries ==> (r matches MalformedStep::Retry { status, nudge } && status@
            == "⚠️ "@ + error@ + " Retrying ("@ + decimal(retry_count as nat) + "/"@ + decimal(
            max_retries as nat,
        ) + ")"@ && nudge@ == error@
            + "\n\nIMPORTANT: You must follow the ReAct format exactly:\nThought: <your reasoning>\nAction: <tool name>\nAction Input: <tool arguments>\n\nDo not include any other text after Action Input."@),
{
    if retry_count > max_retries {
        let mut m = to_owned("Fatal: Failed to parse agent response after ");
        push_decimal(&mut m, max_retries as u64);
        push_str(&mut m, " attempts. Last error: ");
        push_str(&mut m, error);
        MalformedStep::Fatal { message: m }
    } else {
        let mut st = concat("⚠️ ", error);
        push_str(&mut st, " Retrying (");
        push_decimal(&mut st, retry_count as u64);
        push_str(&mut st, "/");
        push_decimal(&mut st, max_retries as u64);
        push_str(&mut st, ")");
        let nudge = concat(
            error,
            "\n\nIMPORTANT: You must follow the ReAct format exactly:\nThought: <your reasoning>\nAction: <tool name>\nAction Input: <tool arguments>\n\nDo not include any other text after Action Input.",
        );
        MalformedStep::Retry { status: st, nudge }
    }
}

/// The v2 loops' status and observation after a malformed reply.
pub fn malformed_observation(error: &str) -> (r: (String, String))
    ensures
        r.0@ == "⚠️ Malformed action: "@ + error@,
        r.1@ == "Error: Malformed action. Please use proper format.\nDetails: "@ + error@,
{
    (
        concat("⚠️ Malformed action: ", error),
        concat("Error: Malformed action. Please use proper format.\nDetails: ", error),
    )
}

/// The status and reply when a worker stalls after repeated tool failures.
pub fn stall_messages(reason: &str, tool_failures: usize) -> (r: (String, String))
    ensures
        r.0@ == "Worker stalled: "@ + reason@,
        r.1@ == "Worker stalled after "@ + decimal(tool_failures as nat)
            + " consecutive tool failures: "@ + reason@
            + ". Please check the task and retry if needed."@,
{
    let st = concat("Worker stalled: ", reason);
    let mut m = to_owned("Worker stalled after ");
    push_decimal(&mut m, tool_failures as u64);
    push_str(&mut m, " consecutive tool failures: ");
    push_str(&mut m, reason);
    push_str(&mut m, ". Please check the task and retry if needed.");
    (st, m)
}

/// The status published for an error, which the loop then returns
/// (`handle_error`).
pub fn handle_error(error: &str) -> (r: (String, String))
    ensures
        r.0@ == "Error: "@ + error@,
        r.1@ == error@,
{
    (concat("Error: ", error), to_owned(error))
}

/// The observation when a delegated worker completes while the chat is idle.
pub fn worker_completed_observation(job_id: &str, result: &str) -> (r: String)
    ensures
        r@ == "✅ WORKER TASK COMPLETED: Worker "@ + job_id@ + " finished successfully.\nResult: "@
            + result@
            + "\n\nThe delegated task is now COMPLETE. Report the result to the user and ask if they need anything else."@,
{
    let mut s = concat("✅ WORKER TASK COMPLETED: Worker ", job_id);
    push_str(&mut s, " finished successfully.\nResult: ");
    push_str(&mut s, result);
    push_str(
        &mut s,
        "\n\nThe delegated task is now COMPLETE. Report the result to the user and ask if they need anything else.",
    );
    s
}

/// The first `n` bytes of `s`, where `n` falls between characters.
pub open spec fn byte_prefix_seq(s: Seq<char>, n: int) -> Seq<char> {
    s.take(crate::text::char_pos_of_byte(s, n))
}

/// The first `n` bytes of a character vector (a boundary).
fn byte_prefix(v: &Vec<char>, n: usize) -> (r: String)
    requires
        is_boundary(v@, n as int),
    ensures
        r@ == byte_prefix_seq(v@, n as int),
{
    let k = char_index_at_byte(v, n);
    let w = slice_chars(v, 0, k);
    assert(w@ =~= v@.take(k as int));
    string_of(&w)
}

/// The job-log entry for a tool call: the tool and its arguments, cut to 47
/// bytes and `...` when they are longer than 50 bytes.
pub fn action_description(tool: &str, args: &str) -> (r: String)
    requires
        byte_len(args@) <= usize::MAX,
        byte_len(args@) > 50 ==> is_boundary(args@, 47),
    ensures
        byte_len(args@) > 50 ==> r@ == tool@ + ": "@ + byte_prefix_seq(args@, 47) + "..."@,
        byte_len(args@) <= 50 ==> r@ == tool@ + ": "@ + args@,
{
    let v = chars_of(args);
    let n = crate::text::chars_byte_len(&v);
    let mut s = concat(tool, ": ");
    if n > 50 {
        let p = byte_prefix(&v, 47);
        push_str(&mut s, p.as_str());
        push_str(&mut s, "...");
    } else {
        push_str(&mut s, args);
    }
    s
}

/// The job-log entry for a failed tool: the tool and the error cut to 50 bytes.
pub fn failure_description(tool: &str, error: &str) -> (r: String)
    requires
        byte_len(error@) <= usize::MAX,
        byte_len(error@) > 50 ==> is_boundary(error@, 50),
    ensures
        byte_len(error@) > 50 ==> r@ == tool@ + " failed: "@ + byte_prefix_seq(error@, 50),
        byte_len(error@) <= 50 ==> r@ == tool@ + " failed: "@ + error@,
{
    let v = chars_of(error);
    let n = crate::text::chars_byte_len(&v);
    let mut s = concat(tool, " failed: ");
    if n > 50 {
        let p = byte_prefix(&v, 50);
        push_str(&mut s, p.as_str());
    } else {
        push_str(&mut s, error);
    }
    s
}

/// A job is finished, successfully or not.
pub open spec fn is_done_job(j: JobView) -> bool {
    j.status == JobStatus::Completed || j.status == JobStatus::Failed
}

/// "  • id: description\n" for each job.
pub open spec fn active_lines(jobs: Seq<JobView>) -> Seq<char>
    decreases jobs.len(),
{
    if jobs.len() == 0 {
        Seq::empty()
    } else {
        active_lines(jobs.drop_last()) + "  • "@ + jobs.last().id + ": "@ + jobs.last().description
            + "\n"@
    }
}

/// The mark of a finished job.
pub open spec fn done_icon(j: JobView) -> Seq<char> {
    if j.status == JobStatus::Completed {
        "✓"@
    } else if j.status == JobStatus::Failed {
        "✗"@
    } else {
        "?"@
    }
}

/// "  <mark> id: description\n" for each job.
pub open spec fn done_lines(jobs: Seq<JobView>) -> Seq<char>
    decreases jobs.len(),
{
    if jobs.len() == 0 {
        Seq::empty()
    } else {
        done_lines(jobs.drop_last()) + "  "@ + done_icon(jobs.last()) + " "@ + jobs.last().id
            + ": "@ + jobs.last().description + "\n"@
    }
}

/// The running-jobs part of the status block: up to five jobs and a count
/// of the rest; nothing without running jobs.
pub open spec fn active_part(active: Seq<JobView>) -> Seq<char> {
    if active.len() == 0 {
        Seq::empty()
    } else {
        "Active Jobs ("@ + decimal(active.len()) + "):\n"@ + active_lines(
            if active.len() > 5 {
                active.take(5)
            } else {
                active
            },
        ) + if active.len() > 5 {
            "  ... and "@ + decimal((active.len() - 5) as nat) + " more\n"@
        } else {
            Seq::empty()
        }
    }
}

/// The finished-jobs part of the status block: up to three jobs from the end
/// of the list, after a blank line when the block already has text.
pub open spec fn done_part(done: Seq<JobView>, after_text: bool) -> Seq<char> {
    let shown = done.reverse();
    if done.len() == 0 {
        Seq::empty()
    } else {
        (if after_text {
            "\n"@
        } else {
            Seq::empty()
        }) + "Recently Completed ("@ + decimal(
            if done.len() > 3 {
                3nat
            } else {
                done.len()
            },
        ) + "):\n"@ + done_lines(
            if shown.len() > 3 {
                shown.take(3)
            } else {
                shown
            },
        )
    }
}

/// The job status block: up to five running jobs (with a count of the
/// rest), then up to three finished jobs taken from the end of the
/// newest-first list; nothing when there is neither.
pub open spec fn job_status_spec(jobs: Seq<JobView>) -> Seq<char> {
    let a = active_part(running_jobs(jobs));
    a + done_part(newest_first(jobs).filter(|j: JobView| is_done_job(j)), a.len() > 0)
}

fn finished_jobs(all: &Vec<BackgroundJob>) -> (r: Vec<BackgroundJob>)
    ensures
        jobs_view(r@) == jobs_view(all@).filter(|j: JobView| is_done_job(j)),
{
    let mut out: Vec<BackgroundJob> = Vec::new();
    let mut i: usize = 0;
    while i < all.len()
        invariant
            i <= all.len(),
            jobs_view(out@) == jobs_view(all@).take(i as int).filter(|j: JobView| is_done_job(j)),
        decreases all.len() - i,
    {
        proof {
            reveal(Seq::filter);
            assert(jobs_view(all@).take(i + 1).drop_last() =~= jobs_view(all@).take(i as int));
        }
        if all[i].status == JobStatus::Completed || all[i].status == JobStatus::Failed {
            let c = all[i].clone();
            let ghost before = out@;
            out.push(c);
            assert(jobs_view(out@) =~= jobs_view(before).push(c@));
        }
        i += 1;
    }
    assert(jobs_view(all@).take(all.len() as int) =~= jobs_view(all@));
    out
}

fn push_active_part(status: &mut String, active: &Vec<BackgroundJob>)
    ensures
        final(status)@ == old(status)@ + active_part(jobs_view(active@)),
{
    let ghost av = jobs_view(active@);
    if active.len() == 0 {
        assert(old(status)@ + Seq::<char>::empty() =~= old(status)@);
        return;
    }
    push_str(status, "Active Jobs (");
    push_decimal(status, active.len() as u64);
    push_str(status, "):\n");
    let n: usize = if active.len() > 5 {
        5
    } else {
        active.len()
    };
    let ghost head = status@;
    let mut i: usize = 0;
    while i < n
        invariant
            i <= n <= active.len(),
            av == jobs_view(active@),
            status@ == head + active_lines(av.take(i as int)),
        decreases n - i,
    {
        let ghost t = av.take(i + 1);
        assert(t.drop_last() =~= av.take(i as int));
        assert(t.last() == active@[i as int]@);
        push_str(status, "  • ");
        push_str(status, active[i].id.as_str());
        push_str(status, ": ");
        push_str(status, active[i].description.as_str());
        push_str(status, "\n");
        assert(status@ =~= head + active_lines(t));
        i += 1;
    }
    if active.len() <= 5 {
        assert(av.take(n as int) =~= av);
    }
    if active.len() > 5 {
        push_str(status, "  ... and ");
        push_decimal(status, (active.len() - 5) as u64);
        push_str(status, " more\n");
    }
    assert(status@ =~= old(status)@ + active_part(av));
}

fn push_done_part(status: &mut String, done: &Vec<BackgroundJob>, after_text: bool)
    ensures
        final(status)@ == old(status)@ + done_part(jobs_view(done@), after_text),
{
    let ghost dv = jobs_view(done@);
    if done.len() == 0 {
        assert(old(status)@ + Seq::<char>::empty() =~= old(status)@);
        return;
    }
    if after_text {
        push_str(status, "\n");
    }
    push_str(status, "Recently Completed (");
    let shown_n: usize = if done.len() > 3 {
        3
    } else {
        done.len()
    };
    push_decimal(status, shown_n as u64);
    push_str(status, "):\n");
    let ghost head = status@;
    let ghost rv = dv.reverse();
    let mut i: usize = 0;
    while i < shown_n
        invariant
            i <= shown_n <= done.len(),
            dv == jobs_view(done@),
            rv == dv.reverse(),
            status@ == head + done_lines(rv.take(i as int)),
        decreases shown_n - i,
    {
        let idx = done.len() - 1 - i;
        let ghost t = rv.take(i + 1);
        assert(t.drop_last() =~= rv.take(i as int));
        assert(t.last() == done@[idx as int]@);
        push_str(status, "  ");
        if done[idx].status == JobStatus::Completed {
            push_str(status, "✓");
        } else if done[idx].status == JobStatus::Failed {
            push_str(status, "✗");
        } else {
            push_str(status, "?");
        }
        push_str(status, " ");
        push_str(status, done[idx].id.as_str());
        push_str(status, ": ");
        push_str(status, done[idx].description.as_str());
        push_str(status, "\n");
        assert(status@ =~= head + done_lines(t));
        i += 1;
    }
    if done.len() <= 3 {
        assert(rv.take(shown_n as int) =~= rv);
    }
    assert(status@ =~= old(status)@ + done_part(dv, after_text));
}

/// The status of the background jobs, for the agent's context.
pub fn format_job_status(table: &JobTable) -> (r: String)
    ensures
        r@ == job_status_spec(table@),
{
    let active = table.list_active_jobs();
    let all = table.list_all_jobs();
    let done = finished_jobs(&all);
    let mut status = String::new();
    push_active_part(&mut status, &active);
    let after_text = !status.as_str().is_empty();
    push_done_part(&mut status, &done, after_text);
    assert(status@ =~= job_status_spec(table@));
    status
}

/// The notice for a worker that has been quiet too long: its description,
/// the first 8 bytes of its id, the timeout and its last activity (already
/// formatted as a time of day).
pub fn stuck_job_notification(
    job_id: &str,
    description: &str,
    timeout_secs: u64,
    last_activity: &str,
) -> (r: String)
    requires
        byte_len(job_id@) <= usize::MAX,
        byte_len(job_id@) > 8 ==> is_boundary(job_id@, 8),
    ensures
        ({
            let short = if byte_len(job_id@) > 8 {
                byte_prefix_seq(job_id@, 8)
            } else {
                job_id@
            };
            r@ == "STUCK JOB: Worker '"@ + description@ + "' (ID: "@ + short + ") inactive "@
                + decimal(timeout_secs as nat) + "s+. Last activity: "@ + last_activity@
                + ". Cancel with /jobs cancel "@ + short
        }),
{
    let v = chars_of(job_id);
    let n = crate::text::chars_byte_len(&v);
    let short = if n > 8 {
        byte_prefix(&v, 8)
    } else {
        to_owned(job_id)
    };
    let mut s = concat("STUCK JOB: Worker '", description);
    push_str(&mut s, "' (ID: ");
    push_str(&mut s, short.as_str());
    push_str(&mut s, ") inactive ");
    push_decimal(&mut s, timeout_secs);
    push_str(&mut s, "s+. Last activity: ");
    push_str(&mut s, last_activity);
    push_str(&mut s, ". Cancel with /jobs cancel ");
    push_str(&mut s, short.as_str());
    s
}

/// The error of a terminal command that failed to run.
pub fn terminal_error(error: &str) -> (r: String)
    ensures
        r@ == "Error executing command: "@ + error@,
{
    concat("Error executing command: ", error)
}

/// The error when no terminal can run commands.
pub fn no_terminal_error() -> (r: String)
    ensures
        r@ == "Error: Terminal delegate not available"@,
{
    to_owned("Error: Terminal delegate not available")
}

/// The error for a tool that is not registered.
pub fn unknown_tool_error(tool: &str) -> (r: String)
    ensures
        r@ == "Error: Tool '"@ + tool@ + "' not found."@,
{
    let mut s = concat("Error: Tool '", tool);
    push_str(&mut s, "' not found.");
    s
}

/// The error when neither a registry nor a tool map can run tools.
pub fn no_tool_mechanism_error() -> (r: String)
    ensures
        r@ == "No tool execution mechanism available"@,
{
    to_owned("No tool execution mechanism available")
}

/// The approval id shown for a terminal tool: the tool and a time in
/// milliseconds.
pub fn approval_id(tool: &str, millis: u64) -> (r: String)
    ensures
        r@ == tool@ + "-"@ + decimal(millis as nat),
{
    let mut s = concat(tool, "-");
    push_decimal(&mut s, millis);
    s
}

/// The most workers a single user request may spawn sets of.
pub const MAX_DELEGATE_PER_REQUEST: usize = 10;

/// The counters of a chat session between user messages.
#[derive(Debug, Clone, Copy, PartialEq, Eq, Structural)]
pub struct ChatSessionState {
    /// Agent steps taken in the session.
    pub step_count: usize,
    /// Pending decisions confirmed without the user in a row.
    pub auto_confirm_count: usize,
    /// Delegations since the last user message.
    pub delegate_call_count: usize,
}

/// What follows a text reply of the agent in a chat session.
#[derive(Debug, Clone)]
pub enum ReplyFollowUp {
    /// Confirm the agent's pending decision and step again with this
    /// observation.
    AutoConfirm { observation: String },
    /// Too many confirmations in a row: tell the user, drop the pending
    /// decision, and wait.
    ConfirmLimit { message: String },
    /// Wait for the user or a worker.
    Wait,
}

/// The outcome of a delegation request.
#[derive(Debug, Clone)]
pub enum DelegateGate {
    /// The delegation may run.
    Allowed,
    /// Too many delegations for this request: tell the user and the agent.
    Blocked { response: String, observation: String },
}

impl ChatSessionState {
    /// A fresh session.
    pub fn new() -> (r: Self)
        ensures
            r == (ChatSessionState { step_count: 0, auto_confirm_count: 0, delegate_call_count: 0 }),
    {
        ChatSessionState { step_count: 0, auto_confirm_count: 0, delegate_call_count: 0 }
    }

    /// A new user message resets the per-request counters.
    pub fn on_user_message(&mut self)
        ensures
            *final(self) == (ChatSessionState {
                auto_confirm_count: 0,
                delegate_call_count: 0,
                ..*old(self)
            }),
    {
        self.auto_confirm_count = 0;
        self.delegate_call_count = 0;
    }

    /// Takes a message from the session's queue: a user message joins the
    /// history and resets the per-request counters, a worker event becomes the
    /// pending observation, and an interrupt ends the session (the result is
    /// whether the session goes on).
    pub fn receive(
        &mut self,
        message: ChatSessionMessage,
        history: &mut Vec<Message>,
        last_observation: &mut Option<String>,
    ) -> (r: bool)
        ensures
            match message {
                ChatSessionMessage::UserMessage(m) => {
                    &&& r
                    &&& final(history)@ == old(history)@.push(m)
                    &&& *final(last_observation) == *old(last_observation)
                    &&& *final(self) == (ChatSessionState {
                        auto_confirm_count: 0,
                        delegate_call_count: 0,
                        ..*old(self)
                    })
                },
                ChatSessionMessage::WorkerEvent(e) => {
                    &&& r
                    &&& final(history)@ == old(history)@
                    &&& *final(last_observation) == Some(e)
                    &&& *final(self) == *old(self)
                },
                ChatSessionMessage::Interrupt => {
                    &&& !r
                    &&& final(history)@ == old(history)@
                    &&& *final(last_observation) == *old(last_observation)
                    &&& *final(self) == *old(self)
                },
            },
    {
        match message {
            ChatSessionMessage::UserMessage(m) => {
                history.push(m);
                self.on_user_message();
                true
            },
            ChatSessionMessage::WorkerEvent(e) => {
                *last_observation = Some(e);
                true
            },
            ChatSessionMessage::Interrupt => false,
        }
    }

    /// Counts an agent step; the error reply once the session exceeds its
    /// limit.
    pub fn count_step(&mut self, max_driver_loops: usize) -> (r: Option<String>)
        requires
            old(self).step_count < usize::MAX,
        ensures
            final(self).step_count == old(self).step_count + 1,
            final(self).auto_confirm_count == old(self).auto_confirm_count,
            final(self).delegate_call_count == old(self).delegate_call_count,
            final(self).step_count > max_driver_loops ==> (r matches Some(m) && m@
                == "Error: Maximum iteration limit ("@ + decimal(max_driver_loops as nat)
                + ") reached."@),
            final(self).step_count <= max_driver_loops ==> r is None,
    {
        self.step_count = self.step_count + 1;
        if self.step_count > max_driver_loops {
            let mut m = to_owned("Error: Maximum iteration limit (");
            push_decimal(&mut m, max_driver_loops as u64);
            push_str(&mut m, ") reached.");
            Some(m)
        } else {
            None
        }
    }

    /// Handles a text reply: a pending decision is confirmed up to
    /// `max_auto_confirm` times in a row; a reply without one resets the count.
    pub fn after_reply(&mut self, has_pending: bool, max_auto_confirm: usize) -> (r: ReplyFollowUp)
        requires
            old(self).auto_confirm_count < usize::MAX,
        ensures
            final(self).step_count == old(self).step_count,
            final(self).delegate_call_count == old(self).delegate_call_count,
            !has_pending ==> r is Wait && final(self).auto_confirm_count == 0,
            has_pending && old(self).auto_confirm_count + 1 > max_auto_confirm ==> (
            r matches ReplyFollowUp::ConfirmLimit { message } && message@ == "⚠️ Auto-confirm limit ("@
                + decimal(max_auto_confirm as nat) + "). Agent will stop and wait for your response."@
                && final(self).auto_confirm_count == 0),
            has_pending && old(self).auto_confirm_count + 1 <= max_auto_confirm ==> (
            r matches ReplyFollowUp::AutoConfirm { observation } && observation@
                == "User confirmed: proceed with the action"@ && final(self).auto_confirm_count
                == old(self).auto_confirm_count + 1),
    {
        if has_pending {
            self.auto_confirm_count = self.auto_confirm_count + 1;
            if self.auto_confirm_count > max_auto_confirm {
                self.auto_confirm_count = 0;
                let mut m = to_owned("⚠️ Auto-confirm limit (");
                push_decimal(&mut m, max_auto_confirm as u64);
                push_str(&mut m, "). Agent will stop and wait for your response.");
                ReplyFollowUp::ConfirmLimit { message: m }
            } else {
                ReplyFollowUp::AutoConfirm {
                    observation: to_owned("User confirmed: proceed with the action"),
                }
            }
        } else {
            self.auto_confirm_count = 0;
            ReplyFollowUp::Wait
        }
    }

    /// Counts a delegation; blocks it past the per-request limit. Other
    /// tools pass.
    pub fn delegate_gate(&mut self, tool: &str) -> (r: DelegateGate)
        requires
            old(self).delegate_call_count < usize::MAX,
        ensures
            final(self).step_count == old(self).step_count,
            final(self).auto_confirm_count == old(self).auto_confirm_count,
            tool@ != "delegate"@ ==> r is Allowed && final(self).delegate_call_count
                == old(self).delegate_call_count,
            tool@ == "delegate"@ ==> final(self).delegate_call_count == old(self).delegate_call_count
                + 1,
            tool@ == "delegate"@ && final(self).delegate_call_count <= MAX_DELEGATE_PER_REQUEST
                ==> r is Allowed,
            tool@ == "delegate"@ && final(self).delegate_call_count > MAX_DELEGATE_PER_REQUEST
                ==> (r matches DelegateGate::Blocked { response, observation } && response@
                == "⚠️ Safety limit reached: Cannot spawn more than 10 sets of workers per request."@
                && observation@
                == "ERROR: Exceeded maximum of 10 delegate calls. Report current status to user."@),
    {
        if !str_eq(tool, "delegate") {
            return DelegateGate::Allowed;
        }
        self.delegate_call_count = self.delegate_call_count + 1;
        if self.delegate_call_count > MAX_DELEGATE_PER_REQUEST {
            DelegateGate::Blocked {
                response: to_owned(
                    "⚠️ Safety limit reached: Cannot spawn more than 10 sets of workers per request.",
                ),
                observation: to_owned(
                    "ERROR: Exceeded maximum of 10 delegate calls. Report current status to user.",
                ),
            }
        } else {
            DelegateGate::Allowed
        }
    }
}

/// The session has nothing to do and waits for the user or a worker.
pub fn chat_is_idle(has_channel_message: bool, has_observation: bool, has_pending_user_message: bool) -> (r: bool)
    ensures
        r == (!has_channel_message && !has_observation && !has_pending_user_message),
{
    !has_channel_message && !has_observation && !has_pending_user_message
}

/// A status message of the interface says the tool was refused.
pub fn is_rejection_status(message: &str) -> (r: bool)
    ensures
        r == (contains_seq(message@, "rejected"@) || contains_seq(message@, "denied"@)),
{
    str_contains(message, "rejected") || str_contains(message, "denied")
}

/// The observation after a tool ran in a chat session: its output, or its
/// error.
pub fn chat_tool_observation(result: Result<String, String>) -> (r: String)
    ensures
        match result {
            Ok(o) => r@ == o@,
            Err(e) => r@ == "Error: "@ + e@,
        },
{
    match result {
        Ok(o) => o,
        Err(e) => concat("Error: ", e.as_str()),
    }
}

/// The reply after workers were spawned from a chat session.
pub const WORKERS_SPAWNED_REPLY: &'static str = "Background workers have been spawned. They will continue running while you chat.";

/// The reply when a chat session stops at the user's request.
pub const SESSION_STOPPED_REPLY: &'static str = "⛔ Chat session stopped. Current operation completed.";

} // verus!
