//! Decisions of the backward-compatible run loop: when a reply ends the run,
//! what a tool call is shown and handed, and what a failed tool reports.

use vstd::prelude::*;
use crate::agent::v2::driver::event_driven::final_answer_spec;
use crate::agent::tools::shell::{answers, first_matching_pattern};
use crate::config::types::AgentPermissions;
use crate::json::{json_text_member, parse_json, json_str_member};
use crate::text::{
    byte_len, concat, contains_seq, ends_with_seq, push_str, str_contains, str_ends_with, str_eq,
    str_len, to_owned, trim, trim_seq,
};

verus! {

/// The observation that asks the model to go on after a short reply.
pub const CONTINUE_NUDGE: &'static str = "Please continue your task or provide a Final Answer if you are done.";

/// The reply reads as a question or a closing remark to the user.
pub open spec fn legacy_question_spec(msg: Seq<char>) -> bool {
    ||| ends_with_seq(trim_seq(msg), "?"@)
    ||| contains_seq(msg, "Please"@)
    ||| contains_seq(msg, "Would you"@)
    ||| contains_seq(msg, "Acknowledged"@)
    ||| contains_seq(msg, "I've memorized"@)
    ||| contains_seq(msg, "Absolutely"@)
}

/// A text reply ends the run: a final answer, a question, or any reply
/// longer than 30 bytes.
pub open spec fn legacy_reply_ends_run(msg: Seq<char>) -> bool {
    final_answer_spec(msg) || legacy_question_spec(msg) || byte_len(msg) > 30
}

/// What the loop does with a text reply.
#[derive(Debug, PartialEq, Eq, Structural)]
pub enum LegacyReply {
    /// The agent still holds a decision: step again without an observation.
    StepAgain,
    /// Return the reply (and its usage) to the caller.
    Finish,
    /// Step again with `CONTINUE_NUDGE` as the observation.
    Nudge,
}

/// Handles a text reply of the model in the backward-compatible loop.
pub fn legacy_reply(has_pending_decision: bool, msg: &str) -> (r: LegacyReply)
    requires
        byte_len(msg@) <= usize::MAX,
    ensures
        has_pending_decision ==> r == LegacyReply::StepAgain,
        !has_pending_decision && legacy_reply_ends_run(msg@) ==> r == LegacyReply::Finish,
        !has_pending_decision && !legacy_reply_ends_run(msg@) ==> r == LegacyReply::Nudge,
{
    if has_pending_decision {
        return LegacyReply::StepAgain;
    }
    if str_contains(msg, "Final Answer:") || str_contains(msg, "\"f\":") || str_contains(
        msg,
        "\"final_answer\":",
    ) {
        return LegacyReply::Finish;
    }
    let t = trim(msg);
    if str_ends_with(t.as_str(), "?") || str_contains(msg, "Please") || str_contains(
        msg,
        "Would you",
    ) || str_contains(msg, "Acknowledged") || str_contains(msg, "I've memorized")
        || str_contains(msg, "Absolutely") {
        return LegacyReply::Finish;
    }
    if str_len(msg) > 30 {
        return LegacyReply::Finish;
    }
    LegacyReply::Nudge
}

/// The command a tool's arguments carry: the JSON string member `command`,
/// else the string member `args`, else the arguments as given.
pub open spec fn command_of_args_spec(args: Seq<char>) -> Seq<char> {
    match json_text_member(args, "command"@) {
        Some(c) => c,
        None => match json_text_member(args, "args"@) {
            Some(a) => a,
            None => args,
        },
    }
}

/// Extracts the command from a tool's arguments.
pub fn command_of_args(args: &str) -> (r: String)
    ensures
        r@ == command_of_args_spec(args@),
{
    match parse_json(args) {
        Some(v) => match json_str_member(&v, "command") {
            Some(c) => c,
            None => match json_str_member(&v, "args") {
                Some(a) => a,
                None => to_owned(args),
            },
        },
        None => to_owned(args),
    }
}

/// The command suggested to the user before a tool runs.
pub open spec fn suggestion_spec(tool: Seq<char>, args: Seq<char>) -> Seq<char> {
    if tool == "execute_command"@ {
        command_of_args_spec(args)
    } else {
        tool + " "@ + args
    }
}

/// Builds the suggestion shown while a tool waits for approval.
pub fn extract_suggestion(tool: &str, args: &str) -> (r: String)
    ensures
        r@ == suggestion_spec(tool@, args@),
{
    if str_eq(tool, "execute_command") {
        command_of_args(args)
    } else {
        let mut s = concat(tool, " ");
        push_str(&mut s, args);
        s
    }
}

/// The input handed to a tool: the JSON string member `args` of the
/// arguments, else the arguments as given.
pub open spec fn processed_args_spec(args: Seq<char>) -> Seq<char> {
    match json_text_member(args, "args"@) {
        Some(a) => a,
        None => args,
    }
}

/// Unwraps the tool input from its JSON envelope.
pub fn process_args(args: &str) -> (r: String)
    ensures
        r@ == processed_args_spec(args@),
{
    match parse_json(args) {
        Some(v) => match json_str_member(&v, "args") {
            Some(a) => a,
            None => to_owned(args),
        },
        None => to_owned(args),
    }
}

/// A tool needs the user's approval unless everything is auto-approved or
/// the permissions approve this command.
pub open spec fn needs_approval_spec(auto_approve: bool, permission_auto_approved: bool) -> bool {
    !auto_approve && !permission_auto_approved
}

/// Decides whether to ask the user before running a tool.
pub fn needs_approval(auto_approve: bool, permission_auto_approved: bool) -> (r: bool)
    ensures
        r == needs_approval_spec(auto_approve, permission_auto_approved),
{
    !auto_approve && !permission_auto_approved
}

/// The observation when the user denies a tool.
pub fn denied_observation(tool: &str) -> (r: String)
    ensures
        r@ == "Error: User denied the execution of tool '"@ + tool@ + "'."@,
{
    let mut m = concat("Error: User denied the execution of tool '", tool);
    push_str(&mut m, "'.");
    m
}

/// The reply when a tool needs approval and nobody can give it.
pub fn approval_unavailable_message(tool: &str) -> (r: String)
    ensures
        r@ == "Approval required to run tool '"@ + tool@
            + "' but no approval channel is available (AUTO-APPROVE is OFF)."@,
{
    let mut m = concat("Approval required to run tool '", tool);
    push_str(&mut m, "' but no approval channel is available (AUTO-APPROVE is OFF).");
    m
}

/// The observation after a tool failed.
pub fn tool_error_observation(error: &str) -> (r: String)
    ensures
        r@ == "Tool Error: "@ + error@
            + ". Analyze the failure and try a different command or approach if possible."@,
{
    let mut m = concat("Tool Error: ", error);
    push_str(&mut m, ". Analyze the failure and try a different command or approach if possible.");
    m
}

/// The observation when the model names a tool that does not exist.
pub fn tool_not_found_observation(tool: &str) -> (r: String)
    ensures
        r@ == "Error: Tool '"@ + tool@ + "' not found. Check the available tools list."@,
{
    let mut m = concat("Error: Tool '", tool);
    push_str(&mut m, "' not found. Check the available tools list.");
    m
}

/// `matches` answers `answer` for a command spelling `cmd` and a pattern
/// spelling `pat`.
pub open spec fn answers_for<F: Fn(&str, &str) -> bool>(
    matches: F,
    cmd: Seq<char>,
    pat: Seq<char>,
    answer: bool,
) -> bool {
    exists|c: &str| c@ == cmd && #[trigger] answers(matches, c, pat, answer)
}

/// The permissions approve a call of `execute_command` without asking: one
/// of their auto-approved patterns matches the call's command (see
/// `command_of_args`).
pub fn check_permission_auto_approve<F: Fn(&str, &str) -> bool>(
    args: &str,
    permissions: &Option<AgentPermissions>,
    matches: F,
) -> (r: bool)
    requires
        forall|a: &str, b: &str| call_requires(matches, (a, b)),
    ensures
        match permissions {
            Some(p) => match p.auto_approve_commands {
                Some(list) => {
                    &&& r ==> exists|i: int|
                        0 <= i < list.len() && #[trigger] answers_for(
                            matches,
                            command_of_args_spec(args@),
                            list@[i]@,
                            true,
                        )
                    &&& !r ==> forall|i: int|
                        0 <= i < list.len() ==> #[trigger] answers_for(
                            matches,
                            command_of_args_spec(args@),
                            list@[i]@,
                            false,
                        )
                },
                None => !r,
            },
            None => !r,
        },
{
    match permissions {
        Some(p) => match &p.auto_approve_commands {
            Some(list) => {
                let cmd = command_of_args(args);
                let c = cmd.as_str();
                let hit = first_matching_pattern(c, list, matches);
                proof {
                    match hit {
                        Some(i) => {
                            assert(answers_for(matches, command_of_args_spec(args@), list@[i as int]@, true));
                        },
                        None => {
                            assert forall|k: int| 0 <= k < list.len() implies #[trigger] answers_for(
                                matches,
                                command_of_args_spec(args@),
                                list@[k]@,
                                false,
                            ) by {
                                assert(answers(matches, c, list@[k]@, false));
                            }
                        },
                    }
                }
                hit.is_some()
            },
            None => false,
        },
        None => false,
    }
}

} // verus!
