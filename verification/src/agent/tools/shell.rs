//! Decisions of the shell tool: how its arguments are read, which commands
//! the permissions forbid, how a run is launched and what it reports.

use vstd::prelude::*;
use crate::text::{
    byte_len, chars_of, concat, push_str, str_len, string_of, strip_char, strip_char_seq, trim,
    trim_seq,
};

verus! {

/// The arguments of a shell call.
#[derive(Debug, Clone)]
pub struct ShellArgs {
    pub command: String,
    /// Run the command as a background job.
    pub background: bool,
}

/// Reads the arguments of a shell call: the JSON form where it parsed
/// (`parsed`), else the raw text, trimmed and without surrounding quotes, in
/// the foreground.
pub fn shell_args_or_raw(args: &str, parsed: Option<ShellArgs>) -> (r: ShellArgs)
    ensures
        match parsed {
            Some(p) => r.command@ == p.command@ && r.background == p.background,
            None => r.command@ == strip_char_seq(trim_seq(args@), '"') && !r.background,
        },
{
    match parsed {
        Some(p) => p,
        None => {
            let t = trim(args);
            ShellArgs { command: strip_char(t.as_str(), '"'), background: false }
        },
    }
}

/// `matches` answers `answer` for `cmd` and a pattern spelling `pat`.
pub open spec fn answers<F: Fn(&str, &str) -> bool>(
    matches: F,
    cmd: &str,
    pat: Seq<char>,
    answer: bool,
) -> bool {
    exists|p: &str| p@ == pat && #[trigger] call_ensures(matches, (cmd, p), answer)
}

/// The index of the first pattern that `matches` accepts for `cmd`.
pub fn first_matching_pattern<F: Fn(&str, &str) -> bool>(
    cmd: &str,
    patterns: &Vec<String>,
    matches: F,
) -> (r: Option<usize>)
    requires
        forall|a: &str, b: &str| call_requires(matches, (a, b)),
    ensures
        match r {
            Some(i) => i < patterns.len() && answers(matches, cmd, patterns@[i as int]@, true),
            None => true,
        },
        forall|j: int|
            0 <= j < (match r {
                Some(i) => i as int,
                None => patterns.len() as int,
            }) ==> #[trigger] answers(matches, cmd, patterns@[j]@, false),
{
    let mut i: usize = 0;
    while i < patterns.len()
        invariant
            i <= patterns.len(),
            forall|a: &str, b: &str| call_requires(matches, (a, b)),
            forall|j: int| 0 <= j < i ==> #[trigger] answers(matches, cmd, patterns@[j]@, false),
        decreases patterns.len() - i,
    {
        let p = patterns[i].as_str();
        let hit = matches(cmd, p);
        assert(p@ == patterns@[i as int]@);
        assert(answers(matches, cmd, patterns@[i as int]@, hit));
        if hit {
            return Some(i);
        }
        i = i + 1;
    }
    None
}

/// The reply for a command that a forbidden pattern matches.
pub fn forbidden_message(cmd: &str, pattern: &str) -> (r: String)
    ensures
        r@ == "Error: Command '"@ + cmd@ + "' is forbidden by pattern '"@ + pattern@ + "'"@,
{
    let mut m = concat("Error: Command '", cmd);
    push_str(&mut m, "' is forbidden by pattern '");
    push_str(&mut m, pattern);
    push_str(&mut m, "'");
    m
}

/// Applies the forbidden patterns of the permissions, in order: the reply
/// for the first that matches, or `None` where the command may go on.
pub fn forbidden_check<F: Fn(&str, &str) -> bool>(
    cmd: &str,
    forbidden: Option<&Vec<String>>,
    matches: F,
) -> (r: Option<String>)
    requires
        forall|a: &str, b: &str| call_requires(matches, (a, b)),
    ensures
        forbidden is None ==> r is None,
        forbidden matches Some(ps) ==> {
            &&& r matches Some(m) ==> exists|i: int|
                0 <= i < ps.len() && m@ == "Error: Command '"@ + cmd@
                    + "' is forbidden by pattern '"@ + ps@[i]@ + "'"@ && #[trigger] answers(
                    matches,
                    cmd,
                    ps@[i]@,
                    true,
                ) && forall|j: int|
                    0 <= j < i ==> #[trigger] answers(matches, cmd, ps@[j]@, false)
            &&& r is None ==> forall|j: int|
                0 <= j < ps.len() ==> #[trigger] answers(matches, cmd, ps@[j]@, false)
        },
{
    match forbidden {
        None => None,
        Some(ps) => match first_matching_pattern(cmd, ps, matches) {
            Some(i) => {
                let m = forbidden_message(cmd, ps[i].as_str());
                assert(m@ == "Error: Command '"@ + cmd@ + "' is forbidden by pattern '"@
                    + ps@[i as int]@ + "'"@);
                Some(m)
            },
            None => None,
        },
    }
}

/// How a permitted shell call is carried out.
#[derive(Debug)]
pub enum ShellLaunch {
    /// Create a `shell` job with `job_description` and run the command in
    /// the background; reply at once with the job and `description`.
    Background { job_description: String, description: String },
    /// Background was asked for, but there is no job registry: reply with
    /// this message.
    NoRegistry { message: String },
    /// Run the command in the terminal and wait for its output.
    Foreground,
}

/// Decides how a permitted shell call runs.
pub fn shell_launch(cmd: &str, background: bool, has_registry: bool) -> (r: ShellLaunch)
    ensures
        !background ==> r is Foreground,
        background && has_registry ==> (r matches ShellLaunch::Background {
            job_description,
            description,
        } && job_description@ == "Executing: "@ + cmd@ && description@ == "Running command: "@
            + cmd@),
        background && !has_registry ==> (r matches ShellLaunch::NoRegistry { message } && message@
            == "Error: Background execution requested but no job registry available."@),
{
    if background {
        if has_registry {
            ShellLaunch::Background {
                job_description: concat("Executing: ", cmd),
                description: concat("Running command: ", cmd),
            }
        } else {
            ShellLaunch::NoRegistry {
                message: crate::text::to_owned(
                    "Error: Background execution requested but no job registry available.",
                ),
            }
        }
    } else {
        ShellLaunch::Foreground
    }
}

/// The screen text kept as context: where it is longer than `limit` bytes,
/// its last `limit` characters.
pub open spec fn screen_tail_spec(screen: Seq<char>, limit: nat) -> Seq<char> {
    if byte_len(screen) > limit {
        if screen.len() > limit {
            screen.skip(screen.len() - limit)
        } else {
            screen
        }
    } else {
        screen
    }
}

/// Cuts the terminal screen to its tail.
pub fn screen_tail(screen: &str, limit: usize) -> (r: String)
    requires
        byte_len(screen@) <= usize::MAX,
    ensures
        r@ == screen_tail_spec(screen@, limit as nat),
{
    if str_len(screen) > limit {
        let v = chars_of(screen);
        if v.len() > limit {
            let start = v.len() - limit;
            let mut w: Vec<char> = Vec::new();
            let mut i = start;
            while i < v.len()
                invariant
                    start <= i <= v.len(),
                    w@ == v@.subrange(start as int, i as int),
                decreases v.len() - i,
            {
                w.push(v[i]);
                i = i + 1;
            }
            assert(w@ =~= screen@.skip(screen@.len() - limit));
            string_of(&w)
        } else {
            crate::text::to_owned(screen)
        }
    } else {
        crate::text::to_owned(screen)
    }
}

/// The reply of a foreground run: the screen context, then the output.
pub fn combined_output(screen: &str, output: &str) -> (r: String)
    ensures
        r@ == "--- TERMINAL CONTEXT ---\n"@ + screen@ + "\nCMD_OUTPUT:\n"@ + output@,
{
    let mut m = concat("--- TERMINAL CONTEXT ---\n", screen);
    push_str(&mut m, "\nCMD_OUTPUT:\n");
    push_str(&mut m, output);
    m
}

/// The failure recorded for a background job whose output never arrived.
pub fn background_failure(error: &str) -> (r: String)
    ensures
        r@ == "Failed to receive output: "@ + error@,
{
    concat("Failed to receive output: ", error)
}

/// The error of a foreground run whose output never arrived.
pub fn foreground_failure(error: &str) -> (r: String)
    ensures
        r@ == "Failed to receive command output from terminal: "@ + error@,
{
    concat("Failed to receive command output from terminal: ", error)
}

} // verus!
