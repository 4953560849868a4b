//! Worker shell policy: which commands a background worker may run at once,
//! which need the main agent's approval, and which are never allowed.
//!
//! Patterns are simple globs compared case-insensitively: a trailing `*`
//! matches any suffix, a leading `*` any prefix, and anything else must match
//! the whole (trimmed) command.

use vstd::prelude::*;
use crate::config::types::{default_allowed_commands, default_restricted_commands, EscalationMode};
use crate::text::{
    chars_of, concat, lowercase, occurs_at_exec, owned_strings, starts_with_seq, ends_with_seq,
    str_eq, str_views, strip_char, strip_char_seq, to_lowercase, to_owned, trim, trim_seq, views,
};

verus! {

/// Escalation request sent to the main agent.
#[derive(Clone, Debug)]
pub struct EscalationRequest {
    pub worker_id: String,
    pub job_id: String,
    pub command: String,
    pub reason: String,
}

/// Response from the main agent.
#[derive(Clone, Debug)]
pub struct EscalationResponse {
    pub approved: bool,
    pub reason: Option<String>,
}

/// Permission configuration for the worker shell.
#[derive(Clone, Debug)]
pub struct WorkerShellPermissions {
    /// Commands that are always allowed (e.g. `ls *`, `cat *`).
    pub allowed_patterns: Vec<String>,
    /// Commands that require escalation (e.g. `rm *`, `mv *`).
    pub restricted_patterns: Vec<String>,
    /// Commands that are never allowed (e.g. `sudo *`, `rm -rf /`).
    pub forbidden_patterns: Vec<String>,
    /// How restricted commands are handled.
    pub escalation_mode: EscalationMode,
}

/// Commands a worker runs without asking, by default.
pub open spec fn default_allowed_patterns() -> Seq<Seq<char>> {
    seq![
        "ls *"@, "cat *"@, "grep *"@, "find *"@, "head *"@, "tail *"@,
        "wc *"@, "pwd"@, "echo *"@, "dirname *"@, "basename *"@, "sort *"@,
        "uniq *"@, "awk *"@, "sed *"@, "tr *"@, "cut *"@, "ps *"@,
        "pgrep *"@, "pkill *"@, "top *"@, "htop *"@, "df *"@, "du *"@,
        "free *"@, "uptime *"@, "whoami"@, "id *"@, "uname *"@, "date"@,
        "date *"@, "which *"@, "whereis *"@, "type *"@, "file *"@, "stat *"@,
        "readlink *"@, "realpath *"@, "git status*"@, "git log*"@, "git diff*"@, "git show*"@,
        "git branch*"@, "git remote*"@, "git config*"@, "cargo check*"@, "cargo build*"@, "cargo test*"@,
        "cargo run*"@, "cargo fmt*"@, "cargo clippy*"@, "rustc *"@, "make *"@, "cmake *"@,
        "go build*"@, "go test*"@, "go run*"@, "go fmt*"@, "npm *"@, "yarn *"@,
        "pnpm *"@, "node *"@, "python* *"@, "pip* *"@, "pytest *"@,
    ]
}

/// Commands that need the main agent's approval, by default.
pub open spec fn default_restricted_patterns() -> Seq<Seq<char>> {
    seq![
        "rm *"@, "mv *"@, "cp *"@, "chmod *"@, "chown *"@, "dd *"@,
        "mkfs.*"@, "fdisk *"@, "mount *"@, "umount *"@, "tar *"@, "zip *"@,
        "unzip *"@, "gzip *"@, "gunzip *"@, "curl *"@, "wget *"@, "ssh *"@,
        "scp *"@, "rsync *"@, "ftp *"@, "sftp *"@, "nc *"@, "netcat *"@,
        "telnet *"@, "nmap *"@, "ping *"@, "traceroute *"@, "docker *"@, "kubectl *"@,
        "helm *"@, "terraform *"@, "ansible* *"@, "vagrant *"@, "git push*"@, "git pull*"@,
        "git fetch*"@, "git clone*"@, "git checkout*"@, "git reset*"@, "git clean*"@, "git stash*"@,
        "git cherry-pick*"@, "git rebase*"@, "git merge*"@,
    ]
}

/// Commands a worker may never run, by default.
pub open spec fn default_forbidden_patterns() -> Seq<Seq<char>> {
    seq![
        "sudo *"@, "su *"@, "su - *"@, "passwd *"@, "chpasswd *"@, "useradd *"@,
        "userdel *"@, "usermod *"@, "groupadd *"@, "groupdel *"@, "groupmod *"@, "rm -rf /"@,
        "rm -rf /*"@, "rm -rf ~"@, "rm -rf ~/*"@, ":(){:|:&};:"@, "fork bomb"@, "> /dev/sda*"@,
        "> /dev/hda*"@, "mkfs.ext* /dev/sda*"@, "mkfs.xfs /dev/sda*"@, "mkfs.btrfs /dev/sda*"@, "mkfs.vfat /dev/sda*"@, "mkfs.ntfs /dev/sda*"@,
        "dd if=/dev/zero of=/dev/sda*"@, "dd if=/dev/random of=/dev/sda*"@, "dd if=/dev/urandom of=/dev/sda*"@, "shutdown *"@, "reboot *"@, "halt *"@,
        "poweroff *"@, "init 0"@, "init 6"@, "systemctl poweroff*"@, "systemctl reboot*"@, "kill -9 1"@,
        "kill -SIGKILL 1"@,
    ]
}

impl Default for WorkerShellPermissions {
    fn default() -> (r: Self)
        ensures
            views(r.allowed_patterns@) == default_allowed_patterns(),
            views(r.restricted_patterns@) == default_restricted_patterns(),
            views(r.forbidden_patterns@) == default_forbidden_patterns(),
            r.escalation_mode == EscalationMode::EscalateToMain,
    {
        let allowed: Vec<&str> = vec![
            "ls *", "cat *", "grep *", "find *", "head *", "tail *",
            "wc *", "pwd", "echo *", "dirname *", "basename *", "sort *",
            "uniq *", "awk *", "sed *", "tr *", "cut *", "ps *",
            "pgrep *", "pkill *", "top *", "htop *", "df *", "du *",
            "free *", "uptime *", "whoami", "id *", "uname *", "date",
            "date *", "which *", "whereis *", "type *", "file *", "stat *",
            "readlink *", "realpath *", "git status*", "git log*", "git diff*", "git show*",
            "git branch*", "git remote*", "git config*", "cargo check*", "cargo build*", "cargo test*",
            "cargo run*", "cargo fmt*", "cargo clippy*", "rustc *", "make *", "cmake *",
            "go build*", "go test*", "go run*", "go fmt*", "npm *", "yarn *",
            "pnpm *", "node *", "python* *", "pip* *", "pytest *",
        ];
        let restricted: Vec<&str> = vec![
            "rm *", "mv *", "cp *", "chmod *", "chown *", "dd *",
            "mkfs.*", "fdisk *", "mount *", "umount *", "tar *", "zip *",
            "unzip *", "gzip *", "gunzip *", "curl *", "wget *", "ssh *",
            "scp *", "rsync *", "ftp *", "sftp *", "nc *", "netcat *",
            "telnet *", "nmap *", "ping *", "traceroute *", "docker *", "kubectl *",
            "helm *", "terraform *", "ansible* *", "vagrant *", "git push*", "git pull*",
            "git fetch*", "git clone*", "git checkout*", "git reset*", "git clean*", "git stash*",
            "git cherry-pick*", "git rebase*", "git merge*",
        ];
        let forbidden: Vec<&str> = vec![
            "sudo *", "su *", "su - *", "passwd *", "chpasswd *", "useradd *",
            "userdel *", "usermod *", "groupadd *", "groupdel *", "groupmod *", "rm -rf /",
            "rm -rf /*", "rm -rf ~", "rm -rf ~/*", ":(){:|:&};:", "fork bomb", "> /dev/sda*",
            "> /dev/hda*", "mkfs.ext* /dev/sda*", "mkfs.xfs /dev/sda*", "mkfs.btrfs /dev/sda*", "mkfs.vfat /dev/sda*", "mkfs.ntfs /dev/sda*",
            "dd if=/dev/zero of=/dev/sda*", "dd if=/dev/random of=/dev/sda*", "dd if=/dev/urandom of=/dev/sda*", "shutdown *", "reboot *", "halt *",
            "poweroff *", "init 0", "init 6", "systemctl poweroff*", "systemctl reboot*", "kill -9 1",
            "kill -SIGKILL 1",
        ];
        assert(str_views(allowed@) =~= default_allowed_patterns());
        assert(str_views(restricted@) =~= default_restricted_patterns());
        assert(str_views(forbidden@) =~= default_forbidden_patterns());
        WorkerShellPermissions {
            allowed_patterns: owned_strings(&allowed),
            restricted_patterns: owned_strings(&restricted),
            forbidden_patterns: owned_strings(&forbidden),
            escalation_mode: EscalationMode::EscalateToMain,
        }
    }
}

/// Class of a command under a permission configuration.
#[derive(Clone, Copy, Debug, PartialEq, Eq, Structural)]
pub enum CommandClassification {
    Allowed,
    Restricted,
    Forbidden,
}

/// The glob test on already lower-cased text: a trailing `*` matches any
/// suffix, otherwise a leading `*` any prefix, otherwise the whole text.
pub open spec fn glob_matches(cmd: Seq<char>, pattern: Seq<char>) -> bool {
    if pattern.len() > 0 && pattern.last() == '*' {
        starts_with_seq(cmd, pattern.drop_last())
    } else if pattern.len() > 0 && pattern[0] == '*' {
        ends_with_seq(cmd, pattern.drop_first())
    } else {
        cmd == pattern
    }
}

/// Some pattern of the list matches the command, both lower-cased.
pub open spec fn matches_any(cmd: Seq<char>, patterns: Seq<Seq<char>>) -> bool {
    exists|i: int| 0 <= i < patterns.len() && #[trigger] glob_matches(lowercase(cmd), lowercase(patterns[i]))
}

/// The class of a command: forbidden first, then allowed, and everything else
/// (restricted or unknown) restricted.
pub open spec fn classify(p: WorkerShellPermissions, cmd: Seq<char>) -> CommandClassification {
    let c = trim_seq(cmd);
    if matches_any(c, views(p.forbidden_patterns@)) {
        CommandClassification::Forbidden
    } else if matches_any(c, views(p.allowed_patterns@)) {
        CommandClassification::Allowed
    } else {
        CommandClassification::Restricted
    }
}

/// Simple glob pattern matching on text that is already lower-cased.
pub fn pattern_matches(cmd: &str, pattern: &str) -> (r: bool)
    ensures
        r == glob_matches(cmd@, pattern@),
{
    let c = chars_of(cmd);
    let p = chars_of(pattern);
    let n = p.len();
    if n > 0 && p[n - 1] == '*' {
        let mut prefix = p.clone();
        prefix.pop();
        assert(prefix@ =~= p@.drop_last());
        occurs_at_exec(&c, &prefix, 0)
    } else if n > 0 && p[0] == '*' {
        let mut suffix: Vec<char> = Vec::new();
        let mut i: usize = 1;
        while i < n
            invariant
                1 <= i <= n,
                n == p.len(),
                suffix@ == p@.subrange(1, i as int),
            decreases n - i,
        {
            suffix.push(p[i]);
            assert(p@.subrange(1, i + 1) =~= p@.subrange(1, i as int).push(p@[i as int]));
            i += 1;
        }
        assert(suffix@ =~= p@.drop_first());
        if suffix.len() > c.len() {
            false
        } else {
            occurs_at_exec(&c, &suffix, c.len() - suffix.len())
        }
    } else {
        str_eq(cmd, pattern)
    }
}

/// Whether the command matches any pattern of the list (case-insensitive).
pub fn matches_pattern(cmd: &str, patterns: &Vec<String>) -> (r: bool)
    ensures
        r == matches_any(cmd@, views(patterns@)),
{
    let cmd_lower = to_lowercase(cmd);
    let mut i: usize = 0;
    while i < patterns.len()
        invariant
            i <= patterns.len(),
            cmd_lower@ == lowercase(cmd@),
            forall|j: int|
                0 <= j < i ==> !#[trigger] glob_matches(lowercase(cmd@), lowercase(views(patterns@)[j])),
        decreases patterns.len() - i,
    {
        let pat_lower = to_lowercase(patterns[i].as_str());
        assert(views(patterns@)[i as int] == patterns@[i as int]@);
        if pattern_matches(cmd_lower.as_str(), pat_lower.as_str()) {
            return true;
        }
        i += 1;
    }
    false
}

/// The reply a shell call gives without running anything.
pub open spec fn is_reply(r: ShellCallStep, status: Seq<char>, error: Seq<char>) -> bool {
    r matches ShellCallStep::Reply { status: s, error: e } && s@ == status && e@ == error
}

/// The shell call runs `command` now.
pub open spec fn is_execute(r: ShellCallStep, command: Seq<char>) -> bool {
    r matches ShellCallStep::Execute { command: c } && c@ == command
}

/// The command given to the tool: trimmed, then stripped of surrounding quotes.
pub open spec fn requested_command(args: Seq<char>) -> Seq<char> {
    strip_char_seq(trim_seq(args), '"')
}

/// What a worker shell call does next.
#[derive(Clone, Debug)]
pub enum ShellCallStep {
    /// Answer at once with this status and error message; nothing runs.
    Reply { status: String, error: String },
    /// Run the command now.
    Execute { command: String },
    /// Ask the main agent for approval first.
    Escalate { request: EscalationRequest },
}

/// `Command '<cmd>'` followed by the given ending.
fn command_message(cmd: &str, ending: &str) -> (r: String)
    ensures
        r@ == "Command '"@ + cmd@ + ending@,
{
    let a = concat("Command '", cmd);
    concat(a.as_str(), ending)
}

impl WorkerShellPermissions {
    /// Create permissive config (for testing/debugging only).
    pub fn permissive() -> (r: Self)
        ensures
            views(r.allowed_patterns@) == seq!["*"@],
            views(r.restricted_patterns@) == Seq::<Seq<char>>::empty(),
            views(r.forbidden_patterns@) == seq!["sudo *"@, "su *"@, "rm -rf /"@],
            r.escalation_mode == EscalationMode::AllowAll,
    {
        let allowed: Vec<&str> = vec!["*"];
        let restricted: Vec<&str> = Vec::new();
        let forbidden: Vec<&str> = vec!["sudo *", "su *", "rm -rf /"];
        assert(str_views(allowed@) =~= seq!["*"@]);
        assert(str_views(restricted@) =~= Seq::<Seq<char>>::empty());
        assert(str_views(forbidden@) =~= seq!["sudo *"@, "su *"@, "rm -rf /"@]);
        WorkerShellPermissions {
            allowed_patterns: owned_strings(&allowed),
            restricted_patterns: owned_strings(&restricted),
            forbidden_patterns: owned_strings(&forbidden),
            escalation_mode: EscalationMode::AllowAll,
        }
    }

    /// Create restrictive config (max security): the catch-all forbidden
    /// pattern is checked before the allowed ones.
    pub fn restrictive() -> (r: Self)
        ensures
            views(r.allowed_patterns@) == seq!["ls *"@, "cat *"@, "pwd"@],
            views(r.restricted_patterns@) == Seq::<Seq<char>>::empty(),
            views(r.forbidden_patterns@) == seq!["*"@],
            r.escalation_mode == EscalationMode::BlockRestricted,
    {
        let allowed: Vec<&str> = vec!["ls *", "cat *", "pwd"];
        let restricted: Vec<&str> = Vec::new();
        let forbidden: Vec<&str> = vec!["*"];
        assert(str_views(allowed@) =~= seq!["ls *"@, "cat *"@, "pwd"@]);
        assert(str_views(restricted@) =~= Seq::<Seq<char>>::empty());
        assert(str_views(forbidden@) =~= seq!["*"@]);
        WorkerShellPermissions {
            allowed_patterns: owned_strings(&allowed),
            restricted_patterns: owned_strings(&restricted),
            forbidden_patterns: owned_strings(&forbidden),
            escalation_mode: EscalationMode::BlockRestricted,
        }
    }

    /// Classify a command: forbidden patterns win, then allowed ones; any
    /// other command, known or not, is restricted.
    pub fn classify_command(&self, cmd: &str) -> (r: CommandClassification)
        ensures
            r == classify(*self, cmd@),
    {
        let t = trim(cmd);
        if matches_pattern(t.as_str(), &self.forbidden_patterns) {
            CommandClassification::Forbidden
        } else if matches_pattern(t.as_str(), &self.allowed_patterns) {
            CommandClassification::Allowed
        } else {
            CommandClassification::Restricted
        }
    }

    /// Decide what a worker's shell call with these arguments does.
    pub fn plan_call(&self, worker_id: &str, job_id: &str, args: &str) -> (r: ShellCallStep)
        ensures
            ({
                let c = requested_command(args@);
                if c.len() == 0 {
                    is_reply(r, "error"@, "Empty command"@)
                } else {
                    match classify(*self, c) {
                        CommandClassification::Forbidden => is_reply(
                            r,
                            "forbidden"@,
                            "Command '"@ + c + "' is forbidden and cannot be executed"@,
                        ),
                        CommandClassification::Allowed => is_execute(r, c),
                        CommandClassification::Restricted => match self.escalation_mode {
                            EscalationMode::AllowAll => is_execute(r, c),
                            EscalationMode::BlockRestricted => is_reply(
                                r,
                                "blocked"@,
                                "Command '"@ + c + "' is restricted and escalation is disabled"@,
                            ),
                            EscalationMode::EscalateToMain => r matches ShellCallStep::Escalate {
                                request,
                            } && request.worker_id@ == worker_id@ && request.job_id@ == job_id@
                                && request.command@ == c && request.reason@ == "Command '"@ + c
                                + "' matches restricted pattern"@,
                        },
                    }
                }
            }),
    {
        let t = trim(args);
        let command = strip_char(t.as_str(), '"');
        if command.as_str().is_empty() {
            return ShellCallStep::Reply {
                status: to_owned("error"),
                error: to_owned("Empty command"),
            };
        }
        match self.classify_command(command.as_str()) {
            CommandClassification::Forbidden => ShellCallStep::Reply {
                status: to_owned("forbidden"),
                error: command_message(command.as_str(), "' is forbidden and cannot be executed"),
            },
            CommandClassification::Allowed => ShellCallStep::Execute { command },
            CommandClassification::Restricted => match self.escalation_mode {
                EscalationMode::AllowAll => ShellCallStep::Execute { command },
                EscalationMode::BlockRestricted => ShellCallStep::Reply {
                    status: to_owned("blocked"),
                    error: command_message(
                        command.as_str(),
                        "' is restricted and escalation is disabled",
                    ),
                },
                EscalationMode::EscalateToMain => {
                    let reason = command_message(command.as_str(), "' matches restricted pattern");
                    ShellCallStep::Escalate {
                        request: EscalationRequest {
                            worker_id: to_owned(worker_id),
                            job_id: to_owned(job_id),
                            command,
                            reason,
                        },
                    }
                },
            },
        }
    }
}

/// What a restricted command does once the main agent has answered (or the
/// escalation failed with the given message).
pub fn escalation_step(command: &str, outcome: Result<bool, String>) -> (r: ShellCallStep)
    ensures
        match outcome {
            Ok(true) => is_execute(r, command@),
            Ok(false) => is_reply(
                r,
                "rejected"@,
                "Command '"@ + command@ + "' was rejected by main agent"@,
            ),
            Err(e) => is_reply(r, "escalation_failed"@, "Failed to escalate command: "@ + e@),
        },
{
    match outcome {
        Ok(true) => ShellCallStep::Execute { command: to_owned(command) },
        Ok(false) => ShellCallStep::Reply {
            status: to_owned("rejected"),
            error: command_message(command, "' was rejected by main agent"),
        },
        Err(e) => ShellCallStep::Reply {
            status: to_owned("escalation_failed"),
            error: concat("Failed to escalate command: ", e.as_str()),
        },
    }
}

#[verifier::external_type_specification]
#[verifier::external_body]
pub struct ExShellParseError(shell_words::ParseError);

/// The words that `shell_words::split` finds in a command line (quotes and
/// backslashes resolved, `#` comments dropped), or `None` where a quote is
/// left open.
pub uninterp spec fn shell_split(s: Seq<char>) -> Option<Seq<Seq<char>>>;

/// `shell_words::split`: splits a command line into words the way a POSIX
/// shell does. Its result is named `shell_split` of the argument: `Ok` exactly
/// when that is `Some`, holding its words.
#[verifier::external_body]
fn split_words(s: &str) -> (r: Result<Vec<String>, shell_words::ParseError>)
    ensures
        r is Ok <==> shell_split(s@) is Some,
        r matches Ok(v) ==> views(v@) == shell_split(s@)->0,
{
    shell_words::split(s)
}

/// The program and its arguments from the words of a command line; `None`
/// when there are no words.
pub fn invocation_from_words(words: Vec<String>) -> (r: Option<(String, Vec<String>)>)
    ensures
        r is None <==> words@.len() == 0,
        r matches Some((c, a)) ==> c@ == words@[0]@ && views(a@) == views(words@).drop_first(),
{
    if words.len() == 0 {
        return None;
    }
    let mut args: Vec<String> = Vec::new();
    let mut i: usize = 1;
    while i < words.len()
        invariant
            1 <= i <= words.len(),
            args@.len() == i - 1,
            forall|j: int| 0 <= j < i - 1 ==> #[trigger] args@[j]@ == words@[j + 1]@,
        decreases words.len() - i,
    {
        args.push(words[i].clone());
        i += 1;
    }
    assert(views(args@) =~= views(words@).drop_first());
    Some((words[0].clone(), args))
}

/// The program and arguments a direct execution runs: `None` when the
/// command line does not parse or holds no words ("Failed to parse command").
pub fn direct_invocation(cmd: &str) -> (r: Option<(String, Vec<String>)>)
    ensures
        match shell_split(cmd@) {
            None => r is None,
            Some(w) => if w.len() == 0 {
                r is None
            } else {
                r matches Some((c, a)) && c@ == w[0] && views(a@) == w.drop_first()
            },
        },
{
    match split_words(cmd) {
        Ok(words) => {
            proof {
                assert(views(words@).len() == words@.len());
                if words@.len() > 0 {
                    assert(views(words@)[0] == words@[0]@);
                }
            }
            invocation_from_words(words)
        },
        Err(_) => None,
    }
}

/// A law of the policy: a command that matches a forbidden pattern is
/// forbidden whatever the allowed and restricted lists say.
pub proof fn lemma_forbidden_wins(p: WorkerShellPermissions, cmd: Seq<char>)
    requires
        matches_any(trim_seq(cmd), views(p.forbidden_patterns@)),
    ensures
        classify(p, cmd) == CommandClassification::Forbidden,
{
}

/// A law of the policy: a command never classifies as allowed unless some
/// allowed pattern matches it.
pub proof fn lemma_allowed_needs_pattern(p: WorkerShellPermissions, cmd: Seq<char>)
    requires
        classify(p, cmd) == CommandClassification::Allowed,
    ensures
        matches_any(trim_seq(cmd), views(p.allowed_patterns@)),
        !matches_any(trim_seq(cmd), views(p.forbidden_patterns@)),
{
}

/// A law of the policy: a forbidden pattern that reads `*` once lower-cased
/// matches every command, so every command is forbidden (the restrictive
/// configuration has such a pattern).
pub proof fn lemma_catch_all_forbids_all(p: WorkerShellPermissions, cmd: Seq<char>, i: int)
    requires
        0 <= i < p.forbidden_patterns@.len(),
        lowercase(p.forbidden_patterns@[i]@) == "*"@,
    ensures
        classify(p, cmd) == CommandClassification::Forbidden,
{
    reveal_strlit("*");
    let pats = views(p.forbidden_patterns@);
    assert(pats[i] == p.forbidden_patterns@[i]@);
    let c = lowercase(trim_seq(cmd));
    assert(lowercase(pats[i]).drop_last() =~= Seq::<char>::empty());
    assert(c.subrange(0, 0) =~= Seq::<char>::empty());
    assert(glob_matches(c, lowercase(pats[i])));
}

/// A command a restricted pattern stands for: its trailing `*` replaced by
/// `x`.
pub open spec fn restricted_probe(pattern: Seq<char>) -> Seq<char> {
    if pattern.len() > 0 && pattern.last() == '*' {
        pattern.drop_last() + "x"@
    } else {
        pattern
    }
}

/// A law of the default worker settings: no harmless pattern is also a
/// restricted one, and no harmless pattern admits a command that a
/// restricted pattern describes.
#[verifier::rlimit(100)]
pub proof fn lemma_default_lists_apart()
    ensures
        forall|i: int, j: int|
            0 <= i < default_allowed_commands().len() && 0 <= j < default_restricted_commands().len()
                ==> default_allowed_commands()[i] != default_restricted_commands()[j] && !glob_matches(
                restricted_probe(default_restricted_commands()[j]),
                default_allowed_commands()[i],
            ),
{
        reveal_strlit("ls *");
        reveal_strlit("cat *");
        reveal_strlit("head *");
        reveal_strlit("tail *");
        reveal_strlit("pwd");
        reveal_strlit("echo *");
        reveal_strlit("sleep *");
        reveal_strlit("date");
        reveal_strlit("which *");
        reveal_strlit("git status*");
        reveal_strlit("git log*");
        reveal_strlit("git diff*");
        reveal_strlit("git branch*");
        reveal_strlit("cargo check*");
        reveal_strlit("cargo build*");
        reveal_strlit("cargo test*");
        reveal_strlit("rm *");
        reveal_strlit("mv *");
        reveal_strlit("cp *");
        reveal_strlit("curl *");
        reveal_strlit("wget *");
        reveal_strlit("ssh *");
        reveal_strlit("scp *");
        reveal_strlit("git push*");
        reveal_strlit("git reset*");
        reveal_strlit("npm publish*");
        reveal_strlit("x");
    let a = default_allowed_commands();
    let r = default_restricted_commands();
    assert(a[0] == "ls *"@ && a[0].len() == 4);
    assert(a[0][0] == 'l');
    assert(a[0][1] == 's');
    assert(a[1] == "cat *"@ && a[1].len() == 5);
    assert(a[1][0] == 'c');
    assert(a[1][1] == 'a');
    assert(a[1][4] == '*');
    assert(a[2] == "head *"@ && a[2].len() == 6);
    assert(a[2][0] == 'h');
    assert(a[2][1] == 'e');
    assert(a[2][4] == ' ');
    assert(a[3] == "tail *"@ && a[3].len() == 6);
    assert(a[3][0] == 't');
    assert(a[3][1] == 'a');
    assert(a[3][4] == ' ');
    assert(a[4] == "pwd"@ && a[4].len() == 3);
    assert(a[4][0] == 'p');
    assert(a[4][1] == 'w');
    assert(a[5] == "echo *"@ && a[5].len() == 6);
    assert(a[5][0] == 'e');
    assert(a[5][1] == 'c');
    assert(a[5][4] == ' ');
    assert(a[6] == "sleep *"@ && a[6].len() == 7);
    assert(a[6][0] == 's');
    assert(a[6][1] == 'l');
    assert(a[6][4] == 'p');
    assert(a[7] == "date"@ && a[7].len() == 4);
    assert(a[7][0] == 'd');
    assert(a[7][1] == 'a');
    assert(a[8] == "which *"@ && a[8].len() == 7);
    assert(a[8][0] == 'w');
    assert(a[8][1] == 'h');
    assert(a[8][4] == 'h');
    assert(a[9] == "git status*"@ && a[9].len() == 11);
    assert(a[9][0] == 'g');
    assert(a[9][1] == 'i');
    assert(a[9][4] == 's');
    assert(a[10] == "git log*"@ && a[10].len() == 8);
    assert(a[10][0] == 'g');
    assert(a[10][1] == 'i');
    assert(a[10][4] == 'l');
    assert(a[11] == "git diff*"@ && a[11].len() == 9);
    assert(a[11][0] == 'g');
    assert(a[11][1] == 'i');
    assert(a[11][4] == 'd');
    assert(a[12] == "git branch*"@ && a[12].len() == 11);
    assert(a[12][0] == 'g');
    assert(a[12][1] == 'i');
    assert(a[12][4] == 'b');
    assert(a[13] == "cargo check*"@ && a[13].len() == 12);
    assert(a[13][0] == 'c');
    assert(a[13][1] == 'a');
    assert(a[13][4] == 'o');
    assert(a[14] == "cargo build*"@ && a[14].len() == 12);
    assert(a[14][0] == 'c');
    assert(a[14][1] == 'a');
    assert(a[14][4] == 'o');
    assert(a[15] == "cargo test*"@ && a[15].len() == 11);
    assert(a[15][0] == 'c');
    assert(a[15][1] == 'a');
    assert(a[15][4] == 'o');
    assert(r[0] == "rm *"@ && r[0].len() == 4 && r[0].last() == '*');
    assert(r[0][0] == 'r');
    assert(r[0][1] == 'm');
    assert(r[1] == "mv *"@ && r[1].len() == 4 && r[1].last() == '*');
    assert(r[1][0] == 'm');
    assert(r[1][1] == 'v');
    assert(r[2] == "cp *"@ && r[2].len() == 4 && r[2].last() == '*');
    assert(r[2][0] == 'c');
    assert(r[2][1] == 'p');
    assert(r[3] == "curl *"@ && r[3].len() == 6 && r[3].last() == '*');
    assert(r[3][0] == 'c');
    assert(r[3][1] == 'u');
    assert(r[3][4] == ' ');
    assert(r[4] == "wget *"@ && r[4].len() == 6 && r[4].last() == '*');
    assert(r[4][0] == 'w');
    assert(r[4][1] == 'g');
    assert(r[4][4] == ' ');
    assert(r[5] == "ssh *"@ && r[5].len() == 5 && r[5].last() == '*');
    assert(r[5][0] == 's');
    assert(r[5][1] == 's');
    assert(r[5][4] == '*');
    assert(r[6] == "scp *"@ && r[6].len() == 5 && r[6].last() == '*');
    assert(r[6][0] == 's');
    assert(r[6][1] == 'c');
    assert(r[6][4] == '*');
    assert(r[7] == "git push*"@ && r[7].len() == 9 && r[7].last() == '*');
    assert(r[7][0] == 'g');
    assert(r[7][1] == 'i');
    assert(r[7][4] == 'p');
    assert(r[8] == "git reset*"@ && r[8].len() == 10 && r[8].last() == '*');
    assert(r[8][0] == 'g');
    assert(r[8][1] == 'i');
    assert(r[8][4] == 'r');
    assert(r[9] == "npm publish*"@ && r[9].len() == 12 && r[9].last() == '*');
    assert(r[9][0] == 'n');
    assert(r[9][1] == 'p');
    assert(r[9][4] == 'p');
    assert forall|i: int, j: int| 0 <= i < a.len() && 0 <= j < r.len() implies a[i] != r[j] && !glob_matches(
        restricted_probe(r[j]),
        a[i],
    ) by {
        let x = a[i];
        let y = r[j];
        let p = restricted_probe(y);
        assert(p =~= y.drop_last() + "x"@);
        let k: int = if x[0] != y[0] {
            0
        } else if x[1] != y[1] {
            1
        } else {
            4
        };
        assert(x[k] != y[k]);
        assert(p[k] == y[k]);
        if x.len() > 0 && x.last() == '*' {
            lemma_prefix_mismatch(p, x.drop_last(), k);
        } else {
            assert(p[k] != x[k]);
        }
    }
}

proof fn lemma_prefix_mismatch(s: Seq<char>, pat: Seq<char>, k: int)
    requires
        0 <= k < pat.len(),
        k < s.len(),
        s[k] != pat[k],
    ensures
        !starts_with_seq(s, pat),
{
    if starts_with_seq(s, pat) {
        assert(s.subrange(0, pat.len() as int)[k] == s[k]);
    }
}

} // verus!
