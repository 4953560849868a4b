//! Agent settings: tools, retries, memory, workers, telemetry, security, and
//! the user profile that grows with the interactions.

use vstd::prelude::*;
use crate::named_map::{StringMap, NamedMap};
use crate::text::{
    concat, contains_string, join, join_seq, lowercase, owned_strings, parse_usize,
    parse_usize_spec, push_str, str_eq, to_lowercase, to_owned, views,
};

verus! {

/// Settings of the tools.
#[derive(Debug, Clone)]
pub struct ToolConfig {
    /// Commands the shell tool refuses.
    pub blocked_commands: Vec<String>,
    /// Paths the file tools may touch.
    pub allowed_paths: Vec<std::path::PathBuf>,
    /// Ask before running dangerous tools.
    pub require_approval: bool,
    /// Tool timeout in seconds.
    pub timeout_secs: u64,
    /// Cache tool results.
    pub enable_caching: bool,
}

/// The commands the shell tool refuses unless configured otherwise.
pub open spec fn default_blocked_commands() -> Seq<Seq<char>> {
    seq![
        "rm -rf /"@,
        "sudo"@,
        "chmod 777"@,
        "> /dev/null"@,
        "cat /etc/os-release"@,
        "cat /etc/passwd"@,
        "cat /etc/shadow"@,
        "cat /proc"@,
        "uname -a"@,
        "whoami"@,
        "id"@,
        "ifconfig"@,
        "ip addr"@,
        "netstat"@,
        "ss -tuln"@,
        "ps aux"@,
        "lsof"@,
        "find / -name"@,
    ]
}

impl Default for ToolConfig {
    fn default() -> (r: Self)
        ensures
            views(r.blocked_commands@) == default_blocked_commands(),
            r.allowed_paths@.len() == 0,
            r.require_approval,
            r.timeout_secs == 30,
            !r.enable_caching,
    {
        let list = vec![
            "rm -rf /",
            "sudo",
            "chmod 777",
            "> /dev/null",
            "cat /etc/os-release",
            "cat /etc/passwd",
            "cat /etc/shadow",
            "cat /proc",
            "uname -a",
            "whoami",
            "id",
            "ifconfig",
            "ip addr",
            "netstat",
            "ss -tuln",
            "ps aux",
            "lsof",
            "find / -name",
        ];
        let blocked = owned_strings(&list);
        assert(views(blocked@) =~= default_blocked_commands());
        ToolConfig {
            blocked_commands: blocked,
            allowed_paths: Vec::new(),
            require_approval: true,
            timeout_secs: 30,
            enable_caching: false,
        }
    }
}

impl ToolConfig {
    /// Takes the other settings; its lists only where they are not empty.
    pub fn merge(&mut self, other: Self)
        ensures
            views(final(self).blocked_commands@) == if other.blocked_commands@.len() > 0 {
                views(other.blocked_commands@)
            } else {
                views(old(self).blocked_commands@)
            },
            final(self).allowed_paths@ == if other.allowed_paths@.len() > 0 {
                other.allowed_paths@
            } else {
                old(self).allowed_paths@
            },
            final(self).require_approval == other.require_approval,
            final(self).timeout_secs == other.timeout_secs,
            final(self).enable_caching == other.enable_caching,
    {
        if other.blocked_commands.len() > 0 {
            self.blocked_commands = other.blocked_commands;
        }
        if other.allowed_paths.len() > 0 {
            self.allowed_paths = other.allowed_paths;
        }
        self.require_approval = other.require_approval;
        self.timeout_secs = other.timeout_secs;
        self.enable_caching = other.enable_caching;
    }
}

/// How failed calls are retried.
#[derive(Debug, Clone, Copy)]
pub struct RetryConfig {
    pub max_retries: u32,
    pub base_delay_ms: u64,
    pub max_delay_ms: u64,
    pub enable_circuit_breaker: bool,
    pub circuit_breaker_threshold: u32,
}

impl Default for RetryConfig {
    fn default() -> (r: Self)
        ensures
            r.max_retries == 3,
            r.base_delay_ms == 100,
            r.max_delay_ms == 10000,
            r.enable_circuit_breaker,
            r.circuit_breaker_threshold == 5,
    {
        RetryConfig {
            max_retries: 3,
            base_delay_ms: 100,
            max_delay_ms: 10000,
            enable_circuit_breaker: true,
            circuit_breaker_threshold: 5,
        }
    }
}

impl RetryConfig {
    /// Takes every setting of the other.
    pub fn merge(&mut self, other: Self)
        ensures
            *final(self) == other,
    {
        *self = other;
    }
}

/// Settings of the agent's memory.
#[derive(Debug, Clone)]
pub struct MemoryConfig {
    pub enabled: bool,
    pub max_memories: usize,
    pub semantic_search: bool,
    pub embedding_model: String,
    /// Memories included in the prompt.
    pub context_window: usize,
    /// Where memories are stored (`None`: the default place).
    pub storage_path: Option<std::path::PathBuf>,
    pub autosave: bool,
    /// Keep nothing on disk.
    pub incognito: bool,
}

impl Default for MemoryConfig {
    fn default() -> (r: Self)
        ensures
            r.enabled,
            r.max_memories == 1000,
            r.semantic_search,
            r.embedding_model@ == "default"@,
            r.context_window == 5,
            r.storage_path is None,
            r.autosave,
            !r.incognito,
    {
        MemoryConfig {
            enabled: true,
            max_memories: 1000,
            semantic_search: true,
            embedding_model: to_owned("default"),
            context_window: 5,
            storage_path: None,
            autosave: true,
            incognito: false,
        }
    }
}

impl MemoryConfig {
    /// Takes the other settings; its storage path only where it has one.
    pub fn merge(&mut self, other: Self)
        ensures
            final(self).enabled == other.enabled,
            final(self).max_memories == other.max_memories,
            final(self).semantic_search == other.semantic_search,
            final(self).embedding_model@ == other.embedding_model@,
            final(self).context_window == other.context_window,
            final(self).storage_path == if other.storage_path is Some {
                other.storage_path
            } else {
                old(self).storage_path
            },
            final(self).autosave == other.autosave,
            final(self).incognito == other.incognito,
    {
        self.enabled = other.enabled;
        self.max_memories = other.max_memories;
        self.semantic_search = other.semantic_search;
        self.embedding_model = other.embedding_model;
        self.context_window = other.context_window;
        if other.storage_path.is_some() {
            self.storage_path = other.storage_path;
        }
        self.autosave = other.autosave;
        self.incognito = other.incognito;
    }

    /// Memory is written to disk when it is on and not incognito.
    pub fn should_persist(&self) -> (r: bool)
        ensures
            r == (self.enabled && !self.incognito),
    {
        self.enabled && !self.incognito
    }
}

/// Settings of the workers.
#[derive(Debug, Clone, Copy)]
pub struct WorkerConfig {
    pub enabled: bool,
    pub max_concurrent: usize,
    pub timeout_secs: u64,
    /// Persistent workers for reading large files (1 to 50).
    pub max_persistent_workers: usize,
    pub tantivy_enabled: bool,
}

impl Default for WorkerConfig {
    fn default() -> (r: Self)
        ensures
            r.enabled,
            r.max_concurrent == 3,
            r.timeout_secs == 300,
            r.max_persistent_workers == 5,
            r.tantivy_enabled,
    {
        WorkerConfig {
            enabled: true,
            max_concurrent: 3,
            timeout_secs: 300,
            max_persistent_workers: 5,
            tantivy_enabled: true,
        }
    }
}

impl WorkerConfig {
    /// Takes the other settings, with the persistent workers held to 1..=50.
    pub fn merge(&mut self, other: Self)
        ensures
            final(self).enabled == other.enabled,
            final(self).max_concurrent == other.max_concurrent,
            final(self).timeout_secs == other.timeout_secs,
            final(self).max_persistent_workers == if other.max_persistent_workers < 1 {
                1
            } else if other.max_persistent_workers > 50 {
                50
            } else {
                other.max_persistent_workers
            },
            final(self).tantivy_enabled == other.tantivy_enabled,
    {
        self.enabled = other.enabled;
        self.max_concurrent = other.max_concurrent;
        self.timeout_secs = other.timeout_secs;
        self.max_persistent_workers = if other.max_persistent_workers < 1 {
            1
        } else if other.max_persistent_workers > 50 {
            50
        } else {
            other.max_persistent_workers
        };
        self.tantivy_enabled = other.tantivy_enabled;
    }
}

/// Settings of logging and metrics.
#[derive(Debug, Clone)]
pub struct TelemetryConfig {
    pub enabled: bool,
    /// "error", "warn", "info" or "debug".
    pub log_level: String,
    pub log_to_file: bool,
    pub log_file_path: Option<std::path::PathBuf>,
    pub enable_metrics: bool,
}

impl Default for TelemetryConfig {
    fn default() -> (r: Self)
        ensures
            r.enabled,
            r.log_level@ == "info"@,
            !r.log_to_file,
            r.log_file_path is None,
            r.enable_metrics,
    {
        TelemetryConfig {
            enabled: true,
            log_level: to_owned("info"),
            log_to_file: false,
            log_file_path: None,
            enable_metrics: true,
        }
    }
}

impl TelemetryConfig {
    /// Takes the other settings; its log file only where it has one.
    pub fn merge(&mut self, other: Self)
        ensures
            final(self).enabled == other.enabled,
            final(self).log_level@ == other.log_level@,
            final(self).log_to_file == other.log_to_file,
            final(self).log_file_path == if other.log_file_path is Some {
                other.log_file_path
            } else {
                old(self).log_file_path
            },
            final(self).enable_metrics == other.enable_metrics,
    {
        self.enabled = other.enabled;
        self.log_level = other.log_level;
        self.log_to_file = other.log_to_file;
        if other.log_file_path.is_some() {
            self.log_file_path = other.log_file_path;
        }
        self.enable_metrics = other.enable_metrics;
    }
}

/// Where commands may run.
#[derive(Debug, Clone)]
pub struct SecurityConfig {
    /// Commands cannot leave this directory (`None`: no restriction).
    pub sandbox_root: Option<std::path::PathBuf>,
    /// The sandbox holds for the main agent too, not only for workers.
    pub sandbox_all: bool,
    /// Leaving the sandbox may be confirmed by the user.
    pub allow_escalation: bool,
}

impl Default for SecurityConfig {
    fn default() -> (r: Self)
        ensures
            r.sandbox_root is None,
            r.sandbox_all,
            !r.allow_escalation,
    {
        SecurityConfig { sandbox_root: None, sandbox_all: true, allow_escalation: false }
    }
}

impl SecurityConfig {
    /// Takes the other settings; its sandbox root only where it has one.
    pub fn merge(&mut self, other: Self)
        ensures
            final(self).sandbox_root == if other.sandbox_root is Some {
                other.sandbox_root
            } else {
                old(self).sandbox_root
            },
            final(self).sandbox_all == other.sandbox_all,
            final(self).allow_escalation == other.allow_escalation,
    {
        if other.sandbox_root.is_some() {
            self.sandbox_root = other.sandbox_root;
        }
        self.sandbox_all = other.sandbox_all;
        self.allow_escalation = other.allow_escalation;
    }

    /// A sandbox root is set.
    pub fn sandbox_enabled(&self) -> (r: bool)
        ensures
            r == self.sandbox_root is Some,
    {
        self.sandbox_root.is_some()
    }

    /// The sandbox that holds for workers or for the main agent: the root,
    /// for the main agent only where the sandbox holds for everyone.
    pub fn effective_sandbox(&self, for_workers: bool) -> (r: Option<&std::path::PathBuf>)
        ensures
            match r {
                Some(p) => self.sandbox_root == Some(*p) && (for_workers || self.sandbox_all),
                None => self.sandbox_root is None || (!for_workers && !self.sandbox_all),
            },
    {
        match &self.sandbox_root {
            None => None,
            Some(p) => {
                if !for_workers && !self.sandbox_all {
                    None
                } else {
                    Some(p)
                }
            },
        }
    }
}

/// A summary of a past session.
#[derive(Debug, Clone)]
pub struct SessionSummary {
    pub timestamp: i64,
    pub topic: String,
    pub key_points: Vec<String>,
}

/// What the assistant knows of its user; it grows with the interactions.
#[derive(Debug, Clone)]
pub struct UserProfile {
    /// Preferences (response style and the like), by name.
    pub preferences: StringMap,
    /// Known facts, by name.
    pub facts: StringMap,
    /// Detected habits, each once.
    pub patterns: Vec<String>,
    /// Active goals, each once.
    pub active_goals: Vec<String>,
    /// Summaries of the most recent sessions (at most 10 kept).
    pub session_summaries: Vec<SessionSummary>,
}

/// "key: value" for each entry, in order.
pub open spec fn entry_lines(entries: Seq<(String, String)>) -> Seq<Seq<char>> {
    entries.map_values(|e: (String, String)| e.0@ + ": "@ + e.1@)
}

/// A titled bullet list: "Title:\n- a\n- b".
pub open spec fn bullet_section(title: Seq<char>, items: Seq<Seq<char>>) -> Seq<char> {
    title + ":\n- "@ + join_seq(items, "\n- "@)
}

/// The non-empty sections of a profile, in order: preferences, facts,
/// patterns, goals.
pub open spec fn profile_sections(p: UserProfile) -> Seq<Seq<char>> {
    (if p.preferences@.len() > 0 {
        seq![bullet_section("Preferences"@, entry_lines(p.preferences@))]
    } else {
        Seq::empty()
    }) + (if p.facts@.len() > 0 {
        seq![bullet_section("Known Facts"@, entry_lines(p.facts@))]
    } else {
        Seq::empty()
    }) + (if p.patterns@.len() > 0 {
        seq![bullet_section("Behavioral Patterns"@, views(p.patterns@))]
    } else {
        Seq::empty()
    }) + (if p.active_goals@.len() > 0 {
        seq![bullet_section("Active Goals"@, views(p.active_goals@))]
    } else {
        Seq::empty()
    })
}

/// The profile holds nothing.
pub open spec fn profile_is_empty(p: UserProfile) -> bool {
    &&& p.preferences@.len() == 0
    &&& p.facts@.len() == 0
    &&& p.patterns@.len() == 0
    &&& p.active_goals@.len() == 0
    &&& p.session_summaries@.len() == 0
}

/// The profile as the prompt shows it: nothing for an empty profile, else
/// a "## User Profile" heading over its sections.
pub open spec fn profile_prompt(p: UserProfile) -> Seq<char> {
    if profile_is_empty(p) {
        Seq::empty()
    } else {
        "## User Profile\n\n"@ + join_seq(profile_sections(p), "\n\n"@) + "\n"@
    }
}

/// `items` without the occurrences of `x`, order kept.
pub open spec fn without(items: Seq<Seq<char>>, x: Seq<char>) -> Seq<Seq<char>>
    decreases items.len(),
{
    if items.len() == 0 {
        items
    } else {
        let init = without(items.drop_last(), x);
        if items.last() == x {
            init
        } else {
            init.push(items.last())
        }
    }
}

/// The summaries after one more is added: at most the last 10 are kept
/// (from at most 10 before).
pub open spec fn summaries_after(old_list: Seq<SessionSummary>, s: SessionSummary) -> Seq<
    SessionSummary,
> {
    let l = old_list.push(s);
    if l.len() > 10 {
        l.drop_first()
    } else {
        l
    }
}

fn entry_line_strings(m: &StringMap) -> (r: Vec<String>)
    requires
        m.wf(),
    ensures
        views(r@) == entry_lines(m@),
{
    let mut out: Vec<String> = Vec::new();
    let mut i: usize = 0;
    while i < m.len()
        invariant
            i <= m@.len(),
            m.wf(),
            views(out@) == entry_lines(m@).take(i as int),
        decreases m@.len() - i,
    {
        let k = m.key_at(i);
        let v = m.value_at(i);
        let mut line = concat(k.as_str(), ": ");
        push_str(&mut line, v.as_str());
        let ghost before = views(out@);
        out.push(line);
        assert(views(out@) =~= entry_lines(m@).take(i + 1)) by {
            assert(views(out@) =~= before.push(line@));
            assert(entry_lines(m@).take(i + 1) =~= entry_lines(m@).take(i as int).push(
                entry_lines(m@)[i as int],
            ));
        }
        i += 1;
    }
    assert(entry_lines(m@).take(i as int) =~= entry_lines(m@));
    out
}

fn section(title: &str, items: &Vec<String>) -> (r: String)
    ensures
        r@ == bullet_section(title@, views(items@)),
{
    let mut s = concat(title, ":\n- ");
    let body = join(items, "\n- ");
    push_str(&mut s, body.as_str());
    s
}

impl UserProfile {
    /// Well-formedness: the preference and fact maps have distinct names.
    pub open spec fn wf(&self) -> bool {
        self.preferences.wf() && self.facts.wf()
    }

    /// An empty profile.
    pub fn new() -> (r: Self)
        ensures
            r.wf(),
            profile_is_empty(r),
    {
        UserProfile {
            preferences: NamedMap::new(),
            facts: NamedMap::new(),
            patterns: Vec::new(),
            active_goals: Vec::new(),
            session_summaries: Vec::new(),
        }
    }

    /// The profile holds nothing.
    pub fn is_empty(&self) -> (r: bool)
        ensures
            r == profile_is_empty(*self),
    {
        self.preferences.is_empty() && self.facts.is_empty() && self.patterns.len() == 0
            && self.active_goals.len() == 0 && self.session_summaries.len() == 0
    }

    /// Formats the profile for the prompt.
    pub fn format_for_prompt(&self) -> (r: String)
        requires
            self.wf(),
        ensures
            r@ == profile_prompt(*self),
    {
        if self.is_empty() {
            return String::new();
        }
        let mut sections: Vec<String> = Vec::new();
        let ghost mut expected: Seq<Seq<char>> = Seq::empty();
        if !self.preferences.is_empty() {
            let lines = entry_line_strings(&self.preferences);
            sections.push(section("Preferences", &lines));
        }
        assert(views(sections@) =~= (if self.preferences@.len() > 0 {
            seq![bullet_section("Preferences"@, entry_lines(self.preferences@))]
        } else {
            Seq::<Seq<char>>::empty()
        }));
        let ghost s1 = views(sections@);
        if !self.facts.is_empty() {
            let lines = entry_line_strings(&self.facts);
            sections.push(section("Known Facts", &lines));
        }
        assert(views(sections@) =~= s1 + (if self.facts@.len() > 0 {
            seq![bullet_section("Known Facts"@, entry_lines(self.facts@))]
        } else {
            Seq::<Seq<char>>::empty()
        }));
        let ghost s2 = views(sections@);
        if self.patterns.len() > 0 {
            sections.push(section("Behavioral Patterns", &self.patterns));
        }
        assert(views(sections@) =~= s2 + (if self.patterns@.len() > 0 {
            seq![bullet_section("Behavioral Patterns"@, views(self.patterns@))]
        } else {
            Seq::<Seq<char>>::empty()
        }));
        let ghost s3 = views(sections@);
        if self.active_goals.len() > 0 {
            sections.push(section("Active Goals", &self.active_goals));
        }
        assert(views(sections@) =~= s3 + (if self.active_goals@.len() > 0 {
            seq![bullet_section("Active Goals"@, views(self.active_goals@))]
        } else {
            Seq::<Seq<char>>::empty()
        }));
        assert(views(sections@) =~= profile_sections(*self));
        let body = join(&sections, "\n\n");
        let mut r = to_owned("## User Profile\n\n");
        push_str(&mut r, body.as_str());
        push_str(&mut r, "\n");
        r
    }

    /// Adds or replaces a preference.
    pub fn set_preference(&mut self, key: String, value: String)
        requires
            old(self).wf(),
        ensures
            final(self).wf(),
            crate::named_map::lookup(final(self).preferences@, key@) == Some(value),
            forall|k: Seq<char>|
                k != key@ ==> crate::named_map::lookup(final(self).preferences@, k)
                    == crate::named_map::lookup(old(self).preferences@, k),
            final(self).facts == old(self).facts,
            final(self).patterns == old(self).patterns,
            final(self).active_goals == old(self).active_goals,
            final(self).session_summaries == old(self).session_summaries,
    {
        self.preferences.insert(key, value);
    }

    /// Adds or replaces a fact.
    pub fn set_fact(&mut self, key: String, value: String)
        requires
            old(self).wf(),
        ensures
            final(self).wf(),
            crate::named_map::lookup(final(self).facts@, key@) == Some(value),
            forall|k: Seq<char>|
                k != key@ ==> crate::named_map::lookup(final(self).facts@, k)
                    == crate::named_map::lookup(old(self).facts@, k),
            final(self).preferences == old(self).preferences,
            final(self).patterns == old(self).patterns,
            final(self).active_goals == old(self).active_goals,
            final(self).session_summaries == old(self).session_summaries,
    {
        self.facts.insert(key, value);
    }

    /// Adds a pattern unless it is already there.
    pub fn add_pattern(&mut self, pattern: String)
        ensures
            views(final(self).patterns@) == if views(old(self).patterns@).contains(pattern@) {
                views(old(self).patterns@)
            } else {
                views(old(self).patterns@).push(pattern@)
            },
            final(self).preferences == old(self).preferences,
            final(self).facts == old(self).facts,
            final(self).active_goals == old(self).active_goals,
            final(self).session_summaries == old(self).session_summaries,
    {
        if !contains_string(&self.patterns, pattern.as_str()) {
            let ghost before = views(self.patterns@);
            self.patterns.push(pattern);
            assert(views(self.patterns@) =~= before.push(pattern@));
        }
    }

    /// Adds a goal unless it is already there.
    pub fn add_goal(&mut self, goal: String)
        ensures
            views(final(self).active_goals@) == if views(old(self).active_goals@).contains(
                goal@,
            ) {
                views(old(self).active_goals@)
            } else {
                views(old(self).active_goals@).push(goal@)
            },
            final(self).preferences == old(self).preferences,
            final(self).facts == old(self).facts,
            final(self).patterns == old(self).patterns,
            final(self).session_summaries == old(self).session_summaries,
    {
        if !contains_string(&self.active_goals, goal.as_str()) {
            let ghost before = views(self.active_goals@);
            self.active_goals.push(goal);
            assert(views(self.active_goals@) =~= before.push(goal@));
        }
    }

    /// Removes every occurrence of a goal.
    pub fn complete_goal(&mut self, goal: &str)
        ensures
            views(final(self).active_goals@) == without(views(old(self).active_goals@), goal@),
            final(self).preferences == old(self).preferences,
            final(self).facts == old(self).facts,
            final(self).patterns == old(self).patterns,
            final(self).session_summaries == old(self).session_summaries,
    {
        let mut kept: Vec<String> = Vec::new();
        let mut i: usize = 0;
        let ghost all = views(self.active_goals@);
        while i < self.active_goals.len()
            invariant
                i <= self.active_goals.len(),
                all == views(self.active_goals@),
                views(kept@) == without(all.take(i as int), goal@),
            decreases self.active_goals.len() - i,
        {
            assert(all.take(i + 1).drop_last() =~= all.take(i as int));
            assert(all.take(i + 1).last() == self.active_goals@[i as int]@);
            if !str_eq(self.active_goals[i].as_str(), goal) {
                let ghost before = views(kept@);
                kept.push(self.active_goals[i].clone());
                assert(views(kept@) =~= before.push(self.active_goals@[i as int]@));
            }
            i += 1;
        }
        assert(all.take(i as int) =~= all);
        self.active_goals = kept;
    }

    /// Adds a session summary, keeping the last 10.
    pub fn add_session_summary(&mut self, summary: SessionSummary)
        ensures
            final(self).session_summaries@ == summaries_after(
                old(self).session_summaries@,
                summary,
            ),
            final(self).preferences == old(self).preferences,
            final(self).facts == old(self).facts,
            final(self).patterns == old(self).patterns,
            final(self).active_goals == old(self).active_goals,
    {
        self.session_summaries.push(summary);
        if self.session_summaries.len() > 10 {
            self.session_summaries.remove(0);
        }
    }
}

/// Adding a pattern twice is adding it once, and a pattern list without
/// repeats keeps none.
pub proof fn lemma_add_pattern_idempotent(patterns: Seq<Seq<char>>, p: Seq<char>)
    ensures
        ({
            let once = if patterns.contains(p) {
                patterns
            } else {
                patterns.push(p)
            };
            let twice = if once.contains(p) {
                once
            } else {
                once.push(p)
            };
            &&& once.contains(p)
            &&& twice == once
            &&& patterns.no_duplicates() ==> once.no_duplicates()
        }),
{
    let once = if patterns.contains(p) {
        patterns
    } else {
        patterns.push(p)
    };
    if !patterns.contains(p) {
        assert(once[patterns.len() as int] == p);
    }
}

/// A completed goal is gone, and every other goal stays.
pub proof fn lemma_complete_goal_removes(goals: Seq<Seq<char>>, g: Seq<char>)
    ensures
        !without(goals, g).contains(g),
        forall|x: Seq<char>| x != g ==> (goals.contains(x) <==> without(goals, g).contains(x)),
    decreases goals.len(),
{
    if goals.len() > 0 {
        let init = goals.drop_last();
        lemma_complete_goal_removes(init, g);
        assert forall|x: Seq<char>| x != g implies (goals.contains(x) <==> without(
            goals,
            g,
        ).contains(x)) by {
            if goals.contains(x) {
                let i = choose|i: int| 0 <= i < goals.len() && goals[i] == x;
                if i < goals.len() - 1 {
                    assert(init[i] == x);
                    assert(init.contains(x));
                    assert(without(init, g).contains(x));
                    let j = choose|j: int| 0 <= j < without(init, g).len() && without(init, g)[j]
                        == x;
                    assert(without(goals, g)[j] == x);
                } else {
                    assert(without(goals, g).last() == x);
                }
            }
            if without(goals, g).contains(x) {
                let j = choose|j: int| 0 <= j < without(goals, g).len() && without(goals, g)[j]
                    == x;
                if j < without(init, g).len() {
                    assert(without(init, g)[j] == x);
                    assert(without(init, g).contains(x));
                    assert(init.contains(x));
                    let i = choose|i: int| 0 <= i < init.len() && init[i] == x;
                    assert(goals[i] == init[i]);
                } else {
                    assert(goals.last() == x);
                    assert(goals[goals.len() - 1] == x);
                }
            }
        }
        if without(goals, g).contains(g) {
            let j = choose|j: int| 0 <= j < without(goals, g).len() && without(goals, g)[j] == g;
            if j < without(init, g).len() {
                assert(without(init, g)[j] == g);
            }
        }
    }
}

/// At most 10 session summaries are kept.
pub proof fn lemma_summaries_bounded(old_list: Seq<SessionSummary>, s: SessionSummary)
    requires
        old_list.len() <= 10,
    ensures
        summaries_after(old_list, s).len() <= 10,
        summaries_after(old_list, s).last() == s,
{
}

/// What a `u32` setting's text gives: its value when it parses as an
/// unsigned number that fits in `u32`.
pub open spec fn parse_u32_spec(s: Seq<char>) -> Option<u32> {
    match parse_usize_spec(s) {
        Some(n) => if n <= u32::MAX {
            Some(n as u32)
        } else {
            None
        },
        None => None,
    }
}

/// A boolean setting is on when its text, lowercased, is `true`.
pub open spec fn flag_setting(s: Seq<char>) -> bool {
    lowercase(s) == "true"@
}

/// Settings taken from the environment (`MYLM_MAX_STEPS`, `MYLM_MODEL`,
/// `MYLM_REQUIRE_APPROVAL`, `MYLM_MAX_RETRIES`, `MYLM_MEMORY_ENABLED`); the
/// caller reads the variables.
pub struct EnvConfig;

/// The settings that the environment overrides; `None` leaves one as it is.
#[derive(Debug, Clone)]
pub struct AgentEnvOverrides {
    pub max_steps: Option<usize>,
    pub model: Option<String>,
    pub require_approval: Option<bool>,
    pub max_retries: Option<u32>,
    pub memory_enabled: Option<bool>,
}

impl EnvConfig {
    /// The overrides given by the variables' values (`None` where a variable
    /// is unset): numbers that do not parse are ignored, a flag is on only
    /// for `true` in any case, and the model is taken as it is.
    pub fn overrides(
        max_steps: Option<String>,
        model: Option<String>,
        require_approval: Option<String>,
        max_retries: Option<String>,
        memory_enabled: Option<String>,
    ) -> (r: AgentEnvOverrides)
        ensures
            r.max_steps == match max_steps {
                Some(v) => match parse_usize_spec(v@) {
                    Some(n) => Some(n as usize),
                    None => None,
                },
                None => None::<usize>,
            },
            r.model == model,
            r.require_approval == match require_approval {
                Some(v) => Some(flag_setting(v@)),
                None => None::<bool>,
            },
            r.max_retries == match max_retries {
                Some(v) => parse_u32_spec(v@),
                None => None::<u32>,
            },
            r.memory_enabled == match memory_enabled {
                Some(v) => Some(flag_setting(v@)),
                None => None::<bool>,
            },
    {
        let max_steps = match max_steps {
            Some(v) => parse_usize(v.as_str()),
            None => None,
        };
        let require_approval = match require_approval {
            Some(v) => Some(Self::flag(v.as_str())),
            None => None,
        };
        let max_retries = match max_retries {
            Some(v) => match parse_usize(v.as_str()) {
                Some(n) => if n <= u32::MAX as usize {
                    Some(n as u32)
                } else {
                    None
                },
                None => None,
            },
            None => None,
        };
        let memory_enabled = match memory_enabled {
            Some(v) => Some(Self::flag(v.as_str())),
            None => None,
        };
        AgentEnvOverrides { max_steps, model, require_approval, max_retries, memory_enabled }
    }

    /// Whether a flag's text is `true` in any case.
    fn flag(v: &str) -> (r: bool)
        ensures
            r == flag_setting(v@),
    {
        let l = to_lowercase(v);
        str_eq(l.as_str(), "true")
    }
}

} // verus!
