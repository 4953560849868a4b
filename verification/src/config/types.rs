//! Core configuration types: providers, search providers, permissions for
//! tools and worker shells, and the agent loop version.

use vstd::prelude::*;
use crate::text::{owned_strings, str_views, to_owned, views};

verus! {

/// LLM provider. Each provider has a default base URL and authentication method.
#[derive(Clone, Copy, Debug, PartialEq, Eq, Structural)]
pub enum Provider {
    /// OpenAI API (GPT models).
    Openai,
    /// Google Gemini API.
    Google,
    /// Ollama (local models), no API key required.
    Ollama,
    /// OpenRouter (unified API for multiple providers).
    Openrouter,
    /// Kimi (Moonshot AI).
    Kimi,
    /// Custom provider with a user-specified URL.
    Custom,
}

/// The default base URL of each provider (empty for a custom one).
pub open spec fn provider_default_url(p: Provider) -> Seq<char> {
    match p {
        Provider::Openai => "https://api.openai.com/v1"@,
        Provider::Google => "https://generativelanguage.googleapis.com"@,
        Provider::Ollama => "http://localhost:11434/v1"@,
        Provider::Openrouter => "https://openrouter.ai/api/v1"@,
        Provider::Kimi => "https://api.moonshot.cn/v1"@,
        Provider::Custom => ""@,
    }
}

impl Default for Provider {
    fn default() -> (r: Self)
        ensures
            r == Provider::Openai,
    {
        Provider::Openai
    }
}

impl Provider {
    /// Get default URL for this provider.
    pub fn default_url(&self) -> (r: String)
        ensures
            r@ == provider_default_url(*self),
    {
        match self {
            Provider::Openai => to_owned("https://api.openai.com/v1"),
            Provider::Google => to_owned("https://generativelanguage.googleapis.com"),
            Provider::Ollama => to_owned("http://localhost:11434/v1"),
            Provider::Openrouter => to_owned("https://openrouter.ai/api/v1"),
            Provider::Kimi => to_owned("https://api.moonshot.cn/v1"),
            Provider::Custom => to_owned(""),
        }
    }
}

/// Web search provider.
#[derive(Clone, Copy, Debug, PartialEq, Eq, Structural)]
pub enum SearchProvider {
    /// Kimi (Moonshot AI) built-in web search.
    Kimi,
    /// SerpApi (Google/Bing search results).
    Serpapi,
    /// Brave Search API.
    Brave,
}

impl Default for SearchProvider {
    fn default() -> (r: Self)
        ensures
            r == SearchProvider::Serpapi,
    {
        SearchProvider::Serpapi
    }
}

/// How a worker's restricted commands are handled.
#[derive(Clone, Copy, Debug, PartialEq, Eq, Structural)]
pub enum EscalationMode {
    /// Escalate to the main agent for approval.
    EscalateToMain,
    /// Block restricted commands (no escalation).
    BlockRestricted,
    /// Allow all commands (debugging only).
    AllowAll,
}

impl EscalationMode {
    /// The display name of the mode.
    pub fn to_string(&self) -> (r: String)
        ensures
            r@ == match *self {
                EscalationMode::EscalateToMain => "EscalateToMain"@,
                EscalationMode::BlockRestricted => "BlockRestricted"@,
                EscalationMode::AllowAll => "AllowAll"@,
            },
    {
        match self {
            EscalationMode::EscalateToMain => to_owned("EscalateToMain"),
            EscalationMode::BlockRestricted => to_owned("BlockRestricted"),
            EscalationMode::AllowAll => to_owned("AllowAll"),
        }
    }
}

/// Tool and command permissions of the agent.
#[derive(Clone, Debug)]
pub struct AgentPermissions {
    /// Allowed tool names; `None` or empty allows every tool.
    pub allowed_tools: Option<Vec<String>>,
    /// Command patterns (glob: `*` any characters, `?` one character) that are
    /// approved without confirmation.
    pub auto_approve_commands: Option<Vec<String>>,
    /// Command patterns that are forbidden unless explicitly confirmed; they take
    /// precedence over the auto-approved ones.
    pub forbidden_commands: Option<Vec<String>>,
    /// Worker shell permissions (for background workers).
    pub worker_shell: Option<WorkerShellConfig>,
}

impl Default for AgentPermissions {
    fn default() -> (r: Self)
        ensures
            r.allowed_tools is None,
            r.auto_approve_commands is None,
            r.forbidden_commands is None,
            r.worker_shell is None,
    {
        AgentPermissions {
            allowed_tools: None,
            auto_approve_commands: None,
            forbidden_commands: None,
            worker_shell: None,
        }
    }
}

/// Worker shell command permissions as configured.
#[derive(Clone, Debug)]
pub struct WorkerShellConfig {
    /// Commands allowed without escalation.
    pub allowed_patterns: Option<Vec<String>>,
    /// Commands requiring escalation to the main agent.
    pub restricted_patterns: Option<Vec<String>>,
    /// Commands always forbidden.
    pub forbidden_patterns: Option<Vec<String>>,
    /// How restricted commands are handled.
    pub escalation_mode: Option<EscalationMode>,
}

impl Default for WorkerShellConfig {
    fn default() -> (r: Self)
        ensures
            r.allowed_patterns is None,
            r.restricted_patterns is None,
            r.forbidden_patterns is None,
            r.escalation_mode is None,
    {
        WorkerShellConfig {
            allowed_patterns: None,
            restricted_patterns: None,
            forbidden_patterns: None,
            escalation_mode: None,
        }
    }
}

/// The harmless commands a worker may run by default.
pub open spec fn default_allowed_commands() -> Seq<Seq<char>> {
    seq![
        "ls *"@, "cat *"@, "head *"@, "tail *"@, "pwd"@, "echo *"@, "sleep *"@, "date"@,
        "which *"@, "git status*"@, "git log*"@, "git diff*"@, "git branch*"@,
        "cargo check*"@, "cargo build*"@, "cargo test*"@,
    ]
}

/// The potentially harmful commands that need escalation by default.
pub open spec fn default_restricted_commands() -> Seq<Seq<char>> {
    seq![
        "rm *"@, "mv *"@, "cp *"@, "curl *"@, "wget *"@, "ssh *"@, "scp *"@, "git push*"@,
        "git reset*"@, "npm publish*"@,
    ]
}

impl WorkerShellConfig {
    /// Get default allowed patterns (harmless commands).
    pub fn default_allowed() -> (r: Vec<String>)
        ensures
            views(r@) == default_allowed_commands(),
    {
        let v: Vec<&str> = vec![
            "ls *", "cat *", "head *", "tail *", "pwd", "echo *", "sleep *", "date", "which *",
            "git status*", "git log*", "git diff*", "git branch*", "cargo check*",
            "cargo build*", "cargo test*",
        ];
        let r = owned_strings(&v);
        assert(str_views(v@) =~= default_allowed_commands());
        r
    }

    /// Get default restricted patterns (potentially harmful).
    pub fn default_restricted() -> (r: Vec<String>)
        ensures
            views(r@) == default_restricted_commands(),
    {
        let v: Vec<&str> = vec![
            "rm *", "mv *", "cp *", "curl *", "wget *", "ssh *", "scp *", "git push*",
            "git reset*", "npm publish*",
        ];
        let r = owned_strings(&v);
        assert(str_views(v@) =~= default_restricted_commands());
        r
    }
}

/// Which agent loop runs.
#[derive(Clone, Copy, Debug, PartialEq, Eq, Structural)]
pub enum AgentVersion {
    /// Classic ReAct loop.
    V1,
    /// Multi-layered cognitive architecture.
    V2,
}

impl Default for AgentVersion {
    fn default() -> (r: Self)
        ensures
            r == AgentVersion::V2,
    {
        AgentVersion::V2
    }
}

impl AgentVersion {
    /// The display name of the version.
    pub fn to_string(&self) -> (r: String)
        ensures
            r@ == match *self {
                AgentVersion::V1 => "V1 (Classic ReAct)"@,
                AgentVersion::V2 => "V2 (Cognitive Submodule)"@,
            },
    {
        match self {
            AgentVersion::V1 => to_owned("V1 (Classic ReAct)"),
            AgentVersion::V2 => to_owned("V2 (Cognitive Submodule)"),
        }
    }
}

} // verus!
