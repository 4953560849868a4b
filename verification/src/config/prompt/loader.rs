//! Loading prompt configurations: built-in defaults, a per-loader cache, and
//! the names that can be loaded. Reading and writing files is left to the
//! caller, which hands the outcome of a file read to `load_with_file`.

use vstd::prelude::*;
use crate::config::prompt_schema::{
    clone_opt_map, clone_opt_strings, config_view, ConfigView, IdentitySection, JsonKeys, PromptConfig,
    Protocols, ProtocolsView, Section, SectionView, section_view, string_map_view,
};
use crate::named_map::{lookup, NamedMap};
use crate::text::{clone_opt_string, concat, contains_string, str_eq, to_owned, views};

verus! {

#[verifier::external_type_specification]
#[verifier::external_body]
pub struct ExPathBuf(std::path::PathBuf);

/// Error of a prompt loading operation.
#[derive(Clone, Debug)]
pub enum PromptLoaderError {
    ReadError(String),
    ParseError(String),
    NotFound(String),
}

impl PromptLoaderError {
    /// The error message.
    pub fn to_string(&self) -> (r: String)
        ensures
            r@ == match *self {
                PromptLoaderError::ReadError(m) => "Failed to read prompt file: "@ + m@,
                PromptLoaderError::ParseError(m) => "Failed to parse prompt JSON: "@ + m@,
                PromptLoaderError::NotFound(m) => "Prompt not found: "@ + m@,
            },
    {
        match self {
            PromptLoaderError::ReadError(m) => concat("Failed to read prompt file: ", m.as_str()),
            PromptLoaderError::ParseError(m) => concat("Failed to parse prompt JSON: ", m.as_str()),
            PromptLoaderError::NotFound(m) => concat("Prompt not found: ", m.as_str()),
        }
    }
}

/// The error text when no built-in configuration has a name.
pub open spec fn not_found_message(name: Seq<char>) -> Seq<char> {
    "Builtin prompt '"@ + name + "' not found. Available: system, minimal, worker"@
}

/// A section with fixed text.
pub open spec fn text_section(id: Seq<char>, title: Seq<char>, content: Seq<char>, priority: u32) -> SectionView {
    SectionView {
        id,
        title,
        content: Some(content),
        dynamic: Some(false),
        generator: None,
        priority: Some(priority),
        conditions: None,
    }
}

/// The generated tools section, at priority 3.
pub open spec fn tools_section_view() -> SectionView {
    SectionView {
        id: "tools"@,
        title: "Available Tools"@,
        content: None,
        dynamic: Some(true),
        generator: Some("tools"@),
        priority: Some(3),
        conditions: None,
    }
}

/// The Short-Key field names `t`, `a`, `i`, `f`, with no ReAct description.
pub open spec fn short_key_protocols() -> ProtocolsView {
    ProtocolsView { react: None, json_keys: Some((Some("t"@), Some("a"@), Some("i"@), Some("f"@))) }
}

/// The built-in `system` configuration.
pub open spec fn system_view() -> ConfigView {
    ConfigView {
        version: "2.0"@,
        name: "MYLM"@,
        description: "Versatile AI assistant with tool capabilities and parallel execution"@,
        capabilities: Some(seq!["conversation"@, "tool_use"@, "file_operations"@, "web_search"@, "parallel_execution"@, "task_delegation"@]),
        sections: seq![
            text_section("identity"@, "Identity"@, SYSTEM_IDENTITY_TEXT@, 1),
            text_section("response_format"@, "Response Format: SHORT-KEY JSON (MANDATORY)"@, SYSTEM_RESPONSE_FORMAT_TEXT@, 2),
            tools_section_view(),
            text_section("workflow"@, "Your Approach"@, SYSTEM_WORKFLOW_TEXT@, 4),
            text_section("context"@, "Current Context"@, SYSTEM_CONTEXT_TEXT@, 5),
            text_section("begin"@, "Begin"@, SYSTEM_BEGIN_TEXT@, 100),
        ],
        placeholders: Some(map!["datetime"@ => "{datetime}"@, "working_directory"@ => "{working_directory}"@, "mode"@ => "{mode}"@]),
        protocols: Some(short_key_protocols()),
        variables: None,
        raw_content: None,
    }
}

/// The built-in `minimal` configuration.
pub open spec fn minimal_view() -> ConfigView {
    ConfigView {
        version: "1.0"@,
        name: "MYLM"@,
        description: "Autonomous AI assistant"@,
        capabilities: None,
        sections: seq![
            text_section("identity"@, "Identity"@, MINIMAL_IDENTITY_TEXT@, 1),
            text_section("response_format"@, "Response Format"@, MINIMAL_RESPONSE_FORMAT_TEXT@, 2),
            tools_section_view(),
        ],
        placeholders: Some(map!["tools"@ => "Generated tools section"@]),
        protocols: Some(short_key_protocols()),
        variables: None,
        raw_content: None,
    }
}

/// The built-in `worker` configuration.
pub open spec fn worker_view() -> ConfigView {
    ConfigView {
        version: "2.0"@,
        name: "MYLM Worker"@,
        description: "Specialized worker agent for parallel task execution"@,
        capabilities: None,
        sections: seq![
            text_section("identity"@, "Worker Agent"@, WORKER_IDENTITY_TEXT@, 1),
            text_section("response_format"@, "Response Format"@, WORKER_RESPONSE_FORMAT_TEXT@, 2),
            tools_section_view(),
            text_section("begin"@, "Begin"@, WORKER_BEGIN_TEXT@, 100),
        ],
        placeholders: Some(map!["tools"@ => "{tools}"@]),
        protocols: Some(short_key_protocols()),
        variables: None,
        raw_content: None,
    }
}

/// The built-in configuration of a name (`system`, `minimal`, `worker`).
pub open spec fn builtin_view(name: Seq<char>) -> Option<ConfigView> {
    if name == "system"@ {
        Some(system_view())
    } else if name == "minimal"@ {
        Some(minimal_view())
    } else if name == "worker"@ {
        Some(worker_view())
    } else {
        None
    }
}

/// The names of the built-in configurations.
pub open spec fn builtin_names() -> Seq<Seq<char>> {
    seq!["system"@, "minimal"@, "worker"@]
}

/// `dirs::config_dir`: the user's configuration directory, which depends on
/// the platform and the environment; nothing is stated of it.
#[verifier::external_body]
pub(crate) fn user_config_dir() -> (r: Option<std::path::PathBuf>) {
    dirs::config_dir()
}

/// `Path::join`: the path with one more component; nothing is stated of it.
#[verifier::external_body]
pub(crate) fn join_path(base: &std::path::PathBuf, part: &str) -> (r: std::path::PathBuf) {
    base.join(part)
}

/// `PathBuf::from` a string.
#[verifier::external_body]
pub(crate) fn path_from(s: &str) -> (r: std::path::PathBuf) {
    std::path::PathBuf::from(s)
}

/// A copy of a configuration, field for field.
pub fn clone_config(c: &PromptConfig) -> (r: PromptConfig)
    ensures
        config_view(r) == config_view(*c),
{
    let mut sections: Vec<Section> = Vec::new();
    let mut i: usize = 0;
    while i < c.sections.len()
        invariant
            i <= c.sections.len(),
            sections@.map_values(|s: Section| section_view(s)) == c.sections@.take(i as int).map_values(
                |s: Section| section_view(s),
            ),
        decreases c.sections.len() - i,
    {
        let ghost before = sections@;
        let sc = c.sections[i].copy();
        sections.push(sc);
        proof {
            assert(c.sections@.take(i + 1) =~= c.sections@.take(i as int).push(c.sections@[i as int]));
            assert(sections@.map_values(|s: Section| section_view(s)) =~= before.map_values(
                |s: Section| section_view(s),
            ).push(section_view(sc)));
            assert(c.sections@.take(i + 1).map_values(|s: Section| section_view(s)) =~= c.sections@.take(
                i as int,
            ).map_values(|s: Section| section_view(s)).push(section_view(c.sections@[i as int])));
        }
        i += 1;
    }
    assert(c.sections@.take(c.sections.len() as int) =~= c.sections@);
    let r = PromptConfig {
        version: c.version.clone(),
        identity: IdentitySection {
            name: c.identity.name.clone(),
            description: c.identity.description.clone(),
            capabilities: clone_opt_strings(&c.identity.capabilities),
        },
        sections,
        placeholders: clone_opt_map(&c.placeholders),
        protocols: match &c.protocols {
            Some(p) => Some(p.copy()),
            None => None,
        },
        variables: clone_opt_map(&c.variables),
        raw_content: clone_opt_string(&c.raw_content),
    };
    assert(config_view(r) =~= config_view(*c));
    r
}

/// Built-in section text.
pub const SYSTEM_IDENTITY_TEXT: &'static str = "You are MYLM, a versatile AI assistant. You help users across any domain - coding, writing, analysis, research, system administration, creative tasks, and more.\n\n\
                    You have access to tools and can spawn worker agents for parallel execution when beneficial. Adapt your approach to the user's specific needs.";

/// Built-in section text.
pub const SYSTEM_RESPONSE_FORMAT_TEXT: &'static str = "CRITICAL: You MUST respond ONLY with JSON. NO conversational text. NO markdown outside JSON.\n\n\
                    ## Short-Key Fields\n\
                    - `t`: Thought/reasoning (optional)\n\
                    - `f`: Final answer to user - chat only, no action (use this to chat!)\n\
                    - `a`: Action/tool name to execute (use this to call tools!)\n\
                    - `i`: Input arguments for the action (optional JSON object)\n\
                    - `c`: Confirm flag - chat first, wait for approval (optional, default false)\n\n\
                    ## Rules\n\
                    1. ALL output MUST be valid JSON\n\
                    2. To chat only: {\"f\": \"your message\"}\n\
                    3. To act immediately: {\"t\": \"reasoning\", \"a\": \"tool_name\", \"i\": {args}}\n\
                    4. To chat first, act after approval: {\"t\": \"reasoning\", \"c\": true, \"a\": \"tool_name\", \"i\": {args}}\n\
                    5. NEVER say \"I'll\" or \"Let me\" outside JSON - use {\"f\": \"I'll help\"} instead\n\n\
                    ## Examples\n\
                    Chat only:\n\
                    ```json\n\
                    {\"f\": \"Hello! How can I help you today?\"}\n\
                    ```\n\
                    Execute command:\n\
                    ```json\n\
                    {\"t\": \"User wants to see files\", \"a\": \"shell\", \"i\": {\"command\": \"ls -la\"}}\n\
                    ```\n\
                    Confirm before acting:\n\
                    ```json\n\
                    {\"t\": \"I can help with that. Should I proceed?\", \"c\": true, \"a\": \"delegate\", \"i\": {\"objective\": \"Process user request\", \"workers\": 2}}\n\
                    ```";

/// Built-in section text.
pub const SYSTEM_WORKFLOW_TEXT: &'static str = "When the user asks you to perform a task:\n\n\
                    1. **Understand** - Listen to what the user wants\n\
                    2. **Investigate** - Use tools to gather information if needed\n\
                    3. **Propose** - Present a plan or approach to the user\n\
                    4. **Adapt** - Adjust based on user feedback\n\
                    5. **Implement** - Execute the approved approach\n\n\
                    Use the `delegate` tool to spawn parallel workers for complex multi-step tasks. Workers can operate simultaneously on different aspects of a problem.";

/// Built-in section text.
pub const SYSTEM_CONTEXT_TEXT: &'static str = "- Date/Time: {datetime}\n\
                    - Working Directory: {working_directory}\n\
                    - Mode: {mode}";

/// Built-in section text.
pub const SYSTEM_BEGIN_TEXT: &'static str = "Begin!";

/// Built-in section text.
pub const MINIMAL_IDENTITY_TEXT: &'static str = "You are MYLM, an autonomous AI assistant.";

/// Built-in section text.
pub const MINIMAL_RESPONSE_FORMAT_TEXT: &'static str = "Respond using Short-Key JSON format:\n\n\
                    - `t`: Thought/reasoning\n\
                    - `f`: Final answer to user (for chat)\n\
                    - `a`: Action/tool name (for tool calls)\n\
                    - `i`: Input arguments (for tool calls)\n\n\
                    Examples:\n\
                    {\"f\": \"Hello!\"}\n\
                    {\"t\": \"Listing files\", \"a\": \"list_files\", \"i\": {}}";

/// Built-in section text.
pub const WORKER_IDENTITY_TEXT: &'static str = "You are a Worker Agent - focused on ONE specific task assigned by the main agent.\n\n\
                    You do NOT spawn additional workers. You do NOT ask the user questions. Execute your assigned task efficiently and report results.";

/// Built-in section text.
pub const WORKER_RESPONSE_FORMAT_TEXT: &'static str = "Use Short-Key JSON format:\n\n\
                    - `t`: Brief thought (optional)\n\
                    - `a`: Tool name (when using tools)\n\
                    - `i`: Tool arguments as JSON\n\
                    - `f`: Final result ONLY\n\n\
                    Rules:\n\
                    - Be concise\n\
                    - Batch commands when possible\n\
                    - NO conversational text outside JSON\n\
                    - Complete task directly\n\n\
                    When done, respond with ONLY:\n\
                    {\"f\": \"<your final result>\"}";

/// Built-in section text.
pub const WORKER_BEGIN_TEXT: &'static str = "Begin!";

fn system_prompt_config() -> (r: PromptConfig)
    ensures
        Some(config_view(r)) == builtin_view("system"@),
{
    let mut map = NamedMap::new();
    let _ = map.insert(to_owned("datetime"), to_owned("{datetime}"));
    let _ = map.insert(to_owned("working_directory"), to_owned("{working_directory}"));
    let _ = map.insert(to_owned("mode"), to_owned("{mode}"));
    proof {
        reveal_strlit("datetime");
        reveal_strlit("working_directory");
        reveal_strlit("mode");
        reveal_strlit("tools");
    }
    let ghost mv = string_map_view(map);
    let r = PromptConfig {
        version: to_owned("2.0"),
        identity: IdentitySection {
            name: to_owned("MYLM"),
            description: to_owned("Versatile AI assistant with tool capabilities and parallel execution"),
            capabilities: Some(vec![
                to_owned("conversation"),
                to_owned("tool_use"),
                to_owned("file_operations"),
                to_owned("web_search"),
                to_owned("parallel_execution"),
                to_owned("task_delegation"),
            ]),
        },
        sections: vec![
            Section {
                id: to_owned("identity"),
                title: to_owned("Identity"),
                content: Some(to_owned(SYSTEM_IDENTITY_TEXT)),
                dynamic: Some(false),
                generator: None,
                priority: Some(1),
                conditions: None,
            },
            Section {
                id: to_owned("response_format"),
                title: to_owned("Response Format: SHORT-KEY JSON (MANDATORY)"),
                content: Some(to_owned(SYSTEM_RESPONSE_FORMAT_TEXT)),
                dynamic: Some(false),
                generator: None,
                priority: Some(2),
                conditions: None,
            },
            Section {
                id: to_owned("tools"),
                title: to_owned("Available Tools"),
                content: None,
                dynamic: Some(true),
                generator: Some(to_owned("tools")),
                priority: Some(3),
                conditions: None,
            },
            Section {
                id: to_owned("workflow"),
                title: to_owned("Your Approach"),
                content: Some(to_owned(SYSTEM_WORKFLOW_TEXT)),
                dynamic: Some(false),
                generator: None,
                priority: Some(4),
                conditions: None,
            },
            Section {
                id: to_owned("context"),
                title: to_owned("Current Context"),
                content: Some(to_owned(SYSTEM_CONTEXT_TEXT)),
                dynamic: Some(false),
                generator: None,
                priority: Some(5),
                conditions: None,
            },
            Section {
                id: to_owned("begin"),
                title: to_owned("Begin"),
                content: Some(to_owned(SYSTEM_BEGIN_TEXT)),
                dynamic: Some(false),
                generator: None,
                priority: Some(100),
                conditions: None,
            },
        ],
        placeholders: Some(map),
        protocols: Some(Protocols {
            react: None,
            json_keys: Some(JsonKeys {
                thought: Some(to_owned("t")),
                action: Some(to_owned("a")),
                input: Some(to_owned("i")),
                final_answer: Some(to_owned("f")),
            }),
        }),
        variables: None,
        raw_content: None,
    };
    proof {
        reveal_strlit("system");
        reveal_strlit("minimal");
        reveal_strlit("worker");
        assert(r.sections@.map_values(|s: Section| s.title@) =~= seq!["Identity"@, "Response Format: SHORT-KEY JSON (MANDATORY)"@, "Available Tools"@, "Your Approach"@, "Current Context"@, "Begin"@]);
        assert(r.sections@.map_values(|s: Section| section_view(s)) =~= system_view().sections);
        assert(mv =~= system_view().placeholders->0);
        assert(views(r.identity.capabilities->0@) =~= system_view().capabilities->0);
        assert(config_view(r) =~= system_view());
    }
    r
}

fn minimal_prompt_config() -> (r: PromptConfig)
    ensures
        Some(config_view(r)) == builtin_view("minimal"@),
{
    let mut map = NamedMap::new();
    let _ = map.insert(to_owned("tools"), to_owned("Generated tools section"));
    proof {
        reveal_strlit("datetime");
        reveal_strlit("working_directory");
        reveal_strlit("mode");
        reveal_strlit("tools");
    }
    let ghost mv = string_map_view(map);
    let r = PromptConfig {
        version: to_owned("1.0"),
        identity: IdentitySection {
            name: to_owned("MYLM"),
            description: to_owned("Autonomous AI assistant"),
            capabilities: None,
        },
        sections: vec![
            Section {
                id: to_owned("identity"),
                title: to_owned("Identity"),
                content: Some(to_owned(MINIMAL_IDENTITY_TEXT)),
                dynamic: Some(false),
                generator: None,
                priority: Some(1),
                conditions: None,
            },
            Section {
                id: to_owned("response_format"),
                title: to_owned("Response Format"),
                content: Some(to_owned(MINIMAL_RESPONSE_FORMAT_TEXT)),
                dynamic: Some(false),
                generator: None,
                priority: Some(2),
                conditions: None,
            },
            Section {
                id: to_owned("tools"),
                title: to_owned("Available Tools"),
                content: None,
                dynamic: Some(true),
                generator: Some(to_owned("tools")),
                priority: Some(3),
                conditions: None,
            },
        ],
        placeholders: Some(map),
        protocols: Some(Protocols {
            react: None,
            json_keys: Some(JsonKeys {
                thought: Some(to_owned("t")),
                action: Some(to_owned("a")),
                input: Some(to_owned("i")),
                final_answer: Some(to_owned("f")),
            }),
        }),
        variables: None,
        raw_content: None,
    };
    proof {
        reveal_strlit("system");
        reveal_strlit("minimal");
        reveal_strlit("worker");
        assert(r.sections@.map_values(|s: Section| s.title@) =~= seq!["Identity"@, "Response Format"@, "Available Tools"@]);
        assert("minimal"@.len() == 7 && "system"@.len() == 6);
        assert("minimal"@ != "system"@);
        assert(r.sections@.map_values(|s: Section| section_view(s)) =~= minimal_view().sections);
        assert(mv =~= minimal_view().placeholders->0);
        assert(config_view(r) =~= minimal_view());
    }
    r
}

fn worker_prompt_config() -> (r: PromptConfig)
    ensures
        Some(config_view(r)) == builtin_view("worker"@),
{
    let mut map = NamedMap::new();
    let _ = map.insert(to_owned("tools"), to_owned("{tools}"));
    proof {
        reveal_strlit("datetime");
        reveal_strlit("working_directory");
        reveal_strlit("mode");
        reveal_strlit("tools");
    }
    let ghost mv = string_map_view(map);
    let r = PromptConfig {
        version: to_owned("2.0"),
        identity: IdentitySection {
            name: to_owned("MYLM Worker"),
            description: to_owned("Specialized worker agent for parallel task execution"),
            capabilities: None,
        },
        sections: vec![
            Section {
                id: to_owned("identity"),
                title: to_owned("Worker Agent"),
                content: Some(to_owned(WORKER_IDENTITY_TEXT)),
                dynamic: Some(false),
                generator: None,
                priority: Some(1),
                conditions: None,
            },
            Section {
                id: to_owned("response_format"),
                title: to_owned("Response Format"),
                content: Some(to_owned(WORKER_RESPONSE_FORMAT_TEXT)),
                dynamic: Some(false),
                generator: None,
                priority: Some(2),
                conditions: None,
            },
            Section {
                id: to_owned("tools"),
                title: to_owned("Available Tools"),
                content: None,
                dynamic: Some(true),
                generator: Some(to_owned("tools")),
                priority: Some(3),
                conditions: None,
            },
            Section {
                id: to_owned("begin"),
                title: to_owned("Begin"),
                content: Some(to_owned(WORKER_BEGIN_TEXT)),
                dynamic: Some(false),
                generator: None,
                priority: Some(100),
                conditions: None,
            },
        ],
        placeholders: Some(map),
        protocols: Some(Protocols {
            react: None,
            json_keys: Some(JsonKeys {
                thought: Some(to_owned("t")),
                action: Some(to_owned("a")),
                input: Some(to_owned("i")),
                final_answer: Some(to_owned("f")),
            }),
        }),
        variables: None,
        raw_content: None,
    };
    proof {
        reveal_strlit("system");
        reveal_strlit("minimal");
        reveal_strlit("worker");
        assert(r.sections@.map_values(|s: Section| s.title@) =~= seq!["Worker Agent"@, "Response Format"@, "Available Tools"@, "Begin"@]);
        assert("worker"@.len() == 6 && "system"@.len() == 6 && "minimal"@.len() == 7);
        assert("worker"@[0] != "system"@[0]);
        assert("worker"@ != "system"@);
        assert("worker"@ != "minimal"@);
        assert(r.sections@.map_values(|s: Section| section_view(s)) =~= worker_view().sections);
        assert(mv =~= worker_view().placeholders->0);
        assert(config_view(r) =~= worker_view());
    }
    r
}


/// Loader of prompt configurations with a cache by name.
#[derive(Debug)]
pub struct PromptLoader {
    pub config_dir: std::path::PathBuf,
    cache: NamedMap<PromptConfig>,
}

impl PromptLoader {
    /// The summaries of the cached configurations by name.
    pub closed spec fn cached(&self, name: Seq<char>) -> Option<ConfigView> {
        match lookup(self.cache@, name) {
            Some(c) => Some(config_view(c)),
            None => None,
        }
    }

    /// The directory prompt files are read from.
    pub closed spec fn prompts_dir(&self) -> std::path::PathBuf {
        self.config_dir
    }

    /// Well-formedness of the cache.
    pub closed spec fn wf(&self) -> bool {
        self.cache.wf()
    }

    /// A loader reading from `config_dir`, with an empty cache.
    pub fn new(config_dir: std::path::PathBuf) -> (r: Self)
        ensures
            r.wf(),
            r.prompts_dir() == config_dir,
            forall|n: Seq<char>| r.cached(n) is None,
    {
        PromptLoader { config_dir, cache: NamedMap::new() }
    }

    /// The prompts directory.
    pub fn config_dir(&self) -> &std::path::PathBuf {
        &self.config_dir
    }

    /// A loader for the default prompts directory.
    pub fn default() -> (r: Self)
        ensures
            r.wf(),
            forall|n: Seq<char>| r.cached(n) is None,
    {
        Self::new(Self::default_prompts_dir())
    }

    /// The default prompts directory: `mylm/prompts/config` under the user's
    /// configuration directory, else `assets/prompts/config`.
    pub fn default_prompts_dir() -> (r: std::path::PathBuf) {
        match user_config_dir() {
            Some(dir) => {
                let a = join_path(&dir, "mylm");
                let b = join_path(&a, "prompts");
                join_path(&b, "config")
            },
            None => path_from("assets/prompts/config"),
        }
    }

    /// A built-in configuration by name (`system`, `minimal`, `worker`).
    pub fn load_builtin(&self, name: &str) -> (r: Result<PromptConfig, PromptLoaderError>)
        ensures
            match builtin_view(name@) {
                Some(s) => r matches Ok(c) && config_view(c) == s,
                None => r matches Err(PromptLoaderError::NotFound(m)) && m@ == "Builtin prompt '"@
                    + name@ + "' not found. Available: system, minimal, worker"@,
            },
    {
        if str_eq(name, "system") {
            Ok(system_prompt_config())
        } else if str_eq(name, "minimal") {
            Ok(minimal_prompt_config())
        } else if str_eq(name, "worker") {
            Ok(worker_prompt_config())
        } else {
            let mut m = concat("Builtin prompt '", name);
            crate::text::push_str(&mut m, "' not found. Available: system, minimal, worker");
            Err(PromptLoaderError::NotFound(m))
        }
    }

    /// Loads a configuration given what reading its file gave (`None` when
    /// there is no file): a cached configuration wins, then the file, then the
    /// built-in one; what is loaded is cached.
    pub fn load_with_file(
        &mut self,
        name: &str,
        from_file: Option<Result<PromptConfig, PromptLoaderError>>,
    ) -> (r: Result<PromptConfig, PromptLoaderError>)
        requires
            old(self).wf(),
        ensures
            final(self).wf(),
            r matches Ok(c) ==> final(self).cached(name@) == Some(config_view(c)),
            match old(self).cached(name@) {
                Some(s) => r matches Ok(c) && config_view(c) == s && forall|n: Seq<char>|
                    final(self).cached(n) == old(self).cached(n),
                None => match from_file {
                    Some(Err(e)) => r == Err::<PromptConfig, PromptLoaderError>(e) && forall|
                        n: Seq<char>,
                    | final(self).cached(n) == old(self).cached(n),
                    Some(Ok(c)) => r matches Ok(d) && config_view(d) == config_view(c)
                        && final(self).cached(name@) == Some(config_view(c)) && forall|
                        n: Seq<char>,
                    | n != name@ ==> final(self).cached(n) == old(self).cached(n),
                    None => match builtin_view(name@) {
                        Some(s) => r matches Ok(d) && config_view(d) == s && final(self).cached(
                            name@,
                        ) == Some(s) && forall|n: Seq<char>|
                            n != name@ ==> final(self).cached(n) == old(self).cached(n),
                        None => r matches Err(PromptLoaderError::NotFound(m)) && m@ == not_found_message(name@) && forall|n: Seq<char>|
                            final(self).cached(n) == old(self).cached(n),
                    },
                },
            },
    {
        if let Some(c) = self.cache.get(name) {
            return Ok(clone_config(c));
        }
        let config = match from_file {
            Some(Ok(c)) => c,
            Some(Err(e)) => {
                return Err(e);
            },
            None => match self.load_builtin(name) {
                Ok(c) => c,
                Err(e) => {
                    return Err(e);
                },
            },
        };
        let copy = clone_config(&config);
        let _ = self.cache.insert(to_owned(name), config);
        Ok(copy)
    }

    /// Loads a configuration by name when the prompts directory has no file
    /// for it: the cached configuration, else the built-in one.
    pub fn load(&mut self, name: &str) -> (r: Result<PromptConfig, PromptLoaderError>)
        requires
            old(self).wf(),
        ensures
            final(self).wf(),
            r matches Ok(c) ==> final(self).cached(name@) == Some(config_view(c)),
            match old(self).cached(name@) {
                Some(s) => r matches Ok(c) && config_view(c) == s,
                None => match builtin_view(name@) {
                    Some(s) => r matches Ok(c) && config_view(c) == s && final(self).cached(
                        name@,
                    ) == Some(s),
                    None => r matches Err(PromptLoaderError::NotFound(m)) && m@ == not_found_message(name@) && forall|n: Seq<char>|
                        final(self).cached(n) == old(self).cached(n),
                },
            },
    {
        self.load_with_file(name, None)
    }

    /// Clear the cache, forcing a reload on next access.
    pub fn clear_cache(&mut self)
        ensures
            final(self).wf(),
            forall|n: Seq<char>| final(self).cached(n) is None,
    {
        self.cache = NamedMap::new();
    }

    /// Reloads a configuration: its cache entry is dropped first.
    pub fn reload_with_file(
        &mut self,
        name: &str,
        from_file: Option<Result<PromptConfig, PromptLoaderError>>,
    ) -> (r: Result<PromptConfig, PromptLoaderError>)
        requires
            old(self).wf(),
        ensures
            final(self).wf(),
            forall|n: Seq<char>| n != name@ ==> final(self).cached(n) == old(self).cached(n),
            r matches Ok(d) ==> final(self).cached(name@) == Some(config_view(d)),
            r is Err ==> final(self).cached(name@) is None,
            match from_file {
                Some(Err(e)) => r == Err::<PromptConfig, PromptLoaderError>(e),
                Some(Ok(c)) => r matches Ok(d) && config_view(d) == config_view(c),
                None => match builtin_view(name@) {
                    Some(s) => r matches Ok(d) && config_view(d) == s,
                    None => r matches Err(PromptLoaderError::NotFound(m)) && m@ == not_found_message(name@),
                },
            },
    {
        self.cache.remove(name);
        self.load_with_file(name, from_file)
    }

    /// Reload a configuration when the directory has no file for it.
    pub fn reload(&mut self, name: &str) -> (r: Result<PromptConfig, PromptLoaderError>)
        requires
            old(self).wf(),
        ensures
            final(self).wf(),
            forall|n: Seq<char>| n != name@ ==> final(self).cached(n) == old(self).cached(n),
            r matches Ok(d) ==> final(self).cached(name@) == Some(config_view(d)),
            r is Err ==> final(self).cached(name@) is None,
            match builtin_view(name@) {
                Some(s) => r matches Ok(d) && config_view(d) == s,
                None => r matches Err(PromptLoaderError::NotFound(m)) && m@ == not_found_message(name@),
            },
    {
        self.reload_with_file(name, None)
    }

    /// The loadable names: the built-in ones, then the names found in the
    /// prompts directory (file stems) that are not already listed.
    pub fn list_available_with(&self, dir_names: &Vec<String>) -> (r: Vec<String>)
        ensures
            views(r@) == listed(builtin_names(), views(dir_names@)),
    {
        let mut names: Vec<String> = Vec::new();
        names.push(to_owned("system"));
        names.push(to_owned("minimal"));
        names.push(to_owned("worker"));
        assert(views(names@) =~= builtin_names());
        assert(listed(builtin_names(), views(dir_names@).take(0)) =~= builtin_names());
        let mut i: usize = 0;
        while i < dir_names.len()
            invariant
                i <= dir_names.len(),
                views(names@) == listed(builtin_names(), views(dir_names@).take(i as int)),
            decreases dir_names.len() - i,
        {
            let ghost d = views(dir_names@);
            assert(d.take(i + 1).drop_last() =~= d.take(i as int));
            assert(d.take(i + 1).last() == dir_names@[i as int]@);
            if !crate::text::contains_string(&names, dir_names[i].as_str()) {
                let ghost before = views(names@);
                names.push(dir_names[i].clone());
                assert(views(names@) =~= before.push(dir_names@[i as int]@));
            }
            i += 1;
        }
        assert(views(dir_names@).take(dir_names.len() as int) =~= views(dir_names@));
        names
    }

    /// The default configurations to write so that the prompts directory
    /// holds all three: the built-in `system`, `minimal` and `worker` whose
    /// file is not among `present` (the stems of the directory's files), in
    /// that order, with their names. The caller writes them; how many there
    /// are is how many files it creates.
    pub fn ensure_defaults(&self, present: &Vec<String>) -> (r: Vec<(String, PromptConfig)>)
        ensures
            r@.len() == missing_defaults(views(present@)).len(),
            forall|i: int|
                0 <= i < r@.len() ==> {
                    &&& #[trigger] r@[i].0@ == missing_defaults(views(present@))[i]
                    &&& builtin_view(r@[i].0@) == Some(config_view(r@[i].1))
                },
    {
        let mut out: Vec<(String, PromptConfig)> = Vec::new();
        if !contains_string(present, "system") {
            out.push((to_owned("system"), system_prompt_config()));
        }
        let ghost a = out@;
        if !contains_string(present, "minimal") {
            out.push((to_owned("minimal"), minimal_prompt_config()));
        }
        let ghost b = out@;
        if !contains_string(present, "worker") {
            out.push((to_owned("worker"), worker_prompt_config()));
        }
        proof {
            let p = views(present@);
            let m = missing_defaults(p);
            assert(forall|i: int| 0 <= i < out@.len() ==> #[trigger] out@[i].0@ == m[i]);
        }
        out
    }

    /// The built-in names (the directory is not read here).
    pub fn list_available(&self) -> (r: Vec<String>)
        ensures
            views(r@) == builtin_names(),
    {
        let none: Vec<String> = Vec::new();
        let r = self.list_available_with(&none);
        assert(views(none@) =~= Seq::<Seq<char>>::empty());
        r
    }
}

/// The default names whose file is not among `present`, in the order
/// `system`, `minimal`, `worker`.
pub open spec fn missing_defaults(present: Seq<Seq<char>>) -> Seq<Seq<char>> {
    (if present.contains("system"@) {
        Seq::empty()
    } else {
        seq!["system"@]
    }) + (if present.contains("minimal"@) {
        Seq::empty()
    } else {
        seq!["minimal"@]
    }) + (if present.contains("worker"@) {
        Seq::empty()
    } else {
        seq!["worker"@]
    })
}

/// `base` followed by each of `more` not already present.
pub open spec fn listed(base: Seq<Seq<char>>, more: Seq<Seq<char>>) -> Seq<Seq<char>>
    decreases more.len(),
{
    if more.len() == 0 {
        base
    } else {
        let prev = listed(base, more.drop_last());
        if prev.contains(more.last()) {
            prev
        } else {
            prev.push(more.last())
        }
    }
}

} // verus!
