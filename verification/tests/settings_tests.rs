use mylm_core::config::v2::prompts::{
    markdown_prompt_config, prompt_file_candidates, ConfigFormat, PromptDir,
};
use mylm_core::agent::v2::jobs::{JobStatus, JobTable};
use mylm_core::agent::v2::orchestrator::rules::format_job_status;
use mylm_core::agent::v2::protocol::ToolKind;
use mylm_core::config::agent::{
    EnvConfig, MemoryConfig, RetryConfig, SecurityConfig, SessionSummary, TelemetryConfig, ToolConfig,
    UserProfile, WorkerConfig,
};
use mylm_core::config::app::{default_editor, default_shell, AppConfig, FeatureConfig, Theme};
use mylm_core::config::bridge::{select_model, BridgeError};
use mylm_core::config::endpoints::{ChatResponse, Choice, Message, MessageRole};
use mylm_core::config::prompt_schema::{IdentitySection, PromptConfig, Section};
use mylm_core::config::provider::{ProviderConfig, ProviderType};
use mylm_core::config::v2::prompts::{
    generate_capabilities_prompt, get_identity_prompt, get_memory_protocol, get_react_protocol,
    render_config, PromptEnvironment, ToolDescriptor, CAPABILITIES_PROMPT_MINIMAL,
};
use mylm_core::context::pack::{ContextBuilder, ContextPack, ContextProfile};
use mylm_core::json::text_str_member;
use mylm_core::text::{parse_usize_checked, split_char, split_words, IntErrorKind};

// ---------------------------------------------------------------------------
// Agent settings
// ---------------------------------------------------------------------------

#[test]
fn agent_settings_defaults() {
    let t = ToolConfig::default();
    assert_eq!(t.blocked_commands.len(), 18);
    assert_eq!(t.blocked_commands[0], "rm -rf /");
    assert_eq!(t.blocked_commands[17], "find / -name");
    assert!(t.require_approval);
    assert_eq!(t.timeout_secs, 30);
    let r = RetryConfig::default();
    assert_eq!((r.max_retries, r.base_delay_ms, r.max_delay_ms), (3, 100, 10000));
    let m = MemoryConfig::default();
    assert!(m.should_persist());
    assert_eq!(m.embedding_model, "default");
    let w = WorkerConfig::default();
    assert_eq!((w.max_concurrent, w.timeout_secs, w.max_persistent_workers), (3, 300, 5));
    let tel = TelemetryConfig::default();
    assert_eq!(tel.log_level, "info");
    let s = SecurityConfig::default();
    assert!(!s.sandbox_enabled());
}

#[test]
fn agent_settings_merges() {
    let mut t = ToolConfig::default();
    let mut other = ToolConfig::default();
    other.blocked_commands = vec![];
    other.timeout_secs = 5;
    t.merge(other);
    assert_eq!(t.blocked_commands.len(), 18);
    assert_eq!(t.timeout_secs, 5);

    let mut w = WorkerConfig::default();
    let mut o = WorkerConfig::default();
    o.max_persistent_workers = 0;
    w.merge(o);
    assert_eq!(w.max_persistent_workers, 1);
    o.max_persistent_workers = 99;
    w.merge(o);
    assert_eq!(w.max_persistent_workers, 50);

    let mut m = MemoryConfig::default();
    let mut mo = MemoryConfig::default();
    mo.incognito = true;
    m.merge(mo);
    assert!(!m.should_persist());
}

#[test]
fn security_effective_sandbox() {
    let mut s = SecurityConfig::default();
    assert!(s.effective_sandbox(true).is_none());
    s.sandbox_root = Some(std::path::PathBuf::from("/work"));
    assert!(s.sandbox_enabled());
    assert_eq!(s.effective_sandbox(false), Some(&std::path::PathBuf::from("/work")));
    s.sandbox_all = false;
    assert_eq!(s.effective_sandbox(false), None);
    assert_eq!(s.effective_sandbox(true), Some(&std::path::PathBuf::from("/work")));
}

#[test]
fn user_profile_updates_and_prompt() {
    let mut p = UserProfile::new();
    assert!(p.is_empty());
    assert_eq!(p.format_for_prompt(), "");
    p.set_preference("style".to_string(), "terse".to_string());
    p.set_fact("editor".to_string(), "vim".to_string());
    p.add_pattern("evening_worker".to_string());
    p.add_pattern("evening_worker".to_string());
    assert_eq!(p.patterns.len(), 1);
    p.add_goal("ship".to_string());
    p.add_goal("test".to_string());
    p.add_goal("ship".to_string());
    assert_eq!(p.active_goals, vec!["ship".to_string(), "test".to_string()]);
    assert_eq!(
        p.format_for_prompt(),
        "## User Profile\n\nPreferences:\n- style: terse\n\nKnown Facts:\n- editor: vim\n\nBehavioral Patterns:\n- evening_worker\n\nActive Goals:\n- ship\n- test\n"
    );
    p.complete_goal("ship");
    assert_eq!(p.active_goals, vec!["test".to_string()]);
}

#[test]
fn user_profile_keeps_ten_summaries() {
    let mut p = UserProfile::new();
    for i in 0..12 {
        p.add_session_summary(SessionSummary {
            timestamp: i,
            topic: format!("t{}", i),
            key_points: vec![],
        });
    }
    assert_eq!(p.session_summaries.len(), 10);
    assert_eq!(p.session_summaries[0].timestamp, 2);
    assert_eq!(p.session_summaries[9].timestamp, 11);
    assert!(!p.is_empty());
    assert_eq!(p.format_for_prompt(), "## User Profile\n\n\n");
}

// ---------------------------------------------------------------------------
// Application, providers, bridge, endpoints
// ---------------------------------------------------------------------------

#[test]
fn app_settings() {
    assert_eq!(default_shell(None, false), "/bin/bash");
    assert_eq!(default_shell(None, true), "cmd.exe");
    assert_eq!(default_shell(Some("/bin/zsh".into()), false), "/bin/zsh");
    assert_eq!(default_editor(None, false), "nano");
    assert_eq!(default_editor(None, true), "notepad");
    let a = AppConfig::with_environment(None, Some("vim".into()), false);
    assert!(a.tmux_enabled);
    assert_eq!(a.shell, "/bin/bash");
    assert_eq!(a.editor, "vim");
    assert_eq!(a.theme, Theme::Default);
    let f = FeatureConfig::default();
    assert!(f.memory && f.workers && !f.web_search);
    assert_eq!(f.pacore.rounds, 3);
}

#[test]
fn provider_presets() {
    let o = ProviderConfig::openai("k".to_string());
    assert_eq!(o.provider_type, ProviderType::OpenAi);
    assert_eq!(o.base_url, "https://api.openai.com/v1");
    assert_eq!(o.default_model, "gpt-4o-mini");
    assert_eq!(o.models, vec!["gpt-4o", "gpt-4o-mini", "gpt-3.5-turbo"]);
    assert_eq!(o.api_key.as_deref(), Some("k"));
    assert_eq!(o.timeout_secs, 120);
    let l = ProviderConfig::ollama();
    assert_eq!(l.api_key, None);
    assert_eq!(l.default_model, "llama3.2");
    let g = ProviderConfig::gemini("g".to_string());
    assert_eq!(g.provider_type, ProviderType::Google);
    assert_eq!(g.models.len(), 3);
    let i = ProviderConfig::inception("i".to_string());
    assert_eq!(i.default_model, "mercury-2");
}

#[test]
fn bridge_model_selection_and_errors() {
    assert_eq!(select_model("p", Some("m".into()), Some("d".into())).unwrap(), "m");
    assert_eq!(select_model("p", None, Some("d".into())).unwrap(), "d");
    let e = select_model("p", None, None).unwrap_err();
    assert_eq!(e.to_string(), "No model configured for profile 'p'");
    assert_eq!(BridgeError::ProfileNotFound("x".into()).to_string(), "Profile 'x' not found");
    assert_eq!(
        BridgeError::ProviderNotFound("v".into(), "p".into()).to_string(),
        "Provider 'v' not found for profile 'p'"
    );
    assert_eq!(
        BridgeError::InvalidProvider("z".into()).to_string(),
        "Failed to parse provider type: z"
    );
}

#[test]
fn chat_response_first_content() {
    let mut r = ChatResponse {
        id: "1".into(),
        object: "chat.completion".into(),
        created: 0,
        model: "m".into(),
        choices: vec![],
        usage: None,
    };
    assert_eq!(r.first_content(), None);
    r.choices.push(Choice {
        index: 0,
        message: Message { role: MessageRole::Assistant, content: "hi".into(), name: None },
        finish_reason: Some("stop".into()),
    });
    assert_eq!(r.first_content().map(|s| s.as_str()), Some("hi"));
}

// ---------------------------------------------------------------------------
// Prompts of configuration v2
// ---------------------------------------------------------------------------

fn tool(name: &str, kind: ToolKind) -> ToolDescriptor {
    ToolDescriptor {
        name: name.to_string(),
        description: format!("{} desc", name),
        usage: format!("{} usage", name),
        kind,
    }
}

#[test]
fn capabilities_prompt() {
    assert_eq!(generate_capabilities_prompt(&vec![]), CAPABILITIES_PROMPT_MINIMAL);
    let tools = vec![tool("memory", ToolKind::Internal), tool("shell", ToolKind::Terminal)];
    let p = generate_capabilities_prompt(&tools);
    assert!(p.starts_with("# YOUR CAPABILITIES\n\nYou are MYLM (My Local Model), an autonomous AI agent with access to tools and memory.\n\n## Tools Available\n\n### Memory & State (USE FIRST)\n- `memory` - memory desc\n\n### Terminal & Execution\n- `shell` - shell desc\n\n## Tool Usage Details\n\n### `memory`\n- **Description**: memory desc\n- **Usage**: memory usage\n\n"));
    assert!(!p.contains("### Web & External"));
    assert!(!p.contains("Background Jobs"));
    assert!(p.ends_with("5. **Record**: Save new insights to `memory`.\n\n"));
    let with_delegate = vec![tool("delegate", ToolKind::Internal)];
    assert!(generate_capabilities_prompt(&with_delegate).contains("## Background Jobs (Parallel Execution)\n"));
    let web_delegate = vec![tool("delegate", ToolKind::Web)];
    assert!(!generate_capabilities_prompt(&web_delegate).contains("Background Jobs"));
}

fn section(id: &str, title: &str, content: Option<&str>, priority: Option<u32>) -> Section {
    Section {
        id: id.to_string(),
        title: title.to_string(),
        content: content.map(|s| s.to_string()),
        dynamic: None,
        generator: None,
        priority,
        conditions: None,
    }
}

#[test]
fn render_config_sections_and_placeholders() {
    let mut pad = section("pad", "Pad", None, Some(5));
    pad.dynamic = Some(true);
    pad.generator = Some("scratchpad".to_string());
    let mut unknown = section("u", "U", Some("x"), Some(1));
    unknown.dynamic = Some(true);
    unknown.generator = Some("other".to_string());
    let config = PromptConfig {
        version: "1".to_string(),
        identity: IdentitySection {
            name: "n".to_string(),
            description: "d".to_string(),
            capabilities: None,
        },
        sections: vec![
            section("a", "Later", Some("at {working_directory} on {git_branch} in {mode}"), None),
            pad,
            unknown,
            section("b", "First", Some("time {datetime}"), Some(10)),
            section("c", "Empty", None, Some(0)),
        ],
        placeholders: None,
        protocols: None,
        variables: None,
        raw_content: None,
    };
    let env = PromptEnvironment {
        datetime: "2024-01-01 00:00:00".to_string(),
        working_directory: None,
        git_branch: Some("main".to_string()),
    };
    let out = render_config(&config, None, None, &env);
    assert_eq!(
        out,
        "## Pad\n\n(Empty - will be populated during session)\n\n---\n\n## First\n\ntime 2024-01-01 00:00:00\n\n---\n\n## Later\n\nat unknown on main in default"
    );
    let out2 = render_config(&config, None, Some("notes"), &env);
    assert!(out2.starts_with("## Pad\n\nnotes\n\n---\n\n"));
}

#[test]
fn legacy_prompt_notes() {
    assert_eq!(get_identity_prompt(), "Identity prompt is now loaded from config. Use build_system_prompt().");
    assert_eq!(get_memory_protocol(), "Memory protocol is now loaded from config. Use build_memory_prompt().");
    assert_eq!(
        get_react_protocol(),
        "ReAct protocol is now loaded from config. Check the protocols section of your prompt config."
    );
    assert!(mylm_core::config::v2::get_identity_prompt().starts_with("# Identity\nYou are the Silent Oracle"));
    assert!(mylm_core::config::v2::get_memory_protocol().starts_with("# Memory Protocol\n"));
    assert!(mylm_core::config::v2::get_react_protocol().ends_with("5. Use the Structured JSON Protocol for better precision."));
}

// ---------------------------------------------------------------------------
// Context packs
// ---------------------------------------------------------------------------

#[test]
fn context_packs() {
    let p = ContextPack::new("T", "abcdefgh".to_string());
    assert_eq!(p.token_estimate, 2);
    assert_eq!(p.render(), "\n\n## T\nabcdefgh");
    let minimal = ContextBuilder::new(ContextProfile::Minimal);
    assert!(minimal.build_terminal_pack("text").is_none());
    let balanced = ContextBuilder::new(ContextProfile::Balanced);
    let small = balanced.build_terminal_pack("line1\nline2").unwrap();
    assert_eq!(small.title, "Terminal Snapshot (Recent)");
    assert_eq!(small.content, "line1\nline2");
    assert!(balanced.build_terminal_pack("   \n ").is_none());
    let big = format!("{}\n{}", "x".repeat(5000), "y".repeat(100));
    let cut = balanced.build_terminal_pack(&big).unwrap();
    assert_eq!(cut.content, "y".repeat(100));
    let no_break = "z".repeat(4000);
    let cut2 = balanced.build_terminal_pack(&no_break).unwrap();
    assert_eq!(cut2.content.len(), 3000);
    let verbose = ContextBuilder::new(ContextProfile::Verbose);
    assert_eq!(verbose.build_terminal_pack(&big).unwrap().title, "Terminal Snapshot (Extended)");
}

// ---------------------------------------------------------------------------
// Job listings
// ---------------------------------------------------------------------------

#[test]
fn jobs_newest_first_and_status_block() {
    let mut t = JobTable::new();
    t.create_job_with_options("job-a", "shell", "first", false, 100);
    t.create_job_with_options("job-b", "shell", "second", false, 300);
    t.create_job_with_options("job-c", "worker", "third", true, 200);
    let all = t.list_all_jobs();
    let order: Vec<&str> = all.iter().map(|j| j.description.as_str()).collect();
    assert_eq!(order, vec!["second", "third", "first"]);
    t.complete_job("job-b", serde_json::Value::Null, 400);
    t.fail_job("job-c", "bad", 400);
    let s = format_job_status(&t);
    assert_eq!(
        s,
        "Active Jobs (1):\n  • job-a: first\n\nRecently Completed (2):\n  ✗ job-c: third\n  ✓ job-b: second\n"
    );
    let mut only = JobTable::new();
    assert_eq!(format_job_status(&only), "");
    only.create_job_with_options("job-d", "shell", "x", false, 1);
    only.cancel_job("job-d", 2);
    assert_eq!(format_job_status(&only), "");
    assert!(matches!(all[0].status, JobStatus::Running));
}

// ---------------------------------------------------------------------------
// Text helpers and JSON members
// ---------------------------------------------------------------------------

#[test]
fn text_splitting_and_numbers() {
    assert_eq!(split_char("a,b,,c", ','), vec!["a", "b", "", "c"]);
    assert_eq!(split_char("", ','), vec![""]);
    assert_eq!(split_words("  a  bc\td \n"), vec!["a", "bc", "d"]);
    assert!(split_words("   ").is_empty());
    assert_eq!(parse_usize_checked("+42"), Ok(42));
    assert_eq!(parse_usize_checked(""), Err(IntErrorKind::Empty));
    assert_eq!(parse_usize_checked("+"), Err(IntErrorKind::InvalidDigit));
    assert_eq!(parse_usize_checked("4x"), Err(IntErrorKind::InvalidDigit));
    assert_eq!(parse_usize_checked("184467440737095516160"), Err(IntErrorKind::PosOverflow));
}

#[test]
fn json_string_members() {
    assert_eq!(text_str_member("{\"a\": \"b\"}", "a"), Some("b".to_string()));
    assert_eq!(text_str_member("{\"a\": 1}", "a"), None);
    assert_eq!(text_str_member("[1]", "a"), None);
    assert_eq!(text_str_member("not json", "a"), None);
}

#[test]
fn provider_and_reasoning_settings() {
    use_v2_settings();
}

fn use_v2_settings() {
    let p = mylm_core::config::v2::ProviderConfig::new(mylm_core::config::types::Provider::Ollama, None);
    assert_eq!(p.base_url, "http://localhost:11434/v1");
    assert_eq!(p.timeout_secs, 30);
    let c = mylm_core::config::v2::PacoreConfig::default();
    assert!(!c.enabled);
    assert_eq!(c.rounds, "4,1");
    assert!(c.model.is_none());
    assert!(mylm_core::config::build_system_prompt().starts_with("You are mylm, a helpful AI assistant for terminal tasks."));
}

#[test]
fn agent_settings_from_environment_values() {
    let o = EnvConfig::overrides(
        Some("75".to_string()),
        Some("gpt-4".to_string()),
        Some("TRUE".to_string()),
        Some("many".to_string()),
        Some("false".to_string()),
    );
    assert_eq!(o.max_steps, Some(75));
    assert_eq!(o.model, Some("gpt-4".to_string()));
    assert_eq!(o.require_approval, Some(true));
    assert_eq!(o.max_retries, None);
    assert_eq!(o.memory_enabled, Some(false));

    let none = EnvConfig::overrides(None, None, Some("yes".to_string()), Some("4294967296".to_string()), None);
    assert_eq!(none.max_steps, None);
    assert_eq!(none.model, None);
    assert_eq!(none.require_approval, Some(false));
    assert_eq!(none.max_retries, None);
    assert_eq!(none.memory_enabled, None);
    assert_eq!(EnvConfig::overrides(None, None, None, Some("+7".to_string()), None).max_retries, Some(7));
}

#[test]
fn builtin_markdown_prompts() {
    let d = mylm_core::config::v2::get_builtin_prompt("default").unwrap();
    assert!(d.starts_with("# User Instructions\nYou are a helpful AI assistant."));
    assert!(mylm_core::config::v2::get_builtin_prompt("worker").unwrap().starts_with("# Worker Agent"));
    assert!(mylm_core::config::v2::get_builtin_prompt("memory_system").unwrap().starts_with("# Memory System Guide"));
    assert!(mylm_core::config::v2::get_builtin_prompt("capabilities").unwrap().starts_with("# YOUR CAPABILITIES"));
    assert!(mylm_core::config::v2::get_builtin_prompt("other").is_none());

    let present = vec!["worker".to_string(), "notes".to_string()];
    let missing = mylm_core::config::v2::missing_default_prompts(&present);
    let names: Vec<&str> = missing.iter().map(|(n, _)| n.as_str()).collect();
    assert_eq!(names, vec!["default", "capabilities", "memory_system"]);
    assert_eq!(missing[0].1, d);
}

#[test]
fn system_prompt_is_assembled_in_order() {
    let ctx = mylm_core::config::v2::system_context("2024-01-02 03:04:05", None, Some("main"), Some("chat"));
    assert_eq!(
        ctx,
        "## System Context\n- Date/Time: 2024-01-02 03:04:05\n- Working Directory: unknown\n- Git Branch: main\n- Mode: chat\n"
    );
    let plain = mylm_core::config::v2::system_context("t", Some("/w"), None, None);
    assert_eq!(plain, "## System Context\n- Date/Time: t\n- Working Directory: /w\n");

    let mut config = mylm_core::config::v2::PromptsConfig::default();
    config.inject_memory_docs = false;
    let p = mylm_core::config::v2::build_system_prompt("ID", &config, Some("CAPS".to_string()), None, &plain, "do it");
    assert_eq!(p, format!("ID\n\n\nCAPS{}\n\n# User Instructions\ndo it\n", plain));

    config.inject_capabilities = false;
    config.inject_memory_docs = true;
    let q = mylm_core::config::v2::build_system_prompt("ID", &config, None, None, "", "u");
    let mem = mylm_core::config::v2::get_builtin_prompt("memory_system").unwrap();
    assert_eq!(q, format!("ID\n\n\n{}\n\n# User Instructions\nu\n", mem));
}

#[test]
fn request_messages_end_with_the_query() {
    let history = vec![
        Message::system("be brief"),
        Message { role: MessageRole::Assistant, content: "ok".to_string(), name: Some("bot".to_string()) },
    ];
    let msgs = mylm_core::config::endpoints::build_messages(&history, "what now?");
    assert_eq!(msgs.len(), 3);
    assert_eq!(msgs[0].role, MessageRole::System);
    assert_eq!(msgs[0].content, "be brief");
    assert_eq!(msgs[1].name.as_deref(), Some("bot"));
    assert_eq!(msgs[2].role, MessageRole::User);
    assert_eq!(msgs[2].content, "what now?");
    assert!(msgs[2].name.is_none());
    assert_eq!(mylm_core::config::endpoints::build_messages(&Vec::new(), "q").len(), 1);
}

#[test]
fn endpoint_api_key_fallbacks() {
    let k = mylm_core::config::endpoints::effective_api_key;
    assert_eq!(k("sk-own", Some("env".to_string()), None), "sk-own");
    assert_eq!(k("none", Some("openai".to_string()), Some("anthropic".to_string())), "openai");
    assert_eq!(k("", None, Some("anthropic".to_string())), "anthropic");
    assert_eq!(k("none", None, None), "");
    assert!(mylm_core::config::endpoints::requires_auth("sk"));
    assert!(!mylm_core::config::endpoints::requires_auth("none"));
    assert!(!mylm_core::config::endpoints::requires_auth(""));
}

#[test]
fn split_then_join_gives_the_text_back() {
    for text in ["", "a", ",", "a,b,,c,", ",,x"] {
        let parts = split_char(text, ',');
        assert!(!parts.is_empty());
        assert_eq!(mylm_core::text::join(&parts, ","), text);
    }
}

#[test]
fn user_name_from_environment_values() {
    let u = mylm_core::context::user_name;
    assert_eq!(u(Some("alice".to_string()), Some("CORP\\bob".to_string())), Some("alice".to_string()));
    assert_eq!(u(None, Some("CORP\\bob".to_string())), Some("bob".to_string()));
    assert_eq!(u(None, Some("a\\b\\carol".to_string())), Some("carol".to_string()));
    assert_eq!(u(None, Some("dave".to_string())), Some("dave".to_string()));
    assert_eq!(u(None, Some("trailing\\".to_string())), Some(String::new()));
    assert_eq!(u(None, None), None);
}

#[test]
fn prompt_config_files_are_searched_in_order() {
    assert_eq!(ConfigFormat::from_extension("yml"), ConfigFormat::Yaml);
    assert_eq!(ConfigFormat::from_extension("yaml"), ConfigFormat::Yaml);
    assert_eq!(ConfigFormat::from_extension("json"), ConfigFormat::Json);
    assert_eq!(ConfigFormat::from_extension("txt"), ConfigFormat::Json);

    let all = prompt_file_candidates("system", true);
    let names: Vec<&str> = all.iter().map(|c| c.file_name.as_str()).collect();
    assert_eq!(
        names,
        vec!["system.json", "system.yaml", "system.yml", "system.json", "system.yaml", "system.yml", "system.md", "system.md"]
    );
    assert_eq!(all[0].dir, PromptDir::User);
    assert!(all[0].in_config_subdir);
    assert_eq!(all[3].dir, PromptDir::Project);
    assert_eq!(all[6].format, ConfigFormat::Markdown);
    assert!(!all[7].in_config_subdir);
    assert_eq!(all[7].dir, PromptDir::Project);
    assert_eq!(prompt_file_candidates("w", false).len(), 4);

    let c = markdown_prompt_config("be kind".to_string());
    assert_eq!(c.version, "1.0");
    assert_eq!(c.identity.name, "MYLM");
    assert!(c.sections.is_empty());
    assert_eq!(c.raw_content.as_deref(), Some("be kind"));
}

#[test]
fn terminal_snapshot_counts_characters() {
    let balanced = ContextBuilder::new(ContextProfile::Balanced);
    let wide = "é".repeat(1600);
    let kept = balanced.build_terminal_pack(&wide).unwrap();
    assert_eq!(kept.content, wide);
    assert_eq!(kept.token_estimate, 3200 / 4);
    let long = format!("{}\n{}", "é".repeat(2000), "ü".repeat(1500));
    let cut = balanced.build_terminal_pack(&long).unwrap();
    assert_eq!(cut.content, "ü".repeat(1500));
    let no_break = "é".repeat(3500);
    assert_eq!(balanced.build_terminal_pack(&no_break).unwrap().content.chars().count(), 3000);
}
