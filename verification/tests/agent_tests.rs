use mylm_core::config::prompt::renderer::{ToolCategory, ToolInfo};
use mylm_core::agent::v2::step_rules::{native_tool_step, react_step, NativeToolStep, ReactDecision};
use mylm_core::agent::v2::orchestrator::rules::{chat_is_idle, chat_tool_observation, is_rejection_status, ChatSessionState, DelegateGate, ReplyFollowUp};
use mylm_core::agent::v2::driver::legacy::check_permission_auto_approve;
use mylm_core::config::types::AgentPermissions;
use mylm_core::agent::v2::orchestrator::rules::{ approval_id, no_terminal_error, no_tool_mechanism_error, stuck_job_notification, terminal_error, unknown_tool_error, };
use mylm_core::agent::v2::orchestrator::pacore::{retry_step, retry_step_jittered, RetryStep};
use mylm_core::agent::v2::memory::{last_user_index, needs_system_prompt};
use mylm_core::config::endpoints::{Message, MessageRole};
use mylm_core::agent::v2::orchestrator::types::ChatSessionMessage;
use mylm_core::agent::v2::protocol::parser::{
    extract_balanced_json_structures, extract_json_code_fence_blocks, select_parsed_actions,
    short_key_parse_plan, ParseShape, ShortKeyAction, ShortKeyParseError,
};
use mylm_core::agent::v2::recovery::RecoveryWorker;
use mylm_core::agent::v2::protocol::parser::escape_unescaped_newlines_in_json_strings as esc;
use mylm_core::agent::tools::shell::{
    combined_output, forbidden_check, screen_tail, shell_args_or_raw, shell_launch, ShellArgs,
    ShellLaunch,
};
use mylm_core::agent::tools::system::{uptime_parts, SystemMonitorTool, SystemReport};
use mylm_core::agent::tools::terminal_sight::sight_output;
use mylm_core::agent::tools::web_search::{
    answer_text, kimi_model, search_route, serp_results_text, SearchRoute, SerpResult,
};
use mylm_core::agent::tools::worker_shell::{
    matches_pattern, CommandClassification, WorkerShellPermissions,
};
use mylm_core::agent::tools::write_file::{
    mkdir_error, write_error, written_message, WriteFileTool, WriteTarget,
};
use mylm_core::agent::types::events::{ToolResult, WorkerId};
use mylm_core::agent::v2::driver::legacy::{
    approval_unavailable_message, command_of_args, denied_observation, extract_suggestion,
    legacy_reply, needs_approval, process_args, tool_error_observation,
    tool_not_found_observation, LegacyReply,
};
use mylm_core::agent::v2::execution::{
    not_found_response, permission_denied_response, tool_call_entry, tool_error_response,
    tool_success_response,
};
use mylm_core::agent::v2::memory::{
    insert_after_first, JournalLine, MemoryLine, MemoryManager,
};
use mylm_core::agent::v2::orchestrator::pacore::{
    engine_synthesis_prompt, next_round, round_call_error, round_synthesis_prompt, PaCoReConfig,
    RoundStep,
};
use mylm_core::agent::v2::prompt::PromptBuilder;
use mylm_core::agent::v2::protocol::ToolKind;
use mylm_core::agent::v2::recovery::{recovery_failed_message, recovery_model, RecoveryContext};
use mylm_core::agent::v2::step_rules::{recalled_context_message, StepBudget};
use mylm_core::agent::worker::{
    build_worker_prompt, capability_spawn_params, session_failure_result, simple_worker_result,
    SessionRunOutcome, WorkerCollector, WorkerOutputEvent,
};
use mylm_core::config::v2::prompts::ToolDescriptor;

fn strings(v: &[&str]) -> Vec<String> {
    v.iter().map(|s| s.to_string()).collect()
}

// ---------------------------------------------------------------------------
// Worker shell
// ---------------------------------------------------------------------------

#[test]
fn test_pattern_matching() {
    assert!(matches_pattern("ls -la", &strings(&["ls *"])));
    assert!(matches_pattern("cat file.txt", &strings(&["cat *"])));
    assert!(!matches_pattern("rm file", &strings(&["cat *"])));
}

#[test]
fn test_command_classification() {
    let perms = WorkerShellPermissions::default();
    assert_eq!(perms.classify_command("ls -la"), CommandClassification::Allowed);
    assert_eq!(perms.classify_command("cat file.txt"), CommandClassification::Allowed);
    assert_eq!(perms.classify_command("sudo ls"), CommandClassification::Forbidden);
    assert_eq!(perms.classify_command("rm -rf /"), CommandClassification::Forbidden);
    assert_eq!(perms.classify_command("rm file.txt"), CommandClassification::Restricted);
    assert_eq!(
        perms.classify_command("curl http://example.com"),
        CommandClassification::Restricted
    );
    assert_eq!(perms.classify_command("unknown_command"), CommandClassification::Restricted);
}

#[test]
fn test_tool_result_success() {
    let result = ToolResult::Success { output: "file contents".to_string(), structured: None };
    assert!(matches!(result, ToolResult::Success { .. }));
}

// ---------------------------------------------------------------------------
// Parallel consensus reasoning
// ---------------------------------------------------------------------------

#[test]
fn test_pacore_config_default() {
    let config = PaCoReConfig::default();
    assert_eq!(config.rounds, vec![1, 2, 4]);
    assert_eq!(config.max_concurrent, 10);
    assert_eq!(config.total_calls(), 7);
}

#[test]
fn test_pacore_config_from_str() {
    let config = PaCoReConfig::from_rounds_str("1,3,5").unwrap();
    assert_eq!(config.rounds, vec![1, 3, 5]);
    assert_eq!(config.total_calls(), 9);
}

#[test]
fn test_pacore_config_from_str_invalid() {
    assert!(PaCoReConfig::from_rounds_str("").is_err());
    assert!(PaCoReConfig::from_rounds_str("a,b,c").is_err());
}

#[test]
fn test_synthesize_prompt_single() {
    let responses = vec!["Analysis result".to_string()];
    let synthesized = engine_synthesis_prompt("What is 2+2?", &responses);
    assert!(synthesized.contains("What is 2+2?"));
    assert!(synthesized.contains("Analysis result"));
}

#[test]
fn pacore_rounds_are_trimmed_and_errors_are_exact() {
    let c = PaCoReConfig::from_rounds_str(" 2 , +3,4 ").unwrap();
    assert_eq!(c.rounds, vec![2, 3, 4]);
    assert_eq!(c.random_seed, None);
    assert_eq!(
        PaCoReConfig::from_rounds_str("").unwrap_err(),
        "Invalid rounds string: cannot parse integer from empty string"
    );
    assert_eq!(
        PaCoReConfig::from_rounds_str("1,x").unwrap_err(),
        "Invalid rounds string: invalid digit found in string"
    );
    assert_eq!(
        PaCoReConfig::from_rounds_str("1,,2").unwrap_err(),
        "Invalid rounds string: cannot parse integer from empty string"
    );
    assert_eq!(
        PaCoReConfig::from_rounds_str("99999999999999999999999").unwrap_err(),
        "Invalid rounds string: number too large to fit in target type"
    );
    assert_eq!(
        PaCoReConfig::from_rounds_str("-1").unwrap_err(),
        "Invalid rounds string: invalid digit found in string"
    );
}

#[test]
fn pacore_estimated_tokens() {
    let c = PaCoReConfig::default();
    assert_eq!(c.estimated_tokens(), (7000, 3500));
}

#[test]
fn pacore_synthesis_prompts() {
    assert_eq!(engine_synthesis_prompt("q", &vec![]), "q");
    assert_eq!(round_synthesis_prompt("q", &vec![]), "q");
    assert_eq!(
        round_synthesis_prompt("q", &strings(&["a"])),
        "Based on the previous analysis, provide an improved answer:\n\nOriginal Query: q\n\nPrevious Analysis: a\n\nImproved Answer:"
    );
    let multi = engine_synthesis_prompt("q", &strings(&["a", "b"]));
    assert_eq!(
        multi,
        "Based on the original query and multiple expert responses, provide a comprehensive answer.\n\nOriginal Query: q\n\nExpert Responses:\n\n--- Response 1 ---\na\n\n--- Response 2 ---\nb\n\n--- Your Synthesized Answer ---\nBased on these expert responses, provide a comprehensive and accurate answer."
    );
    let rounds = round_synthesis_prompt("q", &strings(&["a", "b"]));
    assert!(rounds.contains("\n--- Analysis 1 ---\na\n\n--- Analysis 2 ---\nb\n"));
}

#[test]
fn pacore_next_round_steps() {
    let rounds = vec![1, 2];
    match next_round(&rounds, 0, "q", &vec![]) {
        RoundStep::Run { calls, query, progress, step, total_steps } => {
            assert_eq!(calls, 1);
            assert_eq!(query, "q");
            assert_eq!(progress, "Round 1: Running 1 parallel calls");
            assert_eq!((step, total_steps), (1, 2));
        }
        _ => panic!("expected a round"),
    }
    match next_round(&rounds, 1, "q", &strings(&["a"])) {
        RoundStep::Run { calls, query, progress, .. } => {
            assert_eq!(calls, 2);
            assert!(query.contains("Previous Analysis: a"));
            assert_eq!(progress, "Round 2: Running 2 parallel calls");
        }
        _ => panic!("expected a round"),
    }
    match next_round(&rounds, 2, "q", &strings(&["x", "y"])) {
        RoundStep::Complete { content } => assert_eq!(content, "x"),
        _ => panic!("expected completion"),
    }
    match next_round(&rounds, 2, "q", &vec![]) {
        RoundStep::Complete { content } => assert_eq!(content, ""),
        _ => panic!("expected completion"),
    }
    assert_eq!(round_call_error(0, 2, "boom"), "Round 1 call 3 failed: boom");
}

// ---------------------------------------------------------------------------
// Backward-compatible driver
// ---------------------------------------------------------------------------

#[test]
fn legacy_replies() {
    assert_eq!(legacy_reply(true, "Final Answer: x"), LegacyReply::StepAgain);
    assert_eq!(legacy_reply(false, "Final Answer: 4"), LegacyReply::Finish);
    assert_eq!(legacy_reply(false, "{\"f\": \"done\"}"), LegacyReply::Finish);
    assert_eq!(legacy_reply(false, "ok?  "), LegacyReply::Finish);
    assert_eq!(legacy_reply(false, "Please wait"), LegacyReply::Finish);
    assert_eq!(legacy_reply(false, "Absolutely"), LegacyReply::Finish);
    assert_eq!(legacy_reply(false, "thinking"), LegacyReply::Nudge);
    assert_eq!(legacy_reply(false, "a reply that is longer than thirty bytes"), LegacyReply::Finish);
    assert_eq!(legacy_reply(false, "exactly thirty bytes long text"), LegacyReply::Nudge);
}

#[test]
fn legacy_arguments() {
    assert_eq!(command_of_args("{\"command\": \"ls -la\"}"), "ls -la");
    assert_eq!(command_of_args("{\"args\": \"pwd\"}"), "pwd");
    assert_eq!(command_of_args("{\"command\": 3, \"args\": \"pwd\"}"), "pwd");
    assert_eq!(command_of_args("{\"other\": 1}"), "{\"other\": 1}");
    assert_eq!(command_of_args("ls"), "ls");
    assert_eq!(extract_suggestion("execute_command", "{\"command\": \"ls\"}"), "ls");
    assert_eq!(extract_suggestion("read_file", "a.txt"), "read_file a.txt");
    assert_eq!(process_args("{\"args\": \"x\"}"), "x");
    assert_eq!(process_args("{\"command\": \"x\"}"), "{\"command\": \"x\"}");
    assert_eq!(process_args("plain"), "plain");
    assert!(needs_approval(false, false));
    assert!(!needs_approval(true, false));
    assert!(!needs_approval(false, true));
}

#[test]
fn legacy_messages() {
    assert_eq!(denied_observation("t"), "Error: User denied the execution of tool 't'.");
    assert_eq!(
        approval_unavailable_message("t"),
        "Approval required to run tool 't' but no approval channel is available (AUTO-APPROVE is OFF)."
    );
    assert_eq!(
        tool_error_observation("bad"),
        "Tool Error: bad. Analyze the failure and try a different command or approach if possible."
    );
    assert_eq!(
        tool_not_found_observation("x"),
        "Error: Tool 'x' not found. Check the available tools list."
    );
}

// ---------------------------------------------------------------------------
// Shell tool
// ---------------------------------------------------------------------------

#[test]
fn shell_arguments_and_launch() {
    let a = shell_args_or_raw("  \"ls -la\" ", None);
    assert_eq!(a.command, "ls -la");
    assert!(!a.background);
    let b = shell_args_or_raw(
        "ignored",
        Some(ShellArgs { command: "sleep 1".to_string(), background: true }),
    );
    assert_eq!(b.command, "sleep 1");
    assert!(b.background);
    assert!(matches!(shell_launch("ls", false, true), ShellLaunch::Foreground));
    match shell_launch("ls", true, true) {
        ShellLaunch::Background { job_description, description } => {
            assert_eq!(job_description, "Executing: ls");
            assert_eq!(description, "Running command: ls");
        }
        _ => panic!("expected a background launch"),
    }
    match shell_launch("ls", true, false) {
        ShellLaunch::NoRegistry { message } => assert_eq!(
            message,
            "Error: Background execution requested but no job registry available."
        ),
        _ => panic!("expected the registry error"),
    }
}

#[test]
fn shell_forbidden_patterns_first_match_wins() {
    let patterns = strings(&["rm *", "sudo *", "rm -rf *"]);
    let matcher = |cmd: &str, pat: &str| -> bool {
        match pat.strip_suffix('*') {
            Some(prefix) => cmd.starts_with(prefix),
            None => cmd == pat,
        }
    };
    assert_eq!(
        forbidden_check("rm -rf /", Some(&patterns), matcher),
        Some("Error: Command 'rm -rf /' is forbidden by pattern 'rm *'".to_string())
    );
    assert_eq!(forbidden_check("ls", Some(&patterns), matcher), None);
    assert_eq!(forbidden_check("rm x", None, matcher), None);
}

#[test]
fn shell_screen_and_output() {
    assert_eq!(screen_tail("abcdef", 10), "abcdef");
    assert_eq!(screen_tail("abcdef", 3), "def");
    assert_eq!(screen_tail("aé", 2), "aé");
    assert_eq!(screen_tail("xaé", 2), "aé");
    assert_eq!(combined_output("S", "O"), "--- TERMINAL CONTEXT ---\nS\nCMD_OUTPUT:\nO");
}

// ---------------------------------------------------------------------------
// Workers
// ---------------------------------------------------------------------------

#[test]
fn worker_collects_output() {
    let mut c = WorkerCollector::new();
    assert!(!c.on_output(WorkerOutputEvent::ResponseChunk { content: "Hel".to_string() }));
    assert!(!c.on_output(WorkerOutputEvent::ResponseComplete));
    assert!(!c.on_output(WorkerOutputEvent::ResponseChunk { content: "lo".to_string() }));
    assert!(c.on_output(WorkerOutputEvent::Halted));
    let r = c.finish(WorkerId(4));
    assert_eq!(r.output, "Hello");
    assert!(r.success);
    assert_eq!(r.worker_id, WorkerId(4));

    let mut e = WorkerCollector::new();
    assert!(e.on_output(WorkerOutputEvent::Error { message: "boom".to_string() }));
    let r = e.finish(WorkerId(1));
    assert_eq!(r.output, "Error: boom");
    assert!(!r.success);

    let mut f = WorkerCollector::new();
    f.on_run_end(SessionRunOutcome::Finished {
        completed_successfully: true,
        halt_reason: Some("done".to_string()),
    });
    let r = f.finish(WorkerId(2));
    assert_eq!(r.output, "Halted: done");
    assert!(r.success);

    let mut g = WorkerCollector::new();
    g.on_run_end(SessionRunOutcome::Failed { error: "x".to_string() });
    assert_eq!(g.finish(WorkerId(3)).output, "Session error: x");
}

#[test]
fn test_simple_worker_result_mapping() {
    let ok = simple_worker_result(WorkerId(1), Ok("Simple task completed".to_string()));
    assert!(ok.success);
    assert_eq!(ok.output, "Simple task completed");
    let err = simple_worker_result(WorkerId(1), Err("no".to_string()));
    assert!(!err.success);
    assert_eq!(err.output, "no");
    let f = session_failure_result(WorkerId(9), "e");
    assert_eq!(f.output, "Failed to create worker session: e");
    assert!(!f.success);
}

#[test]
fn worker_prompt_and_params() {
    let p = build_worker_prompt("List files");
    assert!(p.starts_with("You are a worker agent focused on completing a specific task.\n\nYour objective: List files\n\n"));
    assert!(p.ends_with("Be concise and focused."));
    let (id, params) = capability_spawn_params(7, "obj".to_string());
    assert_eq!(id, WorkerId(8));
    assert_eq!(params.id, "8");
    assert_eq!(params.objective, "obj");
    assert_eq!(params.parent_trace_id, "parent");
}

// ---------------------------------------------------------------------------
// Tool requests
// ---------------------------------------------------------------------------

#[test]
fn execution_responses() {
    let r = not_found_response("zap");
    assert!(r.result.is_none());
    let e = r.error.unwrap();
    assert_eq!(e.message, "Tool 'zap' not found");
    assert_eq!(e.code.as_deref(), Some("NOT_FOUND"));
    assert_eq!(
        permission_denied_response("no").error.unwrap().code.as_deref(),
        Some("PERMISSION_DENIED")
    );
    assert_eq!(tool_error_response("bad").error.unwrap().code.as_deref(), Some("TOOL_ERROR"));
    let ok = tool_success_response("out".to_string(), Some("call_1_0".to_string()), true);
    let rec = ok.result.unwrap();
    assert_eq!((rec.output.as_str(), rec.id.as_str(), rec.status.as_str()), ("out", "call_1_0", "background"));
    let ok2 = tool_success_response("o".to_string(), None, false);
    let rec2 = ok2.result.unwrap();
    assert_eq!((rec2.id.as_str(), rec2.status.as_str()), ("", "immediate"));
    assert_eq!(tool_call_entry("a", "b"), "Action: a\nInput: b");
}

// ---------------------------------------------------------------------------
// Prompts, recovery and memory
// ---------------------------------------------------------------------------

fn tool(name: &str, kind: ToolKind) -> ToolDescriptor {
    ToolDescriptor {
        name: name.to_string(),
        description: format!("{} tool", name),
        usage: format!("use {}", name),
        kind,
    }
}

#[test]
fn prompt_builder_build() {
    let b = PromptBuilder::new(
        "PREFIX".to_string(),
        vec![tool("a", ToolKind::Internal), tool("b", ToolKind::Terminal)],
        Some("CAPS".to_string()),
    );
    assert_eq!(b.format_tools_description(), "- a: a tool\n  Usage: use a\n- b: b tool\n  Usage: use b\n");
    assert_eq!(b.format_scratchpad_section(""), "");
    assert_eq!(
        b.format_scratchpad_section("note"),
        "\n\n## CURRENT SCRATCHPAD (Working Memory)\nnote\n"
    );
    let p = b.build("note");
    assert!(p.starts_with("PREFIX\n\n# Available Tools\n- a: a tool\n"));
    assert!(p.contains("\n## CURRENT SCRATCHPAD (Working Memory)\nnote\n\n# Response Format: Short-Key JSON Protocol\n"));
    assert!(p.contains("{\"t\": \"I need to list files in the current directory.\", \"a\": \"execute_command\", \"i\": \"ls\"}"));
    assert!(p.ends_with("Begin!\n\nCAPS\n"));
}

#[test]
fn recovery_prompts() {
    let c = RecoveryContext {
        task: "T".to_string(),
        available_tools: "TOOLS".to_string(),
        failed_content: "F".to_string(),
        error_message: "E".to_string(),
    };
    let s = c.system_prompt();
    assert!(s.starts_with("You are a recovery specialist for an AI agent."));
    assert!(s.contains("# Available Tools\nTOOLS\n\n# Original Task\nT\n\n# Short-Key JSON Protocol Schema\n"));
    assert_eq!(c.user_prompt(), "FAILED CONTENT:\nF\n\nERROR MESSAGE:\nE");
    assert_eq!(recovery_failed_message("x"), "Recovery failed to produce valid JSON: x");
    assert_eq!(recovery_model(None, "m"), "m");
    assert_eq!(recovery_model(Some("o".to_string()), "m"), "o");
}

#[test]
fn memory_context() {
    let m = MemoryManager::new(false);
    assert!(m.is_enabled());
    let entries = vec![
        JournalLine { timestamp: "t1".into(), entry_type: "Tool".into(), content: "first".into() },
        JournalLine { timestamp: "t2".into(), entry_type: "Output".into(), content: "line one\r\nline two".into() },
        JournalLine { timestamp: "t3".into(), entry_type: "Thought".into(), content: "x\r".into() },
    ];
    assert_eq!(
        m.get_hot_memory_context(&entries, 2),
        "- [t2] Output: line one\n- [t3] Thought: x\r\n"
    );
    assert_eq!(m.get_hot_memory_context(&vec![], 5), "");
    assert_eq!(m.hot_memory_message(""), None);
    assert!(m.hot_memory_message("ctx").unwrap().starts_with("## Recent Activity (Hot Memory)\nctx\n\n"));
    assert_eq!(MemoryManager::new(true).hot_memory_message("ctx"), None);
    let mems = vec![
        MemoryLine { kind: "command".into(), content: "ls".into(), time_text: "2024-01-01 10:00".into() },
        MemoryLine { kind: "fact".into(), content: "x".into(), time_text: "unknown time".into() },
    ];
    assert_eq!(
        m.build_context_from_memories(&mems),
        "## Relevant Past Operations & Knowledge\n1. [command] ls (2024-01-01 10:00)\n2. [fact] x (unknown time)\n\nUse this context to inform your actions and avoid repeating mistakes."
    );
    assert_eq!(m.build_context_from_memories(&vec![]), "");
    let mut h = vec![1, 2, 3];
    insert_after_first(&mut h, 9);
    assert_eq!(h, vec![1, 9, 2, 3]);
    let mut h1 = vec![1];
    insert_after_first(&mut h1, 9);
    assert_eq!(h1, vec![1, 9]);
}

#[test]
fn step_budget_counters() {
    let b = StepBudget::new(10).with_budget(4);
    assert_eq!(b.budget_stats(), (0, 4, 4));
    let mut c = b;
    c.increase_budget(3);
    assert_eq!(c.budget_stats(), (0, 7, 4));
    c.iteration_count = 10;
    assert!(c.limit_reached());
    c.reset();
    assert_eq!(c.budget_stats(), (0, 4, 4));
    assert_eq!(
        recalled_context_message("R"),
        "## Recalled Context (Long-term & Recent Memory)\nR\nUse this context to inform your decisions."
    );
}

// ---------------------------------------------------------------------------
// Other tools
// ---------------------------------------------------------------------------

#[test]
fn system_monitor_requests() {
    let t = SystemMonitorTool::new();
    assert!(matches!(t.report_for(""), SystemReport::Resources));
    assert!(matches!(t.report_for("  RESOURCES "), SystemReport::Resources));
    assert!(matches!(t.report_for("processes 5"), SystemReport::Processes { limit: 5 }));
    assert!(matches!(t.report_for("processes"), SystemReport::Processes { limit: 10 }));
    assert!(matches!(t.report_for("processes many"), SystemReport::Processes { limit: 10 }));
    assert!(matches!(t.report_for("Network"), SystemReport::Network));
    match t.report_for(" Disk ") {
        SystemReport::Unknown { message } => assert_eq!(
            message,
            "Unknown system_monitor command: 'disk'.\nUsage: Arguments: 'resources', 'processes [limit]', or 'network'"
        ),
        _ => panic!("expected an unknown request"),
    }
    assert_eq!(uptime_parts(90061), (1, 1, 1));
}

#[test]
fn terminal_sight_answers() {
    assert_eq!(sight_output("  \n"), "Terminal is currently empty or has no visible text.");
    assert_eq!(sight_output("$ ls"), "## Terminal Screen Snapshot:\n\n$ ls");
}

#[test]
fn write_file_arguments() {
    let t = WriteFileTool::write_target(None, Some("a.txt hello world")).unwrap();
    assert_eq!((t.path.as_str(), t.content.as_str()), ("a.txt", "hello world"));
    let e = WriteFileTool::write_target(None, Some("nospace")).unwrap_err();
    assert_eq!(e, "Expected 'path content' format with space separator");
    let e2 = WriteFileTool::write_target(None, None).unwrap_err();
    assert_eq!(e2, "Expected '{\"path\": \"...\", \"content\": \"...\"}' or string arguments");
    let s = WriteFileTool::write_target(
        Some(WriteTarget { path: "p".into(), content: "c".into() }),
        Some("x y"),
    )
    .unwrap();
    assert_eq!((s.path.as_str(), s.content.as_str()), ("p", "c"));
    assert_eq!(written_message("/tmp/a"), "File written successfully: /tmp/a");
    assert!(matches!(mkdir_error("e"), ToolResult::Error { ref message, .. } if message == "Cannot create directory: e"));
    assert!(matches!(write_error("e"), ToolResult::Error { ref code, .. } if code.as_deref() == Some("WRITE_ERROR")));
}

#[test]
fn web_search_routes_and_text() {
    assert!(matches!(search_route(true, "kimi"), SearchRoute::Kimi));
    assert!(matches!(search_route(true, "google"), SearchRoute::SerpApi));
    assert!(matches!(search_route(true, "serpapi"), SearchRoute::SerpApi));
    match search_route(true, "bing") {
        SearchRoute::Refused { message } => assert_eq!(message, "Unsupported web search provider: bing"),
        _ => panic!("expected a refusal"),
    }
    assert!(matches!(search_route(false, "kimi"), SearchRoute::Refused { .. }));
    assert_eq!(kimi_model(""), "kimi-k2-turbo-preview");
    assert_eq!(kimi_model("m"), "m");
    assert_eq!(answer_text("  \n"), "No results found.");
    assert_eq!(answer_text(" a "), "a");
    assert_eq!(serp_results_text(&vec![]), "No results found.");
    let r = |t: Option<&str>| SerpResult {
        title: t.map(|s| s.to_string()),
        snippet: Some("s".to_string()),
        link: None,
    };
    assert_eq!(
        serp_results_text(&vec![r(Some("A")), r(None)]),
        "### A\ns\nSource: \n\n### No Title\ns\nSource: "
    );
    let many: Vec<SerpResult> = (0..7).map(|_| r(Some("T"))).collect();
    assert_eq!(serp_results_text(&many).matches("### T").count(), 5);
}

// ---------------------------------------------------------------------------
// Approvals, retries and histories
// ---------------------------------------------------------------------------

#[test]
fn permission_auto_approval() {
    let exact = |cmd: &str, pat: &str| -> bool { cmd == pat };
    let perms = Some(AgentPermissions {
        allowed_tools: None,
        auto_approve_commands: Some(vec!["ls".to_string(), "pwd".to_string()]),
        forbidden_commands: None,
        worker_shell: None,
    });
    assert!(check_permission_auto_approve("{\"command\": \"pwd\"}", &perms, exact));
    assert!(check_permission_auto_approve("ls", &perms, exact));
    assert!(!check_permission_auto_approve("rm x", &perms, exact));
    assert!(!check_permission_auto_approve("ls", &None, exact));
    let none_listed = Some(AgentPermissions {
        allowed_tools: None,
        auto_approve_commands: None,
        forbidden_commands: None,
        worker_shell: None,
    });
    assert!(!check_permission_auto_approve("ls", &none_listed, exact));
}

#[test]
fn orchestrator_messages() {
    assert_eq!(
        stuck_job_notification("0123456789ab", "build", 15, "10:11:12"),
        "STUCK JOB: Worker 'build' (ID: 01234567) inactive 15s+. Last activity: 10:11:12. Cancel with /jobs cancel 01234567"
    );
    assert_eq!(
        stuck_job_notification("abc", "d", 15, "t"),
        "STUCK JOB: Worker 'd' (ID: abc) inactive 15s+. Last activity: t. Cancel with /jobs cancel abc"
    );
    assert_eq!(terminal_error("x"), "Error executing command: x");
    assert_eq!(no_terminal_error(), "Error: Terminal delegate not available");
    assert_eq!(unknown_tool_error("z"), "Error: Tool 'z' not found.");
    assert_eq!(no_tool_mechanism_error(), "No tool execution mechanism available");
    assert_eq!(approval_id("shell", 42), "shell-42");
}

#[test]
fn retry_backoff() {
    assert_eq!(retry_step(0, 3, 100, 7), RetryStep::Wait { delay_ms: 107 });
    assert_eq!(retry_step(1, 3, 100, 0), RetryStep::Wait { delay_ms: 200 });
    assert_eq!(retry_step(2, 3, 100, 0), RetryStep::GiveUp);
    assert_eq!(retry_step(0, 1, 100, 0), RetryStep::GiveUp);
}

#[test]
fn history_positions() {
    let roles = vec![MessageRole::System, MessageRole::User, MessageRole::Assistant, MessageRole::User, MessageRole::Tool];
    assert_eq!(last_user_index(&roles), Some(3));
    assert_eq!(last_user_index(&vec![MessageRole::System]), None);
    assert!(!needs_system_prompt(&roles));
    assert!(needs_system_prompt(&vec![]));
    assert!(needs_system_prompt(&vec![MessageRole::User]));
}

#[test]
fn json_repair_is_stable() {
    let raw = "{\"t\": \"line1\nline2\"}\n";
    let once = esc(raw);
    assert_eq!(once, "{\"t\": \"line1\\nline2\"}\n");
    assert_eq!(esc(&once), once);
    assert_eq!(esc("no strings\nhere"), "no strings\nhere");
}

#[test]
fn chat_session_counters() {
    let mut st = ChatSessionState::new();
    assert_eq!(st.count_step(2), None);
    assert_eq!(st.count_step(2), None);
    assert_eq!(st.count_step(2), Some("Error: Maximum iteration limit (2) reached.".to_string()));
    assert!(matches!(st.after_reply(true, 1), ReplyFollowUp::AutoConfirm { .. }));
    match st.after_reply(true, 1) {
        ReplyFollowUp::ConfirmLimit { message } => assert_eq!(
            message,
            "⚠️ Auto-confirm limit (1). Agent will stop and wait for your response."
        ),
        _ => panic!("expected the confirmation limit"),
    }
    assert_eq!(st.auto_confirm_count, 0);
    assert!(matches!(st.after_reply(false, 1), ReplyFollowUp::Wait));
    for _ in 0..10 {
        assert!(matches!(st.delegate_gate("delegate"), DelegateGate::Allowed));
    }
    assert!(matches!(st.delegate_gate("delegate"), DelegateGate::Blocked { .. }));
    assert!(matches!(st.delegate_gate("shell"), DelegateGate::Allowed));
    st.on_user_message();
    assert_eq!(st.delegate_call_count, 0);
    assert!(chat_is_idle(false, false, false));
    assert!(!chat_is_idle(false, true, false));
    assert!(is_rejection_status("Tool was rejected"));
    assert!(is_rejection_status("access denied"));
    assert!(!is_rejection_status("ok"));
    assert_eq!(chat_tool_observation(Ok("out".to_string())), "out");
    assert_eq!(chat_tool_observation(Err("bad".to_string())), "Error: bad");
}

struct FixedScreen(Result<String, String>);

impl mylm_core::agent::traits::TerminalExecutor for FixedScreen {
    fn execute_command(&self, _cmd: String, _timeout: Option<std::time::Duration>) -> Result<String, String> {
        Err("not supported".to_string())
    }

    fn get_screen(&self) -> Result<String, String> {
        self.0.clone()
    }
}

#[test]
fn terminal_sight_tool_reads_the_screen() {
    let blank = mylm_core::agent::tools::terminal_sight::TerminalSightTool::new(FixedScreen(Ok("  \n".to_string())));
    assert_eq!(blank.call("").unwrap(), "Terminal is currently empty or has no visible text.");
    let shown = mylm_core::agent::tools::terminal_sight::TerminalSightTool::new(FixedScreen(Ok("$ ls".to_string())));
    assert_eq!(shown.call("ignored").unwrap(), "## Terminal Screen Snapshot:\n\n$ ls");
    let failing = mylm_core::agent::tools::terminal_sight::TerminalSightTool::new(FixedScreen(Err("no tty".to_string())));
    assert_eq!(failing.call("").unwrap_err(), "no tty");
}

#[test]
fn chat_session_receives_messages() {
    let mut state = ChatSessionState { step_count: 4, auto_confirm_count: 2, delegate_call_count: 3 };
    let mut history: Vec<Message> = Vec::new();
    let mut observation: Option<String> = None;

    let event = ChatSessionMessage::WorkerEvent("job done".to_string());
    assert!(state.receive(event, &mut history, &mut observation));
    assert_eq!(observation.as_deref(), Some("job done"));
    assert_eq!(state.delegate_call_count, 3);

    let user = Message { role: MessageRole::User, content: "hi".to_string(), name: None };
    assert!(state.receive(ChatSessionMessage::UserMessage(user), &mut history, &mut observation));
    assert_eq!(history.len(), 1);
    assert_eq!(history[0].content, "hi");
    assert_eq!((state.step_count, state.auto_confirm_count, state.delegate_call_count), (4, 0, 0));
    assert_eq!(observation.as_deref(), Some("job done"));

    assert!(!state.receive(ChatSessionMessage::Interrupt, &mut history, &mut observation));
    assert_eq!(history.len(), 1);
}

#[test]
fn recovery_worker_request_and_outcome() {
    let worker = RecoveryWorker::new("base-model".to_string());
    let ctx = RecoveryContext {
        task: "list files".to_string(),
        available_tools: "shell".to_string(),
        failed_content: "{bad".to_string(),
        error_message: "EOF".to_string(),
    };
    let req = worker.request(&ctx, None);
    assert_eq!(req.model, "base-model");
    assert_eq!(req.messages.len(), 2);
    assert_eq!(req.messages[0].role, MessageRole::System);
    assert!(req.messages[0].content.contains("# Available Tools\nshell\n\n# Original Task\nlist files"));
    assert_eq!(req.messages[1].role, MessageRole::User);
    assert_eq!(req.messages[1].content, "FAILED CONTENT:\n{bad\n\nERROR MESSAGE:\nEOF");
    assert_eq!(worker.request(&ctx, Some("other".to_string())).model, "other");

    let err = ShortKeyParseError { message: "no json".to_string(), code: "E".to_string(), raw_content: String::new() };
    assert_eq!(RecoveryWorker::finish(Err(err)).unwrap_err(), "Recovery failed to produce valid JSON: no json");
    let action = ShortKeyAction {
        thought: "t".to_string(),
        action: None,
        input: None,
        final_answer: Some("done".to_string()),
        confirm: false,
    };
    let ok = RecoveryWorker::finish(Ok(vec![action])).unwrap();
    assert_eq!(ok[0].final_answer.as_deref(), Some("done"));
}

fn action_from_value(v: &serde_json::Value) -> Option<ShortKeyAction> {
    let o = v.as_object()?;
    Some(ShortKeyAction {
        thought: o.get("t").and_then(|t| t.as_str()).unwrap_or("").to_string(),
        action: o.get("a").and_then(|a| a.as_str()).map(|a| a.to_string()),
        input: o.get("i").cloned(),
        final_answer: o.get("f").and_then(|f| f.as_str()).map(|f| f.to_string()),
        confirm: o.get("c").and_then(|c| c.as_bool()).unwrap_or(false),
    })
}

fn parse_by_plan(content: &str) -> Result<Vec<ShortKeyAction>, ShortKeyParseError> {
    let mut outcomes = Vec::new();
    for attempt in short_key_parse_plan(content) {
        let parsed = serde_json::from_str::<serde_json::Value>(&attempt.text).ok().and_then(|v| match attempt.shape {
            ParseShape::Batch => v.as_array().and_then(|a| a.iter().map(action_from_value).collect::<Option<Vec<_>>>()),
            ParseShape::Single => action_from_value(&v).map(|a| vec![a]),
        });
        let done = parsed.is_some();
        outcomes.push(parsed);
        if done {
            break;
        }
    }
    select_parsed_actions(content, outcomes)
}

#[test]
fn short_key_replies_parse_in_plan_order() {
    let single = parse_by_plan(r#"{"t": "I need to list files.", "a": "execute_command", "i": "ls"}"#).unwrap();
    assert_eq!(single.len(), 1);
    assert_eq!(single[0].thought, "I need to list files.");
    assert_eq!(single[0].action.as_deref(), Some("execute_command"));

    let batch = parse_by_plan(r#"[{"t": "Check config", "a": "read_file", "i": "config.json"}, {"t": "Check logs", "a": "read_file", "i": "logs.txt"}]"#).unwrap();
    assert_eq!(batch.len(), 2);

    let fenced = parse_by_plan("Some text before\n```json\n{\"t\": \"Test\", \"f\": \"Final answer\"}\n```\nSome text after").unwrap();
    assert_eq!(fenced.len(), 1);
    assert_eq!(fenced[0].final_answer.as_deref(), Some("Final answer"));

    let repaired = parse_by_plan("{\"t\": \"Line 1\nLine 2\", \"f\": \"answer\"}").unwrap();
    assert_eq!(repaired[0].thought, "Line 1\nLine 2");

    let err = parse_by_plan("no json here").unwrap_err();
    assert_eq!(err.message, "Failed to parse Short-Key JSON from model response.");
    assert_eq!(err.code, "PARSE_ERROR");
    assert_eq!(err.raw_content, "no json here");
}

#[test]
fn parse_plan_tries_fences_then_whole_then_spans() {
    let content = "Intro {\"f\": \"x\"}\n```JSON\n[1]\n```\n";
    let plan = short_key_parse_plan(content);
    assert_eq!(plan.len(), 20);
    assert_eq!(plan[0].text, "[1]");
    assert_eq!(plan[0].shape, ParseShape::Batch);
    assert_eq!(plan[1].shape, ParseShape::Single);
    assert_eq!(plan[5].text, content.trim());
    assert_eq!(plan[10].text, "{\"f\": \"x\"}");
    assert_eq!(plan[15].text, "[1]");
    assert!(short_key_parse_plan("   ").is_empty());
}

#[test]
fn balanced_spans_and_fences() {
    let spans = extract_balanced_json_structures("x {\"a\":\"}\"} y [1,[2]] z ] {");
    assert_eq!(spans, vec!["{\"a\":\"}\"}".to_string(), "[1,[2]]".to_string()]);
    for s in &spans {
        assert!(s.starts_with('{') || s.starts_with('['));
        assert!(s.ends_with('}') || s.ends_with(']'));
    }
    let blocks = extract_json_code_fence_blocks("a\n```json\n{\"f\": \"`x`\"}\n```\nb\n```json\n[]\n```");
    assert_eq!(blocks, vec!["{\"f\": \"`x`\"}\n".to_string(), "[]\n".to_string()]);
    assert!(extract_json_code_fence_blocks("```rust\nfn main() {}\n```").is_empty());
}

#[test]
fn serpapi_request_url_is_percent_encoded() {
    let u = mylm_core::agent::tools::web_search::serpapi_url;
    assert_eq!(u("rust lang?", "k"), "https://serpapi.com/search.json?q=rust%20lang%3F&api_key=k");
    assert_eq!(u("é", "x"), "https://serpapi.com/search.json?q=%C3%A9&api_key=x");
    assert_eq!(u("~a-b_c.D9", ""), "https://serpapi.com/search.json?q=~a-b_c.D9&api_key=");
    assert_eq!(u("a&b=c/", "K"), "https://serpapi.com/search.json?q=a%26b%3Dc%2F&api_key=K");
    assert_eq!(
        mylm_core::agent::tools::web_search::serpapi_status("cats"),
        "Searching (SerpAPI): cats"
    );
}

#[test]
fn jittered_retry_waits_at_most_199_ms_extra() {
    for _ in 0..20 {
        match retry_step_jittered(2, 5, 100) {
            RetryStep::Wait { delay_ms } => assert!((400..600).contains(&delay_ms)),
            RetryStep::GiveUp => panic!("expected a wait"),
        }
    }
    assert_eq!(retry_step_jittered(4, 5, 100), RetryStep::GiveUp);
}

#[test]
fn synthesis_template_renders_every_response() {
    let engine = mylm_core::agent::v2::orchestrator::template::TemplateEngine::new();
    let refs = vec!["4".to_string(), "five".to_string()];
    let out = engine.render("synthesis_prompt", "What is 2+2?", &refs).unwrap();
    assert!(out.contains("You are given a problem and 2 reference responses."));
    assert!(out.contains("Problem:\nWhat is 2+2?\n"));
    assert!(out.contains("---\nResponse 1:\n4\n"));
    assert!(out.contains("---\nResponse 2:\nfive\n"));
    assert!(out.contains("Task: Synthesize a correct and complete answer."));
    assert!(!out.contains("{{"));
    assert_eq!(
        engine.render("other", "q", &refs).unwrap_err(),
        "Template 'other' not found"
    );
}

#[test]
fn task_ids_are_v4_uuids() {
    let id = mylm_core::agent::v2::orchestrator::types::TaskId::new();
    let s: Vec<char> = id.as_str().chars().collect();
    assert_eq!(s.len(), 36);
    for (i, c) in s.iter().enumerate() {
        if [8, 13, 18, 23].contains(&i) {
            assert_eq!(*c, '-');
        } else {
            assert!(c.is_ascii_hexdigit() && !c.is_ascii_uppercase());
        }
    }
    assert_eq!(s[14], '4');
    assert!(['8', '9', 'a', 'b'].contains(&s[19]));
}

#[test]
fn rate_limit_message_shows_the_duration() {
    let err = mylm_core::config::manager::RateLimitError::new(std::time::Duration::from_millis(1500), 0, 1);
    assert_eq!(err.to_string(), "Rate limit exceeded. Retry after 1.5s");
    assert!(mylm_core::config::manager::window_over(60));
    assert!(!mylm_core::config::manager::window_over(59));
}

#[test]
fn react_replies_become_decisions() {
    let held = react_step("I should list files.\nAction: shell\nAction Input: ls -la");
    match held {
        Some(ReactDecision::ThoughtFirst { thought, tool, args }) => {
            assert_eq!((thought.as_str(), tool.as_str(), args.as_str()), ("I should list files.", "shell", "ls -la"));
        }
        other => panic!("unexpected {:?}", other),
    }
    match react_step("Action: read_file\nAction Input: a.txt\nObservation: x") {
        Some(ReactDecision::Action { tool, args }) => {
            assert_eq!((tool.as_str(), args.as_str()), ("read_file", "a.txt"));
        }
        other => panic!("unexpected {:?}", other),
    }
    let fin = "Action: x\nAction Input: y\nFinal Answer: done";
    match react_step(fin) {
        Some(ReactDecision::FinalAnswer { message }) => assert_eq!(message, fin),
        other => panic!("unexpected {:?}", other),
    }
    assert!(react_step("just talking").is_none());
    assert!(react_step("Action: shell").is_none());
}

#[test]
fn native_tool_calls_are_decided() {
    match native_tool_step("", "nope", false) {
        NativeToolStep::UnknownTool { message } => assert_eq!(
            message,
            "I attempted to call tool 'nope' but it was not found. I will try again with a valid tool."
        ),
        other => panic!("unexpected {:?}", other),
    }
    match native_tool_step("Let me look.", "shell", true) {
        NativeToolStep::Held { message } => assert_eq!(message, "Let me look."),
        other => panic!("unexpected {:?}", other),
    }
    assert!(matches!(native_tool_step("  \n", "shell", true), NativeToolStep::Run));
}

#[test]
fn built_in_prompts_render_their_sections() {
    let tools = vec![ToolInfo {
        name: "shell".to_string(),
        description: "Run commands".to_string(),
        usage: "shell <cmd>".to_string(),
        category: ToolCategory::Terminal,
    }];
    let w = mylm_core::config::prompt::render_worker_prompt(tools.clone()).unwrap();
    assert!(w.starts_with("# MYLM Worker\n\nSpecialized worker agent for parallel task execution"));
    assert!(w.contains("You are a Worker Agent"));
    assert!(w.contains("shell"));
    let m = mylm_core::config::prompt::render_minimal_prompt(tools.clone()).unwrap();
    assert!(m.contains("You are MYLM, an autonomous AI assistant."));
    let s = mylm_core::config::prompt::render_system_prompt(tools, Some("/w".to_string()), Some("dev".to_string())).unwrap();
    assert!(s.contains("Working Directory: /w"));
    assert!(s.contains("Mode: dev"));
}
