use mylm_core::config::prompt::loader::PromptLoader;
use mylm_core::config::prompt::renderer::{
    substitute_variables, PromptRenderer, RenderContext, ToolCategory, ToolInfo,
};
use mylm_core::config::prompt::PromptManager;
use mylm_core::config::prompt_schema::{IdentitySection, PromptConfig, Section};

fn create_test_config() -> PromptConfig {
    PromptConfig {
        version: "1.0".to_string(),
        identity: IdentitySection {
            name: "Test Agent".to_string(),
            description: "A test agent".to_string(),
            capabilities: None,
        },
        sections: vec![Section {
            id: "test".to_string(),
            title: "Test Section".to_string(),
            content: Some("Hello {name}!".to_string()),
            dynamic: Some(false),
            generator: None,
            priority: Some(1),
            conditions: None,
        }],
        placeholders: None,
        protocols: None,
        variables: None,
        raw_content: None,
    }
}

#[test]
fn test_render_basic() {
    let config = create_test_config();
    let mut context = RenderContext::new();
    context.variables.insert("name".to_string(), "World".to_string());

    let result = PromptRenderer::render(&config, &context);

    assert!(result.contains("Test Agent"));
    assert!(result.contains("Hello World!"));
}

#[test]
fn test_substitute_variables() {
    let mut context = RenderContext::new();
    context.variables.insert("name".to_string(), "Alice".to_string());
    context.variables.insert("task".to_string(), "testing".to_string());

    let content = "Hello {name}, your task is {task}. Unknown: {missing}";
    let result = substitute_variables(content, &context);

    assert_eq!(result, "Hello Alice, your task is testing. Unknown: {missing}");
}

#[test]
fn test_render_tools_section() {
    let tools = vec![
        ToolInfo {
            name: "read_file".to_string(),
            description: "Read a file".to_string(),
            usage: "read_file <path>".to_string(),
            category: ToolCategory::Internal,
        },
        ToolInfo {
            name: "shell".to_string(),
            description: "Execute shell command".to_string(),
            usage: "shell <command>".to_string(),
            category: ToolCategory::Terminal,
        },
    ];

    let result = PromptRenderer::render_tools(&tools);

    assert!(result.contains("Internal Tools"));
    assert!(result.contains("Terminal Tools"));
    assert!(result.contains("read_file"));
    assert!(result.contains("shell"));
}

#[test]
fn test_render_context_builder() {
    let context = RenderContext::new()
        .with_working_directory("/home/user")
        .with_mode("test")
        .with_variable("custom", "value");

    assert_eq!(context.working_directory, Some("/home/user".to_string()));
    assert_eq!(context.mode, Some("test".to_string()));
    assert_eq!(context.variables.get("custom"), Some(&"value".to_string()));
}

#[test]
fn test_load_builtin_system() {
    let loader = PromptLoader::default();
    let config = loader.load_builtin("system").unwrap();

    assert_eq!(config.identity.name, "MYLM");
    assert!(!config.sections.is_empty());
}

#[test]
fn test_load_builtin_minimal() {
    let loader = PromptLoader::default();
    let config = loader.load_builtin("minimal").unwrap();

    assert_eq!(config.identity.name, "MYLM");
}

#[test]
fn test_load_builtin_worker() {
    let loader = PromptLoader::default();
    let config = loader.load_builtin("worker").unwrap();

    assert_eq!(config.identity.name, "MYLM Worker");
}

#[test]
fn test_load_builtin_not_found() {
    let loader = PromptLoader::default();
    let result = loader.load_builtin("nonexistent");

    assert!(result.is_err());
}

#[test]
fn loader_test_list_available() {
    let loader = PromptLoader::default();
    let names = loader.list_available();

    assert!(names.contains(&"system".to_string()));
    assert!(names.contains(&"minimal".to_string()));
    assert!(names.contains(&"worker".to_string()));
}

#[test]
fn test_manager_load_builtin() {
    let mut manager = PromptManager::default();
    let config = manager.load("system").unwrap();

    assert_eq!(config.identity.name, "MYLM");
    assert!(!config.sections.is_empty());
}

#[test]
fn test_manager_render() {
    let mut manager = PromptManager::default();
    let config = manager.load("minimal").unwrap();

    let context = RenderContext::new();
    let rendered = manager.render(&config, &context);

    assert!(rendered.contains("MYLM"));
    assert!(rendered.contains("autonomous AI assistant"));
}

#[test]
fn test_manager_load_and_render() {
    let mut manager = PromptManager::default();

    let context = RenderContext::new().with_mode("test");

    let rendered = manager.load_and_render("minimal", &context).unwrap();

    assert!(!rendered.is_empty());
}

#[test]
fn mod_test_list_available() {
    let manager = PromptManager::default();
    let names = manager.list_available();

    assert!(names.contains(&"system".to_string()));
    assert!(names.contains(&"minimal".to_string()));
    assert!(names.contains(&"worker".to_string()));
}

#[test]
fn missing_default_prompts_are_listed_in_order() {
    let manager = PromptManager::with_config_dir(std::path::PathBuf::from("/nonexistent/prompts"));
    let none: Vec<String> = Vec::new();
    let all = manager.ensure_defaults(&none);
    let names: Vec<&str> = all.iter().map(|(n, _)| n.as_str()).collect();
    assert_eq!(names, vec!["system", "minimal", "worker"]);
    assert_eq!(all[2].1.identity.name, "MYLM Worker");

    let present = vec!["minimal".to_string(), "notes".to_string()];
    let some = manager.ensure_defaults(&present);
    let names: Vec<&str> = some.iter().map(|(n, _)| n.as_str()).collect();
    assert_eq!(names, vec!["system", "worker"]);

    let full = vec!["worker".to_string(), "system".to_string(), "minimal".to_string()];
    assert!(manager.ensure_defaults(&full).is_empty());
}
