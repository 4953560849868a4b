//! Configuration: providers, permissions, profiles and prompt rendering.

pub mod agent;
pub mod app;
pub mod bridge;
pub mod endpoints;
pub mod manager;
pub mod prompt;
pub mod prompt_schema;
pub mod provider;
pub mod types;
pub mod v2;

use vstd::prelude::*;

verus! {

/// The system prompt of chat sessions in the terminal interface.
pub const TUI_SYSTEM_PROMPT: &'static str = "You are mylm, a helpful AI assistant for terminal tasks.\n\nYou can use tools to:\n- Execute shell commands\n- Read and write files\n- Search code\n- Check git status\n- Delegate tasks to workers\n\nBe concise and helpful.";

/// The system prompt for terminal-interface sessions (the same text
/// whatever the session).
pub fn build_system_prompt() -> (r: String)
    ensures
        r@ == TUI_SYSTEM_PROMPT@,
{
    crate::text::to_owned(TUI_SYSTEM_PROMPT)
}

} // verus!
