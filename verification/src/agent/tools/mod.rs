//! Tools that workers and the main agent use.

pub mod shell;
pub mod system;
pub mod terminal_sight;
pub mod web_search;
pub mod worker_shell;
pub mod write_file;
