pub mod driver;
pub mod execution;
pub mod jobs;
pub mod memory;
pub mod orchestrator;
pub mod prompt;
pub mod protocol;
pub mod recovery;
pub mod step_rules;
