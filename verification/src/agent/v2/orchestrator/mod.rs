//! The orchestrator: configuration, and the decisions of its agent loops.

pub mod pacore;
pub mod rules;
pub mod template;
pub mod types;
