//! Verified core of the mylm terminal assistant: identifiers, protocol
//! parsing, command policies, driver decisions and configuration logic.

pub mod text;
pub mod agent;
pub mod config;
pub mod context;
pub mod json;
pub mod named_map;
