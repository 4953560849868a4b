pub mod common;
pub mod error;
pub mod events;
pub mod ids;
pub mod intents;
pub mod observations;
