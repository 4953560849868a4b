//! Drivers of the agent loop.

pub mod event_driven;
pub mod legacy;
