use mylm_core::agent::types::events::TokenUsage;
use mylm_core::agent::types::ids::{IntentId, LogicalClock};

#[test]
fn test_token_usage() {
    let usage = TokenUsage::new(100, 50);
    assert_eq!(usage.total_tokens, 150);
}

#[test]
fn test_intent_id_from_step() {
    let id = IntentId::from_step(5, 3);
    assert_eq!(id.step_count(), 5);
    assert_eq!(id.intent_index(), 3);
}

#[test]
fn test_logical_clock() {
    let mut c1 = LogicalClock::new(5);
    let c2 = LogicalClock::new(10);
    c1.update(c2);
    assert_eq!(c1.0, 11);
}

use mylm_core::agent::types::intents::Priority;
use mylm_core::agent::types::observations::{ExecutionError, ExecutionSummary};

#[test]
fn test_priority_ordering() {
    assert!(Priority::Critical < Priority::High);
    assert!(Priority::High < Priority::Normal);
    assert!(Priority::Normal < Priority::Background);
}

#[test]
fn test_execution_summary() {
    let mut summary = ExecutionSummary::new(10);
    summary.record_completed(100);
    summary.record_completed(200);
    summary.record_failed();

    assert_eq!(summary.completed, 2);
    assert_eq!(summary.failed, 1);
    assert_eq!(summary.avg_execution_time_ms(), 150);
}

#[test]
fn test_execution_error() {
    let err = ExecutionError::new("tool failed").with_code("TOOL_ERROR").retryable();

    assert_eq!(err.message, "tool failed");
    assert_eq!(err.code, Some("TOOL_ERROR".to_string()));
    assert!(err.retryable);
}
