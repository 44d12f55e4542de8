//! Tests for the agent status machine, the interaction lifecycle, the
//! metrics aggregator, and the interaction statistics.

use agentflow::agent::{AgentMode, AgentStatus, EnhancedAgent, ProviderType};
use agentflow::interaction::{
    AgentInteraction, InteractionPriority, InteractionStatus, InteractionType,
};
use agentflow::stats::{interaction_stats, InteractionStats};

// 2024-01-01T00:00:00+00:00 as epoch milliseconds
const JAN_2024_MS: i64 = 1704067200000;

fn interaction(id: &str, workflow: &str) -> AgentInteraction {
    AgentInteraction::new_at(
        id.to_string(),
        workflow.to_string(),
        "initiator".to_string(),
        vec!["target".to_string()],
        InteractionType::Message,
        "hello".to_string(),
        "2024-01-01T00:00:00+00:00".to_string(),
    )
}

#[test]
fn agent_status_classification() {
    assert!(AgentStatus::Completed.is_terminal());
    assert!(AgentStatus::Failed.is_terminal());
    assert!(AgentStatus::Cancelled.is_terminal());
    assert!(!AgentStatus::Running.is_terminal());
    assert!(!AgentStatus::Idle.is_terminal());

    assert!(AgentStatus::Running.is_active());
    assert!(AgentStatus::WaitingForInput.is_active());
    assert!(AgentStatus::WaitingForApproval.is_active());
    assert!(AgentStatus::Paused.is_active());
    assert!(!AgentStatus::Idle.is_active());
    assert!(!AgentStatus::Completed.is_active());
}

#[test]
fn agent_status_display_and_color() {
    assert_eq!(AgentStatus::WaitingForInput.display_name(), "Waiting for Input");
    assert_eq!(AgentStatus::WaitingForApproval.display_name(), "Waiting for Approval");
    assert_eq!(AgentStatus::Idle.color(), "#6b7280");
    assert_eq!(AgentStatus::Running.color(), "#8b5cf6");
    assert_eq!(AgentStatus::Failed.color(), "#ef4444");
    assert_eq!(AgentStatus::Cancelled.color(), "#6b7280");
}

#[test]
fn agent_defaults() {
    assert_eq!(AgentMode::default(), AgentMode::Supervised);
    assert_eq!(AgentStatus::default(), AgentStatus::Idle);
    assert_eq!(ProviderType::default(), ProviderType::Ollama);
    let a = EnhancedAgent::new_at(
        "a1".to_string(),
        "Agent".to_string(),
        "2024-01-01T00:00:00+00:00".to_string(),
    );
    assert_eq!(a.mode, AgentMode::Supervised);
    assert_eq!(a.status, AgentStatus::Idle);
    assert_eq!(a.provider_config.model, "llama3.2");
    assert_eq!(a.metrics.total_tasks, 0);
    assert_eq!(a.metrics.avg_response_time_ms, 0);
    assert!(a.metrics.last_active.is_none());
    assert_eq!(a.created_at, a.updated_at);
}

#[test]
fn set_status_stamps_last_active_only_for_active_states() {
    let mut a = EnhancedAgent::new_at(
        "a1".to_string(),
        "Agent".to_string(),
        "2024-01-01T00:00:00+00:00".to_string(),
    );
    a.set_status_at(AgentStatus::Completed, "t1".to_string());
    assert_eq!(a.status, AgentStatus::Completed);
    assert_eq!(a.updated_at, "t1");
    assert!(a.metrics.last_active.is_none());

    a.set_status_at(AgentStatus::Running, "t2".to_string());
    assert_eq!(a.status, AgentStatus::Running);
    assert_eq!(a.updated_at, "t2");
    assert_eq!(a.metrics.last_active.as_deref(), Some("t2"));

    a.set_status_at(AgentStatus::Idle, "t3".to_string());
    assert_eq!(a.metrics.last_active.as_deref(), Some("t2"));
}

#[test]
fn three_records_give_exact_mean() {
    let mut a = EnhancedAgent::new_at(
        "a1".to_string(),
        "Agent".to_string(),
        "2024-01-01T00:00:00+00:00".to_string(),
    );
    a.record_task_completion_at(true, 100, 10, "t1".to_string());
    a.record_task_completion_at(false, 50, 20, "t2".to_string());
    a.record_task_completion_at(true, 0, 40, "t3".to_string());
    assert_eq!(a.metrics.total_tasks, 3);
    assert_eq!(a.metrics.completed_tasks, 2);
    assert_eq!(a.metrics.failed_tasks, 1);
    assert_eq!(a.metrics.total_tokens, 150);
    assert_eq!(a.metrics.total_duration_ms, 70);
    // the exact arithmetic mean of 10, 20, 40, rounded down
    assert_eq!(a.metrics.avg_response_time_ms, 23);
    assert_eq!(a.updated_at, "t3");
}

#[test]
fn first_record_mean_is_the_duration() {
    let mut a = EnhancedAgent::new_at(
        "a1".to_string(),
        "Agent".to_string(),
        "2024-01-01T00:00:00+00:00".to_string(),
    );
    a.record_task_completion_at(true, 7, 42, "t1".to_string());
    assert_eq!(a.metrics.total_tasks, 1);
    assert_eq!(a.metrics.avg_response_time_ms, 42);
}

#[test]
fn interaction_starts_pending() {
    let it = interaction("i1", "wf1");
    assert_eq!(it.status, InteractionStatus::Pending);
    assert_eq!(it.priority, InteractionPriority::Normal);
    assert!(it.duration_ms.is_none());
    assert!(it.completed_at.is_none());
    assert_eq!(it.content.message, "hello");
    assert!(it.content.attachments.is_empty());
}

#[test]
fn complete_computes_duration_and_stamps() {
    let mut it = interaction("i1", "wf1");
    it.complete_at("2024-01-01T00:00:01.500+00:00".to_string(), JAN_2024_MS + 1500);
    assert_eq!(it.status, InteractionStatus::Completed);
    assert_eq!(it.completed_at.as_deref(), Some("2024-01-01T00:00:01.500+00:00"));
    assert_eq!(it.duration_ms, Some(1500));
}

#[test]
fn complete_clamps_backwards_clock_to_zero() {
    let mut it = interaction("i1", "wf1");
    it.complete_at("2023-12-31T23:59:59+00:00".to_string(), JAN_2024_MS - 1000);
    assert_eq!(it.status, InteractionStatus::Completed);
    assert_eq!(it.duration_ms, Some(0));
}

#[test]
fn complete_with_wall_clock_records_a_duration() {
    let mut it = AgentInteraction::new(
        "i1".to_string(),
        "wf1".to_string(),
        "initiator".to_string(),
        vec![],
        InteractionType::TaskCompletion,
        "done".to_string(),
    );
    it.complete();
    assert_eq!(it.status, InteractionStatus::Completed);
    assert!(it.completed_at.is_some());
    assert!(it.duration_ms.is_some());
}

#[test]
fn fail_appends_reason_and_keeps_duration_unset() {
    let mut it = interaction("i1", "wf1");
    it.fail_at("model unavailable".to_string(), "t1".to_string());
    assert_eq!(it.status, InteractionStatus::Failed);
    assert_eq!(it.completed_at.as_deref(), Some("t1"));
    assert_eq!(it.content.message, "hello\n\nError: model unavailable");
    assert!(it.duration_ms.is_none());
}

#[test]
fn interaction_terminal_statuses() {
    assert!(InteractionStatus::Completed.is_terminal());
    assert!(InteractionStatus::Failed.is_terminal());
    assert!(InteractionStatus::Cancelled.is_terminal());
    assert!(!InteractionStatus::Pending.is_terminal());
    assert!(!InteractionStatus::InProgress.is_terminal());
}

#[test]
fn interaction_type_display_and_icon() {
    assert_eq!(InteractionType::TaskAssignment.display_name(), "Task Assignment");
    assert_eq!(InteractionType::ApprovalDenied.display_name(), "Approval Denied");
    assert_eq!(InteractionType::Message.icon(), "Chat");
    assert_eq!(InteractionType::CodeReview.icon(), "CodeBlock");
    assert_eq!(InteractionType::System.icon(), "Settings");
}

#[test]
fn stats_over_mixed_statuses() {
    let mut items = Vec::new();
    let mut a = interaction("i1", "wf1");
    a.complete_at("t".to_string(), JAN_2024_MS + 100);
    items.push(a);
    let mut b = interaction("i2", "wf1");
    b.complete_at("t".to_string(), JAN_2024_MS + 200);
    items.push(b);
    let mut c = interaction("i3", "wf1");
    c.fail_at("boom".to_string(), "t".to_string());
    items.push(c);
    items.push(interaction("i4", "wf1"));
    let mut e = interaction("i5", "wf1");
    e.status = InteractionStatus::InProgress;
    e.duration_ms = Some(60);
    items.push(e);

    let s = interaction_stats(&items, None);
    assert_eq!(
        s,
        InteractionStats {
            total: 5,
            completed: 2,
            failed: 1,
            pending: 2,
            avg_duration_ms: 120,
        }
    );
}

#[test]
fn stats_respect_workflow_filter() {
    let mut items = Vec::new();
    let mut a = interaction("i1", "wf1");
    a.complete_at("t".to_string(), JAN_2024_MS + 300);
    items.push(a);
    items.push(interaction("i2", "wf2"));
    let s = interaction_stats(&items, Some("wf1".to_string()));
    assert_eq!(s.total, 1);
    assert_eq!(s.completed, 1);
    assert_eq!(s.failed, 0);
    assert_eq!(s.pending, 0);
    assert_eq!(s.avg_duration_ms, 300);
}

#[test]
fn stats_of_nothing_are_zero() {
    let items: Vec<AgentInteraction> = Vec::new();
    let s = interaction_stats(&items, None);
    assert_eq!(s.total, 0);
    assert_eq!(s.pending, 0);
    assert_eq!(s.avg_duration_ms, 0);
}
