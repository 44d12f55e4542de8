//! Tests for the role store guard, the persistence-boundary codec, the row
//! conversions, relationships, and the remaining constructors.

use agentflow::agent::{AgentMode, AgentStatus, EnhancedAgent};
use agentflow::codec::{
    decode_agent_status, decode_interaction_priority, decode_relationship_type,
    decode_task_status, encode_agent_mode, encode_agent_status, encode_interaction_type,
    encode_relationship_type, encode_task_priority, interaction_status_update_fields,
};
use agentflow::events::WorkflowError;
use agentflow::interaction::{AgentInteraction, InteractionStatus, InteractionType};
use agentflow::project::{
    ArtifactType, EnhancedProject, ProjectArtifact, ProjectStatus, ProjectTask, TaskPriority,
    TaskStatus,
};
use agentflow::relationship::{AgentRelationship, RelationshipType};
use agentflow::role::{Role, RoleRow};
use agentflow::store::RoleStore;

fn role_row(id: &str, built_in: bool) -> RoleRow {
    RoleRow {
        id: id.to_string(),
        name: format!("role {}", id),
        description: "a role".to_string(),
        icon: "Person".to_string(),
        color: "#6366f1".to_string(),
        capabilities_json: "[]".to_string(),
        system_prompt: String::new(),
        tools_json: "[]".to_string(),
        constraints_json: "{}".to_string(),
        is_built_in: built_in,
        version: "1.0.0".to_string(),
        tags_json: "[]".to_string(),
        created_at: "2024-01-01T00:00:00+00:00".to_string(),
        updated_at: "2024-01-01T00:00:00+00:00".to_string(),
    }
}

#[test]
fn builtin_role_update_rejected_and_row_unchanged() {
    let mut store = RoleStore::new();
    store.create_role(role_row("core", true)).unwrap();
    let mut submitted = role_row("core", true);
    submitted.name = "renamed".to_string();
    let err = store.update_role_at(submitted, "t2".to_string()).expect_err("protected");
    assert_eq!(err, WorkflowError::BuiltInRoleMutation);
    let stored = store.role("core").expect("still stored");
    assert_eq!(stored.name, "role core");
    assert_eq!(stored.updated_at, "2024-01-01T00:00:00+00:00");
}

#[test]
fn builtin_role_delete_rejected() {
    let mut store = RoleStore::new();
    store.create_role(role_row("core", true)).unwrap();
    let err = store.delete_role("core").expect_err("protected");
    assert_eq!(err, WorkflowError::BuiltInRoleMutation);
    assert!(store.role("core").is_some());
}

#[test]
fn role_store_crud() {
    let mut store = RoleStore::new();
    store.create_role(role_row("r1", false)).unwrap();
    store.create_role(role_row("r2", false)).unwrap();
    assert_eq!(store.roles().len(), 2);

    let mut submitted = role_row("r1", false);
    submitted.name = "renamed".to_string();
    store.update_role_at(submitted, "t9".to_string()).unwrap();
    let stored = store.role("r1").expect("stored");
    assert_eq!(stored.name, "renamed");
    // the creation stamp is kept; the update stamp is new
    assert_eq!(stored.created_at, "2024-01-01T00:00:00+00:00");
    assert_eq!(stored.updated_at, "t9");

    store.delete_role("r1").unwrap();
    assert!(store.role("r1").is_none());
    assert_eq!(store.roles().len(), 1);
}

#[test]
fn duplicate_role_id_is_a_store_failure() {
    let mut store = RoleStore::new();
    store.create_role(role_row("r1", false)).unwrap();
    let err = store.create_role(role_row("r1", false)).expect_err("duplicate");
    match err {
        WorkflowError::Persistence { message } => {
            assert_eq!(message, "Failed to create role: a role with this id already exists");
        },
        other => panic!("unexpected error: {:?}", other),
    }
    assert_eq!(store.roles().len(), 1);
}

#[test]
fn updating_a_missing_role_changes_nothing() {
    let mut store = RoleStore::new();
    store.create_role(role_row("r1", false)).unwrap();
    store.update_role_at(role_row("ghost", false), "t2".to_string()).unwrap();
    assert_eq!(store.roles().len(), 1);
    assert!(store.role("ghost").is_none());
}

#[test]
fn built_in_roles_are_filtered() {
    let mut store = RoleStore::new();
    store.create_role(role_row("a", false)).unwrap();
    store.create_role(role_row("b", true)).unwrap();
    store.create_role(role_row("c", true)).unwrap();
    let built_in = store.built_in_roles();
    let ids: Vec<&str> = built_in.iter().map(|r| r.id.as_str()).collect();
    assert_eq!(ids, vec!["b", "c"]);
}

#[test]
fn enum_codec_encodes_kebab_case_in_quotes() {
    assert_eq!(encode_agent_status(&AgentStatus::WaitingForInput), "\"waiting-for-input\"");
    assert_eq!(encode_agent_mode(&AgentMode::Supervised), "\"supervised\"");
    assert_eq!(encode_interaction_type(&InteractionType::TaskAssignment), "\"task-assignment\"");
    assert_eq!(encode_task_priority(&TaskPriority::Critical), "\"critical\"");
    assert_eq!(encode_relationship_type(&RelationshipType::InformsTo), "\"informs-to\"");
}

#[test]
fn enum_codec_decodes_and_rejects() {
    assert_eq!(decode_agent_status("\"waiting-for-approval\""), Some(AgentStatus::WaitingForApproval));
    assert_eq!(decode_agent_status("waiting-for-approval"), None);
    assert_eq!(decode_agent_status("\"nonsense\""), None);
    assert_eq!(decode_task_status("\"in-review\""), Some(TaskStatus::InReview));
    assert_eq!(decode_relationship_type("\"requests-from\""), Some(RelationshipType::RequestsFrom));
    assert_eq!(decode_interaction_priority("\"urgent\""), Some(agentflow::interaction::InteractionPriority::Urgent));
}

#[test]
fn status_update_fields_stamp_terminal_statuses_only() {
    let (encoded, completed) =
        interaction_status_update_fields(InteractionStatus::Completed, "t1".to_string());
    assert_eq!(encoded, "\"completed\"");
    assert_eq!(completed.as_deref(), Some("t1"));
    let (encoded, completed) =
        interaction_status_update_fields(InteractionStatus::InProgress, "t1".to_string());
    assert_eq!(encoded, "\"in-progress\"");
    assert!(completed.is_none());
}

#[test]
fn relationship_effective_color_prefers_override() {
    let mut rel = AgentRelationship::new_at(
        "r1".to_string(),
        "a".to_string(),
        "b".to_string(),
        RelationshipType::Supervises,
        "2024-01-01T00:00:00+00:00".to_string(),
    );
    assert_eq!(rel.effective_color(), "#8b5cf6");
    rel.metadata.color = Some("#123456".to_string());
    assert_eq!(rel.effective_color(), "#123456");
}

#[test]
fn relationship_display_names_and_default_colors() {
    assert_eq!(RelationshipType::InformsTo.display_name(), "Informs");
    assert_eq!(RelationshipType::RequestsFrom.display_name(), "Requests From");
    assert_eq!(RelationshipType::Blocks.default_color(), "#ef4444");
    assert_eq!(RelationshipType::Collaborates.default_color(), "#22c55e");
}

#[test]
fn relationship_defaults() {
    let rel = AgentRelationship::new_at(
        "r1".to_string(),
        "a".to_string(),
        "b".to_string(),
        RelationshipType::Delegates,
        "2024-01-01T00:00:00+00:00".to_string(),
    );
    assert_eq!(rel.metadata.strength, 1000);
    assert!(!rel.metadata.bidirectional);
    assert_eq!(rel.metadata.priority, 0);
    assert!(rel.metadata.auto_approve);
    assert_eq!(rel.metadata.authority_delta, 0);
}

#[test]
fn interaction_row_conversion_roundtrip() {
    let mut it = AgentInteraction::new_at(
        "i1".to_string(),
        "wf1".to_string(),
        "a".to_string(),
        vec!["b".to_string()],
        InteractionType::CodeReview,
        "please review".to_string(),
        "2024-01-01T00:00:00+00:00".to_string(),
    );
    it.duration_ms = Some(777);
    let row = it.to_row("[\"b\"]".to_string(), "{}".to_string());
    assert_eq!(row.interaction_type, "\"code-review\"");
    assert_eq!(row.status, "\"pending\"");
    assert_eq!(row.priority, "\"normal\"");
    assert_eq!(row.duration_ms, Some(777));

    let back = AgentInteraction::from_row(
        row,
        it.target_agent_ids.clone(),
        it.content.clone(),
    )
    .expect("decodes");
    assert_eq!(back.interaction_type, it.interaction_type);
    assert_eq!(back.status, it.status);
    assert_eq!(back.priority, it.priority);
    assert_eq!(back.duration_ms, Some(777));
    assert_eq!(back.created_at, it.created_at);
}

#[test]
fn interaction_row_with_unknown_status_is_rejected() {
    let it = AgentInteraction::new_at(
        "i1".to_string(),
        "wf1".to_string(),
        "a".to_string(),
        vec![],
        InteractionType::Message,
        "m".to_string(),
        "2024-01-01T00:00:00+00:00".to_string(),
    );
    let mut row = it.to_row("[]".to_string(), "{}".to_string());
    row.status = "\"gone\"".to_string();
    let err = AgentInteraction::from_row(row, vec![], it.content.clone())
        .expect_err("unknown status");
    assert!(matches!(err, WorkflowError::Deserialization { .. }));
}

#[test]
fn agent_row_conversion_roundtrip() {
    let a = EnhancedAgent::new_at(
        "a1".to_string(),
        "Agent".to_string(),
        "2024-01-01T00:00:00+00:00".to_string(),
    );
    let row = a.to_row("{}".to_string(), "{}".to_string());
    assert_eq!(row.mode, "\"supervised\"");
    assert_eq!(row.status, "\"idle\"");
    let back = EnhancedAgent::from_row(row, a.provider_config.clone(), a.metrics.clone())
        .expect("decodes");
    assert_eq!(back.mode, AgentMode::Supervised);
    assert_eq!(back.status, AgentStatus::Idle);
    assert_eq!(back.name, "Agent");
}

#[test]
fn role_defaults_and_row_conversion() {
    let role = Role::new_at(
        "r1".to_string(),
        "Planner".to_string(),
        "reviews code".to_string(),
        "2024-01-01T00:00:00+00:00".to_string(),
    );
    assert_eq!(role.icon, "Person");
    assert_eq!(role.color, "#6366f1");
    assert_eq!(role.version, "1.0.0");
    assert!(!role.is_built_in);
    assert_eq!(role.constraints.max_concurrent_tasks, Some(3));
    assert_eq!(role.constraints.max_tokens_per_request, Some(4096));
    assert_eq!(role.constraints.allowed_file_patterns, vec!["**/*".to_string()]);

    let row = role.to_row(
        "[]".to_string(),
        "[]".to_string(),
        "{}".to_string(),
        "[]".to_string(),
    );
    assert_eq!(row.name, "Planner");
    assert!(!row.is_built_in);
    let back = Role::from_row(row, vec![], vec![], role.constraints.clone(), vec![]);
    assert_eq!(back.name, "Planner");
    assert_eq!(back.created_at, role.created_at);
}

#[test]
fn project_task_lifecycle() {
    let mut task = ProjectTask::new_at(
        "t1".to_string(),
        "p1".to_string(),
        "write tests".to_string(),
        "2024-01-01T00:00:00+00:00".to_string(),
    );
    assert_eq!(task.status, TaskStatus::Todo);
    assert_eq!(task.priority, TaskPriority::Medium);
    assert_eq!(task.progress, 0);
    task.complete_at("t2".to_string());
    assert_eq!(task.status, TaskStatus::Done);
    assert_eq!(task.progress, 100);
    assert_eq!(task.completed_at.as_deref(), Some("t2"));
    assert_eq!(task.updated_at, "t2");

    let row = task.to_row("[]".to_string(), "[]".to_string(), "[]".to_string());
    assert_eq!(row.status, "\"done\"");
    assert_eq!(row.priority, "\"medium\"");
    assert_eq!(row.progress, 100);
}

#[test]
fn project_and_artifact_defaults() {
    let p = EnhancedProject::new_at(
        "p1".to_string(),
        "Project".to_string(),
        "2024-01-01T00:00:00+00:00".to_string(),
    );
    assert_eq!(p.status, ProjectStatus::Planning);
    assert!(p.workflow_ids.is_empty());
    let row = p.to_row(
        "[]".to_string(),
        "[]".to_string(),
        "{}".to_string(),
        "[]".to_string(),
    );
    assert_eq!(row.status, "\"planning\"");

    let a = ProjectArtifact::new_at(
        "ar1".to_string(),
        "p1".to_string(),
        "agent".to_string(),
        ArtifactType::Document,
        "notes".to_string(),
        "content".to_string(),
        "2024-01-01T00:00:00+00:00".to_string(),
    );
    assert_eq!(a.version, 1);
    assert!(a.task_id.is_none());
    let row = a.to_row("[]".to_string());
    assert_eq!(row.artifact_type, "\"document\"");
    assert_eq!(row.version, 1);
}

#[test]
fn agent_status_codec_inverts_for_every_value() {
    let all = [
        AgentStatus::Idle,
        AgentStatus::Initializing,
        AgentStatus::Ready,
        AgentStatus::Running,
        AgentStatus::WaitingForInput,
        AgentStatus::WaitingForApproval,
        AgentStatus::Paused,
        AgentStatus::Completed,
        AgentStatus::Failed,
        AgentStatus::Cancelled,
    ];
    for s in all {
        assert_eq!(decode_agent_status(encode_agent_status(&s)), Some(s));
    }
}

#[test]
fn interaction_type_codec_inverts_for_every_value() {
    let all = [
        InteractionType::Message,
        InteractionType::TaskAssignment,
        InteractionType::TaskCompletion,
        InteractionType::ApprovalRequest,
        InteractionType::ApprovalGranted,
        InteractionType::ApprovalDenied,
        InteractionType::CodeReview,
        InteractionType::Feedback,
        InteractionType::StatusUpdate,
        InteractionType::Error,
        InteractionType::System,
    ];
    for t in all {
        assert_eq!(
            agentflow::codec::decode_interaction_type(encode_interaction_type(&t)),
            Some(t)
        );
    }
}

#[test]
fn wall_clock_stamps_are_valid_rfc3339() {
    let agent = EnhancedAgent::new("a1".to_string(), "Agent".to_string());
    assert_eq!(agent.created_at, agent.updated_at);
    assert!(chrono::DateTime::parse_from_rfc3339(&agent.created_at).is_ok());

    let role = Role::new("r1".to_string(), "Planner".to_string(), "plans".to_string());
    assert!(chrono::DateTime::parse_from_rfc3339(&role.created_at).is_ok());

    let mut task = ProjectTask::new("t1".to_string(), "p1".to_string(), "title".to_string());
    task.complete();
    assert_eq!(task.status, TaskStatus::Done);
    assert!(chrono::DateTime::parse_from_rfc3339(task.completed_at.as_ref().unwrap()).is_ok());

    let project = EnhancedProject::new("p1".to_string(), "Project".to_string());
    assert_eq!(project.status, ProjectStatus::Planning);
    assert!(chrono::DateTime::parse_from_rfc3339(&project.created_at).is_ok());
}

#[test]
fn wall_clock_status_change_stamps_last_active() {
    let mut agent = EnhancedAgent::new("a1".to_string(), "Agent".to_string());
    agent.set_status(AgentStatus::Running);
    assert_eq!(agent.status, AgentStatus::Running);
    let stamp = agent.metrics.last_active.clone().expect("active state stamps last_active");
    assert!(chrono::DateTime::parse_from_rfc3339(&stamp).is_ok());

    agent.record_task_completion(true, 10, 5);
    assert_eq!(agent.metrics.total_tasks, 1);
    assert_eq!(agent.metrics.avg_response_time_ms, 5);
}
