//! Projects, their tasks, and the artifacts agents produce.

use vstd::prelude::*;
use crate::clock;
use crate::clone_opt_string;
use crate::codec::{
    artifact_type_of_str, artifact_type_str, decode_artifact_type, decode_project_status,
    decode_task_priority, decode_task_status, encode_artifact_type, encode_project_status,
    encode_task_priority, encode_task_status, project_status_of_str, project_status_str,
    task_priority_of_str, task_priority_str, task_status_of_str, task_status_str,
};
use crate::events::WorkflowError;

verus! {

/// Task status.
#[derive(Debug, Clone, Copy, PartialEq, Eq, Structural)]
pub enum TaskStatus {
    Backlog,
    Todo,
    InProgress,
    InReview,
    Blocked,
    Done,
    Cancelled,
}

impl Default for TaskStatus {
    fn default() -> (r: Self)
        ensures
            r == TaskStatus::Todo,
    {
        TaskStatus::Todo
    }
}

/// Task priority.
#[derive(Debug, Clone, Copy, PartialEq, Eq, PartialOrd, Ord, Structural)]
pub enum TaskPriority {
    Low,
    Medium,
    High,
    Critical,
}

impl Default for TaskPriority {
    fn default() -> (r: Self)
        ensures
            r == TaskPriority::Medium,
    {
        TaskPriority::Medium
    }
}

/// Artifact types that can be produced.
#[derive(Debug, Clone, Copy, PartialEq, Eq, Structural)]
pub enum ArtifactType {
    Code,
    Document,
    Image,
    Data,
    Config,
    Test,
    Log,
    Other,
}

/// An artifact produced by an agent.
#[derive(Debug, Clone)]
pub struct ProjectArtifact {
    pub id: String,
    pub project_id: String,
    pub task_id: Option<String>,
    pub agent_id: String,
    pub artifact_type: ArtifactType,
    pub name: String,
    pub description: Option<String>,
    /// File path or content.
    pub content: String,
    /// MIME type.
    pub mime_type: Option<String>,
    /// Size in bytes.
    pub size_bytes: Option<u64>,
    /// Version number.
    pub version: u32,
    /// Tags for categorization.
    pub tags: Vec<String>,
    /// RFC 3339 timestamp.
    pub created_at: String,
    /// RFC 3339 timestamp.
    pub updated_at: String,
}

impl ProjectArtifact {
    /// Create a new artifact whose stamps are `now`, at version 1.
    pub fn new_at(
        id: String,
        project_id: String,
        agent_id: String,
        artifact_type: ArtifactType,
        name: String,
        content: String,
        now: String,
    ) -> (r: Self)
        ensures
            r.id@ == id@,
            r.project_id@ == project_id@,
            r.task_id is None,
            r.agent_id@ == agent_id@,
            r.artifact_type == artifact_type,
            r.name@ == name@,
            r.description is None,
            r.content@ == content@,
            r.mime_type is None,
            r.size_bytes is None,
            r.version == 1,
            r.tags@.len() == 0,
            r.created_at@ == now@,
            r.updated_at@ == now@,
    {
        let created = now;
        let updated = created.clone();
        ProjectArtifact {
            id,
            project_id,
            task_id: None,
            agent_id,
            artifact_type,
            name,
            description: None,
            content,
            mime_type: None,
            size_bytes: None,
            version: 1,
            tags: Vec::new(),
            created_at: created,
            updated_at: updated,
        }
    }

    /// Create a new artifact, stamped with the current wall clock.
    pub fn new(
        id: String,
        project_id: String,
        agent_id: String,
        artifact_type: ArtifactType,
        name: String,
        content: String,
    ) -> (r: Self)
        ensures
            r.id@ == id@,
            r.project_id@ == project_id@,
            r.task_id is None,
            r.agent_id@ == agent_id@,
            r.artifact_type == artifact_type,
            r.name@ == name@,
            r.description is None,
            r.content@ == content@,
            r.mime_type is None,
            r.size_bytes is None,
            r.version == 1,
            r.tags@.len() == 0,
            r.created_at@ == r.updated_at@,
    {
        let now = clock::now_rfc3339();
        Self::new_at(id, project_id, agent_id, artifact_type, name, content, now)
    }
}

/// A task within a project. Effort estimates are carried in whole hours.
#[derive(Debug, Clone)]
pub struct ProjectTask {
    pub id: String,
    pub project_id: String,
    pub title: String,
    pub description: Option<String>,
    pub status: TaskStatus,
    pub priority: TaskPriority,
    /// Id of the agent working the task.
    pub assigned_agent_id: Option<String>,
    /// Parent task ID for subtasks.
    pub parent_task_id: Option<String>,
    /// Estimated effort in whole hours.
    pub estimated_hours: Option<u64>,
    /// Actual effort in whole hours.
    pub actual_hours: Option<u64>,
    /// Due date (RFC 3339).
    pub due_date: Option<String>,
    /// Completion percentage (0-100).
    pub progress: u8,
    /// Tags for categorization.
    pub tags: Vec<String>,
    /// Related artifact IDs.
    pub artifact_ids: Vec<String>,
    /// Ids of tasks that have to finish first.
    pub dependency_ids: Vec<String>,
    /// RFC 3339 timestamp.
    pub created_at: String,
    /// RFC 3339 timestamp.
    pub updated_at: String,
    /// RFC 3339 timestamp when completed.
    pub completed_at: Option<String>,
}

impl ProjectTask {
    /// Create a new task whose stamps are `now`: it starts as `Todo`, with
    /// medium priority and zero progress.
    pub fn new_at(id: String, project_id: String, title: String, now: String) -> (r: Self)
        ensures
            r.id@ == id@,
            r.project_id@ == project_id@,
            r.title@ == title@,
            r.description is None,
            r.status == TaskStatus::Todo,
            r.priority == TaskPriority::Medium,
            r.assigned_agent_id is None,
            r.parent_task_id is None,
            r.estimated_hours is None,
            r.actual_hours is None,
            r.due_date is None,
            r.progress == 0,
            r.tags@.len() == 0,
            r.artifact_ids@.len() == 0,
            r.dependency_ids@.len() == 0,
            r.created_at@ == now@,
            r.updated_at@ == now@,
            r.completed_at is None,
    {
        let created = now;
        let updated = created.clone();
        ProjectTask {
            id,
            project_id,
            title,
            description: None,
            status: TaskStatus::default(),
            priority: TaskPriority::default(),
            assigned_agent_id: None,
            parent_task_id: None,
            estimated_hours: None,
            actual_hours: None,
            due_date: None,
            progress: 0,
            tags: Vec::new(),
            artifact_ids: Vec::new(),
            dependency_ids: Vec::new(),
            created_at: created,
            updated_at: updated,
            completed_at: None,
        }
    }

    /// Create a new task, stamped with the current wall clock.
    pub fn new(id: String, project_id: String, title: String) -> (r: Self)
        ensures
            r.id@ == id@,
            r.project_id@ == project_id@,
            r.title@ == title@,
            r.status == TaskStatus::Todo,
            r.priority == TaskPriority::Medium,
            r.progress == 0,
            r.completed_at is None,
            r.created_at@ == r.updated_at@,
    {
        let now = clock::now_rfc3339();
        Self::new_at(id, project_id, title, now)
    }

    /// Mark the task as complete at the instant `now`: status `Done`, full
    /// progress, and both stamps set.
    pub fn complete_at(&mut self, now: String)
        ensures
            final(self).status == TaskStatus::Done,
            final(self).progress == 100,
            final(self).completed_at == Some(now),
            final(self).updated_at@ == now@,
            final(self).id == old(self).id,
            final(self).project_id == old(self).project_id,
            final(self).title == old(self).title,
            final(self).description == old(self).description,
            final(self).priority == old(self).priority,
            final(self).assigned_agent_id == old(self).assigned_agent_id,
            final(self).parent_task_id == old(self).parent_task_id,
            final(self).estimated_hours == old(self).estimated_hours,
            final(self).actual_hours == old(self).actual_hours,
            final(self).due_date == old(self).due_date,
            final(self).tags == old(self).tags,
            final(self).artifact_ids == old(self).artifact_ids,
            final(self).dependency_ids == old(self).dependency_ids,
            final(self).created_at == old(self).created_at,
    {
        self.status = TaskStatus::Done;
        self.progress = 100;
        self.updated_at = now.clone();
        self.completed_at = Some(now);
    }

    /// Mark the task as complete, stamped with the current wall clock.
    pub fn complete(&mut self)
        ensures
            final(self).status == TaskStatus::Done,
            final(self).progress == 100,
            final(self).completed_at is Some,
            final(self).id == old(self).id,
            final(self).project_id == old(self).project_id,
            final(self).title == old(self).title,
            final(self).description == old(self).description,
            final(self).priority == old(self).priority,
            final(self).assigned_agent_id == old(self).assigned_agent_id,
            final(self).parent_task_id == old(self).parent_task_id,
            final(self).estimated_hours == old(self).estimated_hours,
            final(self).actual_hours == old(self).actual_hours,
            final(self).due_date == old(self).due_date,
            final(self).tags == old(self).tags,
            final(self).artifact_ids == old(self).artifact_ids,
            final(self).dependency_ids == old(self).dependency_ids,
            final(self).created_at == old(self).created_at,
    {
        let now = clock::now_rfc3339();
        self.complete_at(now);
    }
}

/// Project status.
#[derive(Debug, Clone, Copy, PartialEq, Eq, Structural)]
pub enum ProjectStatus {
    Planning,
    Active,
    OnHold,
    Completed,
    Archived,
    Cancelled,
}

impl Default for ProjectStatus {
    fn default() -> (r: Self)
        ensures
            r == ProjectStatus::Planning,
    {
        ProjectStatus::Planning
    }
}

/// Project settings.
#[derive(Debug, Clone)]
pub struct ProjectSettings {
    /// Default agent mode for new agents.
    pub default_agent_mode: Option<String>,
    /// Auto-save interval in seconds.
    pub auto_save_interval: Option<u32>,
    /// Enable notifications.
    pub notifications_enabled: bool,
    /// Opaque encoded blob of custom settings.
    pub custom: Option<String>,
}

impl Default for ProjectSettings {
    fn default() -> (r: Self)
        ensures
            r.default_agent_mode is None,
            r.auto_save_interval is None,
            !r.notifications_enabled,
            r.custom is None,
    {
        ProjectSettings {
            default_agent_mode: None,
            auto_save_interval: None,
            notifications_enabled: false,
            custom: None,
        }
    }
}

/// A project containing workflows and tasks.
#[derive(Debug, Clone)]
pub struct EnhancedProject {
    pub id: String,
    pub name: String,
    pub description: Option<String>,
    pub status: ProjectStatus,
    /// Owner user ID.
    pub owner_id: Option<String>,
    /// Workflow IDs associated with this project.
    pub workflow_ids: Vec<String>,
    /// Agent IDs in this project.
    pub agent_ids: Vec<String>,
    /// Project settings.
    pub settings: ProjectSettings,
    /// Tags for categorization.
    pub tags: Vec<String>,
    /// RFC 3339 timestamp.
    pub created_at: String,
    /// RFC 3339 timestamp.
    pub updated_at: String,
}

impl EnhancedProject {
    /// Create a new project whose stamps are `now`: it starts in `Planning`.
    pub fn new_at(id: String, name: String, now: String) -> (r: Self)
        ensures
            r.id@ == id@,
            r.name@ == name@,
            r.description is None,
            r.status == ProjectStatus::Planning,
            r.owner_id is None,
            r.workflow_ids@.len() == 0,
            r.agent_ids@.len() == 0,
            r.settings.default_agent_mode is None,
            r.settings.auto_save_interval is None,
            !r.settings.notifications_enabled,
            r.settings.custom is None,
            r.tags@.len() == 0,
            r.created_at@ == now@,
            r.updated_at@ == now@,
    {
        let created = now;
        let updated = created.clone();
        EnhancedProject {
            id,
            name,
            description: None,
            status: ProjectStatus::default(),
            owner_id: None,
            workflow_ids: Vec::new(),
            agent_ids: Vec::new(),
            settings: ProjectSettings::default(),
            tags: Vec::new(),
            created_at: created,
            updated_at: updated,
        }
    }

    /// Create a new project, stamped with the current wall clock.
    pub fn new(id: String, name: String) -> (r: Self)
        ensures
            r.id@ == id@,
            r.name@ == name@,
            r.description is None,
            r.status == ProjectStatus::Planning,
            r.owner_id is None,
            r.workflow_ids@.len() == 0,
            r.agent_ids@.len() == 0,
            r.tags@.len() == 0,
            r.created_at@ == r.updated_at@,
    {
        let now = clock::now_rfc3339();
        Self::new_at(id, name, now)
    }
}

/// The flattened form of a project used at the persistence boundary.
#[derive(Debug, Clone)]
pub struct ProjectRow {
    pub id: String,
    pub name: String,
    pub description: Option<String>,
    pub status: String,
    pub owner_id: Option<String>,
    pub workflow_ids_json: String,
    pub agent_ids_json: String,
    pub settings_json: String,
    pub tags_json: String,
    pub created_at: String,
    pub updated_at: String,
}

/// The flattened form of a task used at the persistence boundary.
#[derive(Debug, Clone)]
pub struct TaskRow {
    pub id: String,
    pub project_id: String,
    pub title: String,
    pub description: Option<String>,
    pub status: String,
    pub priority: String,
    pub assigned_agent_id: Option<String>,
    pub parent_task_id: Option<String>,
    pub estimated_hours: Option<i64>,
    pub actual_hours: Option<i64>,
    pub due_date: Option<String>,
    pub progress: i32,
    pub tags_json: String,
    pub artifact_ids_json: String,
    pub dependency_ids_json: String,
    pub created_at: String,
    pub updated_at: String,
    pub completed_at: Option<String>,
}

/// The flattened form of an artifact used at the persistence boundary.
#[derive(Debug, Clone)]
pub struct ArtifactRow {
    pub id: String,
    pub project_id: String,
    pub task_id: Option<String>,
    pub agent_id: String,
    pub artifact_type: String,
    pub name: String,
    pub description: Option<String>,
    pub content: String,
    pub mime_type: Option<String>,
    pub size_bytes: Option<i64>,
    pub version: i32,
    pub tags_json: String,
    pub created_at: String,
    pub updated_at: String,
}

impl EnhancedProject {
    /// Flatten for storage. The status takes its encoded string form; the
    /// encoded blobs are supplied by the persistence boundary.
    pub fn to_row(
        &self,
        workflow_ids_json: String,
        agent_ids_json: String,
        settings_json: String,
        tags_json: String,
    ) -> (r: ProjectRow)
        ensures
            r.id == self.id,
            r.name == self.name,
            r.description == self.description,
            r.status@ == project_status_str(self.status),
            r.owner_id == self.owner_id,
            r.workflow_ids_json@ == workflow_ids_json@,
            r.agent_ids_json@ == agent_ids_json@,
            r.settings_json@ == settings_json@,
            r.tags_json@ == tags_json@,
            r.created_at == self.created_at,
            r.updated_at == self.updated_at,
    {
        ProjectRow {
            id: self.id.clone(),
            name: self.name.clone(),
            description: clone_opt_string(&self.description),
            status: String::from_str(encode_project_status(&self.status)),
            owner_id: clone_opt_string(&self.owner_id),
            workflow_ids_json,
            agent_ids_json,
            settings_json,
            tags_json,
            created_at: self.created_at.clone(),
            updated_at: self.updated_at.clone(),
        }
    }

    /// Rebuild a project from its stored row. The decoded lists and settings
    /// are supplied by the persistence boundary; the operation fails exactly
    /// when the stored status is not an encoded value.
    pub fn from_row(
        row: ProjectRow,
        workflow_ids: Vec<String>,
        agent_ids: Vec<String>,
        settings: ProjectSettings,
        tags: Vec<String>,
    ) -> (r: Result<EnhancedProject, WorkflowError>)
        ensures
            match r {
                Ok(p) => {
                    &&& project_status_of_str(row.status@) == Some(p.status)
                    &&& p.id == row.id
                    &&& p.name == row.name
                    &&& p.description == row.description
                    &&& p.owner_id == row.owner_id
                    &&& p.workflow_ids == workflow_ids
                    &&& p.agent_ids == agent_ids
                    &&& p.settings == settings
                    &&& p.tags == tags
                    &&& p.created_at == row.created_at
                    &&& p.updated_at == row.updated_at
                },
                Err(e) => (e matches WorkflowError::Deserialization { .. })
                    && project_status_of_str(row.status@) is None,
            },
    {
        let status = match decode_project_status(row.status.as_str()) {
            Some(s) => s,
            None => {
                return Err(
                    WorkflowError::Deserialization {
                        message: String::from_str("unknown project status"),
                    },
                );
            },
        };
        Ok(
            EnhancedProject {
                id: row.id,
                name: row.name,
                description: row.description,
                status,
                owner_id: row.owner_id,
                workflow_ids,
                agent_ids,
                settings,
                tags,
                created_at: row.created_at,
                updated_at: row.updated_at,
            },
        )
    }
}

impl ProjectTask {
    /// Flatten for storage. The status and priority take their encoded
    /// string forms; the encoded blobs are supplied by the persistence
    /// boundary.
    pub fn to_row(
        &self,
        tags_json: String,
        artifact_ids_json: String,
        dependency_ids_json: String,
    ) -> (r: TaskRow)
        requires
            self.estimated_hours matches Some(h) ==> h <= i64::MAX,
            self.actual_hours matches Some(h) ==> h <= i64::MAX,
        ensures
            r.id == self.id,
            r.project_id == self.project_id,
            r.title == self.title,
            r.description == self.description,
            r.status@ == task_status_str(self.status),
            r.priority@ == task_priority_str(self.priority),
            r.assigned_agent_id == self.assigned_agent_id,
            r.parent_task_id == self.parent_task_id,
            r.estimated_hours == match self.estimated_hours {
                Some(h) => Some(h as i64),
                None => None::<i64>,
            },
            r.actual_hours == match self.actual_hours {
                Some(h) => Some(h as i64),
                None => None::<i64>,
            },
            r.due_date == self.due_date,
            r.progress == self.progress as i32,
            r.tags_json@ == tags_json@,
            r.artifact_ids_json@ == artifact_ids_json@,
            r.dependency_ids_json@ == dependency_ids_json@,
            r.created_at == self.created_at,
            r.updated_at == self.updated_at,
            r.completed_at == self.completed_at,
    {
        TaskRow {
            id: self.id.clone(),
            project_id: self.project_id.clone(),
            title: self.title.clone(),
            description: clone_opt_string(&self.description),
            status: String::from_str(encode_task_status(&self.status)),
            priority: String::from_str(encode_task_priority(&self.priority)),
            assigned_agent_id: clone_opt_string(&self.assigned_agent_id),
            parent_task_id: clone_opt_string(&self.parent_task_id),
            estimated_hours: match self.estimated_hours {
                Some(h) => Some(h as i64),
                None => None,
            },
            actual_hours: match self.actual_hours {
                Some(h) => Some(h as i64),
                None => None,
            },
            due_date: clone_opt_string(&self.due_date),
            progress: self.progress as i32,
            tags_json,
            artifact_ids_json,
            dependency_ids_json,
            created_at: self.created_at.clone(),
            updated_at: self.updated_at.clone(),
            completed_at: clone_opt_string(&self.completed_at),
        }
    }

    /// Rebuild a task from its stored row. The decoded lists are supplied by
    /// the persistence boundary; the operation fails exactly when a stored
    /// enum field is not an encoded value.
    pub fn from_row(
        row: TaskRow,
        tags: Vec<String>,
        artifact_ids: Vec<String>,
        dependency_ids: Vec<String>,
    ) -> (r: Result<ProjectTask, WorkflowError>)
        ensures
            match r {
                Ok(t) => {
                    &&& task_status_of_str(row.status@) == Some(t.status)
                    &&& task_priority_of_str(row.priority@) == Some(t.priority)
                    &&& t.id == row.id
                    &&& t.project_id == row.project_id
                    &&& t.title == row.title
                    &&& t.description == row.description
                    &&& t.assigned_agent_id == row.assigned_agent_id
                    &&& t.parent_task_id == row.parent_task_id
                    &&& t.estimated_hours == match row.estimated_hours {
                        Some(h) => Some(h as u64),
                        None => None::<u64>,
                    }
                    &&& t.actual_hours == match row.actual_hours {
                        Some(h) => Some(h as u64),
                        None => None::<u64>,
                    }
                    &&& t.due_date == row.due_date
                    &&& t.progress == row.progress as u8
                    &&& t.tags == tags
                    &&& t.artifact_ids == artifact_ids
                    &&& t.dependency_ids == dependency_ids
                    &&& t.created_at == row.created_at
                    &&& t.updated_at == row.updated_at
                    &&& t.completed_at == row.completed_at
                },
                Err(e) => (e matches WorkflowError::Deserialization { .. }) && (task_status_of_str(
                    row.status@,
                ) is None || task_priority_of_str(row.priority@) is None),
            },
    {
        let status = match decode_task_status(row.status.as_str()) {
            Some(s) => s,
            None => {
                return Err(
                    WorkflowError::Deserialization {
                        message: String::from_str("unknown task status"),
                    },
                );
            },
        };
        let priority = match decode_task_priority(row.priority.as_str()) {
            Some(p) => p,
            None => {
                return Err(
                    WorkflowError::Deserialization {
                        message: String::from_str("unknown task priority"),
                    },
                );
            },
        };
        Ok(
            ProjectTask {
                id: row.id,
                project_id: row.project_id,
                title: row.title,
                description: row.description,
                status,
                priority,
                assigned_agent_id: row.assigned_agent_id,
                parent_task_id: row.parent_task_id,
                estimated_hours: match row.estimated_hours {
                    Some(h) => Some(h as u64),
                    None => None,
                },
                actual_hours: match row.actual_hours {
                    Some(h) => Some(h as u64),
                    None => None,
                },
                due_date: row.due_date,
                progress: row.progress as u8,
                tags,
                artifact_ids,
                dependency_ids,
                created_at: row.created_at,
                updated_at: row.updated_at,
                completed_at: row.completed_at,
            },
        )
    }
}

impl ProjectArtifact {
    /// Flatten for storage. The artifact type takes its encoded string form;
    /// the encoded blob of the tags is supplied by the persistence boundary.
    pub fn to_row(&self, tags_json: String) -> (r: ArtifactRow)
        requires
            self.size_bytes matches Some(s) ==> s <= i64::MAX,
            self.version <= i32::MAX,
        ensures
            r.id == self.id,
            r.project_id == self.project_id,
            r.task_id == self.task_id,
            r.agent_id == self.agent_id,
            r.artifact_type@ == artifact_type_str(self.artifact_type),
            r.name == self.name,
            r.description == self.description,
            r.content == self.content,
            r.mime_type == self.mime_type,
            r.size_bytes == match self.size_bytes {
                Some(s) => Some(s as i64),
                None => None::<i64>,
            },
            r.version == self.version as i32,
            r.tags_json@ == tags_json@,
            r.created_at == self.created_at,
            r.updated_at == self.updated_at,
    {
        ArtifactRow {
            id: self.id.clone(),
            project_id: self.project_id.clone(),
            task_id: clone_opt_string(&self.task_id),
            agent_id: self.agent_id.clone(),
            artifact_type: String::from_str(encode_artifact_type(&self.artifact_type)),
            name: self.name.clone(),
            description: clone_opt_string(&self.description),
            content: self.content.clone(),
            mime_type: clone_opt_string(&self.mime_type),
            size_bytes: match self.size_bytes {
                Some(s) => Some(s as i64),
                None => None,
            },
            version: self.version as i32,
            tags_json,
            created_at: self.created_at.clone(),
            updated_at: self.updated_at.clone(),
        }
    }

    /// Rebuild an artifact from its stored row. The decoded tags are
    /// supplied by the persistence boundary; the operation fails exactly when
    /// the stored artifact type is not an encoded value.
    pub fn from_row(row: ArtifactRow, tags: Vec<String>) -> (r: Result<
        ProjectArtifact,
        WorkflowError,
    >)
        ensures
            match r {
                Ok(a) => {
                    &&& artifact_type_of_str(row.artifact_type@) == Some(a.artifact_type)
                    &&& a.id == row.id
                    &&& a.project_id == row.project_id
                    &&& a.task_id == row.task_id
                    &&& a.agent_id == row.agent_id
                    &&& a.name == row.name
                    &&& a.description == row.description
                    &&& a.content == row.content
                    &&& a.mime_type == row.mime_type
                    &&& a.size_bytes == match row.size_bytes {
                        Some(s) => Some(s as u64),
                        None => None::<u64>,
                    }
                    &&& a.version == row.version as u32
                    &&& a.tags == tags
                    &&& a.created_at == row.created_at
                    &&& a.updated_at == row.updated_at
                },
                Err(e) => (e matches WorkflowError::Deserialization { .. })
                    && artifact_type_of_str(row.artifact_type@) is None,
            },
    {
        let artifact_type = match decode_artifact_type(row.artifact_type.as_str()) {
            Some(t) => t,
            None => {
                return Err(
                    WorkflowError::Deserialization {
                        message: String::from_str("unknown artifact type"),
                    },
                );
            },
        };
        Ok(
            ProjectArtifact {
                id: row.id,
                project_id: row.project_id,
                task_id: row.task_id,
                agent_id: row.agent_id,
                artifact_type,
                name: row.name,
                description: row.description,
                content: row.content,
                mime_type: row.mime_type,
                size_bytes: match row.size_bytes {
                    Some(s) => Some(s as u64),
                    None => None,
                },
                version: row.version as u32,
                tags,
                created_at: row.created_at,
                updated_at: row.updated_at,
            },
        )
    }
}

} // verus!
