//! Inter-agent interactions and their lifecycle.
//!
//! An interaction records one communication or action between agents. It is
//! created as `Pending` and moves toward a terminal status through completion,
//! failure, or cancellation.

use vstd::prelude::*;
use crate::clock;
use crate::clock::rfc3339_epoch_millis;
use crate::clone_opt_string;
use crate::codec::{
    interaction_priority_of_str, interaction_priority_str, interaction_status_of_str,
    interaction_status_str, interaction_type_of_str, interaction_type_str, encode_interaction_priority,
    encode_interaction_status, encode_interaction_type, decode_interaction_priority,
    decode_interaction_status, decode_interaction_type,
};
use crate::events::WorkflowError;

verus! {

/// Types of interactions between agents.
#[derive(Debug, Clone, Copy, PartialEq, Eq, Structural)]
pub enum InteractionType {
    /// Direct message between agents.
    Message,
    /// Task assignment or delegation.
    TaskAssignment,
    /// Task completion notification.
    TaskCompletion,
    /// Request for approval.
    ApprovalRequest,
    /// Approval granted.
    ApprovalGranted,
    /// Approval denied.
    ApprovalDenied,
    /// Code review request.
    CodeReview,
    /// Feedback or comment.
    Feedback,
    /// Status update.
    StatusUpdate,
    /// Error or exception.
    Error,
    /// System event.
    System,
}

impl InteractionType {
    /// The human-readable name of each interaction type.
    pub open spec fn display_name_spec(self) -> Seq<char> {
        match self {
            InteractionType::Message => "Message"@,
            InteractionType::TaskAssignment => "Task Assignment"@,
            InteractionType::TaskCompletion => "Task Completion"@,
            InteractionType::ApprovalRequest => "Approval Request"@,
            InteractionType::ApprovalGranted => "Approval Granted"@,
            InteractionType::ApprovalDenied => "Approval Denied"@,
            InteractionType::CodeReview => "Code Review"@,
            InteractionType::Feedback => "Feedback"@,
            InteractionType::StatusUpdate => "Status Update"@,
            InteractionType::Error => "Error"@,
            InteractionType::System => "System"@,
        }
    }

    /// Get the display name.
    pub fn display_name(&self) -> (r: &'static str)
        ensures
            r@ == self.display_name_spec(),
    {
        match self {
            InteractionType::Message => "Message",
            InteractionType::TaskAssignment => "Task Assignment",
            InteractionType::TaskCompletion => "Task Completion",
            InteractionType::ApprovalRequest => "Approval Request",
            InteractionType::ApprovalGranted => "Approval Granted",
            InteractionType::ApprovalDenied => "Approval Denied",
            InteractionType::CodeReview => "Code Review",
            InteractionType::Feedback => "Feedback",
            InteractionType::StatusUpdate => "Status Update",
            InteractionType::Error => "Error",
            InteractionType::System => "System",
        }
    }

    /// The icon identifier of each interaction type.
    pub open spec fn icon_spec(self) -> Seq<char> {
        match self {
            InteractionType::Message => "Chat"@,
            InteractionType::TaskAssignment => "TaskList"@,
            InteractionType::TaskCompletion => "CheckmarkCircle"@,
            InteractionType::ApprovalRequest => "QuestionCircle"@,
            InteractionType::ApprovalGranted => "CheckmarkSquare"@,
            InteractionType::ApprovalDenied => "DismissSquare"@,
            InteractionType::CodeReview => "CodeBlock"@,
            InteractionType::Feedback => "Comment"@,
            InteractionType::StatusUpdate => "Info"@,
            InteractionType::Error => "ErrorCircle"@,
            InteractionType::System => "Settings"@,
        }
    }

    /// Get the icon for this interaction type.
    pub fn icon(&self) -> (r: &'static str)
        ensures
            r@ == self.icon_spec(),
    {
        match self {
            InteractionType::Message => "Chat",
            InteractionType::TaskAssignment => "TaskList",
            InteractionType::TaskCompletion => "CheckmarkCircle",
            InteractionType::ApprovalRequest => "QuestionCircle",
            InteractionType::ApprovalGranted => "CheckmarkSquare",
            InteractionType::ApprovalDenied => "DismissSquare",
            InteractionType::CodeReview => "CodeBlock",
            InteractionType::Feedback => "Comment",
            InteractionType::StatusUpdate => "Info",
            InteractionType::Error => "ErrorCircle",
            InteractionType::System => "Settings",
        }
    }
}

/// Status of an interaction.
#[derive(Debug, Clone, Copy, PartialEq, Eq, Structural)]
pub enum InteractionStatus {
    Pending,
    InProgress,
    Completed,
    Failed,
    Cancelled,
}

impl InteractionStatus {
    /// Terminal statuses: the interaction is resolved.
    pub open spec fn is_terminal_spec(self) -> bool {
        self == InteractionStatus::Completed || self == InteractionStatus::Failed
            || self == InteractionStatus::Cancelled
    }

    /// Check if the interaction is resolved.
    pub fn is_terminal(&self) -> (r: bool)
        ensures
            r == self.is_terminal_spec(),
    {
        matches!(
            self,
            InteractionStatus::Completed | InteractionStatus::Failed | InteractionStatus::Cancelled
        )
    }
}

/// Priority levels for interactions.
#[derive(Debug, Clone, Copy, PartialEq, Eq, PartialOrd, Ord, Structural)]
pub enum InteractionPriority {
    Low,
    Normal,
    High,
    Urgent,
}

impl Default for InteractionPriority {
    fn default() -> (r: Self)
        ensures
            r == InteractionPriority::Normal,
    {
        InteractionPriority::Normal
    }
}

/// A code block in an interaction.
#[derive(Debug, Clone)]
pub struct CodeBlock {
    pub language: String,
    pub code: String,
    pub filename: Option<String>,
    pub start_line: Option<u32>,
    pub end_line: Option<u32>,
}

/// Content of an interaction.
#[derive(Debug, Clone)]
pub struct InteractionContent {
    /// Main message or description.
    pub message: String,
    /// Opaque encoded blob of structured data.
    pub data: Option<String>,
    /// Attached artifacts (file paths, URLs, and so on).
    pub attachments: Vec<String>,
    /// Code snippets or blocks.
    pub code_blocks: Vec<CodeBlock>,
}

/// The duration, in milliseconds, between a creation instant and a completion
/// instant, clamped to zero when the clock ran backwards.
pub open spec fn duration_between(created_ms: i64, now_ms: i64) -> u64 {
    if now_ms >= created_ms {
        (now_ms - created_ms) as u64
    } else {
        0u64
    }
}

/// An interaction between agents.
#[derive(Debug, Clone)]
pub struct AgentInteraction {
    pub id: String,
    /// The workflow execution this interaction belongs to.
    pub workflow_id: String,
    /// Agent that initiated the interaction.
    pub initiator_agent_id: String,
    /// Agent(s) that received the interaction.
    pub target_agent_ids: Vec<String>,
    /// Type of interaction.
    pub interaction_type: InteractionType,
    /// Current status.
    pub status: InteractionStatus,
    /// Priority level.
    pub priority: InteractionPriority,
    /// Content of the interaction.
    pub content: InteractionContent,
    /// Related task ID if applicable.
    pub related_task_id: Option<String>,
    /// Parent interaction ID for threading.
    pub parent_interaction_id: Option<String>,
    /// Duration in milliseconds.
    pub duration_ms: Option<u64>,
    /// RFC 3339 timestamp when created.
    pub created_at: String,
    /// RFC 3339 timestamp when completed or updated.
    pub completed_at: Option<String>,
}

impl AgentInteraction {
    /// Create a new interaction whose creation stamp is `now`: it is
    /// `Pending`, with no completion time and no duration.
    pub fn new_at(
        id: String,
        workflow_id: String,
        initiator_agent_id: String,
        target_agent_ids: Vec<String>,
        interaction_type: InteractionType,
        message: String,
        now: String,
    ) -> (r: Self)
        ensures
            r.id@ == id@,
            r.workflow_id@ == workflow_id@,
            r.initiator_agent_id@ == initiator_agent_id@,
            r.target_agent_ids == target_agent_ids,
            r.interaction_type == interaction_type,
            r.status == InteractionStatus::Pending,
            r.priority == InteractionPriority::Normal,
            r.content.message@ == message@,
            r.content.data is None,
            r.content.attachments@.len() == 0,
            r.content.code_blocks@.len() == 0,
            r.related_task_id is None,
            r.parent_interaction_id is None,
            r.duration_ms is None,
            r.created_at@ == now@,
            r.completed_at is None,
    {
        AgentInteraction {
            id,
            workflow_id,
            initiator_agent_id,
            target_agent_ids,
            interaction_type,
            status: InteractionStatus::Pending,
            priority: InteractionPriority::default(),
            content: InteractionContent {
                message,
                data: None,
                attachments: Vec::new(),
                code_blocks: Vec::new(),
            },
            related_task_id: None,
            parent_interaction_id: None,
            duration_ms: None,
            created_at: now,
            completed_at: None,
        }
    }

    /// Create a new interaction, stamped with the current wall clock.
    pub fn new(
        id: String,
        workflow_id: String,
        initiator_agent_id: String,
        target_agent_ids: Vec<String>,
        interaction_type: InteractionType,
        message: String,
    ) -> (r: Self)
        ensures
            r.id@ == id@,
            r.workflow_id@ == workflow_id@,
            r.initiator_agent_id@ == initiator_agent_id@,
            r.target_agent_ids == target_agent_ids,
            r.interaction_type == interaction_type,
            r.status == InteractionStatus::Pending,
            r.priority == InteractionPriority::Normal,
            r.content.message@ == message@,
            r.content.data is None,
            r.content.attachments@.len() == 0,
            r.content.code_blocks@.len() == 0,
            r.related_task_id is None,
            r.parent_interaction_id is None,
            r.duration_ms is None,
            r.completed_at is None,
    {
        let now = clock::now_rfc3339();
        Self::new_at(id, workflow_id, initiator_agent_id, target_agent_ids, interaction_type, message, now)
    }

    /// Mark the interaction as completed at the instant given by the RFC 3339
    /// stamp `now_stamp` and the epoch milliseconds `now_ms`: the status
    /// becomes `Completed`, the completion time is stamped, and the duration
    /// is the wall-clock delta from the creation time — when the creation
    /// stamp does not parse, the duration is left as it was.
    pub fn complete_at(&mut self, now_stamp: String, now_ms: i64)
        ensures
            final(self).status == InteractionStatus::Completed,
            final(self).completed_at == Some(now_stamp),
            final(self).duration_ms == match rfc3339_epoch_millis(old(self).created_at@) {
                Some(c) => Some(duration_between(c, now_ms)),
                None => old(self).duration_ms,
            },
            final(self).id == old(self).id,
            final(self).workflow_id == old(self).workflow_id,
            final(self).initiator_agent_id == old(self).initiator_agent_id,
            final(self).target_agent_ids == old(self).target_agent_ids,
            final(self).interaction_type == old(self).interaction_type,
            final(self).priority == old(self).priority,
            final(self).content == old(self).content,
            final(self).related_task_id == old(self).related_task_id,
            final(self).parent_interaction_id == old(self).parent_interaction_id,
            final(self).created_at == old(self).created_at,
    {
        self.status = InteractionStatus::Completed;
        self.completed_at = Some(now_stamp);
        match clock::parse_rfc3339_epoch_millis(self.created_at.as_str()) {
            Some(created_ms) => {
                if now_ms >= created_ms {
                    let delta: i128 = now_ms as i128 - created_ms as i128;
                    self.duration_ms = Some(delta as u64);
                } else {
                    self.duration_ms = Some(0);
                }
            },
            None => {},
        }
    }

    /// Mark the interaction as completed, stamped with the current wall
    /// clock. The duration, when computed, is never negative.
    pub fn complete(&mut self)
        ensures
            final(self).status == InteractionStatus::Completed,
            final(self).completed_at is Some,
            rfc3339_epoch_millis(old(self).created_at@) is Some ==> final(self).duration_ms is Some,
            rfc3339_epoch_millis(old(self).created_at@) is None ==> final(self).duration_ms == old(self).duration_ms,
            final(self).id == old(self).id,
            final(self).workflow_id == old(self).workflow_id,
            final(self).initiator_agent_id == old(self).initiator_agent_id,
            final(self).target_agent_ids == old(self).target_agent_ids,
            final(self).interaction_type == old(self).interaction_type,
            final(self).priority == old(self).priority,
            final(self).content == old(self).content,
            final(self).related_task_id == old(self).related_task_id,
            final(self).parent_interaction_id == old(self).parent_interaction_id,
            final(self).created_at == old(self).created_at,
    {
        let now_stamp = clock::now_rfc3339();
        let now_ms = clock::now_epoch_millis();
        self.complete_at(now_stamp, now_ms);
    }

    /// Mark the interaction as failed at the instant `now`: the status becomes
    /// `Failed`, the completion time is stamped, and the reason is appended to
    /// the message content. The duration is never altered.
    pub fn fail_at(&mut self, error_message: String, now: String)
        ensures
            final(self).status == InteractionStatus::Failed,
            final(self).completed_at == Some(now),
            final(self).content.message@ == old(self).content.message@ + "\n\nError: "@ + error_message@,
            final(self).content.data == old(self).content.data,
            final(self).content.attachments == old(self).content.attachments,
            final(self).content.code_blocks == old(self).content.code_blocks,
            final(self).duration_ms == old(self).duration_ms,
            final(self).id == old(self).id,
            final(self).workflow_id == old(self).workflow_id,
            final(self).initiator_agent_id == old(self).initiator_agent_id,
            final(self).target_agent_ids == old(self).target_agent_ids,
            final(self).interaction_type == old(self).interaction_type,
            final(self).priority == old(self).priority,
            final(self).related_task_id == old(self).related_task_id,
            final(self).parent_interaction_id == old(self).parent_interaction_id,
            final(self).created_at == old(self).created_at,
    {
        self.status = InteractionStatus::Failed;
        self.completed_at = Some(now);
        self.content.message.append("\n\nError: ");
        self.content.message.append(error_message.as_str());
    }

    /// Mark the interaction as failed, stamped with the current wall clock.
    pub fn fail(&mut self, error_message: String)
        ensures
            final(self).status == InteractionStatus::Failed,
            final(self).completed_at is Some,
            final(self).content.message@ == old(self).content.message@ + "\n\nError: "@ + error_message@,
            final(self).duration_ms == old(self).duration_ms,
            final(self).id == old(self).id,
            final(self).workflow_id == old(self).workflow_id,
            final(self).initiator_agent_id == old(self).initiator_agent_id,
            final(self).target_agent_ids == old(self).target_agent_ids,
            final(self).interaction_type == old(self).interaction_type,
            final(self).priority == old(self).priority,
            final(self).related_task_id == old(self).related_task_id,
            final(self).parent_interaction_id == old(self).parent_interaction_id,
            final(self).created_at == old(self).created_at,
    {
        let now = clock::now_rfc3339();
        self.fail_at(error_message, now);
    }
}

/// The flattened form of an interaction used at the persistence boundary.
#[derive(Debug, Clone)]
pub struct InteractionRow {
    pub id: String,
    pub workflow_id: String,
    pub initiator_agent_id: String,
    /// Encoded array of target agent IDs.
    pub target_agent_ids_json: String,
    pub interaction_type: String,
    pub status: String,
    pub priority: String,
    /// Encoded blob of the content.
    pub content_json: String,
    pub related_task_id: Option<String>,
    pub parent_interaction_id: Option<String>,
    pub duration_ms: Option<i64>,
    pub created_at: String,
    pub completed_at: Option<String>,
}

impl AgentInteraction {
    /// Flatten for storage. The enum-valued fields take their encoded string
    /// form; the encoded blobs of the target list and the content are
    /// supplied by the persistence boundary.
    pub fn to_row(&self, target_agent_ids_json: String, content_json: String) -> (r:
        InteractionRow)
        requires
            self.duration_ms matches Some(d) ==> d <= i64::MAX,
        ensures
            r.id == self.id,
            r.workflow_id == self.workflow_id,
            r.initiator_agent_id == self.initiator_agent_id,
            r.target_agent_ids_json@ == target_agent_ids_json@,
            r.interaction_type@ == interaction_type_str(self.interaction_type),
            r.status@ == interaction_status_str(self.status),
            r.priority@ == interaction_priority_str(self.priority),
            r.content_json@ == content_json@,
            r.related_task_id == self.related_task_id,
            r.parent_interaction_id == self.parent_interaction_id,
            r.duration_ms == match self.duration_ms {
                Some(d) => Some(d as i64),
                None => None::<i64>,
            },
            r.created_at == self.created_at,
            r.completed_at == self.completed_at,
    {
        InteractionRow {
            id: self.id.clone(),
            workflow_id: self.workflow_id.clone(),
            initiator_agent_id: self.initiator_agent_id.clone(),
            target_agent_ids_json,
            interaction_type: String::from_str(encode_interaction_type(&self.interaction_type)),
            status: String::from_str(encode_interaction_status(&self.status)),
            priority: String::from_str(encode_interaction_priority(&self.priority)),
            content_json,
            related_task_id: clone_opt_string(&self.related_task_id),
            parent_interaction_id: clone_opt_string(&self.parent_interaction_id),
            duration_ms: match self.duration_ms {
                Some(d) => Some(d as i64),
                None => None,
            },
            created_at: self.created_at.clone(),
            completed_at: clone_opt_string(&self.completed_at),
        }
    }

    /// Rebuild an interaction from its stored row. The decoded target list
    /// and content are supplied by the persistence boundary; the operation
    /// fails exactly when one of the stored enum fields is not an encoded
    /// value.
    pub fn from_row(
        row: InteractionRow,
        target_agent_ids: Vec<String>,
        content: InteractionContent,
    ) -> (r: Result<AgentInteraction, WorkflowError>)
        ensures
            match r {
                Ok(it) => {
                    &&& interaction_type_of_str(row.interaction_type@) == Some(
                        it.interaction_type,
                    )
                    &&& interaction_status_of_str(row.status@) == Some(it.status)
                    &&& interaction_priority_of_str(row.priority@) == Some(it.priority)
                    &&& it.id == row.id
                    &&& it.workflow_id == row.workflow_id
                    &&& it.initiator_agent_id == row.initiator_agent_id
                    &&& it.target_agent_ids == target_agent_ids
                    &&& it.content == content
                    &&& it.related_task_id == row.related_task_id
                    &&& it.parent_interaction_id == row.parent_interaction_id
                    &&& it.duration_ms == match row.duration_ms {
                        Some(d) => Some(d as u64),
                        None => None::<u64>,
                    }
                    &&& it.created_at == row.created_at
                    &&& it.completed_at == row.completed_at
                },
                Err(e) => (e matches WorkflowError::Deserialization { .. }) && (
                interaction_type_of_str(row.interaction_type@) is None || interaction_status_of_str(
                    row.status@,
                ) is None || interaction_priority_of_str(row.priority@) is None),
            },
    {
        let interaction_type = match decode_interaction_type(row.interaction_type.as_str()) {
            Some(t) => t,
            None => {
                return Err(
                    WorkflowError::Deserialization {
                        message: String::from_str("unknown interaction type"),
                    },
                );
            },
        };
        let status = match decode_interaction_status(row.status.as_str()) {
            Some(s) => s,
            None => {
                return Err(
                    WorkflowError::Deserialization {
                        message: String::from_str("unknown interaction status"),
                    },
                );
            },
        };
        let priority = match decode_interaction_priority(row.priority.as_str()) {
            Some(p) => p,
            None => {
                return Err(
                    WorkflowError::Deserialization {
                        message: String::from_str("unknown interaction priority"),
                    },
                );
            },
        };
        Ok(
            AgentInteraction {
                id: row.id,
                workflow_id: row.workflow_id,
                initiator_agent_id: row.initiator_agent_id,
                target_agent_ids,
                interaction_type,
                status,
                priority,
                content,
                related_task_id: row.related_task_id,
                parent_interaction_id: row.parent_interaction_id,
                duration_ms: match row.duration_ms {
                    Some(d) => Some(d as u64),
                    None => None,
                },
                created_at: row.created_at,
                completed_at: row.completed_at,
            },
        )
    }
}

} // verus!
