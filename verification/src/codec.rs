//! The string codec at the persistence boundary.
//!
//! Enum-valued fields are persisted as their encoded string form: the
//! kebab-case variant name, wrapped in double quotes. Domain logic stays on
//! the typed values; these functions are the narrow two-way translation, and
//! each decoder inverts its encoder.

use vstd::prelude::*;
use crate::str_eq;
use crate::agent::{AgentMode, AgentStatus};
use crate::interaction::{InteractionPriority, InteractionStatus, InteractionType};
use crate::project::{ArtifactType, ProjectStatus, TaskPriority, TaskStatus};
use crate::relationship::RelationshipType;

verus! {

/// The encoded form of each `AgentMode` value.
pub open spec fn agent_mode_str(v: AgentMode) -> Seq<char> {
    match v {
        AgentMode::Autonomous => "\"autonomous\""@,
        AgentMode::Assisted => "\"assisted\""@,
        AgentMode::Supervised => "\"supervised\""@,
        AgentMode::Manual => "\"manual\""@,
    }
}

/// Encode a `AgentMode` for storage.
pub fn encode_agent_mode(v: &AgentMode) -> (r: &'static str)
    ensures
        r@ == agent_mode_str(*v),
{
    match v {
        AgentMode::Autonomous => "\"autonomous\"",
        AgentMode::Assisted => "\"assisted\"",
        AgentMode::Supervised => "\"supervised\"",
        AgentMode::Manual => "\"manual\"",
    }
}

/// The value a stored string decodes to, when it is an encoded `AgentMode`.
pub open spec fn agent_mode_of_str(s: Seq<char>) -> Option<AgentMode> {
    if s == "\"autonomous\""@ {
        Some(AgentMode::Autonomous)
    } else if s == "\"assisted\""@ {
        Some(AgentMode::Assisted)
    } else if s == "\"supervised\""@ {
        Some(AgentMode::Supervised)
    } else if s == "\"manual\""@ {
        Some(AgentMode::Manual)
    } else {
        None
    }
}

/// Decode a stored `AgentMode`; `None` when the string is not an encoded value.
pub fn decode_agent_mode(s: &str) -> (r: Option<AgentMode>)
    ensures
        r == agent_mode_of_str(s@),
{
    if str_eq(s, "\"autonomous\"") {
        Some(AgentMode::Autonomous)
    } else if str_eq(s, "\"assisted\"") {
        Some(AgentMode::Assisted)
    } else if str_eq(s, "\"supervised\"") {
        Some(AgentMode::Supervised)
    } else if str_eq(s, "\"manual\"") {
        Some(AgentMode::Manual)
    } else {
        None
    }
}

/// Decoding inverts encoding for every `AgentMode` value.
pub proof fn lemma_agent_mode_roundtrip(v: AgentMode)
    ensures
        agent_mode_of_str(agent_mode_str(v)) == Some(v),
{
    reveal_strlit("\"autonomous\"");
    reveal_strlit("\"assisted\"");
    reveal_strlit("\"supervised\"");
    reveal_strlit("\"manual\"");
    assert("\"autonomous\""@.len() == 12);
    assert("\"assisted\""@.len() == 10);
    assert("\"supervised\""@.len() == 12);
    assert("\"manual\""@.len() == 8);
    match v {
        AgentMode::Autonomous => {

            assert(agent_mode_of_str(agent_mode_str(v)) == Some(v));
        },
        AgentMode::Assisted => {

            assert(agent_mode_of_str(agent_mode_str(v)) == Some(v));
        },
        AgentMode::Supervised => {
            assert("\"supervised\""@[1] == 's');
            assert("\"autonomous\""@[1] == 'a');
            assert(agent_mode_of_str(agent_mode_str(v)) == Some(v));
        },
        AgentMode::Manual => {

            assert(agent_mode_of_str(agent_mode_str(v)) == Some(v));
        },
    }
}

/// The encoded form of each `AgentStatus` value.
pub open spec fn agent_status_str(v: AgentStatus) -> Seq<char> {
    match v {
        AgentStatus::Idle => "\"idle\""@,
        AgentStatus::Initializing => "\"initializing\""@,
        AgentStatus::Ready => "\"ready\""@,
        AgentStatus::Running => "\"running\""@,
        AgentStatus::WaitingForInput => "\"waiting-for-input\""@,
        AgentStatus::WaitingForApproval => "\"waiting-for-approval\""@,
        AgentStatus::Paused => "\"paused\""@,
        AgentStatus::Completed => "\"completed\""@,
        AgentStatus::Failed => "\"failed\""@,
        AgentStatus::Cancelled => "\"cancelled\""@,
    }
}

/// Encode a `AgentStatus` for storage.
pub fn encode_agent_status(v: &AgentStatus) -> (r: &'static str)
    ensures
        r@ == agent_status_str(*v),
{
    match v {
        AgentStatus::Idle => "\"idle\"",
        AgentStatus::Initializing => "\"initializing\"",
        AgentStatus::Ready => "\"ready\"",
        AgentStatus::Running => "\"running\"",
        AgentStatus::WaitingForInput => "\"waiting-for-input\"",
        AgentStatus::WaitingForApproval => "\"waiting-for-approval\"",
        AgentStatus::Paused => "\"paused\"",
        AgentStatus::Completed => "\"completed\"",
        AgentStatus::Failed => "\"failed\"",
        AgentStatus::Cancelled => "\"cancelled\"",
    }
}

/// The value a stored string decodes to, when it is an encoded `AgentStatus`.
pub open spec fn agent_status_of_str(s: Seq<char>) -> Option<AgentStatus> {
    if s == "\"idle\""@ {
        Some(AgentStatus::Idle)
    } else if s == "\"initializing\""@ {
        Some(AgentStatus::Initializing)
    } else if s == "\"ready\""@ {
        Some(AgentStatus::Ready)
    } else if s == "\"running\""@ {
        Some(AgentStatus::Running)
    } else if s == "\"waiting-for-input\""@ {
        Some(AgentStatus::WaitingForInput)
    } else if s == "\"waiting-for-approval\""@ {
        Some(AgentStatus::WaitingForApproval)
    } else if s == "\"paused\""@ {
        Some(AgentStatus::Paused)
    } else if s == "\"completed\""@ {
        Some(AgentStatus::Completed)
    } else if s == "\"failed\""@ {
        Some(AgentStatus::Failed)
    } else if s == "\"cancelled\""@ {
        Some(AgentStatus::Cancelled)
    } else {
        None
    }
}

/// Decode a stored `AgentStatus`; `None` when the string is not an encoded value.
pub fn decode_agent_status(s: &str) -> (r: Option<AgentStatus>)
    ensures
        r == agent_status_of_str(s@),
{
    if str_eq(s, "\"idle\"") {
        Some(AgentStatus::Idle)
    } else if str_eq(s, "\"initializing\"") {
        Some(AgentStatus::Initializing)
    } else if str_eq(s, "\"ready\"") {
        Some(AgentStatus::Ready)
    } else if str_eq(s, "\"running\"") {
        Some(AgentStatus::Running)
    } else if str_eq(s, "\"waiting-for-input\"") {
        Some(AgentStatus::WaitingForInput)
    } else if str_eq(s, "\"waiting-for-approval\"") {
        Some(AgentStatus::WaitingForApproval)
    } else if str_eq(s, "\"paused\"") {
        Some(AgentStatus::Paused)
    } else if str_eq(s, "\"completed\"") {
        Some(AgentStatus::Completed)
    } else if str_eq(s, "\"failed\"") {
        Some(AgentStatus::Failed)
    } else if str_eq(s, "\"cancelled\"") {
        Some(AgentStatus::Cancelled)
    } else {
        None
    }
}

/// Decoding inverts encoding for every `AgentStatus` value.
pub proof fn lemma_agent_status_roundtrip(v: AgentStatus)
    ensures
        agent_status_of_str(agent_status_str(v)) == Some(v),
{
    reveal_strlit("\"idle\"");
    reveal_strlit("\"initializing\"");
    reveal_strlit("\"ready\"");
    reveal_strlit("\"running\"");
    reveal_strlit("\"waiting-for-input\"");
    reveal_strlit("\"waiting-for-approval\"");
    reveal_strlit("\"paused\"");
    reveal_strlit("\"completed\"");
    reveal_strlit("\"failed\"");
    reveal_strlit("\"cancelled\"");
    assert("\"idle\""@.len() == 6);
    assert("\"initializing\""@.len() == 14);
    assert("\"ready\""@.len() == 7);
    assert("\"running\""@.len() == 9);
    assert("\"waiting-for-input\""@.len() == 19);
    assert("\"waiting-for-approval\""@.len() == 22);
    assert("\"paused\""@.len() == 8);
    assert("\"completed\""@.len() == 11);
    assert("\"failed\""@.len() == 8);
    assert("\"cancelled\""@.len() == 11);
    match v {
        AgentStatus::Idle => {

            assert(agent_status_of_str(agent_status_str(v)) == Some(v));
        },
        AgentStatus::Initializing => {

            assert(agent_status_of_str(agent_status_str(v)) == Some(v));
        },
        AgentStatus::Ready => {

            assert(agent_status_of_str(agent_status_str(v)) == Some(v));
        },
        AgentStatus::Running => {

            assert(agent_status_of_str(agent_status_str(v)) == Some(v));
        },
        AgentStatus::WaitingForInput => {

            assert(agent_status_of_str(agent_status_str(v)) == Some(v));
        },
        AgentStatus::WaitingForApproval => {

            assert(agent_status_of_str(agent_status_str(v)) == Some(v));
        },
        AgentStatus::Paused => {

            assert(agent_status_of_str(agent_status_str(v)) == Some(v));
        },
        AgentStatus::Completed => {

            assert(agent_status_of_str(agent_status_str(v)) == Some(v));
        },
        AgentStatus::Failed => {
            assert("\"failed\""@[1] == 'f');
            assert("\"paused\""@[1] == 'p');
            assert(agent_status_of_str(agent_status_str(v)) == Some(v));
        },
        AgentStatus::Cancelled => {
            assert("\"cancelled\""@[2] == 'a');
            assert("\"completed\""@[2] == 'o');
            assert(agent_status_of_str(agent_status_str(v)) == Some(v));
        },
    }
}

/// The encoded form of each `InteractionType` value.
pub open spec fn interaction_type_str(v: InteractionType) -> Seq<char> {
    match v {
        InteractionType::Message => "\"message\""@,
        InteractionType::TaskAssignment => "\"task-assignment\""@,
        InteractionType::TaskCompletion => "\"task-completion\""@,
        InteractionType::ApprovalRequest => "\"approval-request\""@,
        InteractionType::ApprovalGranted => "\"approval-granted\""@,
        InteractionType::ApprovalDenied => "\"approval-denied\""@,
        InteractionType::CodeReview => "\"code-review\""@,
        InteractionType::Feedback => "\"feedback\""@,
        InteractionType::StatusUpdate => "\"status-update\""@,
        InteractionType::Error => "\"error\""@,
        InteractionType::System => "\"system\""@,
    }
}

/// Encode a `InteractionType` for storage.
pub fn encode_interaction_type(v: &InteractionType) -> (r: &'static str)
    ensures
        r@ == interaction_type_str(*v),
{
    match v {
        InteractionType::Message => "\"message\"",
        InteractionType::TaskAssignment => "\"task-assignment\"",
        InteractionType::TaskCompletion => "\"task-completion\"",
        InteractionType::ApprovalRequest => "\"approval-request\"",
        InteractionType::ApprovalGranted => "\"approval-granted\"",
        InteractionType::ApprovalDenied => "\"approval-denied\"",
        InteractionType::CodeReview => "\"code-review\"",
        InteractionType::Feedback => "\"feedback\"",
        InteractionType::StatusUpdate => "\"status-update\"",
        InteractionType::Error => "\"error\"",
        InteractionType::System => "\"system\"",
    }
}

/// The value a stored string decodes to, when it is an encoded `InteractionType`.
pub open spec fn interaction_type_of_str(s: Seq<char>) -> Option<InteractionType> {
    if s == "\"message\""@ {
        Some(InteractionType::Message)
    } else if s == "\"task-assignment\""@ {
        Some(InteractionType::TaskAssignment)
    } else if s == "\"task-completion\""@ {
        Some(InteractionType::TaskCompletion)
    } else if s == "\"approval-request\""@ {
        Some(InteractionType::ApprovalRequest)
    } else if s == "\"approval-granted\""@ {
        Some(InteractionType::ApprovalGranted)
    } else if s == "\"approval-denied\""@ {
        Some(InteractionType::ApprovalDenied)
    } else if s == "\"code-review\""@ {
        Some(InteractionType::CodeReview)
    } else if s == "\"feedback\""@ {
        Some(InteractionType::Feedback)
    } else if s == "\"status-update\""@ {
        Some(InteractionType::StatusUpdate)
    } else if s == "\"error\""@ {
        Some(InteractionType::Error)
    } else if s == "\"system\""@ {
        Some(InteractionType::System)
    } else {
        None
    }
}

/// Decode a stored `InteractionType`; `None` when the string is not an encoded value.
pub fn decode_interaction_type(s: &str) -> (r: Option<InteractionType>)
    ensures
        r == interaction_type_of_str(s@),
{
    if str_eq(s, "\"message\"") {
        Some(InteractionType::Message)
    } else if str_eq(s, "\"task-assignment\"") {
        Some(InteractionType::TaskAssignment)
    } else if str_eq(s, "\"task-completion\"") {
        Some(InteractionType::TaskCompletion)
    } else if str_eq(s, "\"approval-request\"") {
        Some(InteractionType::ApprovalRequest)
    } else if str_eq(s, "\"approval-granted\"") {
        Some(InteractionType::ApprovalGranted)
    } else if str_eq(s, "\"approval-denied\"") {
        Some(InteractionType::ApprovalDenied)
    } else if str_eq(s, "\"code-review\"") {
        Some(InteractionType::CodeReview)
    } else if str_eq(s, "\"feedback\"") {
        Some(InteractionType::Feedback)
    } else if str_eq(s, "\"status-update\"") {
        Some(InteractionType::StatusUpdate)
    } else if str_eq(s, "\"error\"") {
        Some(InteractionType::Error)
    } else if str_eq(s, "\"system\"") {
        Some(InteractionType::System)
    } else {
        None
    }
}

/// Decoding inverts encoding for every `InteractionType` value.
pub proof fn lemma_interaction_type_roundtrip(v: InteractionType)
    ensures
        interaction_type_of_str(interaction_type_str(v)) == Some(v),
{
    reveal_strlit("\"message\"");
    reveal_strlit("\"task-assignment\"");
    reveal_strlit("\"task-completion\"");
    reveal_strlit("\"approval-request\"");
    reveal_strlit("\"approval-granted\"");
    reveal_strlit("\"approval-denied\"");
    reveal_strlit("\"code-review\"");
    reveal_strlit("\"feedback\"");
    reveal_strlit("\"status-update\"");
    reveal_strlit("\"error\"");
    reveal_strlit("\"system\"");
    assert("\"message\""@.len() == 9);
    assert("\"task-assignment\""@.len() == 17);
    assert("\"task-completion\""@.len() == 17);
    assert("\"approval-request\""@.len() == 18);
    assert("\"approval-granted\""@.len() == 18);
    assert("\"approval-denied\""@.len() == 17);
    assert("\"code-review\""@.len() == 13);
    assert("\"feedback\""@.len() == 10);
    assert("\"status-update\""@.len() == 15);
    assert("\"error\""@.len() == 7);
    assert("\"system\""@.len() == 8);
    match v {
        InteractionType::Message => {

            assert(interaction_type_of_str(interaction_type_str(v)) == Some(v));
        },
        InteractionType::TaskAssignment => {

            assert(interaction_type_of_str(interaction_type_str(v)) == Some(v));
        },
        InteractionType::TaskCompletion => {
            assert("\"task-completion\""@[6] == 'c');
            assert("\"task-assignment\""@[6] == 'a');
            assert(interaction_type_of_str(interaction_type_str(v)) == Some(v));
        },
        InteractionType::ApprovalRequest => {

            assert(interaction_type_of_str(interaction_type_str(v)) == Some(v));
        },
        InteractionType::ApprovalGranted => {
            assert("\"approval-granted\""@[10] == 'g');
            assert("\"approval-request\""@[10] == 'r');
            assert(interaction_type_of_str(interaction_type_str(v)) == Some(v));
        },
        InteractionType::ApprovalDenied => {
            assert("\"approval-denied\""@[1] == 'a');
            assert("\"task-assignment\""@[1] == 't');
            assert("\"approval-denied\""@[1] == 'a');
            assert("\"task-completion\""@[1] == 't');
            assert(interaction_type_of_str(interaction_type_str(v)) == Some(v));
        },
        InteractionType::CodeReview => {

            assert(interaction_type_of_str(interaction_type_str(v)) == Some(v));
        },
        InteractionType::Feedback => {

            assert(interaction_type_of_str(interaction_type_str(v)) == Some(v));
        },
        InteractionType::StatusUpdate => {

            assert(interaction_type_of_str(interaction_type_str(v)) == Some(v));
        },
        InteractionType::Error => {

            assert(interaction_type_of_str(interaction_type_str(v)) == Some(v));
        },
        InteractionType::System => {

            assert(interaction_type_of_str(interaction_type_str(v)) == Some(v));
        },
    }
}

/// The encoded form of each `InteractionStatus` value.
pub open spec fn interaction_status_str(v: InteractionStatus) -> Seq<char> {
    match v {
        InteractionStatus::Pending => "\"pending\""@,
        InteractionStatus::InProgress => "\"in-progress\""@,
        InteractionStatus::Completed => "\"completed\""@,
        InteractionStatus::Failed => "\"failed\""@,
        InteractionStatus::Cancelled => "\"cancelled\""@,
    }
}

/// Encode a `InteractionStatus` for storage.
pub fn encode_interaction_status(v: &InteractionStatus) -> (r: &'static str)
    ensures
        r@ == interaction_status_str(*v),
{
    match v {
        InteractionStatus::Pending => "\"pending\"",
        InteractionStatus::InProgress => "\"in-progress\"",
        InteractionStatus::Completed => "\"completed\"",
        InteractionStatus::Failed => "\"failed\"",
        InteractionStatus::Cancelled => "\"cancelled\"",
    }
}

/// The value a stored string decodes to, when it is an encoded `InteractionStatus`.
pub open spec fn interaction_status_of_str(s: Seq<char>) -> Option<InteractionStatus> {
    if s == "\"pending\""@ {
        Some(InteractionStatus::Pending)
    } else if s == "\"in-progress\""@ {
        Some(InteractionStatus::InProgress)
    } else if s == "\"completed\""@ {
        Some(InteractionStatus::Completed)
    } else if s == "\"failed\""@ {
        Some(InteractionStatus::Failed)
    } else if s == "\"cancelled\""@ {
        Some(InteractionStatus::Cancelled)
    } else {
        None
    }
}

/// Decode a stored `InteractionStatus`; `None` when the string is not an encoded value.
pub fn decode_interaction_status(s: &str) -> (r: Option<InteractionStatus>)
    ensures
        r == interaction_status_of_str(s@),
{
    if str_eq(s, "\"pending\"") {
        Some(InteractionStatus::Pending)
    } else if str_eq(s, "\"in-progress\"") {
        Some(InteractionStatus::InProgress)
    } else if str_eq(s, "\"completed\"") {
        Some(InteractionStatus::Completed)
    } else if str_eq(s, "\"failed\"") {
        Some(InteractionStatus::Failed)
    } else if str_eq(s, "\"cancelled\"") {
        Some(InteractionStatus::Cancelled)
    } else {
        None
    }
}

/// Decoding inverts encoding for every `InteractionStatus` value.
pub proof fn lemma_interaction_status_roundtrip(v: InteractionStatus)
    ensures
        interaction_status_of_str(interaction_status_str(v)) == Some(v),
{
    reveal_strlit("\"pending\"");
    reveal_strlit("\"in-progress\"");
    reveal_strlit("\"completed\"");
    reveal_strlit("\"failed\"");
    reveal_strlit("\"cancelled\"");
    assert("\"pending\""@.len() == 9);
    assert("\"in-progress\""@.len() == 13);
    assert("\"completed\""@.len() == 11);
    assert("\"failed\""@.len() == 8);
    assert("\"cancelled\""@.len() == 11);
    match v {
        InteractionStatus::Pending => {

            assert(interaction_status_of_str(interaction_status_str(v)) == Some(v));
        },
        InteractionStatus::InProgress => {

            assert(interaction_status_of_str(interaction_status_str(v)) == Some(v));
        },
        InteractionStatus::Completed => {

            assert(interaction_status_of_str(interaction_status_str(v)) == Some(v));
        },
        InteractionStatus::Failed => {

            assert(interaction_status_of_str(interaction_status_str(v)) == Some(v));
        },
        InteractionStatus::Cancelled => {
            assert("\"cancelled\""@[2] == 'a');
            assert("\"completed\""@[2] == 'o');
            assert(interaction_status_of_str(interaction_status_str(v)) == Some(v));
        },
    }
}

/// The encoded form of each `InteractionPriority` value.
pub open spec fn interaction_priority_str(v: InteractionPriority) -> Seq<char> {
    match v {
        InteractionPriority::Low => "\"low\""@,
        InteractionPriority::Normal => "\"normal\""@,
        InteractionPriority::High => "\"high\""@,
        InteractionPriority::Urgent => "\"urgent\""@,
    }
}

/// Encode a `InteractionPriority` for storage.
pub fn encode_interaction_priority(v: &InteractionPriority) -> (r: &'static str)
    ensures
        r@ == interaction_priority_str(*v),
{
    match v {
        InteractionPriority::Low => "\"low\"",
        InteractionPriority::Normal => "\"normal\"",
        InteractionPriority::High => "\"high\"",
        InteractionPriority::Urgent => "\"urgent\"",
    }
}

/// The value a stored string decodes to, when it is an encoded `InteractionPriority`.
pub open spec fn interaction_priority_of_str(s: Seq<char>) -> Option<InteractionPriority> {
    if s == "\"low\""@ {
        Some(InteractionPriority::Low)
    } else if s == "\"normal\""@ {
        Some(InteractionPriority::Normal)
    } else if s == "\"high\""@ {
        Some(InteractionPriority::High)
    } else if s == "\"urgent\""@ {
        Some(InteractionPriority::Urgent)
    } else {
        None
    }
}

/// Decode a stored `InteractionPriority`; `None` when the string is not an encoded value.
pub fn decode_interaction_priority(s: &str) -> (r: Option<InteractionPriority>)
    ensures
        r == interaction_priority_of_str(s@),
{
    if str_eq(s, "\"low\"") {
        Some(InteractionPriority::Low)
    } else if str_eq(s, "\"normal\"") {
        Some(InteractionPriority::Normal)
    } else if str_eq(s, "\"high\"") {
        Some(InteractionPriority::High)
    } else if str_eq(s, "\"urgent\"") {
        Some(InteractionPriority::Urgent)
    } else {
        None
    }
}

/// Decoding inverts encoding for every `InteractionPriority` value.
pub proof fn lemma_interaction_priority_roundtrip(v: InteractionPriority)
    ensures
        interaction_priority_of_str(interaction_priority_str(v)) == Some(v),
{
    reveal_strlit("\"low\"");
    reveal_strlit("\"normal\"");
    reveal_strlit("\"high\"");
    reveal_strlit("\"urgent\"");
    assert("\"low\""@.len() == 5);
    assert("\"normal\""@.len() == 8);
    assert("\"high\""@.len() == 6);
    assert("\"urgent\""@.len() == 8);
    match v {
        InteractionPriority::Low => {

            assert(interaction_priority_of_str(interaction_priority_str(v)) == Some(v));
        },
        InteractionPriority::Normal => {

            assert(interaction_priority_of_str(interaction_priority_str(v)) == Some(v));
        },
        InteractionPriority::High => {

            assert(interaction_priority_of_str(interaction_priority_str(v)) == Some(v));
        },
        InteractionPriority::Urgent => {
            assert("\"urgent\""@[1] == 'u');
            assert("\"normal\""@[1] == 'n');
            assert(interaction_priority_of_str(interaction_priority_str(v)) == Some(v));
        },
    }
}

/// The encoded form of each `TaskStatus` value.
pub open spec fn task_status_str(v: TaskStatus) -> Seq<char> {
    match v {
        TaskStatus::Backlog => "\"backlog\""@,
        TaskStatus::Todo => "\"todo\""@,
        TaskStatus::InProgress => "\"in-progress\""@,
        TaskStatus::InReview => "\"in-review\""@,
        TaskStatus::Blocked => "\"blocked\""@,
        TaskStatus::Done => "\"done\""@,
        TaskStatus::Cancelled => "\"cancelled\""@,
    }
}

/// Encode a `TaskStatus` for storage.
pub fn encode_task_status(v: &TaskStatus) -> (r: &'static str)
    ensures
        r@ == task_status_str(*v),
{
    match v {
        TaskStatus::Backlog => "\"backlog\"",
        TaskStatus::Todo => "\"todo\"",
        TaskStatus::InProgress => "\"in-progress\"",
        TaskStatus::InReview => "\"in-review\"",
        TaskStatus::Blocked => "\"blocked\"",
        TaskStatus::Done => "\"done\"",
        TaskStatus::Cancelled => "\"cancelled\"",
    }
}

/// The value a stored string decodes to, when it is an encoded `TaskStatus`.
pub open spec fn task_status_of_str(s: Seq<char>) -> Option<TaskStatus> {
    if s == "\"backlog\""@ {
        Some(TaskStatus::Backlog)
    } else if s == "\"todo\""@ {
        Some(TaskStatus::Todo)
    } else if s == "\"in-progress\""@ {
        Some(TaskStatus::InProgress)
    } else if s == "\"in-review\""@ {
        Some(TaskStatus::InReview)
    } else if s == "\"blocked\""@ {
        Some(TaskStatus::Blocked)
    } else if s == "\"done\""@ {
        Some(TaskStatus::Done)
    } else if s == "\"cancelled\""@ {
        Some(TaskStatus::Cancelled)
    } else {
        None
    }
}

/// Decode a stored `TaskStatus`; `None` when the string is not an encoded value.
pub fn decode_task_status(s: &str) -> (r: Option<TaskStatus>)
    ensures
        r == task_status_of_str(s@),
{
    if str_eq(s, "\"backlog\"") {
        Some(TaskStatus::Backlog)
    } else if str_eq(s, "\"todo\"") {
        Some(TaskStatus::Todo)
    } else if str_eq(s, "\"in-progress\"") {
        Some(TaskStatus::InProgress)
    } else if str_eq(s, "\"in-review\"") {
        Some(TaskStatus::InReview)
    } else if str_eq(s, "\"blocked\"") {
        Some(TaskStatus::Blocked)
    } else if str_eq(s, "\"done\"") {
        Some(TaskStatus::Done)
    } else if str_eq(s, "\"cancelled\"") {
        Some(TaskStatus::Cancelled)
    } else {
        None
    }
}

/// Decoding inverts encoding for every `TaskStatus` value.
pub proof fn lemma_task_status_roundtrip(v: TaskStatus)
    ensures
        task_status_of_str(task_status_str(v)) == Some(v),
{
    reveal_strlit("\"backlog\"");
    reveal_strlit("\"todo\"");
    reveal_strlit("\"in-progress\"");
    reveal_strlit("\"in-review\"");
    reveal_strlit("\"blocked\"");
    reveal_strlit("\"done\"");
    reveal_strlit("\"cancelled\"");
    assert("\"backlog\""@.len() == 9);
    assert("\"todo\""@.len() == 6);
    assert("\"in-progress\""@.len() == 13);
    assert("\"in-review\""@.len() == 11);
    assert("\"blocked\""@.len() == 9);
    assert("\"done\""@.len() == 6);
    assert("\"cancelled\""@.len() == 11);
    match v {
        TaskStatus::Backlog => {

            assert(task_status_of_str(task_status_str(v)) == Some(v));
        },
        TaskStatus::Todo => {

            assert(task_status_of_str(task_status_str(v)) == Some(v));
        },
        TaskStatus::InProgress => {

            assert(task_status_of_str(task_status_str(v)) == Some(v));
        },
        TaskStatus::InReview => {

            assert(task_status_of_str(task_status_str(v)) == Some(v));
        },
        TaskStatus::Blocked => {
            assert("\"blocked\""@[2] == 'l');
            assert("\"backlog\""@[2] == 'a');
            assert(task_status_of_str(task_status_str(v)) == Some(v));
        },
        TaskStatus::Done => {
            assert("\"done\""@[1] == 'd');
            assert("\"todo\""@[1] == 't');
            assert(task_status_of_str(task_status_str(v)) == Some(v));
        },
        TaskStatus::Cancelled => {
            assert("\"cancelled\""@[1] == 'c');
            assert("\"in-review\""@[1] == 'i');
            assert(task_status_of_str(task_status_str(v)) == Some(v));
        },
    }
}

/// The encoded form of each `TaskPriority` value.
pub open spec fn task_priority_str(v: TaskPriority) -> Seq<char> {
    match v {
        TaskPriority::Low => "\"low\""@,
        TaskPriority::Medium => "\"medium\""@,
        TaskPriority::High => "\"high\""@,
        TaskPriority::Critical => "\"critical\""@,
    }
}

/// Encode a `TaskPriority` for storage.
pub fn encode_task_priority(v: &TaskPriority) -> (r: &'static str)
    ensures
        r@ == task_priority_str(*v),
{
    match v {
        TaskPriority::Low => "\"low\"",
        TaskPriority::Medium => "\"medium\"",
        TaskPriority::High => "\"high\"",
        TaskPriority::Critical => "\"critical\"",
    }
}

/// The value a stored string decodes to, when it is an encoded `TaskPriority`.
pub open spec fn task_priority_of_str(s: Seq<char>) -> Option<TaskPriority> {
    if s == "\"low\""@ {
        Some(TaskPriority::Low)
    } else if s == "\"medium\""@ {
        Some(TaskPriority::Medium)
    } else if s == "\"high\""@ {
        Some(TaskPriority::High)
    } else if s == "\"critical\""@ {
        Some(TaskPriority::Critical)
    } else {
        None
    }
}

/// Decode a stored `TaskPriority`; `None` when the string is not an encoded value.
pub fn decode_task_priority(s: &str) -> (r: Option<TaskPriority>)
    ensures
        r == task_priority_of_str(s@),
{
    if str_eq(s, "\"low\"") {
        Some(TaskPriority::Low)
    } else if str_eq(s, "\"medium\"") {
        Some(TaskPriority::Medium)
    } else if str_eq(s, "\"high\"") {
        Some(TaskPriority::High)
    } else if str_eq(s, "\"critical\"") {
        Some(TaskPriority::Critical)
    } else {
        None
    }
}

/// Decoding inverts encoding for every `TaskPriority` value.
pub proof fn lemma_task_priority_roundtrip(v: TaskPriority)
    ensures
        task_priority_of_str(task_priority_str(v)) == Some(v),
{
    reveal_strlit("\"low\"");
    reveal_strlit("\"medium\"");
    reveal_strlit("\"high\"");
    reveal_strlit("\"critical\"");
    assert("\"low\""@.len() == 5);
    assert("\"medium\""@.len() == 8);
    assert("\"high\""@.len() == 6);
    assert("\"critical\""@.len() == 10);
    match v {
        TaskPriority::Low => {

            assert(task_priority_of_str(task_priority_str(v)) == Some(v));
        },
        TaskPriority::Medium => {

            assert(task_priority_of_str(task_priority_str(v)) == Some(v));
        },
        TaskPriority::High => {

            assert(task_priority_of_str(task_priority_str(v)) == Some(v));
        },
        TaskPriority::Critical => {

            assert(task_priority_of_str(task_priority_str(v)) == Some(v));
        },
    }
}

/// The encoded form of each `ArtifactType` value.
pub open spec fn artifact_type_str(v: ArtifactType) -> Seq<char> {
    match v {
        ArtifactType::Code => "\"code\""@,
        ArtifactType::Document => "\"document\""@,
        ArtifactType::Image => "\"image\""@,
        ArtifactType::Data => "\"data\""@,
        ArtifactType::Config => "\"config\""@,
        ArtifactType::Test => "\"test\""@,
        ArtifactType::Log => "\"log\""@,
        ArtifactType::Other => "\"other\""@,
    }
}

/// Encode a `ArtifactType` for storage.
pub fn encode_artifact_type(v: &ArtifactType) -> (r: &'static str)
    ensures
        r@ == artifact_type_str(*v),
{
    match v {
        ArtifactType::Code => "\"code\"",
        ArtifactType::Document => "\"document\"",
        ArtifactType::Image => "\"image\"",
        ArtifactType::Data => "\"data\"",
        ArtifactType::Config => "\"config\"",
        ArtifactType::Test => "\"test\"",
        ArtifactType::Log => "\"log\"",
        ArtifactType::Other => "\"other\"",
    }
}

/// The value a stored string decodes to, when it is an encoded `ArtifactType`.
pub open spec fn artifact_type_of_str(s: Seq<char>) -> Option<ArtifactType> {
    if s == "\"code\""@ {
        Some(ArtifactType::Code)
    } else if s == "\"document\""@ {
        Some(ArtifactType::Document)
    } else if s == "\"image\""@ {
        Some(ArtifactType::Image)
    } else if s == "\"data\""@ {
        Some(ArtifactType::Data)
    } else if s == "\"config\""@ {
        Some(ArtifactType::Config)
    } else if s == "\"test\""@ {
        Some(ArtifactType::Test)
    } else if s == "\"log\""@ {
        Some(ArtifactType::Log)
    } else if s == "\"other\""@ {
        Some(ArtifactType::Other)
    } else {
        None
    }
}

/// Decode a stored `ArtifactType`; `None` when the string is not an encoded value.
pub fn decode_artifact_type(s: &str) -> (r: Option<ArtifactType>)
    ensures
        r == artifact_type_of_str(s@),
{
    if str_eq(s, "\"code\"") {
        Some(ArtifactType::Code)
    } else if str_eq(s, "\"document\"") {
        Some(ArtifactType::Document)
    } else if str_eq(s, "\"image\"") {
        Some(ArtifactType::Image)
    } else if str_eq(s, "\"data\"") {
        Some(ArtifactType::Data)
    } else if str_eq(s, "\"config\"") {
        Some(ArtifactType::Config)
    } else if str_eq(s, "\"test\"") {
        Some(ArtifactType::Test)
    } else if str_eq(s, "\"log\"") {
        Some(ArtifactType::Log)
    } else if str_eq(s, "\"other\"") {
        Some(ArtifactType::Other)
    } else {
        None
    }
}

/// Decoding inverts encoding for every `ArtifactType` value.
pub proof fn lemma_artifact_type_roundtrip(v: ArtifactType)
    ensures
        artifact_type_of_str(artifact_type_str(v)) == Some(v),
{
    reveal_strlit("\"code\"");
    reveal_strlit("\"document\"");
    reveal_strlit("\"image\"");
    reveal_strlit("\"data\"");
    reveal_strlit("\"config\"");
    reveal_strlit("\"test\"");
    reveal_strlit("\"log\"");
    reveal_strlit("\"other\"");
    assert("\"code\""@.len() == 6);
    assert("\"document\""@.len() == 10);
    assert("\"image\""@.len() == 7);
    assert("\"data\""@.len() == 6);
    assert("\"config\""@.len() == 8);
    assert("\"test\""@.len() == 6);
    assert("\"log\""@.len() == 5);
    assert("\"other\""@.len() == 7);
    match v {
        ArtifactType::Code => {

            assert(artifact_type_of_str(artifact_type_str(v)) == Some(v));
        },
        ArtifactType::Document => {

            assert(artifact_type_of_str(artifact_type_str(v)) == Some(v));
        },
        ArtifactType::Image => {

            assert(artifact_type_of_str(artifact_type_str(v)) == Some(v));
        },
        ArtifactType::Data => {
            assert("\"data\""@[1] == 'd');
            assert("\"code\""@[1] == 'c');
            assert(artifact_type_of_str(artifact_type_str(v)) == Some(v));
        },
        ArtifactType::Config => {

            assert(artifact_type_of_str(artifact_type_str(v)) == Some(v));
        },
        ArtifactType::Test => {
            assert("\"test\""@[1] == 't');
            assert("\"code\""@[1] == 'c');
            assert("\"test\""@[1] == 't');
            assert("\"data\""@[1] == 'd');
            assert(artifact_type_of_str(artifact_type_str(v)) == Some(v));
        },
        ArtifactType::Log => {

            assert(artifact_type_of_str(artifact_type_str(v)) == Some(v));
        },
        ArtifactType::Other => {
            assert("\"other\""@[1] == 'o');
            assert("\"image\""@[1] == 'i');
            assert(artifact_type_of_str(artifact_type_str(v)) == Some(v));
        },
    }
}

/// The encoded form of each `ProjectStatus` value.
pub open spec fn project_status_str(v: ProjectStatus) -> Seq<char> {
    match v {
        ProjectStatus::Planning => "\"planning\""@,
        ProjectStatus::Active => "\"active\""@,
        ProjectStatus::OnHold => "\"on-hold\""@,
        ProjectStatus::Completed => "\"completed\""@,
        ProjectStatus::Archived => "\"archived\""@,
        ProjectStatus::Cancelled => "\"cancelled\""@,
    }
}

/// Encode a `ProjectStatus` for storage.
pub fn encode_project_status(v: &ProjectStatus) -> (r: &'static str)
    ensures
        r@ == project_status_str(*v),
{
    match v {
        ProjectStatus::Planning => "\"planning\"",
        ProjectStatus::Active => "\"active\"",
        ProjectStatus::OnHold => "\"on-hold\"",
        ProjectStatus::Completed => "\"completed\"",
        ProjectStatus::Archived => "\"archived\"",
        ProjectStatus::Cancelled => "\"cancelled\"",
    }
}

/// The value a stored string decodes to, when it is an encoded `ProjectStatus`.
pub open spec fn project_status_of_str(s: Seq<char>) -> Option<ProjectStatus> {
    if s == "\"planning\""@ {
        Some(ProjectStatus::Planning)
    } else if s == "\"active\""@ {
        Some(ProjectStatus::Active)
    } else if s == "\"on-hold\""@ {
        Some(ProjectStatus::OnHold)
    } else if s == "\"completed\""@ {
        Some(ProjectStatus::Completed)
    } else if s == "\"archived\""@ {
        Some(ProjectStatus::Archived)
    } else if s == "\"cancelled\""@ {
        Some(ProjectStatus::Cancelled)
    } else {
        None
    }
}

/// Decode a stored `ProjectStatus`; `None` when the string is not an encoded value.
pub fn decode_project_status(s: &str) -> (r: Option<ProjectStatus>)
    ensures
        r == project_status_of_str(s@),
{
    if str_eq(s, "\"planning\"") {
        Some(ProjectStatus::Planning)
    } else if str_eq(s, "\"active\"") {
        Some(ProjectStatus::Active)
    } else if str_eq(s, "\"on-hold\"") {
        Some(ProjectStatus::OnHold)
    } else if str_eq(s, "\"completed\"") {
        Some(ProjectStatus::Completed)
    } else if str_eq(s, "\"archived\"") {
        Some(ProjectStatus::Archived)
    } else if str_eq(s, "\"cancelled\"") {
        Some(ProjectStatus::Cancelled)
    } else {
        None
    }
}

/// Decoding inverts encoding for every `ProjectStatus` value.
pub proof fn lemma_project_status_roundtrip(v: ProjectStatus)
    ensures
        project_status_of_str(project_status_str(v)) == Some(v),
{
    reveal_strlit("\"planning\"");
    reveal_strlit("\"active\"");
    reveal_strlit("\"on-hold\"");
    reveal_strlit("\"completed\"");
    reveal_strlit("\"archived\"");
    reveal_strlit("\"cancelled\"");
    assert("\"planning\""@.len() == 10);
    assert("\"active\""@.len() == 8);
    assert("\"on-hold\""@.len() == 9);
    assert("\"completed\""@.len() == 11);
    assert("\"archived\""@.len() == 10);
    assert("\"cancelled\""@.len() == 11);
    match v {
        ProjectStatus::Planning => {

            assert(project_status_of_str(project_status_str(v)) == Some(v));
        },
        ProjectStatus::Active => {

            assert(project_status_of_str(project_status_str(v)) == Some(v));
        },
        ProjectStatus::OnHold => {

            assert(project_status_of_str(project_status_str(v)) == Some(v));
        },
        ProjectStatus::Completed => {

            assert(project_status_of_str(project_status_str(v)) == Some(v));
        },
        ProjectStatus::Archived => {
            assert("\"archived\""@[1] == 'a');
            assert("\"planning\""@[1] == 'p');
            assert(project_status_of_str(project_status_str(v)) == Some(v));
        },
        ProjectStatus::Cancelled => {
            assert("\"cancelled\""@[2] == 'a');
            assert("\"completed\""@[2] == 'o');
            assert(project_status_of_str(project_status_str(v)) == Some(v));
        },
    }
}

/// The encoded form of each `RelationshipType` value.
pub open spec fn relationship_type_str(v: RelationshipType) -> Seq<char> {
    match v {
        RelationshipType::Supervises => "\"supervises\""@,
        RelationshipType::Collaborates => "\"collaborates\""@,
        RelationshipType::Delegates => "\"delegates\""@,
        RelationshipType::Reviews => "\"reviews\""@,
        RelationshipType::InformsTo => "\"informs-to\""@,
        RelationshipType::RequestsFrom => "\"requests-from\""@,
        RelationshipType::Blocks => "\"blocks\""@,
        RelationshipType::Custom => "\"custom\""@,
    }
}

/// Encode a `RelationshipType` for storage.
pub fn encode_relationship_type(v: &RelationshipType) -> (r: &'static str)
    ensures
        r@ == relationship_type_str(*v),
{
    match v {
        RelationshipType::Supervises => "\"supervises\"",
        RelationshipType::Collaborates => "\"collaborates\"",
        RelationshipType::Delegates => "\"delegates\"",
        RelationshipType::Reviews => "\"reviews\"",
        RelationshipType::InformsTo => "\"informs-to\"",
        RelationshipType::RequestsFrom => "\"requests-from\"",
        RelationshipType::Blocks => "\"blocks\"",
        RelationshipType::Custom => "\"custom\"",
    }
}

/// The value a stored string decodes to, when it is an encoded `RelationshipType`.
pub open spec fn relationship_type_of_str(s: Seq<char>) -> Option<RelationshipType> {
    if s == "\"supervises\""@ {
        Some(RelationshipType::Supervises)
    } else if s == "\"collaborates\""@ {
        Some(RelationshipType::Collaborates)
    } else if s == "\"delegates\""@ {
        Some(RelationshipType::Delegates)
    } else if s == "\"reviews\""@ {
        Some(RelationshipType::Reviews)
    } else if s == "\"informs-to\""@ {
        Some(RelationshipType::InformsTo)
    } else if s == "\"requests-from\""@ {
        Some(RelationshipType::RequestsFrom)
    } else if s == "\"blocks\""@ {
        Some(RelationshipType::Blocks)
    } else if s == "\"custom\""@ {
        Some(RelationshipType::Custom)
    } else {
        None
    }
}

/// Decode a stored `RelationshipType`; `None` when the string is not an encoded value.
pub fn decode_relationship_type(s: &str) -> (r: Option<RelationshipType>)
    ensures
        r == relationship_type_of_str(s@),
{
    if str_eq(s, "\"supervises\"") {
        Some(RelationshipType::Supervises)
    } else if str_eq(s, "\"collaborates\"") {
        Some(RelationshipType::Collaborates)
    } else if str_eq(s, "\"delegates\"") {
        Some(RelationshipType::Delegates)
    } else if str_eq(s, "\"reviews\"") {
        Some(RelationshipType::Reviews)
    } else if str_eq(s, "\"informs-to\"") {
        Some(RelationshipType::InformsTo)
    } else if str_eq(s, "\"requests-from\"") {
        Some(RelationshipType::RequestsFrom)
    } else if str_eq(s, "\"blocks\"") {
        Some(RelationshipType::Blocks)
    } else if str_eq(s, "\"custom\"") {
        Some(RelationshipType::Custom)
    } else {
        None
    }
}

/// Decoding inverts encoding for every `RelationshipType` value.
pub proof fn lemma_relationship_type_roundtrip(v: RelationshipType)
    ensures
        relationship_type_of_str(relationship_type_str(v)) == Some(v),
{
    reveal_strlit("\"supervises\"");
    reveal_strlit("\"collaborates\"");
    reveal_strlit("\"delegates\"");
    reveal_strlit("\"reviews\"");
    reveal_strlit("\"informs-to\"");
    reveal_strlit("\"requests-from\"");
    reveal_strlit("\"blocks\"");
    reveal_strlit("\"custom\"");
    assert("\"supervises\""@.len() == 12);
    assert("\"collaborates\""@.len() == 14);
    assert("\"delegates\""@.len() == 11);
    assert("\"reviews\""@.len() == 9);
    assert("\"informs-to\""@.len() == 12);
    assert("\"requests-from\""@.len() == 15);
    assert("\"blocks\""@.len() == 8);
    assert("\"custom\""@.len() == 8);
    match v {
        RelationshipType::Supervises => {

            assert(relationship_type_of_str(relationship_type_str(v)) == Some(v));
        },
        RelationshipType::Collaborates => {

            assert(relationship_type_of_str(relationship_type_str(v)) == Some(v));
        },
        RelationshipType::Delegates => {

            assert(relationship_type_of_str(relationship_type_str(v)) == Some(v));
        },
        RelationshipType::Reviews => {

            assert(relationship_type_of_str(relationship_type_str(v)) == Some(v));
        },
        RelationshipType::InformsTo => {
            assert("\"informs-to\""@[1] == 'i');
            assert("\"supervises\""@[1] == 's');
            assert(relationship_type_of_str(relationship_type_str(v)) == Some(v));
        },
        RelationshipType::RequestsFrom => {

            assert(relationship_type_of_str(relationship_type_str(v)) == Some(v));
        },
        RelationshipType::Blocks => {

            assert(relationship_type_of_str(relationship_type_str(v)) == Some(v));
        },
        RelationshipType::Custom => {
            assert("\"custom\""@[1] == 'c');
            assert("\"blocks\""@[1] == 'b');
            assert(relationship_type_of_str(relationship_type_str(v)) == Some(v));
        },
    }
}

/// The row-level fields written by a generic interaction status update: the
/// encoded status, and — exactly when the target status is terminal — `now`
/// as the completion stamp.
pub fn interaction_status_update_fields(status: InteractionStatus, now: String) -> (r: (
    String,
    Option<String>,
))
    ensures
        r.0@ == interaction_status_str(status),
        r.1 == if status.is_terminal_spec() {
            Some(now)
        } else {
            None::<String>
        },
{
    let encoded = String::from_str(encode_interaction_status(&status));
    if status.is_terminal() {
        (encoded, Some(now))
    } else {
        (encoded, None)
    }
}

/// The row-level fields written by a generic agent status update: the encoded
/// status and `now` as the last-modified stamp.
pub fn agent_status_update_fields(status: AgentStatus, now: String) -> (r: (String, String))
    ensures
        r.0@ == agent_status_str(status),
        r.1@ == now@,
{
    (String::from_str(encode_agent_status(&status)), now)
}

} // verus!
