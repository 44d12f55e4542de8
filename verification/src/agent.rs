//! Agents and their run-time condition.
//!
//! An agent record carries an operating mode, a status drawn from a fixed
//! vocabulary of states, a provider configuration, and aggregate performance
//! metrics that are updated through a single entry point.

use vstd::prelude::*;
use crate::clock;
use crate::clone_opt_string;
use crate::codec::{
    agent_mode_of_str, agent_mode_str, agent_status_of_str, agent_status_str, decode_agent_mode,
    decode_agent_status, encode_agent_mode, encode_agent_status,
};
use crate::events::WorkflowError;

verus! {

/// Operating modes for agents.
#[derive(Debug, Clone, Copy, PartialEq, Eq, Structural)]
pub enum AgentMode {
    /// Fully autonomous operation.
    Autonomous,
    /// AI assists human decisions.
    Assisted,
    /// Human supervises AI actions.
    Supervised,
    /// Fully manual, human controlled.
    Manual,
}

impl Default for AgentMode {
    fn default() -> (r: Self)
        ensures
            r == AgentMode::Supervised,
    {
        AgentMode::Supervised
    }
}

/// Execution status of an agent.
#[derive(Debug, Clone, Copy, PartialEq, Eq, Structural)]
pub enum AgentStatus {
    Idle,
    Initializing,
    Ready,
    Running,
    WaitingForInput,
    WaitingForApproval,
    Paused,
    Completed,
    Failed,
    Cancelled,
}

impl Default for AgentStatus {
    fn default() -> (r: Self)
        ensures
            r == AgentStatus::Idle,
    {
        AgentStatus::Idle
    }
}

impl AgentStatus {
    /// The human-readable name of each status.
    pub open spec fn display_name_spec(self) -> Seq<char> {
        match self {
            AgentStatus::Idle => "Idle"@,
            AgentStatus::Initializing => "Initializing"@,
            AgentStatus::Ready => "Ready"@,
            AgentStatus::Running => "Running"@,
            AgentStatus::WaitingForInput => "Waiting for Input"@,
            AgentStatus::WaitingForApproval => "Waiting for Approval"@,
            AgentStatus::Paused => "Paused"@,
            AgentStatus::Completed => "Completed"@,
            AgentStatus::Failed => "Failed"@,
            AgentStatus::Cancelled => "Cancelled"@,
        }
    }

    /// Get the display name.
    pub fn display_name(&self) -> (r: &'static str)
        ensures
            r@ == self.display_name_spec(),
    {
        match self {
            AgentStatus::Idle => "Idle",
            AgentStatus::Initializing => "Initializing",
            AgentStatus::Ready => "Ready",
            AgentStatus::Running => "Running",
            AgentStatus::WaitingForInput => "Waiting for Input",
            AgentStatus::WaitingForApproval => "Waiting for Approval",
            AgentStatus::Paused => "Paused",
            AgentStatus::Completed => "Completed",
            AgentStatus::Failed => "Failed",
            AgentStatus::Cancelled => "Cancelled",
        }
    }

    /// The display color of each status, as a hex triplet.
    pub open spec fn color_spec(self) -> Seq<char> {
        match self {
            AgentStatus::Idle => "#6b7280"@,
            AgentStatus::Initializing => "#3b82f6"@,
            AgentStatus::Ready => "#22c55e"@,
            AgentStatus::Running => "#8b5cf6"@,
            AgentStatus::WaitingForInput => "#f59e0b"@,
            AgentStatus::WaitingForApproval => "#f97316"@,
            AgentStatus::Paused => "#64748b"@,
            AgentStatus::Completed => "#10b981"@,
            AgentStatus::Failed => "#ef4444"@,
            AgentStatus::Cancelled => "#6b7280"@,
        }
    }

    /// Get the color for this status.
    pub fn color(&self) -> (r: &'static str)
        ensures
            r@ == self.color_spec(),
    {
        match self {
            AgentStatus::Idle => "#6b7280",
            AgentStatus::Initializing => "#3b82f6",
            AgentStatus::Ready => "#22c55e",
            AgentStatus::Running => "#8b5cf6",
            AgentStatus::WaitingForInput => "#f59e0b",
            AgentStatus::WaitingForApproval => "#f97316",
            AgentStatus::Paused => "#64748b",
            AgentStatus::Completed => "#10b981",
            AgentStatus::Failed => "#ef4444",
            AgentStatus::Cancelled => "#6b7280",
        }
    }

    /// Terminal states: no further autonomous progress is expected.
    pub open spec fn is_terminal_spec(self) -> bool {
        self == AgentStatus::Completed || self == AgentStatus::Failed
            || self == AgentStatus::Cancelled
    }

    /// Check if the agent is in a terminal state.
    pub fn is_terminal(&self) -> (r: bool)
        ensures
            r == self.is_terminal_spec(),
    {
        matches!(self, AgentStatus::Completed | AgentStatus::Failed | AgentStatus::Cancelled)
    }

    /// Active states: the agent is currently engaged in a run.
    pub open spec fn is_active_spec(self) -> bool {
        self == AgentStatus::Running || self == AgentStatus::WaitingForInput
            || self == AgentStatus::WaitingForApproval || self == AgentStatus::Paused
    }

    /// Check if the agent is active.
    pub fn is_active(&self) -> (r: bool)
        ensures
            r == self.is_active_spec(),
    {
        matches!(
            self,
            AgentStatus::Running | AgentStatus::WaitingForInput | AgentStatus::WaitingForApproval
                | AgentStatus::Paused
        )
    }
}

/// AI provider types.
#[derive(Debug, Clone, Copy, PartialEq, Eq, Structural)]
pub enum ProviderType {
    Ollama,
    OpenAi,
    Anthropic,
    Google,
    Azure,
    Custom,
}

impl Default for ProviderType {
    fn default() -> (r: Self)
        ensures
            r == ProviderType::Ollama,
    {
        ProviderType::Ollama
    }
}

/// Provider configuration for an agent. Sampling knobs are carried in
/// thousandths, so `700` stands for a temperature of 0.7.
#[derive(Debug, Clone)]
pub struct ProviderConfig {
    pub provider_type: ProviderType,
    pub model: String,
    pub api_key: Option<String>,
    pub base_url: Option<String>,
    /// Sampling temperature in thousandths.
    pub temperature: Option<u32>,
    pub max_tokens: Option<u32>,
    /// Nucleus sampling threshold in thousandths.
    pub top_p: Option<u32>,
    /// Opaque encoded blob of provider-specific parameters.
    pub additional_params: Option<String>,
}

impl Default for ProviderConfig {
    fn default() -> (r: Self)
        ensures
            r.provider_type == ProviderType::Ollama,
            r.model@ == "llama3.2"@,
            r.api_key is None,
            r.base_url is None,
            r.temperature == Some(700u32),
            r.max_tokens == Some(4096u32),
            r.top_p == Some(900u32),
            r.additional_params is None,
    {
        ProviderConfig {
            provider_type: ProviderType::Ollama,
            model: String::from_str("llama3.2"),
            api_key: None,
            base_url: None,
            temperature: Some(700),
            max_tokens: Some(4096),
            top_p: Some(900),
            additional_params: None,
        }
    }
}

/// Aggregate performance counters for one agent, owned exclusively by its
/// agent record and mutated only through [`AgentMetrics::record`].
#[derive(Debug, Clone)]
pub struct AgentMetrics {
    /// Total tasks executed.
    pub total_tasks: u32,
    /// Successfully completed tasks.
    pub completed_tasks: u32,
    /// Failed tasks.
    pub failed_tasks: u32,
    /// Total tokens consumed.
    pub total_tokens: u64,
    /// Sum of all recorded task durations; keeps the running mean exact.
    pub total_duration_ms: u64,
    /// Arithmetic mean of recorded task durations, rounded down; zero before
    /// any task has been recorded.
    pub avg_response_time_ms: u64,
    /// Uptime in seconds.
    pub uptime_seconds: u64,
    /// Last active timestamp.
    pub last_active: Option<String>,
}

impl AgentMetrics {
    /// Internal consistency of the counters: every task is counted exactly
    /// once, and the stored mean is the quotient of the stored sum.
    pub open spec fn consistent(self) -> bool {
        &&& self.total_tasks == self.completed_tasks + self.failed_tasks
        &&& self.avg_response_time_ms == if self.total_tasks == 0 {
            0u64
        } else {
            self.total_duration_ms / (self.total_tasks as u64)
        }
    }

    /// The single entry point that folds one finished task into the counters.
    pub fn record(&mut self, success: bool, tokens: u64, duration_ms: u64)
        requires
            old(self).consistent(),
            old(self).total_tasks < u32::MAX,
            old(self).total_tokens + tokens <= u64::MAX,
            old(self).total_duration_ms + duration_ms <= u64::MAX,
        ensures
            final(self).total_tasks == old(self).total_tasks + 1,
            final(self).completed_tasks == old(self).completed_tasks + if success { 1int } else { 0int },
            final(self).failed_tasks == old(self).failed_tasks + if success { 0int } else { 1int },
            final(self).total_tokens == old(self).total_tokens + tokens,
            final(self).total_duration_ms == old(self).total_duration_ms + duration_ms,
            final(self).avg_response_time_ms == final(self).total_duration_ms / (final(self).total_tasks as u64),
            final(self).uptime_seconds == old(self).uptime_seconds,
            final(self).last_active == old(self).last_active,
            final(self).consistent(),
            *final(self) == record_step(*old(self), success, tokens, duration_ms),
    {
        self.total_tasks = self.total_tasks + 1;
        if success {
            self.completed_tasks = self.completed_tasks + 1;
        } else {
            self.failed_tasks = self.failed_tasks + 1;
        }
        self.total_tokens = self.total_tokens + tokens;
        self.total_duration_ms = self.total_duration_ms + duration_ms;
        self.avg_response_time_ms = self.total_duration_ms / (self.total_tasks as u64);
    }
}

impl Default for AgentMetrics {
    fn default() -> (r: Self)
        ensures
            r.total_tasks == 0,
            r.completed_tasks == 0,
            r.failed_tasks == 0,
            r.total_tokens == 0,
            r.total_duration_ms == 0,
            r.avg_response_time_ms == 0,
            r.uptime_seconds == 0,
            r.last_active is None,
            r.consistent(),
    {
        AgentMetrics {
            total_tasks: 0,
            completed_tasks: 0,
            failed_tasks: 0,
            total_tokens: 0,
            total_duration_ms: 0,
            avg_response_time_ms: 0,
            uptime_seconds: 0,
            last_active: None,
        }
    }
}

/// Position on the canvas, in integral canvas units.
#[derive(Debug, Clone, Copy, PartialEq, Eq, Structural)]
pub struct Position {
    pub x: i64,
    pub y: i64,
}

impl Default for Position {
    fn default() -> (r: Self)
        ensures
            r == (Position { x: 0i64, y: 0i64 }),
    {
        Position { x: 0, y: 0 }
    }
}

/// An agent record with role integration.
#[derive(Debug, Clone)]
pub struct EnhancedAgent {
    pub id: String,
    pub name: String,
    pub description: Option<String>,
    /// Reference to the role ID.
    pub role_id: Option<String>,
    /// Operating mode.
    pub mode: AgentMode,
    /// Current status.
    pub status: AgentStatus,
    /// Provider configuration.
    pub provider_config: ProviderConfig,
    /// Custom system prompt override, when not using the role's prompt.
    pub system_prompt_override: Option<String>,
    /// Performance metrics.
    pub metrics: AgentMetrics,
    /// Canvas position.
    pub position: Position,
    /// Whether the agent is expanded in the UI.
    pub expanded: bool,
    /// Whether the agent is selected.
    pub selected: bool,
    /// RFC 3339 timestamp.
    pub created_at: String,
    /// RFC 3339 timestamp.
    pub updated_at: String,
}

impl EnhancedAgent {
    /// Create a new agent whose creation and update stamps are `now`.
    pub fn new_at(id: String, name: String, now: String) -> (a: Self)
        ensures
            a.id@ == id@,
            a.name@ == name@,
            a.description is None,
            a.role_id is None,
            a.mode == AgentMode::Supervised,
            a.status == AgentStatus::Idle,
            a.provider_config.provider_type == ProviderType::Ollama,
            a.provider_config.model@ == "llama3.2"@,
            a.system_prompt_override is None,
            a.metrics.total_tasks == 0,
            a.metrics.total_tokens == 0,
            a.metrics.total_duration_ms == 0,
            a.metrics.avg_response_time_ms == 0,
            a.metrics.last_active is None,
            a.metrics.consistent(),
            a.position == (Position { x: 0i64, y: 0i64 }),
            !a.expanded,
            !a.selected,
            a.created_at@ == now@,
            a.updated_at@ == now@,
    {
        let created = now;
        let updated = created.clone();
        EnhancedAgent {
            id,
            name,
            description: None,
            role_id: None,
            mode: AgentMode::default(),
            status: AgentStatus::default(),
            provider_config: ProviderConfig::default(),
            system_prompt_override: None,
            metrics: AgentMetrics::default(),
            position: Position::default(),
            expanded: false,
            selected: false,
            created_at: created,
            updated_at: updated,
        }
    }

    /// Create a new agent, stamped with the current wall clock.
    pub fn new(id: String, name: String) -> (a: Self)
        ensures
            a.id@ == id@,
            a.name@ == name@,
            a.description is None,
            a.role_id is None,
            a.mode == AgentMode::Supervised,
            a.status == AgentStatus::Idle,
            a.system_prompt_override is None,
            a.metrics.total_tasks == 0,
            a.metrics.consistent(),
            !a.expanded,
            !a.selected,
            a.created_at@ == a.updated_at@,
    {
        let now = clock::now_rfc3339();
        Self::new_at(id, name, now)
    }

    /// Update the agent's status, stamping `now` as the last-modified time and,
    /// for a transition into an active state, as the last-active time.
    pub fn set_status_at(&mut self, status: AgentStatus, now: String)
        ensures
            final(self).status == status,
            final(self).updated_at@ == now@,
            final(self).metrics.last_active == if status.is_active_spec() {
                Some(now)
            } else {
                old(self).metrics.last_active
            },
            final(self).id == old(self).id,
            final(self).name == old(self).name,
            final(self).description == old(self).description,
            final(self).role_id == old(self).role_id,
            final(self).mode == old(self).mode,
            final(self).provider_config == old(self).provider_config,
            final(self).system_prompt_override == old(self).system_prompt_override,
            final(self).metrics.total_tasks == old(self).metrics.total_tasks,
            final(self).metrics.completed_tasks == old(self).metrics.completed_tasks,
            final(self).metrics.failed_tasks == old(self).metrics.failed_tasks,
            final(self).metrics.total_tokens == old(self).metrics.total_tokens,
            final(self).metrics.total_duration_ms == old(self).metrics.total_duration_ms,
            final(self).metrics.avg_response_time_ms == old(self).metrics.avg_response_time_ms,
            final(self).metrics.uptime_seconds == old(self).metrics.uptime_seconds,
            final(self).position == old(self).position,
            final(self).expanded == old(self).expanded,
            final(self).selected == old(self).selected,
            final(self).created_at == old(self).created_at,
    {
        self.status = status;
        self.updated_at = now.clone();
        if status.is_active() {
            self.metrics.last_active = Some(now);
        }
    }

    /// Update the agent's status, stamped with the current wall clock.
    pub fn set_status(&mut self, status: AgentStatus)
        ensures
            final(self).status == status,
            status.is_active_spec() ==> final(self).metrics.last_active is Some,
            !status.is_active_spec() ==> final(self).metrics.last_active == old(self).metrics.last_active,
            final(self).id == old(self).id,
            final(self).name == old(self).name,
            final(self).description == old(self).description,
            final(self).role_id == old(self).role_id,
            final(self).mode == old(self).mode,
            final(self).provider_config == old(self).provider_config,
            final(self).system_prompt_override == old(self).system_prompt_override,
            final(self).metrics.total_tasks == old(self).metrics.total_tasks,
            final(self).metrics.completed_tasks == old(self).metrics.completed_tasks,
            final(self).metrics.failed_tasks == old(self).metrics.failed_tasks,
            final(self).metrics.total_tokens == old(self).metrics.total_tokens,
            final(self).metrics.total_duration_ms == old(self).metrics.total_duration_ms,
            final(self).metrics.avg_response_time_ms == old(self).metrics.avg_response_time_ms,
            final(self).metrics.uptime_seconds == old(self).metrics.uptime_seconds,
            final(self).position == old(self).position,
            final(self).expanded == old(self).expanded,
            final(self).selected == old(self).selected,
            final(self).created_at == old(self).created_at,
    {
        let now = clock::now_rfc3339();
        self.set_status_at(status, now);
    }

    /// Fold one finished task into the agent's metrics, stamping `now` as the
    /// last-modified time.
    pub fn record_task_completion_at(
        &mut self,
        success: bool,
        tokens: u64,
        duration_ms: u64,
        now: String,
    )
        requires
            old(self).metrics.consistent(),
            old(self).metrics.total_tasks < u32::MAX,
            old(self).metrics.total_tokens + tokens <= u64::MAX,
            old(self).metrics.total_duration_ms + duration_ms <= u64::MAX,
        ensures
            final(self).metrics.total_tasks == old(self).metrics.total_tasks + 1,
            final(self).metrics.completed_tasks == old(self).metrics.completed_tasks + if success { 1int } else { 0int },
            final(self).metrics.failed_tasks == old(self).metrics.failed_tasks + if success { 0int } else { 1int },
            final(self).metrics.total_tokens == old(self).metrics.total_tokens + tokens,
            final(self).metrics.total_duration_ms == old(self).metrics.total_duration_ms + duration_ms,
            final(self).metrics.avg_response_time_ms == final(self).metrics.total_duration_ms / (final(self).metrics.total_tasks as u64),
            final(self).metrics.uptime_seconds == old(self).metrics.uptime_seconds,
            final(self).metrics.last_active == old(self).metrics.last_active,
            final(self).metrics.consistent(),
            final(self).updated_at@ == now@,
            final(self).id == old(self).id,
            final(self).name == old(self).name,
            final(self).description == old(self).description,
            final(self).role_id == old(self).role_id,
            final(self).mode == old(self).mode,
            final(self).status == old(self).status,
            final(self).provider_config == old(self).provider_config,
            final(self).system_prompt_override == old(self).system_prompt_override,
            final(self).position == old(self).position,
            final(self).expanded == old(self).expanded,
            final(self).selected == old(self).selected,
            final(self).created_at == old(self).created_at,
    {
        self.metrics.record(success, tokens, duration_ms);
        self.updated_at = now;
    }

    /// Fold one finished task into the agent's metrics, stamped with the
    /// current wall clock.
    pub fn record_task_completion(&mut self, success: bool, tokens: u64, duration_ms: u64)
        requires
            old(self).metrics.consistent(),
            old(self).metrics.total_tasks < u32::MAX,
            old(self).metrics.total_tokens + tokens <= u64::MAX,
            old(self).metrics.total_duration_ms + duration_ms <= u64::MAX,
        ensures
            final(self).metrics.total_tasks == old(self).metrics.total_tasks + 1,
            final(self).metrics.completed_tasks == old(self).metrics.completed_tasks + if success { 1int } else { 0int },
            final(self).metrics.failed_tasks == old(self).metrics.failed_tasks + if success { 0int } else { 1int },
            final(self).metrics.total_tokens == old(self).metrics.total_tokens + tokens,
            final(self).metrics.total_duration_ms == old(self).metrics.total_duration_ms + duration_ms,
            final(self).metrics.avg_response_time_ms == final(self).metrics.total_duration_ms / (final(self).metrics.total_tasks as u64),
            final(self).metrics.uptime_seconds == old(self).metrics.uptime_seconds,
            final(self).metrics.last_active == old(self).metrics.last_active,
            final(self).metrics.consistent(),
            final(self).id == old(self).id,
            final(self).name == old(self).name,
            final(self).description == old(self).description,
            final(self).role_id == old(self).role_id,
            final(self).mode == old(self).mode,
            final(self).status == old(self).status,
            final(self).provider_config == old(self).provider_config,
            final(self).system_prompt_override == old(self).system_prompt_override,
            final(self).position == old(self).position,
            final(self).expanded == old(self).expanded,
            final(self).selected == old(self).selected,
            final(self).created_at == old(self).created_at,
    {
        let now = clock::now_rfc3339();
        self.record_task_completion_at(success, tokens, duration_ms, now);
    }
}

/// The flattened form of an agent record used at the persistence boundary;
/// nested structures become opaque encoded blobs.
#[derive(Debug, Clone)]
pub struct AgentRow {
    pub id: String,
    pub name: String,
    pub description: Option<String>,
    pub role_id: Option<String>,
    pub mode: String,
    pub status: String,
    /// Encoded blob of the provider config.
    pub provider_config_json: String,
    pub system_prompt_override: Option<String>,
    /// Encoded blob of the metrics.
    pub metrics_json: String,
    pub position_x: i64,
    pub position_y: i64,
    pub expanded: bool,
    pub selected: bool,
    pub created_at: String,
    pub updated_at: String,
}

/// Fresh counters: everything zero, nothing active yet.
pub open spec fn fresh_metrics() -> AgentMetrics {
    AgentMetrics {
        total_tasks: 0,
        completed_tasks: 0,
        failed_tasks: 0,
        total_tokens: 0,
        total_duration_ms: 0,
        avg_response_time_ms: 0,
        uptime_seconds: 0,
        last_active: None,
    }
}

/// The counters after one recorded task, as a value.
pub open spec fn record_step(
    m: AgentMetrics,
    success: bool,
    tokens: u64,
    duration_ms: u64,
) -> AgentMetrics {
    let new_total = (m.total_tasks + 1) as u32;
    let new_sum = (m.total_duration_ms + duration_ms) as u64;
    AgentMetrics {
        total_tasks: new_total,
        completed_tasks: if success {
            (m.completed_tasks + 1) as u32
        } else {
            m.completed_tasks
        },
        failed_tasks: if success {
            m.failed_tasks
        } else {
            (m.failed_tasks + 1) as u32
        },
        total_tokens: (m.total_tokens + tokens) as u64,
        total_duration_ms: new_sum,
        avg_response_time_ms: new_sum / (new_total as u64),
        uptime_seconds: m.uptime_seconds,
        last_active: m.last_active,
    }
}

/// The counters after folding a sequence of task records, oldest first. Each
/// entry is a success flag, a token count, and a duration in milliseconds.
pub open spec fn recorded(m: AgentMetrics, entries: Seq<(bool, u64, u64)>) -> AgentMetrics
    decreases entries.len(),
{
    if entries.len() == 0 {
        m
    } else {
        record_step(
            recorded(m, entries.drop_last()),
            entries.last().0,
            entries.last().1,
            entries.last().2,
        )
    }
}

/// How many of the recorded tasks succeeded.
pub open spec fn successes(entries: Seq<(bool, u64, u64)>) -> int
    decreases entries.len(),
{
    if entries.len() == 0 {
        0
    } else {
        successes(entries.drop_last()) + if entries.last().0 {
            1int
        } else {
            0int
        }
    }
}

/// The sum of the recorded token counts.
pub open spec fn tokens_total(entries: Seq<(bool, u64, u64)>) -> int
    decreases entries.len(),
{
    if entries.len() == 0 {
        0
    } else {
        tokens_total(entries.drop_last()) + entries.last().1
    }
}

/// The sum of the recorded durations.
pub open spec fn durations_total(entries: Seq<(bool, u64, u64)>) -> int
    decreases entries.len(),
{
    if entries.len() == 0 {
        0
    } else {
        durations_total(entries.drop_last()) + entries.last().2
    }
}

proof fn lemma_totals_nonneg(entries: Seq<(bool, u64, u64)>)
    ensures
        0 <= tokens_total(entries),
        0 <= durations_total(entries),
        0 <= successes(entries) <= entries.len(),
    decreases entries.len(),
{
    if entries.len() > 0 {
        lemma_totals_nonneg(entries.drop_last());
    }
}

/// The streaming mean is numerically exact: after `k` recorded tasks with
/// durations `d1..dk` — starting from fresh counters — the task counter is
/// `k`, the stored duration sum is `d1+..+dk`, and the stored mean is their
/// exact arithmetic mean, rounded down; the completed and failed counters
/// split `k` by the success flags, and the token counter is the token sum.
pub proof fn lemma_streaming_mean(entries: Seq<(bool, u64, u64)>)
    requires
        entries.len() <= u32::MAX,
        tokens_total(entries) <= u64::MAX,
        durations_total(entries) <= u64::MAX,
    ensures
        ({
            let m = recorded(fresh_metrics(), entries);
            &&& m.total_tasks == entries.len()
            &&& m.completed_tasks == successes(entries)
            &&& m.failed_tasks == entries.len() - successes(entries)
            &&& m.total_tokens == tokens_total(entries)
            &&& m.total_duration_ms == durations_total(entries)
            &&& m.avg_response_time_ms == if entries.len() == 0 {
                0int
            } else {
                durations_total(entries) / (entries.len() as int)
            }
            &&& m.uptime_seconds == 0
            &&& m.last_active is None
            &&& m.consistent()
        }),
    decreases entries.len(),
{
    if entries.len() > 0 {
        let prefix = entries.drop_last();
        lemma_totals_nonneg(prefix);
        assert(tokens_total(entries) == tokens_total(prefix) + entries.last().1);
        assert(durations_total(entries) == durations_total(prefix) + entries.last().2);
        lemma_streaming_mean(prefix);
    }
}

impl EnhancedAgent {
    /// Flatten for storage. The enum-valued fields take their encoded string
    /// form; the encoded blobs of the provider config and the metrics are
    /// supplied by the persistence boundary.
    pub fn to_row(&self, provider_config_json: String, metrics_json: String) -> (r: AgentRow)
        ensures
            r.id == self.id,
            r.name == self.name,
            r.description == self.description,
            r.role_id == self.role_id,
            r.mode@ == agent_mode_str(self.mode),
            r.status@ == agent_status_str(self.status),
            r.provider_config_json@ == provider_config_json@,
            r.system_prompt_override == self.system_prompt_override,
            r.metrics_json@ == metrics_json@,
            r.position_x == self.position.x,
            r.position_y == self.position.y,
            r.expanded == self.expanded,
            r.selected == self.selected,
            r.created_at == self.created_at,
            r.updated_at == self.updated_at,
    {
        AgentRow {
            id: self.id.clone(),
            name: self.name.clone(),
            description: clone_opt_string(&self.description),
            role_id: clone_opt_string(&self.role_id),
            mode: String::from_str(encode_agent_mode(&self.mode)),
            status: String::from_str(encode_agent_status(&self.status)),
            provider_config_json,
            system_prompt_override: clone_opt_string(&self.system_prompt_override),
            metrics_json,
            position_x: self.position.x,
            position_y: self.position.y,
            expanded: self.expanded,
            selected: self.selected,
            created_at: self.created_at.clone(),
            updated_at: self.updated_at.clone(),
        }
    }

    /// Rebuild an agent from its stored row. The decoded provider config and
    /// metrics are supplied by the persistence boundary; the operation fails
    /// exactly when a stored enum field is not an encoded value.
    pub fn from_row(row: AgentRow, provider_config: ProviderConfig, metrics: AgentMetrics) -> (r:
        Result<EnhancedAgent, WorkflowError>)
        ensures
            match r {
                Ok(a) => {
                    &&& agent_mode_of_str(row.mode@) == Some(a.mode)
                    &&& agent_status_of_str(row.status@) == Some(a.status)
                    &&& a.id == row.id
                    &&& a.name == row.name
                    &&& a.description == row.description
                    &&& a.role_id == row.role_id
                    &&& a.provider_config == provider_config
                    &&& a.system_prompt_override == row.system_prompt_override
                    &&& a.metrics == metrics
                    &&& a.position == (Position { x: row.position_x, y: row.position_y })
                    &&& a.expanded == row.expanded
                    &&& a.selected == row.selected
                    &&& a.created_at == row.created_at
                    &&& a.updated_at == row.updated_at
                },
                Err(e) => (e matches WorkflowError::Deserialization { .. }) && (agent_mode_of_str(
                    row.mode@,
                ) is None || agent_status_of_str(row.status@) is None),
            },
    {
        let mode = match decode_agent_mode(row.mode.as_str()) {
            Some(m) => m,
            None => {
                return Err(
                    WorkflowError::Deserialization {
                        message: String::from_str("unknown agent mode"),
                    },
                );
            },
        };
        let status = match decode_agent_status(row.status.as_str()) {
            Some(s) => s,
            None => {
                return Err(
                    WorkflowError::Deserialization {
                        message: String::from_str("unknown agent status"),
                    },
                );
            },
        };
        Ok(
            EnhancedAgent {
                id: row.id,
                name: row.name,
                description: row.description,
                role_id: row.role_id,
                mode,
                status,
                provider_config,
                system_prompt_override: row.system_prompt_override,
                metrics,
                position: Position { x: row.position_x, y: row.position_y },
                expanded: row.expanded,
                selected: row.selected,
                created_at: row.created_at,
                updated_at: row.updated_at,
            },
        )
    }
}

} // verus!
