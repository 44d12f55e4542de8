//! Role definitions for agent specialization.
//!
//! A role bundles capabilities, tools, and operational constraints. Roles
//! flagged built-in are protected: the store refuses to update or delete
//! them.

use vstd::prelude::*;
use crate::clock;

verus! {

/// Capability categories that a role can possess.
#[derive(Debug, Clone, PartialEq, Eq)]
pub enum CapabilityCategory {
    CodeGeneration,
    CodeReview,
    Testing,
    Documentation,
    Research,
    Design,
    Planning,
    Communication,
    Analysis,
    Deployment,
    Security,
    Performance,
    DataAnalysis,
    MachineLearning,
    DevOps,
    Custom(String),
}

/// A specific capability, with a proficiency level carried in thousandths,
/// so `1000` stands for full proficiency.
#[derive(Debug, Clone)]
pub struct Capability {
    pub id: String,
    pub name: String,
    pub category: CapabilityCategory,
    /// Proficiency in thousandths.
    pub proficiency: u32,
    pub description: Option<String>,
}

/// Tool configuration for a role.
#[derive(Debug, Clone)]
pub struct ToolConfig {
    pub tool_id: String,
    pub enabled: bool,
    /// Opaque encoded blob of tool configuration.
    pub config: Option<String>,
}

/// Constraints that limit what a role can do.
#[derive(Debug, Clone)]
pub struct RoleConstraints {
    /// Maximum number of concurrent tasks.
    pub max_concurrent_tasks: Option<u32>,
    /// Maximum tokens per request.
    pub max_tokens_per_request: Option<u32>,
    /// Allowed file patterns (glob patterns).
    pub allowed_file_patterns: Vec<String>,
    /// Forbidden actions.
    pub forbidden_actions: Vec<String>,
    /// Whether the role requires human approval for certain actions.
    pub requires_approval: bool,
    /// Actions that require approval.
    pub approval_required_for: Vec<String>,
}

impl Default for RoleConstraints {
    fn default() -> (r: Self)
        ensures
            r.max_concurrent_tasks == Some(3u32),
            r.max_tokens_per_request == Some(4096u32),
            r.allowed_file_patterns@.len() == 1,
            r.allowed_file_patterns@[0]@ == "**/*"@,
            r.forbidden_actions@.len() == 0,
            !r.requires_approval,
            r.approval_required_for@.len() == 0,
    {
        let mut patterns: Vec<String> = Vec::new();
        patterns.push(String::from_str("**/*"));
        RoleConstraints {
            max_concurrent_tasks: Some(3),
            max_tokens_per_request: Some(4096),
            allowed_file_patterns: patterns,
            forbidden_actions: Vec::new(),
            requires_approval: false,
            approval_required_for: Vec::new(),
        }
    }
}

/// A role definition that can be assigned to agents.
#[derive(Debug, Clone)]
pub struct Role {
    pub id: String,
    pub name: String,
    pub description: String,
    /// Icon identifier.
    pub icon: String,
    /// Color for visual representation.
    pub color: String,
    /// Capabilities this role provides.
    pub capabilities: Vec<Capability>,
    /// System prompt template for the role.
    pub system_prompt: String,
    /// Tools available to this role.
    pub tools: Vec<ToolConfig>,
    /// Operational constraints.
    pub constraints: RoleConstraints,
    /// Whether this is a built-in role, protected from mutation.
    pub is_built_in: bool,
    /// Version for tracking changes.
    pub version: String,
    /// Tags for categorization.
    pub tags: Vec<String>,
    /// RFC 3339 timestamp.
    pub created_at: String,
    /// RFC 3339 timestamp.
    pub updated_at: String,
}

impl Role {
    /// Create a new custom role with default values, stamped `now`.
    pub fn new_at(id: String, name: String, description: String, now: String) -> (r: Self)
        ensures
            r.id@ == id@,
            r.name@ == name@,
            r.description@ == description@,
            r.icon@ == "Person"@,
            r.color@ == "#6366f1"@,
            r.capabilities@.len() == 0,
            r.system_prompt@.len() == 0,
            r.tools@.len() == 0,
            r.constraints.max_concurrent_tasks == Some(3u32),
            r.constraints.max_tokens_per_request == Some(4096u32),
            r.constraints.allowed_file_patterns@.len() == 1,
            r.constraints.allowed_file_patterns@[0]@ == "**/*"@,
            r.constraints.forbidden_actions@.len() == 0,
            !r.constraints.requires_approval,
            r.constraints.approval_required_for@.len() == 0,
            !r.is_built_in,
            r.version@ == "1.0.0"@,
            r.tags@.len() == 0,
            r.created_at@ == now@,
            r.updated_at@ == now@,
    {
        let created = now;
        let updated = created.clone();
        Role {
            id,
            name,
            description,
            icon: String::from_str("Person"),
            color: String::from_str("#6366f1"),
            capabilities: Vec::new(),
            system_prompt: String::new(),
            tools: Vec::new(),
            constraints: RoleConstraints::default(),
            is_built_in: false,
            version: String::from_str("1.0.0"),
            tags: Vec::new(),
            created_at: created,
            updated_at: updated,
        }
    }

    /// Create a new custom role, stamped with the current wall clock.
    pub fn new(id: String, name: String, description: String) -> (r: Self)
        ensures
            r.id@ == id@,
            r.name@ == name@,
            r.description@ == description@,
            r.icon@ == "Person"@,
            r.color@ == "#6366f1"@,
            r.capabilities@.len() == 0,
            r.system_prompt@.len() == 0,
            r.tools@.len() == 0,
            !r.is_built_in,
            r.version@ == "1.0.0"@,
            r.tags@.len() == 0,
            r.created_at@ == r.updated_at@,
    {
        let now = clock::now_rfc3339();
        Self::new_at(id, name, description, now)
    }
}

/// The flattened form of a role used at the persistence boundary.
#[derive(Debug, Clone)]
pub struct RoleRow {
    pub id: String,
    pub name: String,
    pub description: String,
    pub icon: String,
    pub color: String,
    /// Encoded blob of the capabilities.
    pub capabilities_json: String,
    pub system_prompt: String,
    /// Encoded blob of the tools.
    pub tools_json: String,
    /// Encoded blob of the constraints.
    pub constraints_json: String,
    pub is_built_in: bool,
    pub version: String,
    /// Encoded blob of the tags.
    pub tags_json: String,
    pub created_at: String,
    pub updated_at: String,
}

impl Role {
    /// Flatten for storage. The encoded blobs of the capabilities, tools,
    /// constraints and tags are supplied by the persistence boundary.
    pub fn to_row(
        &self,
        capabilities_json: String,
        tools_json: String,
        constraints_json: String,
        tags_json: String,
    ) -> (r: RoleRow)
        ensures
            r.id == self.id,
            r.name == self.name,
            r.description == self.description,
            r.icon == self.icon,
            r.color == self.color,
            r.capabilities_json@ == capabilities_json@,
            r.system_prompt == self.system_prompt,
            r.tools_json@ == tools_json@,
            r.constraints_json@ == constraints_json@,
            r.is_built_in == self.is_built_in,
            r.version == self.version,
            r.tags_json@ == tags_json@,
            r.created_at == self.created_at,
            r.updated_at == self.updated_at,
    {
        RoleRow {
            id: self.id.clone(),
            name: self.name.clone(),
            description: self.description.clone(),
            icon: self.icon.clone(),
            color: self.color.clone(),
            capabilities_json,
            system_prompt: self.system_prompt.clone(),
            tools_json,
            constraints_json,
            is_built_in: self.is_built_in,
            version: self.version.clone(),
            tags_json,
            created_at: self.created_at.clone(),
            updated_at: self.updated_at.clone(),
        }
    }

    /// Rebuild a role from its stored row. The decoded capabilities, tools,
    /// constraints and tags are supplied by the persistence boundary.
    pub fn from_row(
        row: RoleRow,
        capabilities: Vec<Capability>,
        tools: Vec<ToolConfig>,
        constraints: RoleConstraints,
        tags: Vec<String>,
    ) -> (r: Role)
        ensures
            r.id == row.id,
            r.name == row.name,
            r.description == row.description,
            r.icon == row.icon,
            r.color == row.color,
            r.capabilities == capabilities,
            r.system_prompt == row.system_prompt,
            r.tools == tools,
            r.constraints == constraints,
            r.is_built_in == row.is_built_in,
            r.version == row.version,
            r.tags == tags,
            r.created_at == row.created_at,
            r.updated_at == row.updated_at,
    {
        Role {
            id: row.id,
            name: row.name,
            description: row.description,
            icon: row.icon,
            color: row.color,
            capabilities,
            system_prompt: row.system_prompt,
            tools,
            constraints,
            is_built_in: row.is_built_in,
            version: row.version,
            tags,
            created_at: row.created_at,
            updated_at: row.updated_at,
        }
    }
}

} // verus!
