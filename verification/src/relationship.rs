//! Directed agent-to-agent relationships and their authority attributes.
//!
//! A relationship carries advisory display and policy hints; its effective
//! display color resolves by precedence: an explicit override in the
//! metadata, else the default color of the relationship type.

use vstd::prelude::*;
use crate::clock;
use crate::codec::{
    decode_relationship_type, encode_relationship_type, relationship_type_of_str,
    relationship_type_str,
};
use crate::events::WorkflowError;

verus! {

/// Types of relationships between agents.
#[derive(Debug, Clone, Copy, PartialEq, Eq, Structural)]
pub enum RelationshipType {
    /// One agent supervises another.
    Supervises,
    /// Peer-to-peer collaboration.
    Collaborates,
    /// One agent delegates work to another.
    Delegates,
    /// One agent reviews another's work.
    Reviews,
    /// General information flow.
    InformsTo,
    /// One agent requests help from another.
    RequestsFrom,
    /// One agent blocks another's progress.
    Blocks,
    /// Custom relationship type.
    Custom,
}

impl RelationshipType {
    /// The human-readable name of each relationship type.
    pub open spec fn display_name_spec(self) -> Seq<char> {
        match self {
            RelationshipType::Supervises => "Supervises"@,
            RelationshipType::Collaborates => "Collaborates"@,
            RelationshipType::Delegates => "Delegates"@,
            RelationshipType::Reviews => "Reviews"@,
            RelationshipType::InformsTo => "Informs"@,
            RelationshipType::RequestsFrom => "Requests From"@,
            RelationshipType::Blocks => "Blocks"@,
            RelationshipType::Custom => "Custom"@,
        }
    }

    /// Get the display name for the relationship type.
    pub fn display_name(&self) -> (r: &'static str)
        ensures
            r@ == self.display_name_spec(),
    {
        match self {
            RelationshipType::Supervises => "Supervises",
            RelationshipType::Collaborates => "Collaborates",
            RelationshipType::Delegates => "Delegates",
            RelationshipType::Reviews => "Reviews",
            RelationshipType::InformsTo => "Informs",
            RelationshipType::RequestsFrom => "Requests From",
            RelationshipType::Blocks => "Blocks",
            RelationshipType::Custom => "Custom",
        }
    }

    /// The default display color of each relationship type, as a hex triplet.
    pub open spec fn default_color_spec(self) -> Seq<char> {
        match self {
            RelationshipType::Supervises => "#8b5cf6"@,
            RelationshipType::Collaborates => "#22c55e"@,
            RelationshipType::Delegates => "#3b82f6"@,
            RelationshipType::Reviews => "#f59e0b"@,
            RelationshipType::InformsTo => "#6b7280"@,
            RelationshipType::RequestsFrom => "#14b8a6"@,
            RelationshipType::Blocks => "#ef4444"@,
            RelationshipType::Custom => "#64748b"@,
        }
    }

    /// Get the default color for the relationship type.
    pub fn default_color(&self) -> (r: &'static str)
        ensures
            r@ == self.default_color_spec(),
    {
        match self {
            RelationshipType::Supervises => "#8b5cf6",
            RelationshipType::Collaborates => "#22c55e",
            RelationshipType::Delegates => "#3b82f6",
            RelationshipType::Reviews => "#f59e0b",
            RelationshipType::InformsTo => "#6b7280",
            RelationshipType::RequestsFrom => "#14b8a6",
            RelationshipType::Blocks => "#ef4444",
            RelationshipType::Custom => "#64748b",
        }
    }
}

/// Advisory metadata about a relationship. The numeric hints are display and
/// policy advice, not validated invariants; `strength` is carried in
/// thousandths, so `1000` stands for full strength.
#[derive(Debug, Clone)]
pub struct RelationshipMetadata {
    /// Human-readable label for the relationship.
    pub label: Option<String>,
    /// Relationship strength in thousandths, nominally 0 to 1000.
    pub strength: u32,
    /// Whether the relationship is bidirectional.
    pub bidirectional: bool,
    /// Priority level; higher is more important.
    pub priority: i32,
    /// Custom color override.
    pub color: Option<String>,
    /// Whether actions are approved automatically.
    pub auto_approve: bool,
    /// Authority delta, nominally -10 to 10; positive means the source has
    /// more authority.
    pub authority_delta: i32,
    /// Opaque encoded blob of custom metadata.
    pub custom: Option<String>,
}

impl Default for RelationshipMetadata {
    fn default() -> (r: Self)
        ensures
            r.label is None,
            r.strength == 1000,
            !r.bidirectional,
            r.priority == 0,
            r.color is None,
            r.auto_approve,
            r.authority_delta == 0,
            r.custom is None,
    {
        RelationshipMetadata {
            label: None,
            strength: 1000,
            bidirectional: false,
            priority: 0,
            color: None,
            auto_approve: true,
            authority_delta: 0,
            custom: None,
        }
    }
}

/// A directed relationship between two agents.
#[derive(Debug, Clone)]
pub struct AgentRelationship {
    pub id: String,
    /// Source agent ID.
    pub source_agent_id: String,
    /// Target agent ID.
    pub target_agent_id: String,
    /// Type of relationship.
    pub relationship_type: RelationshipType,
    /// Relationship metadata.
    pub metadata: RelationshipMetadata,
    /// RFC 3339 timestamp.
    pub created_at: String,
    /// RFC 3339 timestamp.
    pub updated_at: String,
}

/// The color a relationship displays with: the explicit override in its
/// metadata when set, else the default color of its type.
pub open spec fn effective_color_spec(rel: AgentRelationship) -> Seq<char> {
    match rel.metadata.color {
        Some(c) => c@,
        None => rel.relationship_type.default_color_spec(),
    }
}

impl AgentRelationship {
    /// Create a new relationship whose stamps are `now`, with default
    /// metadata.
    pub fn new_at(
        id: String,
        source_agent_id: String,
        target_agent_id: String,
        relationship_type: RelationshipType,
        now: String,
    ) -> (r: Self)
        ensures
            r.id@ == id@,
            r.source_agent_id@ == source_agent_id@,
            r.target_agent_id@ == target_agent_id@,
            r.relationship_type == relationship_type,
            r.metadata.label is None,
            r.metadata.strength == 1000,
            !r.metadata.bidirectional,
            r.metadata.priority == 0,
            r.metadata.color is None,
            r.metadata.auto_approve,
            r.metadata.authority_delta == 0,
            r.metadata.custom is None,
            r.created_at@ == now@,
            r.updated_at@ == now@,
    {
        let created = now;
        let updated = created.clone();
        AgentRelationship {
            id,
            source_agent_id,
            target_agent_id,
            relationship_type,
            metadata: RelationshipMetadata::default(),
            created_at: created,
            updated_at: updated,
        }
    }

    /// Create a new relationship, stamped with the current wall clock.
    pub fn new(
        id: String,
        source_agent_id: String,
        target_agent_id: String,
        relationship_type: RelationshipType,
    ) -> (r: Self)
        ensures
            r.id@ == id@,
            r.source_agent_id@ == source_agent_id@,
            r.target_agent_id@ == target_agent_id@,
            r.relationship_type == relationship_type,
            r.metadata.color is None,
            r.metadata.strength == 1000,
            r.metadata.auto_approve,
            r.created_at@ == r.updated_at@,
    {
        let now = clock::now_rfc3339();
        Self::new_at(id, source_agent_id, target_agent_id, relationship_type, now)
    }

    /// Get the effective color for this relationship.
    pub fn effective_color(&self) -> (r: String)
        ensures
            r@ == effective_color_spec(*self),
    {
        match &self.metadata.color {
            Some(c) => c.clone(),
            None => String::from_str(self.relationship_type.default_color()),
        }
    }
}

/// The flattened form of a relationship used at the persistence boundary.
#[derive(Debug, Clone)]
pub struct RelationshipRow {
    pub id: String,
    pub source_agent_id: String,
    pub target_agent_id: String,
    pub relationship_type: String,
    /// Encoded blob of the metadata.
    pub metadata_json: String,
    pub created_at: String,
    pub updated_at: String,
}

impl AgentRelationship {
    /// Flatten for storage. The type takes its encoded string form; the
    /// encoded blob of the metadata is supplied by the persistence boundary.
    pub fn to_row(&self, metadata_json: String) -> (r: RelationshipRow)
        ensures
            r.id == self.id,
            r.source_agent_id == self.source_agent_id,
            r.target_agent_id == self.target_agent_id,
            r.relationship_type@ == relationship_type_str(self.relationship_type),
            r.metadata_json@ == metadata_json@,
            r.created_at == self.created_at,
            r.updated_at == self.updated_at,
    {
        RelationshipRow {
            id: self.id.clone(),
            source_agent_id: self.source_agent_id.clone(),
            target_agent_id: self.target_agent_id.clone(),
            relationship_type: String::from_str(
                encode_relationship_type(&self.relationship_type),
            ),
            metadata_json,
            created_at: self.created_at.clone(),
            updated_at: self.updated_at.clone(),
        }
    }

    /// Rebuild a relationship from its stored row. The decoded metadata is
    /// supplied by the persistence boundary; the operation fails exactly when
    /// the stored type is not an encoded value.
    pub fn from_row(row: RelationshipRow, metadata: RelationshipMetadata) -> (r: Result<
        AgentRelationship,
        WorkflowError,
    >)
        ensures
            match r {
                Ok(rel) => {
                    &&& relationship_type_of_str(row.relationship_type@) == Some(
                        rel.relationship_type,
                    )
                    &&& rel.id == row.id
                    &&& rel.source_agent_id == row.source_agent_id
                    &&& rel.target_agent_id == row.target_agent_id
                    &&& rel.metadata == metadata
                    &&& rel.created_at == row.created_at
                    &&& rel.updated_at == row.updated_at
                },
                Err(e) => (e matches WorkflowError::Deserialization { .. })
                    && relationship_type_of_str(row.relationship_type@) is None,
            },
    {
        let relationship_type = match decode_relationship_type(row.relationship_type.as_str()) {
            Some(t) => t,
            None => {
                return Err(
                    WorkflowError::Deserialization {
                        message: String::from_str("unknown relationship type"),
                    },
                );
            },
        };
        Ok(
            AgentRelationship {
                id: row.id,
                source_agent_id: row.source_agent_id,
                target_agent_id: row.target_agent_id,
                relationship_type,
                metadata,
                created_at: row.created_at,
                updated_at: row.updated_at,
            },
        )
    }
}

} // verus!
