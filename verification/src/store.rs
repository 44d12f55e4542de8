//! An injected, in-memory keyed store for role rows.
//!
//! The persistence collaborator is external; this store is its explicit,
//! verifiable stand-in: list, get, insert, update and delete over rows keyed
//! by a unique string id. One domain guard is enforced here: a role flagged
//! built-in rejects update and delete requests, and the stored row is then
//! unchanged.

use vstd::prelude::*;
use crate::events::WorkflowError;
use crate::role::RoleRow;
use crate::str_eq;

verus! {

/// The row stored after an accepted update: the submitted fields, with the
/// stored creation stamp and protection flag kept, and `now` as the update
/// stamp.
pub open spec fn updated_role_row(stored: RoleRow, submitted: RoleRow, now: String) -> RoleRow {
    RoleRow {
        id: submitted.id,
        name: submitted.name,
        description: submitted.description,
        icon: submitted.icon,
        color: submitted.color,
        capabilities_json: submitted.capabilities_json,
        system_prompt: submitted.system_prompt,
        tools_json: submitted.tools_json,
        constraints_json: submitted.constraints_json,
        is_built_in: stored.is_built_in,
        version: submitted.version,
        tags_json: submitted.tags_json,
        created_at: stored.created_at,
        updated_at: now,
    }
}

/// The rows flagged built-in, in stored order.
pub open spec fn built_in_of(s: Seq<RoleRow>) -> Seq<RoleRow>
    decreases s.len(),
{
    if s.len() == 0 {
        Seq::empty()
    } else {
        built_in_of(s.drop_last()) + if s.last().is_built_in {
            seq![s.last()]
        } else {
            Seq::empty()
        }
    }
}

/// An in-memory keyed store of role rows.
pub struct RoleStore {
    rows: Vec<RoleRow>,
}

impl View for RoleStore {
    type V = Seq<RoleRow>;

    closed spec fn view(&self) -> Seq<RoleRow> {
        self.rows@
    }
}

impl RoleStore {
    /// Well-formed: stored ids are unique.
    pub open spec fn wf(self) -> bool {
        forall|i: int, j: int| 0 <= i < j < self@.len() ==> self@[i].id@ != self@[j].id@
    }

    /// Whether a row with this id is stored.
    pub open spec fn contains_id(self, id: Seq<char>) -> bool {
        exists|i: int| 0 <= i < self@.len() && self@[i].id@ == id
    }

    /// The position of the row with this id; meaningful when it is stored.
    pub open spec fn index_of_id(self, id: Seq<char>) -> int {
        choose|i: int| 0 <= i < self@.len() && self@[i].id@ == id
    }

    /// Create an empty store.
    pub fn new() -> (s: Self)
        ensures
            s@ == Seq::<RoleRow>::empty(),
            s.wf(),
    {
        RoleStore { rows: Vec::new() }
    }

    /// The position of the row with this id, by scan.
    fn find(&self, id: &str) -> (r: Option<usize>)
        requires
            self.wf(),
        ensures
            match r {
                Some(i) => i < self@.len() && self@[i as int].id@ == id@ && self.index_of_id(id@)
                    == i && self.contains_id(id@),
                None => !self.contains_id(id@),
            },
    {
        let mut i: usize = 0;
        while i < self.rows.len()
            invariant
                self.wf(),
                i <= self@.len(),
                forall|k: int| 0 <= k < i ==> self@[k].id@ != id@,
            decreases self@.len() - i,
        {
            if str_eq(self.rows[i].id.as_str(), id) {
                proof {
                    let w = choose|k: int| 0 <= k < self@.len() && self@[k].id@ == id@;
                    if w != i {
                        assert(self@[w].id@ != self@[i as int].id@);
                    }
                }
                return Some(i);
            }
            i += 1;
        }
        None
    }

    /// All stored rows, in stored order.
    pub fn roles(&self) -> (r: &Vec<RoleRow>)
        ensures
            r@ == self@,
    {
        &self.rows
    }

    /// The stored row with this id, when there is one.
    pub fn role(&self, id: &str) -> (r: Option<&RoleRow>)
        requires
            self.wf(),
        ensures
            match r {
                Some(row) => self.contains_id(id@) && *row == self@[self.index_of_id(id@)],
                None => !self.contains_id(id@),
            },
    {
        match self.find(id) {
            Some(i) => Some(&self.rows[i]),
            None => None,
        }
    }

    /// Insert a new row. A duplicate id is refused as a store failure, and
    /// nothing changes.
    pub fn create_role(&mut self, row: RoleRow) -> (r: Result<(), WorkflowError>)
        requires
            old(self).wf(),
        ensures
            final(self).wf(),
            match r {
                Ok(_) => !old(self).contains_id(row.id@) && final(self)@ == old(self)@.push(row),
                Err(e) => old(self).contains_id(row.id@) && final(self)@ == old(self)@ && (e
                    matches WorkflowError::Persistence { message } && message@
                    == "Failed to create role: a role with this id already exists"@),
            },
    {
        match self.find(row.id.as_str()) {
            Some(_) => Err(
                WorkflowError::Persistence {
                    message: String::from_str(
                        "Failed to create role: a role with this id already exists",
                    ),
                },
            ),
            None => {
                let ghost old_rows = self@;
                self.rows.push(row);
                proof {
                    assert forall|a: int, b: int|
                        0 <= a < b < self@.len() implies self@[a].id@ != self@[b].id@ by {
                        if b == old_rows.len() {
                            assert(self@[a] == old_rows[a]);
                            assert(self@[b] == row);
                        } else {
                            assert(self@[a] == old_rows[a]);
                            assert(self@[b] == old_rows[b]);
                        }
                    }
                }
                Ok(())
            },
        }
    }

    /// Update the row keyed by the submitted row's id: the stored creation
    /// stamp and protection flag are kept, and `now` becomes the update
    /// stamp. A built-in role rejects the update and the store is unchanged;
    /// an id that is not stored changes nothing.
    pub fn update_role_at(&mut self, role: RoleRow, now: String) -> (r: Result<
        (),
        WorkflowError,
    >)
        requires
            old(self).wf(),
        ensures
            final(self).wf(),
            match r {
                Ok(_) => !(old(self).contains_id(role.id@) && old(self)@[old(self).index_of_id(
                    role.id@,
                )].is_built_in) && if old(self).contains_id(role.id@) {
                    final(self)@ == old(self)@.update(
                        old(self).index_of_id(role.id@),
                        updated_role_row(old(self)@[old(self).index_of_id(role.id@)], role, now),
                    )
                } else {
                    final(self)@ == old(self)@
                },
                Err(e) => e == WorkflowError::BuiltInRoleMutation && old(self).contains_id(
                    role.id@,
                ) && old(self)@[old(self).index_of_id(role.id@)].is_built_in && final(self)@
                    == old(self)@,
            },
    {
        match self.find(role.id.as_str()) {
            Some(i) => {
                if self.rows[i].is_built_in {
                    return Err(WorkflowError::BuiltInRoleMutation);
                }
                let stored_built_in = self.rows[i].is_built_in;
                let stored_created_at = self.rows[i].created_at.clone();
                let ghost old_rows = self@;
                let new_row = RoleRow {
                    id: role.id,
                    name: role.name,
                    description: role.description,
                    icon: role.icon,
                    color: role.color,
                    capabilities_json: role.capabilities_json,
                    system_prompt: role.system_prompt,
                    tools_json: role.tools_json,
                    constraints_json: role.constraints_json,
                    is_built_in: stored_built_in,
                    version: role.version,
                    tags_json: role.tags_json,
                    created_at: stored_created_at,
                    updated_at: now,
                };
                self.rows.set(i, new_row);
                proof {
                    assert forall|a: int, b: int|
                        0 <= a < b < self@.len() implies self@[a].id@ != self@[b].id@ by {
                        assert(old_rows[a].id@ != old_rows[b].id@);
                        if a == i as int {
                            assert(self@[a].id@ == old_rows[a].id@);
                        }
                        if b == i as int {
                            assert(self@[b].id@ == old_rows[b].id@);
                        }
                    }
                }
                Ok(())
            },
            None => Ok(()),
        }
    }

    /// Update the row keyed by the submitted row's id, stamping the current
    /// wall clock. The guard and frame are those of [`Self::update_role_at`]:
    /// a built-in role rejects the update and the store is unchanged.
    pub fn update_role(&mut self, role: RoleRow) -> (r: Result<(), WorkflowError>)
        requires
            old(self).wf(),
        ensures
            final(self).wf(),
            match r {
                Ok(_) => !(old(self).contains_id(role.id@) && old(self)@[old(self).index_of_id(
                    role.id@,
                )].is_built_in) && (!old(self).contains_id(role.id@) ==> final(self)@ == old(
                    self,
                )@) && (old(self).contains_id(role.id@) ==> exists|now: String|
                    final(self)@ == old(self)@.update(
                        old(self).index_of_id(role.id@),
                        #[trigger] updated_role_row(
                            old(self)@[old(self).index_of_id(role.id@)],
                            role,
                            now,
                        ),
                    )),
                Err(e) => e == WorkflowError::BuiltInRoleMutation && old(self).contains_id(
                    role.id@,
                ) && old(self)@[old(self).index_of_id(role.id@)].is_built_in && final(self)@
                    == old(self)@,
            },
    {
        let now = crate::clock::now_rfc3339();
        self.update_role_at(role, now)
    }

    /// Delete the row with this id. A built-in role rejects the deletion and
    /// the store is unchanged; an id that is not stored changes nothing.
    pub fn delete_role(&mut self, id: &str) -> (r: Result<(), WorkflowError>)
        requires
            old(self).wf(),
        ensures
            final(self).wf(),
            match r {
                Ok(_) => !(old(self).contains_id(id@) && old(self)@[old(self).index_of_id(
                    id@,
                )].is_built_in) && if old(self).contains_id(id@) {
                    final(self)@ == old(self)@.remove(old(self).index_of_id(id@))
                } else {
                    final(self)@ == old(self)@
                },
                Err(e) => e == WorkflowError::BuiltInRoleMutation && old(self).contains_id(id@)
                    && old(self)@[old(self).index_of_id(id@)].is_built_in && final(self)@ == old(
                    self,
                )@,
            },
    {
        match self.find(id) {
            Some(i) => {
                if self.rows[i].is_built_in {
                    return Err(WorkflowError::BuiltInRoleMutation);
                }
                let ghost old_rows = self@;
                self.rows.remove(i);
                proof {
                    assert forall|a: int, b: int|
                        0 <= a < b < self@.len() implies self@[a].id@ != self@[b].id@ by {
                        let a0 = if a < i as int {
                            a
                        } else {
                            a + 1
                        };
                        let b0 = if b < i as int {
                            b
                        } else {
                            b + 1
                        };
                        assert(self@[a] == old_rows[a0]);
                        assert(self@[b] == old_rows[b0]);
                        assert(old_rows[a0].id@ != old_rows[b0].id@);
                    }
                }
                Ok(())
            },
            None => Ok(()),
        }
    }

    /// The stored rows flagged built-in, in stored order.
    pub fn built_in_roles(&self) -> (r: Vec<RoleRow>)
        ensures
            r@ == built_in_of(self@),
    {
        let mut out: Vec<RoleRow> = Vec::new();
        let mut i: usize = 0;
        while i < self.rows.len()
            invariant
                i <= self@.len(),
                out@ == built_in_of(self@.take(i as int)),
            decreases self@.len() - i,
        {
            proof {
                assert(self@.take(i as int + 1).drop_last() =~= self@.take(i as int));
                assert(self@.take(i as int + 1).last() == self@[i as int]);
            }
            if self.rows[i].is_built_in {
                let row = &self.rows[i];
                let copy = RoleRow {
                    id: row.id.clone(),
                    name: row.name.clone(),
                    description: row.description.clone(),
                    icon: row.icon.clone(),
                    color: row.color.clone(),
                    capabilities_json: row.capabilities_json.clone(),
                    system_prompt: row.system_prompt.clone(),
                    tools_json: row.tools_json.clone(),
                    constraints_json: row.constraints_json.clone(),
                    is_built_in: row.is_built_in,
                    version: row.version.clone(),
                    tags_json: row.tags_json.clone(),
                    created_at: row.created_at.clone(),
                    updated_at: row.updated_at.clone(),
                };
                proof {
                    assert(copy == self@[i as int]);
                }
                out.push(copy);
            }
            i += 1;
        }
        proof {
            assert(self@.take(self@.len() as int) =~= self@);
        }
        out
    }
}

} // verus!
