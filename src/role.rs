use vstd::prelude::*;
use std::collections::HashMap;
use crate::power::Role;

verus! {

broadcast use vstd::std_specs::hash::group_hash_axioms;

/// The roles of a government, keyed by role id.
pub struct RoleCollection {
    roles: HashMap<u8, Role>,
}

impl RoleCollection {
    /// The roles held, by id.
    pub closed spec fn spec_roles(&self) -> Map<u8, Role> {
        self.roles@
    }

    pub fn new() -> (r: RoleCollection)
        ensures
            r.spec_roles() == Map::<u8, Role>::empty(),
    {
        RoleCollection { roles: HashMap::new() }
    }

    /// Stores `role` under its id, replacing any role already there.
    pub fn append_raw_role(&mut self, role: Role)
        ensures
            final(self).spec_roles() == old(self).spec_roles().insert(role.id, role),
    {
        let id = role.id;
        self.roles.insert(id, role);
    }

    /// Stores `role` under its id, replacing any role already there.
    pub fn append_role(&mut self, role: Role)
        ensures
            final(self).spec_roles() == old(self).spec_roles().insert(role.id, role),
    {
        self.append_raw_role(role);
    }

    /// The role stored under `id`, if any.
    pub fn get_role(&self, id: u8) -> (r: Option<&Role>)
        ensures
            match r {
                Some(role) => self.spec_roles().contains_key(id) && *role == self.spec_roles()[id],
                None => !self.spec_roles().contains_key(id),
            },
    {
        self.roles.get(&id)
    }

    /// Removes the role stored under `id`; the result says whether a role is
    /// still stored there afterwards.
    pub fn delete_role(&mut self, id: u8) -> (r: bool)
        ensures
            final(self).spec_roles() == old(self).spec_roles().remove(id),
            r == final(self).spec_roles().contains_key(id),
            !r,
    {
        self.roles.remove(&id);
        self.get_role(id).is_some()
    }
}

} // verus!
