//! The role registry: who may act as a custodian.
use crate::identity::Identity;
use vstd::prelude::*;

verus! {

/// The roles that the registry knows.
#[derive(Clone, Copy, Debug, PartialEq, Eq, Structural)]
pub enum Role {
    Custodian,
    Merchant,
}

/// The registry's record: the identities that hold each role.
#[derive(Clone, Debug, PartialEq, Eq)]
pub struct MembersStore {
    pub custodians: Vec<Identity>,
    pub merchants: Vec<Identity>,
    pub bump: u8,
}

/// Looks for `key` in `list`.
pub fn contains_identity(list: &Vec<Identity>, key: &Identity) -> (found: bool)
    ensures
        found == list@.contains(*key),
{
    let mut i: usize = 0;
    while i < list.len()
        invariant
            i <= list@.len(),
            forall|k: int| 0 <= k < i ==> list@[k] != *key,
        decreases list@.len() - i,
    {
        if list[i] == *key {
            return true;
        }
        i += 1;
    }
    false
}

impl MembersStore {
    /// Whether the registry gives `key` the role `role`.
    pub open spec fn spec_has_role(&self, key: Identity, role: Role) -> bool {
        match role {
            Role::Custodian => self.custodians@.contains(key),
            Role::Merchant => self.merchants@.contains(key),
        }
    }

    pub fn has_role(&self, key: &Identity, role: Role) -> (held: bool)
        ensures
            held == self.spec_has_role(*key, role),
    {
        match role {
            Role::Custodian => contains_identity(&self.custodians, key),
            Role::Merchant => contains_identity(&self.merchants, key),
        }
    }

    pub fn is_custodian(&self, key: &Identity) -> (held: bool)
        ensures
            held == self.spec_has_role(*key, Role::Custodian),
    {
        self.has_role(key, Role::Custodian)
    }

    pub fn is_merchant(&self, key: &Identity) -> (held: bool)
        ensures
            held == self.spec_has_role(*key, Role::Merchant),
    {
        self.has_role(key, Role::Merchant)
    }
}

} // verus!
