//! The controller's record.
use crate::identity::Identity;
use vstd::prelude::*;

verus! {

/// The one record of the controller. It is filled once, by the set-up,
/// and only while it is still blank, so `token_mint` never changes once
/// it is set.
#[derive(Clone, Copy, Debug, PartialEq, Eq)]
pub struct ControllerStore {
    pub token_mint: Identity,
    pub owner: Identity,
    pub pending_owner: Identity,
    pub pending_owner_program: Identity,
    pub pending_mint_authority: Identity,
    pub pending_mint_authority_program: Identity,
    pub factory: Identity,
    pub members: Identity,
    pub bump: u8,
}

impl ControllerStore {
    /// Whether nothing was written to the record yet: every identity in
    /// it names nobody and the bump is zero.
    pub open spec fn is_unset(&self) -> bool {
        &&& self.token_mint.is_zero()
        &&& self.owner.is_zero()
        &&& self.pending_owner.is_zero()
        &&& self.pending_owner_program.is_zero()
        &&& self.pending_mint_authority.is_zero()
        &&& self.pending_mint_authority_program.is_zero()
        &&& self.factory.is_zero()
        &&& self.members.is_zero()
        &&& self.bump == 0
    }

    /// A record as it is before anything was written to it.
    pub fn blank() -> (store: ControllerStore)
        ensures
            store.is_unset(),
    {
        ControllerStore {
            token_mint: Identity::zero(),
            owner: Identity::zero(),
            pending_owner: Identity::zero(),
            pending_owner_program: Identity::zero(),
            pending_mint_authority: Identity::zero(),
            pending_mint_authority_program: Identity::zero(),
            factory: Identity::zero(),
            members: Identity::zero(),
            bump: 0,
        }
    }

    /// Tells whether nothing was written to the record yet.
    pub fn is_blank(&self) -> (blank: bool)
        ensures
            blank == self.is_unset(),
    {
        self.token_mint.is_default() && self.owner.is_default() && self.pending_owner.is_default()
            && self.pending_owner_program.is_default() && self.pending_mint_authority.is_default()
            && self.pending_mint_authority_program.is_default() && self.factory.is_default()
            && self.members.is_default() && self.bump == 0
    }
}

} // verus!
