//! What the controller announces.
use crate::identity::Identity;
use vstd::prelude::*;

verus! {

/// The controller's record was set up.
#[derive(Clone, Copy, Debug, PartialEq, Eq)]
pub struct ControllerInitialized {
    pub token_mint: Identity,
    pub owner: Identity,
    pub controller_token_account: Identity,
}

} // verus!
