//! Setting up the controller's record, which happens once.
use crate::controller::errors::CustomError;
use crate::controller::events::ControllerInitialized;
use crate::controller::state::ControllerStore;
use crate::identity::Identity;
use vstd::prelude::*;

verus! {

/// The accounts that the set-up works on.
#[derive(Clone, Copy, Debug, PartialEq, Eq)]
pub struct Initialize {
    /// Who pays for the record, and becomes its owner.
    pub payer: Identity,
    /// The record to fill.
    pub controller_store: ControllerStore,
    /// The bump found for the record's address.
    pub controller_store_bump: u8,
    /// The mint of the token that the controller will hold.
    pub token_mint: Identity,
    /// The balance in which the controller holds the token.
    pub controller_token_account: Identity,
}

/// The record that a successful set-up leaves of a blank one: the mint,
/// the payer as owner, the bump, and nothing else.
pub open spec fn initialized(before: Initialize, after: ControllerStore) -> bool {
    &&& after.token_mint == before.token_mint
    &&& after.owner == before.payer
    &&& after.pending_owner.is_zero()
    &&& after.pending_owner_program.is_zero()
    &&& after.pending_mint_authority.is_zero()
    &&& after.pending_mint_authority_program.is_zero()
    &&& after.factory.is_zero()
    &&& after.members.is_zero()
    &&& after.bump == before.controller_store_bump
}

/// A record that was set up is no longer blank, so it cannot be set up
/// again.
pub proof fn lemma_set_up_record_is_not_blank(before: Initialize, after: ControllerStore)
    requires
        !before.token_mint.is_zero(),
        initialized(before, after),
    ensures
        !after.is_unset(),
{
}

/// Fills the controller's record, which must be blank: the token's
/// mint, the payer as owner, nothing pending. A mint that names nobody
/// is refused, and then nothing is written. The record that is left by
/// a set-up is not blank.
///
/// [`initialize_once`] makes the test for a blank record itself.
pub fn initialize(ctx: &mut Initialize) -> (res: Result<ControllerInitialized, CustomError>)
    requires
        old(ctx).controller_store.is_unset(),
    ensures
        match res {
            Ok(event) => {
                &&& !old(ctx).token_mint.is_zero()
                &&& initialized(*old(ctx), final(ctx).controller_store)
                &&& !final(ctx).controller_store.is_unset()
                &&& *final(ctx) == (Initialize {
                    controller_store: final(ctx).controller_store,
                    ..*old(ctx)
                })
                &&& event == (ControllerInitialized {
                    token_mint: old(ctx).token_mint,
                    owner: old(ctx).payer,
                    controller_token_account: old(ctx).controller_token_account,
                })
            },
            Err(e) => {
                &&& old(ctx).token_mint.is_zero()
                &&& e == CustomError::InvalidTokenAddress
                &&& *final(ctx) == *old(ctx)
            },
        },
{
    if ctx.token_mint.is_default() {
        return Err(CustomError::InvalidTokenAddress);
    }
    ctx.controller_store.token_mint = ctx.token_mint;
    ctx.controller_store.owner = ctx.payer;
    ctx.controller_store.bump = ctx.controller_store_bump;
    Ok(
        ControllerInitialized {
            token_mint: ctx.controller_store.token_mint,
            owner: ctx.controller_store.owner,
            controller_token_account: ctx.controller_token_account,
        },
    )
}

/// Sets the controller up unless it was set up before.
///
/// On a record that holds anything the result is `None` and nothing is
/// written, whatever the mint and whoever pays. On a blank record the
/// result is that of [`initialize`]. After a successful set-up the
/// record is not blank, so every later call gives `None` and leaves the
/// mint and the owner as they are.
pub fn initialize_once(ctx: &mut Initialize) -> (res: Option<
    Result<ControllerInitialized, CustomError>,
>)
    ensures
        match res {
            None => {
                &&& !old(ctx).controller_store.is_unset()
                &&& *final(ctx) == *old(ctx)
            },
            Some(Ok(event)) => {
                &&& old(ctx).controller_store.is_unset()
                &&& !old(ctx).token_mint.is_zero()
                &&& initialized(*old(ctx), final(ctx).controller_store)
                &&& !final(ctx).controller_store.is_unset()
                &&& *final(ctx) == (Initialize {
                    controller_store: final(ctx).controller_store,
                    ..*old(ctx)
                })
                &&& event == (ControllerInitialized {
                    token_mint: old(ctx).token_mint,
                    owner: old(ctx).payer,
                    controller_token_account: old(ctx).controller_token_account,
                })
            },
            Some(Err(e)) => {
                &&& old(ctx).controller_store.is_unset()
                &&& old(ctx).token_mint.is_zero()
                &&& e == CustomError::InvalidTokenAddress
                &&& *final(ctx) == *old(ctx)
            },
        },
{
    if !ctx.controller_store.is_blank() {
        return None;
    }
    Some(initialize(ctx))
}

} // verus!
