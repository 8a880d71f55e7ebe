//! Burning what is held in custody, for the registered factory only.
use crate::controller::errors::CustomError;
use crate::controller::state::ControllerStore;
use crate::identity::Identity;
use crate::seeds::{controller_signer_seeds, make_controller_signer_seeds};
use crate::token::{TokenBurn, TokenBurnView};
use vstd::prelude::*;

verus! {

/// How much to burn.
#[derive(Clone, Copy, Debug, PartialEq, Eq)]
pub struct BurnParams {
    pub amount: u64,
}

/// The accounts that a burn works on.
#[derive(Clone, Copy, Debug, PartialEq, Eq)]
pub struct Burn {
    /// The controller's record.
    pub controller_store: ControllerStore,
    /// The address of that record, which is the authority over the
    /// custody balance.
    pub controller_authority: Identity,
    /// The balance in which the controller holds the token.
    pub controller_token_account: Identity,
}

/// The order that the controller gives to the asset ledger: burn exactly
/// `amount` from its own custody balance, of the mint in its record,
/// signed with its own seeds.
pub open spec fn custody_burn(ctx: Burn, amount: u64) -> TokenBurnView {
    TokenBurnView {
        mint: ctx.controller_store.token_mint,
        from: ctx.controller_token_account,
        authority: ctx.controller_authority,
        amount,
        signer_seeds: controller_signer_seeds(ctx.controller_store.bump),
    }
}

/// Decides a burn on behalf of `caller_program_id`, the program that the
/// platform reports as the immediate caller.
///
/// Any caller but the factory in the controller's record is refused and
/// no order is given. For the factory the result is the order
/// [`custody_burn`]. The record is only read.
pub fn burn(ctx: &Burn, params: &BurnParams, caller_program_id: &Identity) -> (res: Result<
    TokenBurn,
    CustomError,
>)
    ensures
        match res {
            Ok(order) => *caller_program_id == ctx.controller_store.factory && order@
                == custody_burn(*ctx, params.amount),
            Err(e) => *caller_program_id != ctx.controller_store.factory && e
                == CustomError::Unauthorized,
        },
{
    if *caller_program_id != ctx.controller_store.factory {
        return Err(CustomError::Unauthorized);
    }
    Ok(
        TokenBurn {
            mint: ctx.controller_store.token_mint,
            from: ctx.controller_token_account,
            authority: ctx.controller_authority,
            amount: params.amount,
            signer_seeds: make_controller_signer_seeds(ctx.controller_store.bump),
        },
    )
}

} // verus!
