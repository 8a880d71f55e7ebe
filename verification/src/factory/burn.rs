//! Burn requests: a merchant hands tokens over to be burned, and a
//! custodian later confirms that the bitcoin was paid out.
use crate::controller::burn::BurnParams as ControllerBurnParams;
use crate::factory::errors::FactoryError;
use crate::factory::events::{BurnConfirmed, Burned};
use crate::factory::settlement::{
    check_record, kept_view, lemma_settled_keeps_seal, settled, settlement_refusal,
};
use crate::factory::state::{
    address_accepted, new_request, FactoryStore, MerchantBtcDepositAddress, RequestAccount,
    RequestStatus, RequestType, RequestView,
};
use crate::identity::Identity;
use crate::members::{MembersStore, Role};
use crate::token::{Mint, TransferChecked};
use vstd::prelude::*;

verus! {

/// How much to burn.
#[derive(Clone, Copy, Debug, PartialEq, Eq)]
pub struct BurnParams {
    pub amount: u64,
}

/// The accounts that the making of a burn request works on.
#[derive(Clone, Debug, PartialEq, Eq)]
pub struct Burn {
    /// The merchant who asks, and who signs for the transfer.
    pub payer: Identity,
    /// The factory's record.
    pub factory_store: FactoryStore,
    /// The bump found for the address of the request's record.
    pub request_account_bump: u8,
    /// The payer's deposit address, if one is registered.
    pub merchant_btc_address: Option<MerchantBtcDepositAddress>,
    /// The token's mint.
    pub token_mint: Mint,
    /// The payer's balance of the token.
    pub token_account: Identity,
    /// The balance in which the controller holds the token.
    pub controller_token_account: Identity,
}

/// The new burn request and what is left to do with it, in this order:
/// keep the record under its number, move the tokens into custody, have
/// the controller burn them, and announce the request. If a step fails
/// the whole operation, the record and the counter included, must be
/// dropped by whoever runs it.
#[derive(Clone, Debug, PartialEq, Eq)]
pub struct BurnOutcome {
    /// The request, to be kept for good under its type and number.
    pub request: RequestAccount,
    pub transfer: TransferChecked,
    /// The controller that is called.
    pub controller: Identity,
    /// What the controller is asked to burn.
    pub burn: ControllerBurnParams,
    pub event: Burned,
}

/// A deposit address counts when the record is there, belongs to the
/// requester and holds a text that is not empty.
pub open spec fn deposit_address_accepted(
    record: Option<MerchantBtcDepositAddress>,
    requester: Identity,
) -> bool {
    match record {
        Some(found) => address_accepted(found.merchant, found.btc_address@, requester),
        None => false,
    }
}

/// Why a burn request is refused, or `None` if it is taken. A zero
/// amount is looked at first.
pub open spec fn burn_refusal(
    amount: u64,
    record: Option<MerchantBtcDepositAddress>,
    requester: Identity,
) -> Option<FactoryError> {
    if amount == 0 {
        Some(FactoryError::InvalidAmount)
    } else if !deposit_address_accepted(record, requester) {
        Some(FactoryError::InvalidBtcAddress)
    } else {
        None
    }
}

/// Whether a burn request would be taken but cannot be numbered,
/// because the burn counter stands at its last value.
pub open spec fn burn_overflows(
    counter: u64,
    amount: u64,
    record: Option<MerchantBtcDepositAddress>,
    requester: Identity,
) -> bool {
    burn_refusal(amount, record, requester) is None && counter == u64::MAX
}

/// The address in a deposit record, and the empty text where there is
/// no record.
pub open spec fn registered_address(record: Option<MerchantBtcDepositAddress>) -> Seq<char> {
    match record {
        Some(found) => found.btc_address@,
        None => Seq::<char>::empty(),
    }
}

/// The burn request that is recorded: sealed, pending, and without a
/// transaction id yet.
pub open spec fn burn_request(
    nonce: u64,
    requester: Identity,
    amount: u64,
    btc_deposit_address: Seq<char>,
    unix_timestamp: i64,
    bump: u8,
) -> RequestView {
    new_request(
        RequestType::Burn,
        nonce,
        requester,
        amount,
        btc_deposit_address,
        Seq::<char>::empty(),
        unix_timestamp,
        bump,
    )
}

/// Tells whether a deposit address counts for `requester`.
pub fn check_deposit_address(record: &Option<MerchantBtcDepositAddress>, requester: &Identity) -> (ok:
    bool)
    ensures
        ok == deposit_address_accepted(*record, *requester),
{
    match record {
        Some(found) => found.merchant == *requester && !found.btc_address.as_str().is_empty(),
        None => false,
    }
}

/// Tells whether [`burn_handler`] could not number the request that
/// these accounts and parameters make.
pub fn burn_would_overflow(ctx: &Burn, params: &BurnParams) -> (full: bool)
    ensures
        full == burn_overflows(
            ctx.factory_store.burn_request_counter,
            params.amount,
            ctx.merchant_btc_address,
            ctx.payer,
        ),
{
    params.amount != 0 && check_deposit_address(&ctx.merchant_btc_address, &ctx.payer)
        && ctx.factory_store.burn_request_counter == u64::MAX
}

/// Makes a burn request at `unix_timestamp`.
///
/// The one thing asked of the caller is that a request which would be
/// taken can be numbered: see [`burn_overflows`]. A request that is
/// refused is refused at any counter.
///
/// A request that [`burn_refusal`] refuses leaves the accounts as they
/// were. Otherwise the request [`burn_request`] is made under the
/// number that the burn counter shows, the counter goes up by one, and
/// the result holds the new request and says what is left to do: the
/// transfer of the amount from the payer's balance to the controller's,
/// on the payer's authority, then the burn of that amount by the
/// factory's controller. No record that exists is read or written: the
/// request is a new one.
pub fn burn_handler(ctx: &mut Burn, params: &BurnParams, unix_timestamp: i64) -> (res: Result<
    BurnOutcome,
    FactoryError,
>)
    requires
        !burn_overflows(
            old(ctx).factory_store.burn_request_counter,
            params.amount,
            old(ctx).merchant_btc_address,
            old(ctx).payer,
        ),
    ensures
        params.amount == 0 ==> (res matches Err(e) && e == FactoryError::InvalidAmount),
        params.amount != 0 && !deposit_address_accepted(
            old(ctx).merchant_btc_address,
            old(ctx).payer,
        ) ==> (res matches Err(e) && e == FactoryError::InvalidBtcAddress),
        res is Err ==> *final(ctx) == *old(ctx),
        match res {
            Ok(outcome) => {
                &&& burn_refusal(params.amount, old(ctx).merchant_btc_address, old(ctx).payer)
                    is None
                &&& outcome.request@ == burn_request(
                    old(ctx).factory_store.burn_request_counter,
                    old(ctx).payer,
                    params.amount,
                    registered_address(old(ctx).merchant_btc_address),
                    unix_timestamp,
                    old(ctx).request_account_bump,
                )
                &&& outcome.request@.sealed()
                &&& final(ctx).factory_store == (FactoryStore {
                    burn_request_counter: (old(ctx).factory_store.burn_request_counter + 1) as u64,
                    ..old(ctx).factory_store
                })
                &&& *final(ctx) == (Burn { factory_store: final(ctx).factory_store, ..*old(ctx) })
                &&& outcome.transfer == (TransferChecked {
                    from: old(ctx).token_account,
                    mint: old(ctx).token_mint.address,
                    to: old(ctx).controller_token_account,
                    authority: old(ctx).payer,
                    amount: params.amount,
                    decimals: old(ctx).token_mint.decimals,
                })
                &&& outcome.controller == old(ctx).factory_store.controller
                &&& outcome.burn == (ControllerBurnParams { amount: params.amount })
                &&& outcome.event.reports(outcome.request@)
            },
            Err(e) => {
                &&& burn_refusal(params.amount, old(ctx).merchant_btc_address, old(ctx).payer)
                    == Some(e)
                &&& *final(ctx) == *old(ctx)
            },
        },
{
    if params.amount == 0 {
        return Err(FactoryError::InvalidAmount);
    }
    if !check_deposit_address(&ctx.merchant_btc_address, &ctx.payer) {
        return Err(FactoryError::InvalidBtcAddress);
    }
    let btc_deposit_address = match &ctx.merchant_btc_address {
        Some(found) => found.btc_address.clone(),
        None => String::new(),
    };
    let request = RequestAccount::open(
        RequestType::Burn,
        ctx.factory_store.burn_request_counter,
        ctx.payer,
        params.amount,
        btc_deposit_address.clone(),
        String::new(),
        unix_timestamp,
        ctx.request_account_bump,
    );
    let event = Burned {
        nonce: request.nonce,
        requester: ctx.payer,
        amount: params.amount,
        btc_deposit_address,
        timestamp: request.timestamp,
        request_hash: request.hash,
    };
    let outcome = BurnOutcome {
        request,
        transfer: TransferChecked {
            from: ctx.token_account,
            mint: ctx.token_mint.address,
            to: ctx.controller_token_account,
            authority: ctx.payer,
            amount: params.amount,
            decimals: ctx.token_mint.decimals,
        },
        controller: ctx.factory_store.controller,
        burn: ControllerBurnParams { amount: params.amount },
        event,
    };
    ctx.factory_store.burn_request_counter = ctx.factory_store.burn_request_counter + 1;
    Ok(outcome)
}

/// Which request to confirm, the bitcoin transaction that paid it out,
/// and the hash that the request is expected to carry.
#[derive(Clone, Debug, PartialEq, Eq)]
pub struct ConfirmBurnParams {
    pub nonce: u64,
    pub btc_txid: String,
    pub request_hash: [u8; 32],
}

/// The accounts that the confirmation of a burn request works on.
#[derive(Clone, Debug, PartialEq, Eq)]
pub struct ConfirmBurnRequest {
    /// Who confirms.
    pub payer: Identity,
    /// The factory's record.
    pub factory_store: FactoryStore,
    /// The record kept under the number asked for, or `None` where
    /// nothing is kept under it.
    pub request_account: Option<RequestAccount>,
    /// The role registry.
    pub members_store: MembersStore,
}

/// Why the confirmation of a burn request is refused, or `None`.
pub open spec fn confirm_burn_refusal(ctx: ConfirmBurnRequest, params: ConfirmBurnParams) -> Option<
    FactoryError,
> {
    settlement_refusal(
        kept_view(ctx.request_account),
        ctx.members_store.spec_has_role(ctx.payer, Role::Custodian),
        RequestType::Burn,
        params.nonce,
        params.request_hash@,
    )
}

/// Confirms a burn request.
///
/// A confirmation that [`confirm_burn_refusal`] refuses leaves the
/// accounts as they were: that of a caller who is no custodian, that of
/// a number under which no record is kept, and that of a record which
/// is no burn request, carries another number, is not pending or
/// carries another hash. Otherwise the transaction id is stored, the
/// request is approved, and nothing else changes. A request that was
/// confirmed is no longer pending, so it cannot be confirmed again.
/// Either way a request that carried its own hash still does.
pub fn confirm_burn_request_handler(ctx: &mut ConfirmBurnRequest, params: &ConfirmBurnParams) -> (res:
    Result<BurnConfirmed, FactoryError>)
    ensures
        old(ctx).request_account is Some == final(ctx).request_account is Some,
        old(ctx).request_account is Some && old(ctx).request_account->0@.sealed()
            ==> final(ctx).request_account->0@.sealed(),
        match res {
            Ok(event) => {
                &&& confirm_burn_refusal(*old(ctx), *params) is None
                &&& old(ctx).request_account is Some
                &&& final(ctx).request_account->0@ == settled(
                    old(ctx).request_account->0@,
                    RequestStatus::Approved,
                    params.btc_txid@,
                )
                &&& *final(ctx) == (ConfirmBurnRequest {
                    request_account: final(ctx).request_account,
                    ..*old(ctx)
                })
                &&& event.reports(final(ctx).request_account->0@)
            },
            Err(e) => {
                &&& confirm_burn_refusal(*old(ctx), *params) == Some(e)
                &&& *final(ctx) == *old(ctx)
            },
        },
{
    let is_custodian = ctx.members_store.is_custodian(&ctx.payer);
    if !is_custodian {
        return Err(FactoryError::NotCustodian);
    }
    match &mut ctx.request_account {
        None => Err(FactoryError::InvalidNonce),
        Some(request) => {
            match check_record(request, RequestType::Burn, params.nonce, &params.request_hash) {
                Ok(_) => {},
                Err(e) => {
                    return Err(e);
                },
            }
            proof {
                if request@.sealed() {
                    lemma_settled_keeps_seal(
                        request@,
                        RequestStatus::Approved,
                        params.btc_txid@,
                    );
                }
            }
            request.btc_txid = params.btc_txid.clone();
            request.status = RequestStatus::Approved;
            Ok(
                BurnConfirmed {
                    nonce: request.nonce,
                    requester: request.requester,
                    amount: request.amount,
                    btc_deposit_address: request.btc_deposit_address.clone(),
                    btc_txid: params.btc_txid.clone(),
                    timestamp: request.timestamp,
                    request_hash: request.hash,
                },
            )
        },
    }
}

} // verus!
