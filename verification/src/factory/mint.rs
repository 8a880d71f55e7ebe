//! Mint requests: a merchant claims a bitcoin deposit, and a custodian
//! approves or rejects the claim.
use crate::factory::errors::FactoryError;
use crate::factory::events::MintConfirmed;
use crate::factory::state::{
    address_accepted, new_request, CustodianBtcDepositAddress, RequestType, RequestView,
};
use crate::identity::Identity;
use vstd::prelude::*;

verus! {

/// What a mint request needs besides the ledger: who asks, and the
/// address found for their deposits.
#[derive(Clone, Debug, PartialEq, Eq)]
pub struct MintAccounts {
    pub payer: Identity,
    pub request_account_bump: u8,
    pub custodian_btc_address: Option<CustodianBtcDepositAddress>,
}

/// How much to mint, and the bitcoin transaction that made the deposit.
#[derive(Clone, Debug, PartialEq, Eq)]
pub struct MintParams {
    pub amount: u64,
    pub btc_txid: String,
}

/// What the controller is asked to mint, and for whom.
#[derive(Clone, Copy, Debug, PartialEq, Eq)]
pub struct MintOrder {
    pub recipient: Identity,
    pub amount: u64,
}

/// What is left to do once a mint request is approved, in this order:
/// have the controller mint the amount of the request for its
/// requester, and announce the approval. If the minting fails the whole
/// operation, the approval included, must be dropped by whoever runs
/// it.
#[derive(Clone, Debug, PartialEq, Eq)]
pub struct MintOutcome {
    /// The controller that is called.
    pub controller: Identity,
    /// What the controller is asked to mint.
    pub mint: MintOrder,
    pub event: MintConfirmed,
}

/// A deposit address counts when the record is there, belongs to the
/// requester and holds a text that is not empty.
pub open spec fn custodian_address_accepted(
    record: Option<CustodianBtcDepositAddress>,
    requester: Identity,
) -> bool {
    match record {
        Some(found) => address_accepted(found.merchant, found.btc_address@, requester),
        None => false,
    }
}

/// The address in a deposit record, and the empty text where there is
/// no record.
pub open spec fn custodian_address(record: Option<CustodianBtcDepositAddress>) -> Seq<char> {
    match record {
        Some(found) => found.btc_address@,
        None => Seq::<char>::empty(),
    }
}

/// Why a mint request is refused, or `None` if it is taken. A zero
/// amount is looked at first.
pub open spec fn mint_refusal(
    amount: u64,
    record: Option<CustodianBtcDepositAddress>,
    requester: Identity,
) -> Option<FactoryError> {
    if amount == 0 {
        Some(FactoryError::InvalidAmount)
    } else if !custodian_address_accepted(record, requester) {
        Some(FactoryError::InvalidBtcAddress)
    } else {
        None
    }
}

/// Whether a mint request would be taken but cannot be numbered,
/// because the mint counter stands at its last value.
pub open spec fn mint_overflows(
    counter: u64,
    amount: u64,
    record: Option<CustodianBtcDepositAddress>,
    requester: Identity,
) -> bool {
    mint_refusal(amount, record, requester) is None && counter == u64::MAX
}

impl MintAccounts {
    /// The mint request that these accounts lead to, under `nonce`.
    pub open spec fn request(
        self,
        nonce: u64,
        amount: u64,
        btc_txid: Seq<char>,
        unix_timestamp: i64,
    ) -> RequestView {
        new_request(
            RequestType::Mint,
            nonce,
            self.payer,
            amount,
            custodian_address(self.custodian_btc_address),
            btc_txid,
            unix_timestamp,
            self.request_account_bump,
        )
    }
}

/// Tells whether a deposit address counts for `requester`.
pub fn check_custodian_address(
    record: &Option<CustodianBtcDepositAddress>,
    requester: &Identity,
) -> (ok: bool)
    ensures
        ok == custodian_address_accepted(*record, *requester),
{
    match record {
        Some(found) => found.merchant == *requester && !found.btc_address.as_str().is_empty(),
        None => false,
    }
}

} // verus!
