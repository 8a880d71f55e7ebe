//! What the factory announces. Each event repeats the values of the
//! request it is about, for those who follow the ledger from outside.
use crate::factory::state::RequestView;
use crate::identity::Identity;
use vstd::prelude::*;

verus! {

/// A custodian set the address on which it takes a merchant's deposits.
#[derive(Clone, Debug, PartialEq, Eq)]
pub struct CustodianBtcDepositAddressSet {
    pub merchant: Identity,
    pub btc_deposit_address: String,
}

/// A merchant set the address that redemptions go to.
#[derive(Clone, Debug, PartialEq, Eq)]
pub struct MerchantBtcDepositAddressSet {
    pub merchant: Identity,
    pub btc_deposit_address: String,
}

/// A mint request was recorded.
#[derive(Clone, Debug, PartialEq, Eq)]
pub struct MintRequestAdd {
    pub nonce: u64,
    pub requester: Identity,
    pub amount: u64,
    pub btc_deposit_address: String,
    pub btc_txid: String,
    pub timestamp: i64,
    pub request_hash: [u8; 32],
}

/// A mint request was withdrawn by its requester.
#[derive(Clone, Copy, Debug, PartialEq, Eq)]
pub struct MintRequestCancel {
    pub nonce: u64,
    pub requester: Identity,
    pub request_hash: [u8; 32],
}

/// A custodian approved a mint request.
#[derive(Clone, Debug, PartialEq, Eq)]
pub struct MintConfirmed {
    pub nonce: u64,
    pub requester: Identity,
    pub amount: u64,
    pub btc_deposit_address: String,
    pub btc_txid: String,
    pub timestamp: i64,
    pub request_hash: [u8; 32],
}

/// A custodian rejected a mint request.
#[derive(Clone, Debug, PartialEq, Eq)]
pub struct MintRejected {
    pub nonce: u64,
    pub requester: Identity,
    pub amount: u64,
    pub btc_deposit_address: String,
    pub btc_txid: String,
    pub timestamp: i64,
    pub request_hash: [u8; 32],
}

/// A burn request was recorded and the tokens were handed over to be
/// burned.
#[derive(Clone, Debug, PartialEq, Eq)]
pub struct Burned {
    pub nonce: u64,
    pub requester: Identity,
    pub amount: u64,
    pub btc_deposit_address: String,
    pub timestamp: i64,
    pub request_hash: [u8; 32],
}

/// A custodian confirmed a burn request and named the bitcoin
/// transaction that paid it out.
#[derive(Clone, Debug, PartialEq, Eq)]
pub struct BurnConfirmed {
    pub nonce: u64,
    pub requester: Identity,
    pub amount: u64,
    pub btc_deposit_address: String,
    pub btc_txid: String,
    pub timestamp: i64,
    pub request_hash: [u8; 32],
}

impl MintRequestAdd {
    /// The event carries the values of `request`.
    pub open spec fn reports(&self, request: RequestView) -> bool {
        &&& self.nonce == request.nonce
        &&& self.requester == request.requester
        &&& self.amount == request.amount
        &&& self.btc_deposit_address@ == request.btc_deposit_address
        &&& self.btc_txid@ == request.btc_txid
        &&& self.timestamp == request.timestamp
        &&& self.request_hash@ == request.hash
    }
}

impl MintConfirmed {
    /// The event carries the values of `request`.
    pub open spec fn reports(&self, request: RequestView) -> bool {
        &&& self.nonce == request.nonce
        &&& self.requester == request.requester
        &&& self.amount == request.amount
        &&& self.btc_deposit_address@ == request.btc_deposit_address
        &&& self.btc_txid@ == request.btc_txid
        &&& self.timestamp == request.timestamp
        &&& self.request_hash@ == request.hash
    }
}

impl MintRejected {
    /// The event carries the values of `request`.
    pub open spec fn reports(&self, request: RequestView) -> bool {
        &&& self.nonce == request.nonce
        &&& self.requester == request.requester
        &&& self.amount == request.amount
        &&& self.btc_deposit_address@ == request.btc_deposit_address
        &&& self.btc_txid@ == request.btc_txid
        &&& self.timestamp == request.timestamp
        &&& self.request_hash@ == request.hash
    }
}

impl Burned {
    /// The event carries the values of `request`.
    pub open spec fn reports(&self, request: RequestView) -> bool {
        &&& self.nonce == request.nonce
        &&& self.requester == request.requester
        &&& self.amount == request.amount
        &&& self.btc_deposit_address@ == request.btc_deposit_address
        &&& self.timestamp == request.timestamp
        &&& self.request_hash@ == request.hash
    }
}

impl BurnConfirmed {
    /// The event carries the values of `request`.
    pub open spec fn reports(&self, request: RequestView) -> bool {
        &&& self.nonce == request.nonce
        &&& self.requester == request.requester
        &&& self.amount == request.amount
        &&& self.btc_deposit_address@ == request.btc_deposit_address
        &&& self.btc_txid@ == request.btc_txid
        &&& self.timestamp == request.timestamp
        &&& self.request_hash@ == request.hash
    }
}

} // verus!
