//! The factory's records: its counters, the requests, and the deposit
//! addresses it reads.
use crate::digest::{sha256, sha256_digest};
use crate::encoding::{encoded_i64, encoded_text, put_bytes, put_i64, put_text, put_u64};
use crate::identity::{same_bytes, Identity};
use vstd::bytes::spec_u64_to_le_bytes;
use vstd::prelude::*;

verus! {

/// What a request asks for.
#[derive(Clone, Copy, Debug, PartialEq, Eq, Structural)]
pub enum RequestType {
    Mint,
    Burn,
}

/// Where a request stands. `Approved` and `Rejected` are final.
#[derive(Clone, Copy, Debug, PartialEq, Eq, Structural)]
pub enum RequestStatus {
    Pending,
    Approved,
    Rejected,
}

/// The one record of the factory. Each counter is the number that the
/// next request of its type will get.
#[derive(Clone, Copy, Debug, PartialEq, Eq)]
pub struct FactoryStore {
    pub controller: Identity,
    pub mint_request_counter: u64,
    pub burn_request_counter: u64,
    pub bump: u8,
}

/// The bitcoin address that a merchant wants redemptions sent to.
#[derive(Clone, Debug, PartialEq, Eq)]
pub struct MerchantBtcDepositAddress {
    pub merchant: Identity,
    pub btc_address: String,
    pub bump: u8,
}

/// The bitcoin address on which the custodian takes a merchant's
/// deposits.
#[derive(Clone, Debug, PartialEq, Eq)]
pub struct CustodianBtcDepositAddress {
    pub merchant: Identity,
    pub btc_address: String,
    pub bump: u8,
}

/// One request, as it is kept for good.
#[derive(Clone, Debug, PartialEq, Eq)]
pub struct RequestAccount {
    pub request_type: RequestType,
    pub nonce: u64,
    pub requester: Identity,
    pub amount: u64,
    pub btc_deposit_address: String,
    pub btc_txid: String,
    pub timestamp: i64,
    pub status: RequestStatus,
    pub hash: [u8; 32],
    pub bump: u8,
}

/// A request with its texts as sequences of characters and its hash as
/// a sequence of bytes.
pub struct RequestView {
    pub request_type: RequestType,
    pub nonce: u64,
    pub requester: Identity,
    pub amount: u64,
    pub btc_deposit_address: Seq<char>,
    pub btc_txid: Seq<char>,
    pub timestamp: i64,
    pub status: RequestStatus,
    pub hash: Seq<u8>,
    pub bump: u8,
}

impl View for RequestAccount {
    type V = RequestView;

    open spec fn view(&self) -> RequestView {
        RequestView {
            request_type: self.request_type,
            nonce: self.nonce,
            requester: self.requester,
            amount: self.amount,
            btc_deposit_address: self.btc_deposit_address@,
            btc_txid: self.btc_txid@,
            timestamp: self.timestamp,
            status: self.status,
            hash: self.hash@,
            bump: self.bump,
        }
    }
}

/// A deposit address counts for `requester` when its record belongs to
/// them and the address is not empty.
pub open spec fn address_accepted(merchant: Identity, address: Seq<char>, requester: Identity) -> bool {
    merchant == requester && address.len() > 0
}

/// The byte that stands for a request type.
pub open spec fn type_tag(request_type: RequestType) -> u8 {
    match request_type {
        RequestType::Mint => 0u8,
        RequestType::Burn => 1u8,
    }
}

impl RequestView {
    /// The transaction id that the hash covers. A burn request is
    /// created without one and gets it when it is confirmed, so for a
    /// burn the hash covers the empty text.
    pub open spec fn committed_txid(self) -> Seq<char> {
        match self.request_type {
            RequestType::Mint => self.btc_txid,
            RequestType::Burn => Seq::<char>::empty(),
        }
    }

    /// The bytes that are hashed: every value of the request that never
    /// changes, each in a fixed place or behind its length.
    pub open spec fn preimage(self) -> Seq<u8> {
        seq![type_tag(self.request_type)] + spec_u64_to_le_bytes(self.nonce) + self.requester@
            + spec_u64_to_le_bytes(self.amount) + encoded_text(self.btc_deposit_address)
            + encoded_text(self.committed_txid()) + encoded_i64(self.timestamp) + seq![self.bump]
    }

    /// The hash of the request: the digest of its preimage.
    pub open spec fn digest(self) -> Seq<u8> {
        sha256(self.preimage())
    }

    /// Whether the request carries its own hash.
    pub open spec fn sealed(self) -> bool {
        self.hash == self.digest()
    }

    /// Whether two requests agree on every value that the hash covers.
    pub open spec fn same_terms(self, other: RequestView) -> bool {
        &&& self.request_type == other.request_type
        &&& self.nonce == other.nonce
        &&& self.requester == other.requester
        &&& self.amount == other.amount
        &&& self.btc_deposit_address == other.btc_deposit_address
        &&& self.committed_txid() == other.committed_txid()
        &&& self.timestamp == other.timestamp
        &&& self.bump == other.bump
    }
}

/// A request as it is when it has just been made: pending, and sealed
/// with the digest of the values given.
pub open spec fn new_request(
    request_type: RequestType,
    nonce: u64,
    requester: Identity,
    amount: u64,
    btc_deposit_address: Seq<char>,
    btc_txid: Seq<char>,
    timestamp: i64,
    bump: u8,
) -> RequestView {
    let draft = RequestView {
        request_type,
        nonce,
        requester,
        amount,
        btc_deposit_address,
        btc_txid,
        timestamp,
        status: RequestStatus::Pending,
        hash: Seq::<u8>::empty(),
        bump,
    };
    RequestView { hash: draft.digest(), ..draft }
}

/// Requests that agree on what the hash covers have the same digest:
/// the status and, for a burn, the transaction id are not hashed.
pub proof fn lemma_digest_ignores_settlement(a: RequestView, b: RequestView)
    requires
        a.same_terms(b),
    ensures
        a.preimage() == b.preimage(),
        a.digest() == b.digest(),
{
}

impl RequestAccount {
    /// Makes a request: pending, and sealed with its hash.
    pub fn open(
        request_type: RequestType,
        nonce: u64,
        requester: Identity,
        amount: u64,
        btc_deposit_address: String,
        btc_txid: String,
        timestamp: i64,
        bump: u8,
    ) -> (request: RequestAccount)
        ensures
            request@ == new_request(
                request_type,
                nonce,
                requester,
                amount,
                btc_deposit_address@,
                btc_txid@,
                timestamp,
                bump,
            ),
            request@.sealed(),
    {
        let mut request = RequestAccount {
            request_type,
            nonce,
            requester,
            amount,
            btc_deposit_address,
            btc_txid,
            timestamp,
            status: RequestStatus::Pending,
            hash: [0u8; 32],
            bump,
        };
        let hash = request.calculate_hash();
        proof {
            lemma_digest_ignores_settlement(
                request@,
                new_request(
                    request_type,
                    nonce,
                    requester,
                    amount,
                    btc_deposit_address@,
                    btc_txid@,
                    timestamp,
                    bump,
                ),
            );
            lemma_digest_ignores_settlement(
                request@,
                RequestView {
                    request_type,
                    nonce,
                    requester,
                    amount,
                    btc_deposit_address: btc_deposit_address@,
                    btc_txid: btc_txid@,
                    timestamp,
                    status: RequestStatus::Pending,
                    hash: Seq::<u8>::empty(),
                    bump,
                },
            );
        }
        request.hash = hash;
        request
    }

    /// A copy of the request.
    pub fn duplicate(&self) -> (copy: RequestAccount)
        ensures
            copy == *self,
    {
        RequestAccount {
            request_type: self.request_type,
            nonce: self.nonce,
            requester: self.requester,
            amount: self.amount,
            btc_deposit_address: self.btc_deposit_address.clone(),
            btc_txid: self.btc_txid.clone(),
            timestamp: self.timestamp,
            status: self.status,
            hash: self.hash,
            bump: self.bump,
        }
    }

    /// The bytes that are hashed.
    pub fn preimage(&self) -> (bytes: Vec<u8>)
        ensures
            bytes@ == self@.preimage(),
    {
        let mut bytes: Vec<u8> = Vec::new();
        match self.request_type {
            RequestType::Mint => bytes.push(0u8),
            RequestType::Burn => bytes.push(1u8),
        }
        put_u64(&mut bytes, self.nonce);
        put_bytes(&mut bytes, self.requester.bytes.as_slice());
        put_u64(&mut bytes, self.amount);
        put_text(&mut bytes, self.btc_deposit_address.as_str());
        match self.request_type {
            RequestType::Mint => put_text(&mut bytes, self.btc_txid.as_str()),
            RequestType::Burn => {
                let none = String::new();
                put_text(&mut bytes, none.as_str());
            },
        }
        put_i64(&mut bytes, self.timestamp);
        bytes.push(self.bump);
        assert(bytes@ =~= self@.preimage());
        bytes
    }

    /// Computes the hash that the request should carry.
    pub fn calculate_hash(&self) -> (hash: [u8; 32])
        ensures
            hash@ == self@.digest(),
    {
        let bytes = self.preimage();
        sha256_digest(bytes.as_slice())
    }

    /// Computes the hash anew and compares it with the one stored.
    pub fn verify_hash(&self) -> (intact: bool)
        ensures
            intact == self@.sealed(),
    {
        let hash = self.calculate_hash();
        same_bytes(&self.hash, &hash)
    }
}

} // verus!
