//! The ledger of requests: the factory's record together with every
//! request ever made, each under its type and number.
use crate::factory::burn::{
    burn_handler, burn_overflows, burn_refusal, burn_request, deposit_address_accepted,
    registered_address, Burn, BurnOutcome, BurnParams, ConfirmBurnParams,
};
use crate::factory::errors::FactoryError;
use crate::factory::events::{BurnConfirmed, MintConfirmed, MintRejected, MintRequestAdd};
use crate::factory::mint::{
    check_custodian_address, custodian_address_accepted, mint_overflows, mint_refusal,
    MintAccounts, MintOrder, MintOutcome, MintParams,
};
use crate::factory::settlement::{
    check_record, lemma_settled_keeps_seal, settled, settlement_refusal,
};
use crate::factory::state::{
    FactoryStore, MerchantBtcDepositAddress, RequestAccount, RequestStatus, RequestType,
    RequestView,
};
use crate::identity::Identity;
use crate::members::{MembersStore, Role};
use crate::token::{Mint, TransferChecked};
use vstd::prelude::*;

verus! {

/// The factory's record and all requests, in the order of their numbers.
///
/// The ledger takes nothing back. Where a request must not stand
/// because a later step of its operation failed, keep a copy from before
/// the operation and go on with that.
#[derive(Clone, Debug, PartialEq, Eq)]
pub struct RequestLedger {
    store: FactoryStore,
    mint_requests: Vec<RequestAccount>,
    burn_requests: Vec<RequestAccount>,
}

/// The ledger as plain values.
pub struct LedgerView {
    pub store: FactoryStore,
    pub mint_requests: Seq<RequestView>,
    pub burn_requests: Seq<RequestView>,
}

/// The views of a list of requests.
pub open spec fn request_views(requests: Seq<RequestAccount>) -> Seq<RequestView> {
    Seq::new(requests.len(), |i: int| requests[i]@)
}

/// What holds of the request kept under `request_type` and `nonce`.
pub open spec fn request_in_place(request: RequestView, request_type: RequestType, nonce: int) -> bool {
    &&& request.request_type == request_type
    &&& request.nonce == nonce
    &&& request.amount > 0
    &&& request.btc_deposit_address.len() > 0
    &&& request.sealed()
    &&& request_type == RequestType::Burn ==> request.status != RequestStatus::Rejected
    &&& request_type == RequestType::Burn && request.status == RequestStatus::Pending
        ==> request.btc_txid.len() == 0
}

impl LedgerView {
    /// The requests of one type.
    pub open spec fn requests(self, request_type: RequestType) -> Seq<RequestView> {
        match request_type {
            RequestType::Mint => self.mint_requests,
            RequestType::Burn => self.burn_requests,
        }
    }

    /// Each counter is the number of requests of its type, and each
    /// request sits under its own number, sealed.
    pub open spec fn wf(self) -> bool {
        &&& self.store.mint_request_counter == self.mint_requests.len()
        &&& self.store.burn_request_counter == self.burn_requests.len()
        &&& forall|i: int|
            0 <= i < self.mint_requests.len() ==> request_in_place(
                #[trigger] self.mint_requests[i],
                RequestType::Mint,
                i,
            )
        &&& forall|i: int|
            0 <= i < self.burn_requests.len() ==> request_in_place(
                #[trigger] self.burn_requests[i],
                RequestType::Burn,
                i,
            )
    }

    /// The request kept under `request_type` and `nonce`, or `None`
    /// where nothing is kept under them.
    pub open spec fn found(self, request_type: RequestType, nonce: u64) -> Option<RequestView> {
        if nonce < self.requests(request_type).len() {
            Some(self.requests(request_type)[nonce as int])
        } else {
            None
        }
    }

    /// Why the settlement of the request `nonce` of `request_type` is
    /// refused, or `None`. A caller who is no custodian is refused
    /// first; then a number under which nothing is kept.
    pub open spec fn settlement_refusal(
        self,
        request_type: RequestType,
        is_custodian: bool,
        nonce: u64,
        request_hash: Seq<u8>,
    ) -> Option<FactoryError> {
        settlement_refusal(
            self.found(request_type, nonce),
            is_custodian,
            request_type,
            nonce,
            request_hash,
        )
    }

    /// The ledger with `request` in the place `nonce` of its type.
    pub open spec fn with_request(self, nonce: int, request: RequestView) -> LedgerView {
        match request.request_type {
            RequestType::Mint => LedgerView {
                mint_requests: self.mint_requests.update(nonce, request),
                ..self
            },
            RequestType::Burn => LedgerView {
                burn_requests: self.burn_requests.update(nonce, request),
                ..self
            },
        }
    }

    /// The ledger with one more mint request.
    pub open spec fn with_new_mint(self, request: RequestView) -> LedgerView {
        LedgerView {
            store: FactoryStore {
                mint_request_counter: (self.store.mint_request_counter + 1) as u64,
                ..self.store
            },
            mint_requests: self.mint_requests.push(request),
            ..self
        }
    }

    /// The ledger once the request `nonce` of `request_type` is settled
    /// with `status`, its transaction id then being `btc_txid`.
    pub open spec fn with_settled(
        self,
        request_type: RequestType,
        nonce: u64,
        status: RequestStatus,
        btc_txid: Seq<char>,
    ) -> LedgerView
        recommends
            nonce < self.requests(request_type).len(),
    {
        self.with_request(
            nonce as int,
            settled(self.requests(request_type)[nonce as int], status, btc_txid),
        )
    }

    /// `after` is this ledger with the pending request `nonce` of
    /// `request_type` settled.
    pub open spec fn settles(self, after: LedgerView, request_type: RequestType, nonce: u64) -> bool {
        &&& nonce < self.requests(request_type).len()
        &&& nonce < after.requests(request_type).len()
        &&& self.requests(request_type)[nonce as int].status == RequestStatus::Pending
        &&& after.requests(request_type)[nonce as int].status != RequestStatus::Pending
        &&& after == self.with_settled(
            request_type,
            nonce,
            after.requests(request_type)[nonce as int].status,
            after.requests(request_type)[nonce as int].btc_txid,
        )
    }

    /// What one operation can do to the ledger: nothing, append one
    /// request under the next number of its type, or settle one pending
    /// request.
    pub open spec fn steps_to(self, after: LedgerView) -> bool {
        ||| after == self
        ||| {
            &&& self.store.burn_request_counter < u64::MAX
            &&& after.burn_requests.len() > 0
            &&& after == self.with_new_burn(after.burn_requests.last())
        }
        ||| {
            &&& self.store.mint_request_counter < u64::MAX
            &&& after.mint_requests.len() > 0
            &&& after == self.with_new_mint(after.mint_requests.last())
        }
        ||| exists|request_type: RequestType, nonce: u64|
            self.settles(after, request_type, nonce)
    }

    /// The ledger with one more burn request.
    pub open spec fn with_new_burn(self, request: RequestView) -> LedgerView {
        LedgerView {
            store: FactoryStore {
                burn_request_counter: (self.store.burn_request_counter + 1) as u64,
                ..self.store
            },
            burn_requests: self.burn_requests.push(request),
            ..self
        }
    }
}

impl View for RequestLedger {
    type V = LedgerView;

    closed spec fn view(&self) -> LedgerView {
        LedgerView {
            store: self.store,
            mint_requests: request_views(self.mint_requests@),
            burn_requests: request_views(self.burn_requests@),
        }
    }
}

/// What a burn request needs besides the ledger: who asks, the deposit
/// address found for them, and the balances between which the tokens
/// move.
#[derive(Clone, Debug, PartialEq, Eq)]
pub struct BurnAccounts {
    pub payer: Identity,
    pub request_account_bump: u8,
    pub merchant_btc_address: Option<MerchantBtcDepositAddress>,
    pub token_mint: Mint,
    pub token_account: Identity,
    pub controller_token_account: Identity,
}

impl BurnAccounts {
    /// The burn request that these accounts lead to, under `nonce`.
    pub open spec fn request(self, nonce: u64, amount: u64, unix_timestamp: i64) -> RequestView {
        burn_request(
            nonce,
            self.payer,
            amount,
            registered_address(self.merchant_btc_address),
            unix_timestamp,
            self.request_account_bump,
        )
    }
}

impl RequestLedger {
    /// See [`LedgerView::wf`].
    pub open spec fn wf(&self) -> bool {
        self@.wf()
    }

    /// A ledger without requests, for the factory that works with
    /// `controller`.
    pub fn new(controller: Identity, bump: u8) -> (ledger: RequestLedger)
        ensures
            ledger.wf(),
            ledger@ == (LedgerView {
                store: FactoryStore {
                    controller,
                    mint_request_counter: 0,
                    burn_request_counter: 0,
                    bump,
                },
                mint_requests: Seq::<RequestView>::empty(),
                burn_requests: Seq::<RequestView>::empty(),
            }),
    {
        let ledger = RequestLedger {
            store: FactoryStore {
                controller,
                mint_request_counter: 0,
                burn_request_counter: 0,
                bump,
            },
            mint_requests: Vec::new(),
            burn_requests: Vec::new(),
        };
        assert(ledger@.mint_requests =~= Seq::<RequestView>::empty());
        assert(ledger@.burn_requests =~= Seq::<RequestView>::empty());
        ledger
    }

    /// The factory's record.
    pub fn factory_store(&self) -> (store: FactoryStore)
        ensures
            store == self@.store,
    {
        self.store
    }

    /// The request kept under `request_type` and `nonce`, if there is
    /// one.
    pub fn request(&self, request_type: RequestType, nonce: u64) -> (found: Option<&RequestAccount>)
        ensures
            match found {
                Some(request) => nonce < self@.requests(request_type).len() && request@
                    == self@.requests(request_type)[nonce as int],
                None => nonce >= self@.requests(request_type).len(),
            },
    {
        let requests = match request_type {
            RequestType::Mint => &self.mint_requests,
            RequestType::Burn => &self.burn_requests,
        };
        if nonce < requests.len() as u64 {
            Some(&requests[nonce as usize])
        } else {
            None
        }
    }

    /// Makes a burn request for `accounts.payer`, at `unix_timestamp`.
    ///
    /// The request is decided by [`burn_handler`] on the ledger's
    /// record. A refused request leaves the ledger as it was. A request
    /// that is taken is appended under the next burn number, and no
    /// request that was there is touched; the result holds a copy of
    /// the new request and says what is left to do. Should one of those steps fail, the
    /// caller must go on with the ledger as it was before this call.
    ///
    /// A request that would be taken must find a number: see
    /// [`burn_overflows`]. A counter below `u64::MAX` is enough.
    pub fn create_burn_request(
        &mut self,
        accounts: BurnAccounts,
        amount: u64,
        unix_timestamp: i64,
    ) -> (res: Result<BurnOutcome, FactoryError>)
        requires
            old(self).wf(),
            !burn_overflows(
                old(self)@.store.burn_request_counter,
                amount,
                accounts.merchant_btc_address,
                accounts.payer,
            ),
        ensures
            final(self).wf(),
            old(self)@.steps_to(final(self)@),
            amount == 0 ==> (res matches Err(e) && e == FactoryError::InvalidAmount),
            amount != 0 && !deposit_address_accepted(accounts.merchant_btc_address, accounts.payer)
                ==> (res matches Err(e) && e == FactoryError::InvalidBtcAddress),
            res is Err ==> final(self)@ == old(self)@,
            ({
                let request = accounts.request(
                    old(self)@.store.burn_request_counter,
                    amount,
                    unix_timestamp,
                );
                match res {
                    Ok(outcome) => {
                        &&& burn_refusal(amount, accounts.merchant_btc_address, accounts.payer)
                            is None
                        &&& final(self)@ == old(self)@.with_new_burn(request)
                        &&& outcome.request@ == request
                        &&& outcome.transfer == (TransferChecked {
                            from: accounts.token_account,
                            mint: accounts.token_mint.address,
                            to: accounts.controller_token_account,
                            authority: accounts.payer,
                            amount,
                            decimals: accounts.token_mint.decimals,
                        })
                        &&& outcome.controller == old(self)@.store.controller
                        &&& outcome.burn.amount == amount
                        &&& outcome.event.reports(request)
                    },
                    Err(e) => {
                        &&& burn_refusal(amount, accounts.merchant_btc_address, accounts.payer)
                            == Some(e)
                        &&& final(self)@ == old(self)@
                    },
                }
            }),
    {
        let mut ctx = Burn {
            payer: accounts.payer,
            factory_store: self.store,
            request_account_bump: accounts.request_account_bump,
            merchant_btc_address: accounts.merchant_btc_address,
            token_mint: accounts.token_mint,
            token_account: accounts.token_account,
            controller_token_account: accounts.controller_token_account,
        };
        let params = BurnParams { amount };
        match burn_handler(&mut ctx, &params, unix_timestamp) {
            Ok(outcome) => {
                self.store = ctx.factory_store;
                self.burn_requests.push(outcome.request.duplicate());
                proof {
                    assert(self@.burn_requests =~= old(self)@.burn_requests.push(
                        outcome.request@,
                    ));
                    assert(self@.burn_requests.last() == outcome.request@);
                }
                Ok(outcome)
            },
            Err(e) => Err(e),
        }
    }

    /// Settles the request `nonce` of `request_type` with `status` and
    /// hands out a copy of the settled request. A burn gets the
    /// transaction id given; a mint keeps its own.
    fn settle(
        &mut self,
        request_type: RequestType,
        is_custodian: bool,
        nonce: u64,
        request_hash: &[u8; 32],
        status: RequestStatus,
        btc_txid: Option<&String>,
    ) -> (res: Result<RequestAccount, FactoryError>)
        requires
            old(self).wf(),
            status != RequestStatus::Pending,
            request_type == RequestType::Burn ==> status == RequestStatus::Approved,
            request_type == RequestType::Mint ==> btc_txid is None,
        ensures
            final(self).wf(),
            old(self)@.steps_to(final(self)@),
            match res {
                Ok(request) => {
                    &&& old(self)@.settlement_refusal(
                        request_type,
                        is_custodian,
                        nonce,
                        request_hash@,
                    ) is None
                    &&& final(self)@ == old(self)@.with_settled(
                        request_type,
                        nonce,
                        status,
                        match btc_txid {
                            Some(given) => given@,
                            None => old(self)@.requests(request_type)[nonce as int].btc_txid,
                        },
                    )
                    &&& request@ == final(self)@.requests(request_type)[nonce as int]
                },
                Err(e) => {
                    &&& old(self)@.settlement_refusal(
                        request_type,
                        is_custodian,
                        nonce,
                        request_hash@,
                    ) == Some(e)
                    &&& final(self)@ == old(self)@
                },
            },
    {
        if !is_custodian {
            return Err(FactoryError::NotCustodian);
        }
        let count = match request_type {
            RequestType::Mint => self.mint_requests.len(),
            RequestType::Burn => self.burn_requests.len(),
        };
        if nonce >= count as u64 {
            return Err(FactoryError::InvalidNonce);
        }
        let place = nonce as usize;
        let ghost before = self@.requests(request_type)[nonce as int];
        let ghost txid = match btc_txid {
            Some(given) => given@,
            None => before.btc_txid,
        };
        proof {
            lemma_settled_keeps_seal(before, status, txid);
        }
        let settled_request = match request_type {
            RequestType::Mint => {
                match check_record(&self.mint_requests[place], request_type, nonce, request_hash) {
                    Ok(_) => {},
                    Err(e) => {
                        return Err(e);
                    },
                }
                self.mint_requests[place].status = status;
                proof {
                    assert(self@.mint_requests =~= old(self)@.mint_requests.update(
                        nonce as int,
                        settled(before, status, txid),
                    ));
                    assert(self@.burn_requests =~= old(self)@.burn_requests);
                    assert(old(self)@.settles(self@, request_type, nonce));
                }
                self.mint_requests[place].duplicate()
            },
            RequestType::Burn => {
                match check_record(&self.burn_requests[place], request_type, nonce, request_hash) {
                    Ok(_) => {},
                    Err(e) => {
                        return Err(e);
                    },
                }
                match btc_txid {
                    Some(given) => {
                        self.burn_requests[place].btc_txid = given.clone();
                    },
                    None => {},
                }
                self.burn_requests[place].status = status;
                proof {
                    assert(self@.burn_requests =~= old(self)@.burn_requests.update(
                        nonce as int,
                        settled(before, status, txid),
                    ));
                    assert(self@.mint_requests =~= old(self)@.mint_requests);
                    assert(old(self)@.settles(self@, request_type, nonce));
                }
                self.burn_requests[place].duplicate()
            },
        };
        Ok(settled_request)
    }

    /// Confirms the burn request `params.nonce` for `custodian`.
    ///
    /// A confirmation that [`LedgerView::settlement_refusal`] refuses
    /// leaves the ledger as it was. Otherwise the request is approved
    /// and gets the transaction id; no other request changes.
    pub fn confirm_burn_request(
        &mut self,
        custodian: &Identity,
        members: &MembersStore,
        params: &ConfirmBurnParams,
    ) -> (res: Result<BurnConfirmed, FactoryError>)
        requires
            old(self).wf(),
        ensures
            final(self).wf(),
            old(self)@.steps_to(final(self)@),
            match res {
                Ok(event) => {
                    &&& old(self)@.settlement_refusal(
                        RequestType::Burn,
                        members.spec_has_role(*custodian, Role::Custodian),
                        params.nonce,
                        params.request_hash@,
                    ) is None
                    &&& final(self)@ == old(self)@.with_settled(
                        RequestType::Burn,
                        params.nonce,
                        RequestStatus::Approved,
                        params.btc_txid@,
                    )
                    &&& event.reports(final(self)@.burn_requests[params.nonce as int])
                },
                Err(e) => {
                    &&& old(self)@.settlement_refusal(
                        RequestType::Burn,
                        members.spec_has_role(*custodian, Role::Custodian),
                        params.nonce,
                        params.request_hash@,
                    ) == Some(e)
                    &&& final(self)@ == old(self)@
                },
            },
    {
        let is_custodian = members.is_custodian(custodian);
        match self.settle(
            RequestType::Burn,
            is_custodian,
            params.nonce,
            &params.request_hash,
            RequestStatus::Approved,
            Some(&params.btc_txid),
        ) {
            Ok(request) => Ok(
                BurnConfirmed {
                    nonce: request.nonce,
                    requester: request.requester,
                    amount: request.amount,
                    btc_deposit_address: request.btc_deposit_address,
                    btc_txid: request.btc_txid,
                    timestamp: request.timestamp,
                    request_hash: request.hash,
                },
            ),
            Err(e) => Err(e),
        }
    }

    /// Makes a mint request for `accounts.payer`, at `unix_timestamp`.
    ///
    /// A request that [`mint_refusal`] refuses leaves the ledger as it
    /// was. A request that is taken is appended under the next mint
    /// number, pending and sealed.
    ///
    /// A request that would be taken must find a number: see
    /// [`mint_overflows`]. A counter below `u64::MAX` is enough.
    pub fn add_mint_request(
        &mut self,
        accounts: MintAccounts,
        params: MintParams,
        unix_timestamp: i64,
    ) -> (res: Result<MintRequestAdd, FactoryError>)
        requires
            old(self).wf(),
            !mint_overflows(
                old(self)@.store.mint_request_counter,
                params.amount,
                accounts.custodian_btc_address,
                accounts.payer,
            ),
        ensures
            final(self).wf(),
            old(self)@.steps_to(final(self)@),
            params.amount == 0 ==> (res matches Err(e) && e == FactoryError::InvalidAmount),
            params.amount != 0 && !custodian_address_accepted(
                accounts.custodian_btc_address,
                accounts.payer,
            ) ==> (res matches Err(e) && e == FactoryError::InvalidBtcAddress),
            res is Err ==> final(self)@ == old(self)@,
            ({
                let request = accounts.request(
                    old(self)@.store.mint_request_counter,
                    params.amount,
                    params.btc_txid@,
                    unix_timestamp,
                );
                match res {
                    Ok(event) => {
                        &&& mint_refusal(
                            params.amount,
                            accounts.custodian_btc_address,
                            accounts.payer,
                        ) is None
                        &&& final(self)@ == old(self)@.with_new_mint(request)
                        &&& event.reports(request)
                    },
                    Err(e) => {
                        &&& mint_refusal(
                            params.amount,
                            accounts.custodian_btc_address,
                            accounts.payer,
                        ) == Some(e)
                        &&& final(self)@ == old(self)@
                    },
                }
            }),
    {
        if params.amount == 0 {
            return Err(FactoryError::InvalidAmount);
        }
        if !check_custodian_address(&accounts.custodian_btc_address, &accounts.payer) {
            return Err(FactoryError::InvalidBtcAddress);
        }
        let btc_deposit_address = match &accounts.custodian_btc_address {
            Some(found) => found.btc_address.clone(),
            None => String::new(),
        };
        let request = RequestAccount::open(
            RequestType::Mint,
            self.store.mint_request_counter,
            accounts.payer,
            params.amount,
            btc_deposit_address.clone(),
            params.btc_txid.clone(),
            unix_timestamp,
            accounts.request_account_bump,
        );
        let event = MintRequestAdd {
            nonce: request.nonce,
            requester: request.requester,
            amount: request.amount,
            btc_deposit_address,
            btc_txid: params.btc_txid,
            timestamp: request.timestamp,
            request_hash: request.hash,
        };
        self.store.mint_request_counter = self.store.mint_request_counter + 1;
        self.mint_requests.push(request);
        proof {
            assert(self@.mint_requests =~= old(self)@.mint_requests.push(request@));
            assert(self@.burn_requests =~= old(self)@.burn_requests);
            assert(self@.mint_requests.last() == request@);
        }
        Ok(event)
    }

    /// Approves the mint request `nonce` for `custodian`.
    ///
    /// An approval that [`LedgerView::settlement_refusal`] refuses
    /// leaves the ledger as it was. Otherwise the request is approved
    /// and nothing else changes; the result says what is left to do:
    /// the minting of the request's amount for its requester by the
    /// factory's controller.
    pub fn confirm_mint_request(
        &mut self,
        custodian: &Identity,
        members: &MembersStore,
        nonce: u64,
        request_hash: &[u8; 32],
    ) -> (res: Result<MintOutcome, FactoryError>)
        requires
            old(self).wf(),
        ensures
            final(self).wf(),
            old(self)@.steps_to(final(self)@),
            match res {
                Ok(outcome) => {
                    &&& old(self)@.settlement_refusal(
                        RequestType::Mint,
                        members.spec_has_role(*custodian, Role::Custodian),
                        nonce,
                        request_hash@,
                    ) is None
                    &&& final(self)@ == old(self)@.with_settled(
                        RequestType::Mint,
                        nonce,
                        RequestStatus::Approved,
                        old(self)@.mint_requests[nonce as int].btc_txid,
                    )
                    &&& outcome.controller == old(self)@.store.controller
                    &&& outcome.mint == (MintOrder {
                        recipient: old(self)@.mint_requests[nonce as int].requester,
                        amount: old(self)@.mint_requests[nonce as int].amount,
                    })
                    &&& outcome.event.reports(final(self)@.mint_requests[nonce as int])
                },
                Err(e) => {
                    &&& old(self)@.settlement_refusal(
                        RequestType::Mint,
                        members.spec_has_role(*custodian, Role::Custodian),
                        nonce,
                        request_hash@,
                    ) == Some(e)
                    &&& final(self)@ == old(self)@
                },
            },
    {
        let is_custodian = members.is_custodian(custodian);
        match self.settle(
            RequestType::Mint,
            is_custodian,
            nonce,
            request_hash,
            RequestStatus::Approved,
            None,
        ) {
            Ok(request) => Ok(
                MintOutcome {
                    controller: self.store.controller,
                    mint: MintOrder { recipient: request.requester, amount: request.amount },
                    event: MintConfirmed {
                        nonce: request.nonce,
                        requester: request.requester,
                        amount: request.amount,
                        btc_deposit_address: request.btc_deposit_address,
                        btc_txid: request.btc_txid,
                        timestamp: request.timestamp,
                        request_hash: request.hash,
                    },
                },
            ),
            Err(e) => Err(e),
        }
    }

    /// Rejects the mint request `nonce` for `custodian`.
    ///
    /// A rejection that [`LedgerView::settlement_refusal`] refuses
    /// leaves the ledger as it was. Otherwise the request is rejected;
    /// nothing else changes.
    pub fn reject_mint_request(
        &mut self,
        custodian: &Identity,
        members: &MembersStore,
        nonce: u64,
        request_hash: &[u8; 32],
    ) -> (res: Result<MintRejected, FactoryError>)
        requires
            old(self).wf(),
        ensures
            final(self).wf(),
            old(self)@.steps_to(final(self)@),
            match res {
                Ok(event) => {
                    &&& old(self)@.settlement_refusal(
                        RequestType::Mint,
                        members.spec_has_role(*custodian, Role::Custodian),
                        nonce,
                        request_hash@,
                    ) is None
                    &&& final(self)@ == old(self)@.with_settled(
                        RequestType::Mint,
                        nonce,
                        RequestStatus::Rejected,
                        old(self)@.mint_requests[nonce as int].btc_txid,
                    )
                    &&& event.reports(final(self)@.mint_requests[nonce as int])
                },
                Err(e) => {
                    &&& old(self)@.settlement_refusal(
                        RequestType::Mint,
                        members.spec_has_role(*custodian, Role::Custodian),
                        nonce,
                        request_hash@,
                    ) == Some(e)
                    &&& final(self)@ == old(self)@
                },
            },
    {
        let is_custodian = members.is_custodian(custodian);
        match self.settle(
            RequestType::Mint,
            is_custodian,
            nonce,
            request_hash,
            RequestStatus::Rejected,
            None,
        ) {
            Ok(request) => Ok(
                MintRejected {
                    nonce: request.nonce,
                    requester: request.requester,
                    amount: request.amount,
                    btc_deposit_address: request.btc_deposit_address,
                    btc_txid: request.btc_txid,
                    timestamp: request.timestamp,
                    request_hash: request.hash,
                },
            ),
            Err(e) => Err(e),
        }
    }
}

} // verus!
