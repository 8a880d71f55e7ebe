//! What holds of every well-formed ledger, whatever was done to it.
use crate::factory::burn::{burn_overflows, burn_refusal, deposit_address_accepted};
use crate::factory::errors::FactoryError;
use crate::factory::ledger::LedgerView;
use crate::factory::settlement::{lemma_settled_keeps_seal, settled};
use crate::factory::state::{
    MerchantBtcDepositAddress, RequestStatus, RequestType, RequestView,
};
use crate::identity::Identity;
use vstd::prelude::*;

verus! {

/// Within a type, a request made later has a greater number than one
/// made earlier: numbers rise strictly and none is given twice.
pub proof fn lemma_nonces_strictly_increasing(
    ledger: LedgerView,
    request_type: RequestType,
    earlier: int,
    later: int,
)
    requires
        ledger.wf(),
        0 <= earlier < later < ledger.requests(request_type).len(),
    ensures
        ledger.requests(request_type)[earlier].nonce < ledger.requests(request_type)[later].nonce,
{
}

/// No operation takes a request away, gives a request another number
/// or lowers a counter.
pub proof fn lemma_step_keeps_numbering(before: LedgerView, after: LedgerView, request_type: RequestType)
    requires
        before.wf(),
        before.steps_to(after),
    ensures
        before.store.mint_request_counter <= after.store.mint_request_counter,
        before.store.burn_request_counter <= after.store.burn_request_counter,
        before.requests(request_type).len() <= after.requests(request_type).len(),
        forall|i: int|
            0 <= i < before.requests(request_type).len() ==> (#[trigger] after.requests(
                request_type,
            )[i]).nonce == before.requests(request_type)[i].nonce,
{
}

/// No operation changes a request that was approved or rejected.
pub proof fn lemma_step_keeps_settled_requests(
    before: LedgerView,
    after: LedgerView,
    request_type: RequestType,
    nonce: int,
)
    requires
        before.wf(),
        before.steps_to(after),
        0 <= nonce < before.requests(request_type).len(),
        before.requests(request_type)[nonce].status != RequestStatus::Pending,
    ensures
        after.requests(request_type)[nonce] == before.requests(request_type)[nonce],
{
}

/// No operation changes the hash of a request, nor any value that the
/// hash covers.
pub proof fn lemma_step_keeps_hashes(
    before: LedgerView,
    after: LedgerView,
    request_type: RequestType,
    nonce: int,
)
    requires
        before.wf(),
        after.wf(),
        before.steps_to(after),
        0 <= nonce < before.requests(request_type).len(),
    ensures
        after.requests(request_type)[nonce].hash == before.requests(request_type)[nonce].hash,
        after.requests(request_type)[nonce].digest() == before.requests(
            request_type,
        )[nonce].digest(),
{
}

/// A new burn request is numbered above every burn request made before
/// it, the counter then shows the number after it, and every earlier
/// request stays as it was.
pub proof fn lemma_new_burn_is_numbered_last(ledger: LedgerView, request: RequestView)
    requires
        ledger.wf(),
        request.nonce == ledger.store.burn_request_counter,
        ledger.store.burn_request_counter < u64::MAX,
    ensures
        ledger.with_new_burn(request).store.burn_request_counter == request.nonce + 1,
        ledger.with_new_burn(request).burn_requests.len() == ledger.burn_requests.len() + 1,
        ledger.with_new_burn(request).burn_requests[request.nonce as int] == request,
        ledger.with_new_burn(request).mint_requests == ledger.mint_requests,
        forall|i: int|
            0 <= i < ledger.burn_requests.len() ==> {
                &&& #[trigger] ledger.with_new_burn(request).burn_requests[i]
                    == ledger.burn_requests[i]
                &&& ledger.burn_requests[i].nonce < request.nonce
            },
{
}

/// A new mint request is numbered above every mint request made before
/// it, the counter then shows the number after it, and every earlier
/// request stays as it was.
pub proof fn lemma_new_mint_is_numbered_last(ledger: LedgerView, request: RequestView)
    requires
        ledger.wf(),
        request.nonce == ledger.store.mint_request_counter,
        ledger.store.mint_request_counter < u64::MAX,
    ensures
        ledger.with_new_mint(request).store.mint_request_counter == request.nonce + 1,
        ledger.with_new_mint(request).mint_requests.len() == ledger.mint_requests.len() + 1,
        ledger.with_new_mint(request).mint_requests[request.nonce as int] == request,
        ledger.with_new_mint(request).burn_requests == ledger.burn_requests,
        forall|i: int|
            0 <= i < ledger.mint_requests.len() ==> {
                &&& #[trigger] ledger.with_new_mint(request).mint_requests[i]
                    == ledger.mint_requests[i]
                &&& ledger.mint_requests[i].nonce < request.nonce
            },
{
}

/// Settling a request changes its status and transaction id and
/// nothing else: the counters, the number of every request and every
/// other request stay.
pub proof fn lemma_settlement_touches_one_request(
    ledger: LedgerView,
    request_type: RequestType,
    nonce: u64,
    status: RequestStatus,
    btc_txid: Seq<char>,
)
    requires
        ledger.wf(),
        nonce < ledger.requests(request_type).len(),
    ensures
        ({
            let after = ledger.with_settled(request_type, nonce, status, btc_txid);
            &&& after.store == ledger.store
            &&& after.mint_requests.len() == ledger.mint_requests.len()
            &&& after.burn_requests.len() == ledger.burn_requests.len()
            &&& after.requests(request_type)[nonce as int] == settled(
                ledger.requests(request_type)[nonce as int],
                status,
                btc_txid,
            )
            &&& forall|other: RequestType, i: int|
                0 <= i < ledger.requests(other).len() && (other != request_type || i != nonce)
                    ==> #[trigger] after.requests(other)[i] == ledger.requests(other)[i]
        }),
{
}

/// The hash kept with a request is the digest of the request as it now
/// stands.
pub proof fn lemma_stored_hash_is_recomputed(
    ledger: LedgerView,
    request_type: RequestType,
    nonce: u64,
)
    requires
        ledger.wf(),
        nonce < ledger.requests(request_type).len(),
    ensures
        ledger.requests(request_type)[nonce as int].hash == ledger.requests(
            request_type,
        )[nonce as int].digest(),
{
}

/// The hash computed when a request is settled is the one that was
/// stored when it was made: a burn may get any transaction id, a mint
/// keeps its own.
pub proof fn lemma_hash_survives_settlement(
    ledger: LedgerView,
    request_type: RequestType,
    nonce: u64,
    status: RequestStatus,
    btc_txid: Seq<char>,
)
    requires
        ledger.wf(),
        nonce < ledger.requests(request_type).len(),
        request_type == RequestType::Burn || btc_txid == ledger.requests(
            request_type,
        )[nonce as int].btc_txid,
    ensures
        ({
            let before = ledger.requests(request_type)[nonce as int];
            let after = ledger.with_settled(request_type, nonce, status, btc_txid).requests(
                request_type,
            )[nonce as int];
            &&& after.digest() == before.hash
            &&& after.hash == before.hash
        }),
{
    lemma_settled_keeps_seal(ledger.requests(request_type)[nonce as int], status, btc_txid);
}

/// A custodian who presents another hash than the one stored with a
/// pending request is refused for that reason.
pub proof fn lemma_mismatched_hash_is_refused(
    ledger: LedgerView,
    request_type: RequestType,
    nonce: u64,
    request_hash: Seq<u8>,
)
    requires
        ledger.wf(),
        nonce < ledger.requests(request_type).len(),
        ledger.requests(request_type)[nonce as int].status == RequestStatus::Pending,
        ledger.requests(request_type)[nonce as int].hash != request_hash,
    ensures
        ledger.settlement_refusal(request_type, true, nonce, request_hash) == Some(
            FactoryError::MismatchRequestHash,
        ),
{
}

/// A settlement goes through only for a custodian, on a request that
/// exists, is pending and carries the hash presented.
pub proof fn lemma_settlement_starts_from_pending(
    ledger: LedgerView,
    request_type: RequestType,
    is_custodian: bool,
    nonce: u64,
    request_hash: Seq<u8>,
)
    requires
        ledger.settlement_refusal(request_type, is_custodian, nonce, request_hash) is None,
    ensures
        is_custodian,
        nonce < ledger.requests(request_type).len(),
        ledger.requests(request_type)[nonce as int].status == RequestStatus::Pending,
        ledger.requests(request_type)[nonce as int].hash == request_hash,
{
}

/// A request that was approved or rejected stays so: a custodian who
/// tries to settle it is told that it is not pending, whatever hash
/// they present.
pub proof fn lemma_settled_request_is_final(
    ledger: LedgerView,
    request_type: RequestType,
    nonce: u64,
    request_hash: Seq<u8>,
)
    requires
        ledger.wf(),
        nonce < ledger.requests(request_type).len(),
        ledger.requests(request_type)[nonce as int].status != RequestStatus::Pending,
    ensures
        ledger.settlement_refusal(request_type, true, nonce, request_hash) == Some(
            FactoryError::NotPendingRequest,
        ),
{
}

/// After a request was settled, a second settlement of it by a
/// custodian is refused because the request is not pending.
pub proof fn lemma_second_settlement_is_refused(
    ledger: LedgerView,
    request_type: RequestType,
    nonce: u64,
    status: RequestStatus,
    btc_txid: Seq<char>,
    request_hash: Seq<u8>,
)
    requires
        ledger.wf(),
        nonce < ledger.requests(request_type).len(),
        status != RequestStatus::Pending,
    ensures
        ledger.with_settled(request_type, nonce, status, btc_txid).settlement_refusal(
            request_type,
            true,
            nonce,
            request_hash,
        ) == Some(FactoryError::NotPendingRequest),
{
}

/// Who is no custodian settles nothing.
pub proof fn lemma_only_custodians_settle(
    ledger: LedgerView,
    request_type: RequestType,
    nonce: u64,
    request_hash: Seq<u8>,
)
    ensures
        ledger.settlement_refusal(request_type, false, nonce, request_hash) == Some(
            FactoryError::NotCustodian,
        ),
{
}

/// A custodian who names a number under which nothing is kept is told
/// that the number is not valid.
pub proof fn lemma_unknown_nonce_is_refused(
    ledger: LedgerView,
    request_type: RequestType,
    nonce: u64,
    request_hash: Seq<u8>,
)
    requires
        nonce >= ledger.requests(request_type).len(),
    ensures
        ledger.settlement_refusal(request_type, true, nonce, request_hash) == Some(
            FactoryError::InvalidNonce,
        ),
{
}

/// A burn of nothing is refused for its amount, whatever the deposit
/// address and wherever the counter stands, so the call that makes the
/// request is open to it.
pub proof fn lemma_zero_amount_is_refused(
    counter: u64,
    record: Option<MerchantBtcDepositAddress>,
    requester: Identity,
)
    ensures
        burn_refusal(0, record, requester) == Some(FactoryError::InvalidAmount),
        !burn_overflows(counter, 0, record, requester),
{
}

/// A burn is refused when the requester has no deposit address, an
/// empty one, or one that belongs to somebody else, wherever the
/// counter stands; where the amount is not zero, it is refused for the
/// address.
pub proof fn lemma_unbound_address_is_refused(
    counter: u64,
    amount: u64,
    record: Option<MerchantBtcDepositAddress>,
    requester: Identity,
)
    requires
        !deposit_address_accepted(record, requester),
    ensures
        burn_refusal(amount, record, requester) is Some,
        amount > 0 ==> burn_refusal(amount, record, requester) == Some(
            FactoryError::InvalidBtcAddress,
        ),
        !burn_overflows(counter, amount, record, requester),
{
}

} // verus!
