//! Settling a request: a custodian approves or rejects it, once.
use crate::factory::errors::FactoryError;
use crate::factory::state::{
    lemma_digest_ignores_settlement, RequestAccount, RequestStatus, RequestType, RequestView,
};
use crate::identity::same_bytes;
use vstd::prelude::*;

verus! {

/// Why a record cannot be settled, or `None` if it can. The checks come
/// in this order: the request is of the expected type, it carries the
/// number asked for, it is still pending, and it carries the hash
/// presented.
pub open spec fn record_refusal(
    request: RequestView,
    request_type: RequestType,
    nonce: u64,
    request_hash: Seq<u8>,
) -> Option<FactoryError> {
    if request.request_type != request_type {
        Some(FactoryError::InvalidRequestType)
    } else if request.nonce != nonce {
        Some(FactoryError::InvalidNonce)
    } else if request.status != RequestStatus::Pending {
        Some(FactoryError::NotPendingRequest)
    } else if request.hash != request_hash {
        Some(FactoryError::MismatchRequestHash)
    } else {
        None
    }
}

/// Why a settlement is refused, or `None` if it goes through. A caller
/// who is no custodian is refused first. Then `found` is looked at, the
/// record kept under the number asked for: where nothing is kept the
/// number is not valid, and a record is checked as [`record_refusal`]
/// says.
pub open spec fn settlement_refusal(
    found: Option<RequestView>,
    is_custodian: bool,
    request_type: RequestType,
    nonce: u64,
    request_hash: Seq<u8>,
) -> Option<FactoryError> {
    if !is_custodian {
        Some(FactoryError::NotCustodian)
    } else {
        match found {
            None => Some(FactoryError::InvalidNonce),
            Some(request) => record_refusal(request, request_type, nonce, request_hash),
        }
    }
}

/// The view of a record that may be missing.
pub open spec fn kept_view(kept: Option<RequestAccount>) -> Option<RequestView> {
    match kept {
        Some(request) => Some(request@),
        None => None,
    }
}

/// Makes the checks of [`record_refusal`].
pub fn check_record(
    request: &RequestAccount,
    request_type: RequestType,
    nonce: u64,
    request_hash: &[u8; 32],
) -> (res: Result<(), FactoryError>)
    ensures
        match res {
            Ok(_) => record_refusal(request@, request_type, nonce, request_hash@) is None,
            Err(e) => record_refusal(request@, request_type, nonce, request_hash@) == Some(e),
        },
{
    if request.request_type != request_type {
        return Err(FactoryError::InvalidRequestType);
    }
    if request.nonce != nonce {
        return Err(FactoryError::InvalidNonce);
    }
    if request.status != RequestStatus::Pending {
        return Err(FactoryError::NotPendingRequest);
    }
    if !same_bytes(&request.hash, request_hash) {
        return Err(FactoryError::MismatchRequestHash);
    }
    Ok(())
}

/// The request once it is settled with `status`, its transaction id
/// then being `btc_txid`.
pub open spec fn settled(request: RequestView, status: RequestStatus, btc_txid: Seq<char>) -> RequestView {
    RequestView { btc_txid, status, ..request }
}

/// A sealed request stays sealed when it is settled, as long as the
/// transaction id that its hash covers stays: the status is not hashed,
/// and neither is the transaction id of a burn.
pub proof fn lemma_settled_keeps_seal(request: RequestView, status: RequestStatus, btc_txid: Seq<char>)
    requires
        request.sealed(),
        request.request_type == RequestType::Burn || btc_txid == request.btc_txid,
    ensures
        settled(request, status, btc_txid).sealed(),
        settled(request, status, btc_txid).digest() == request.digest(),
{
    lemma_digest_ignores_settlement(request, settled(request, status, btc_txid));
}

/// A request that is no longer pending cannot be settled, whoever the
/// custodian and whatever the hash presented.
pub proof fn lemma_settled_is_final(
    request: RequestView,
    request_type: RequestType,
    nonce: u64,
    request_hash: Seq<u8>,
)
    requires
        request.request_type == request_type,
        request.nonce == nonce,
        request.status != RequestStatus::Pending,
    ensures
        settlement_refusal(Some(request), true, request_type, nonce, request_hash) == Some(
            FactoryError::NotPendingRequest,
        ),
{
}

/// A pending request is not settled on a hash other than its own.
pub proof fn lemma_wrong_hash_is_refused(
    request: RequestView,
    request_type: RequestType,
    nonce: u64,
    request_hash: Seq<u8>,
)
    requires
        request.request_type == request_type,
        request.nonce == nonce,
        request.status == RequestStatus::Pending,
        request.hash != request_hash,
    ensures
        settlement_refusal(Some(request), true, request_type, nonce, request_hash) == Some(
            FactoryError::MismatchRequestHash,
        ),
{
}

/// Where no record is kept under the number asked for, a custodian is
/// told that the number is not valid, and who is no custodian is told
/// so, record or not.
pub proof fn lemma_missing_record_is_refused(
    found: Option<RequestView>,
    request_type: RequestType,
    nonce: u64,
    request_hash: Seq<u8>,
)
    ensures
        settlement_refusal(None, true, request_type, nonce, request_hash) == Some(
            FactoryError::InvalidNonce,
        ),
        settlement_refusal(found, false, request_type, nonce, request_hash) == Some(
            FactoryError::NotCustodian,
        ),
{
}

} // verus!
