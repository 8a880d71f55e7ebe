//! Why the factory refuses an instruction.
use vstd::prelude::*;

verus! {

#[derive(Clone, Copy, Debug, PartialEq, Eq, Structural)]
pub enum FactoryError {
    /// The amount is zero.
    InvalidAmount,
    /// The requester has no deposit address, or an empty one, or the
    /// address record belongs to somebody else.
    InvalidBtcAddress,
    /// The caller is not a custodian.
    NotCustodian,
    /// The request is not of the type that the instruction settles.
    InvalidRequestType,
    /// No request has this number, or the record carries another one.
    InvalidNonce,
    /// The request was settled before.
    NotPendingRequest,
    /// The hash presented is not the one that the request was sealed with.
    MismatchRequestHash,
}

} // verus!
