//! The digest that commits a request to the values it was created with.
use vstd::prelude::*;

verus! {

/// The SHA-256 digest of a byte string: a fixed function from bytes to
/// 32 bytes. Nothing else about it is used.
pub uninterp spec fn sha256(data: Seq<u8>) -> Seq<u8>;

/// Calls `anchor_lang::solana_program::hash::hash`, which hashes its
/// argument with SHA-256, and takes the 32 bytes of the result with
/// `Hash::to_bytes`. The contract names that digest and claims nothing
/// more of it.
#[verifier::external_body]
pub(crate) fn sha256_digest(data: &[u8]) -> (digest: [u8; 32])
    ensures
        digest@ == sha256(data@),
{
    anchor_lang::solana_program::hash::hash(data).to_bytes()
}

} // verus!
