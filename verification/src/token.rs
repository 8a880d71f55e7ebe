//! Orders for the asset ledger. The ledger itself is a service outside
//! this library: the library decides what is asked of it and in which
//! order, and whoever runs an operation carries the orders out.
use crate::identity::Identity;
use vstd::prelude::*;

verus! {

/// What is read of the token's mint.
#[derive(Clone, Copy, Debug, PartialEq, Eq)]
pub struct Mint {
    pub address: Identity,
    pub decimals: u8,
}

/// Moves `amount` of the token from one balance to another, on the
/// authority of the holder of `from`.
#[derive(Clone, Copy, Debug, PartialEq, Eq)]
pub struct TransferChecked {
    pub from: Identity,
    pub mint: Identity,
    pub to: Identity,
    pub authority: Identity,
    pub amount: u64,
    pub decimals: u8,
}

/// Destroys `amount` of the token held in `from`, on an authority that
/// signs with the seeds it was derived from.
#[derive(Clone, Debug, PartialEq, Eq)]
pub struct TokenBurn {
    pub mint: Identity,
    pub from: Identity,
    pub authority: Identity,
    pub amount: u64,
    pub signer_seeds: Vec<Vec<u8>>,
}

/// A [`TokenBurn`] with its seeds as plain byte strings.
pub struct TokenBurnView {
    pub mint: Identity,
    pub from: Identity,
    pub authority: Identity,
    pub amount: u64,
    pub signer_seeds: Seq<Seq<u8>>,
}

impl View for TokenBurn {
    type V = TokenBurnView;

    open spec fn view(&self) -> TokenBurnView {
        TokenBurnView {
            mint: self.mint,
            from: self.from,
            authority: self.authority,
            amount: self.amount,
            signer_seeds: self.signer_seeds.deep_view(),
        }
    }
}

} // verus!
