//! The fixed seed from which the controller's signing authority is
//! derived.
use vstd::prelude::*;

verus! {

/// The bytes of `controller`.
pub open spec fn controller_seed() -> Seq<u8> {
    seq![99u8, 111u8, 110u8, 116u8, 114u8, 111u8, 108u8, 108u8, 101u8, 114u8]
}

/// The seeds with which the controller signs: its fixed seed and the
/// bump that was found when its record was created.
pub open spec fn controller_signer_seeds(bump: u8) -> Seq<Seq<u8>> {
    seq![controller_seed(), seq![bump]]
}

/// The controller's fixed seed.
pub fn controller_seed_bytes() -> (seed: Vec<u8>)
    ensures
        seed@ == controller_seed(),
{
    let seed = vec![99u8, 111u8, 110u8, 116u8, 114u8, 111u8, 108u8, 108u8, 101u8, 114u8];
    assert(seed@ =~= controller_seed());
    seed
}

/// The seeds with which the controller signs.
pub fn make_controller_signer_seeds(bump: u8) -> (seeds: Vec<Vec<u8>>)
    ensures
        seeds.deep_view() == controller_signer_seeds(bump),
{
    let mut seeds: Vec<Vec<u8>> = Vec::new();
    seeds.push(controller_seed_bytes());
    let last = vec![bump];
    assert(last@ =~= seq![bump]);
    seeds.push(last);
    assert(seeds.deep_view() =~~= controller_signer_seeds(bump));
    seeds
}

} // verus!
