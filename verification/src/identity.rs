//! Identities: the 32-byte addresses by which accounts, programs and
//! signers are known.
use vstd::prelude::*;
use vstd::std_specs::cmp::PartialEqSpecImpl;

verus! {

/// A 32-byte identity.
#[derive(Clone, Copy, Debug, Eq)]
pub struct Identity {
    pub bytes: [u8; 32],
}

impl View for Identity {
    type V = Seq<u8>;

    open spec fn view(&self) -> Seq<u8> {
        self.bytes@
    }
}

/// Compares two 32-byte arrays byte by byte.
pub fn same_bytes(a: &[u8; 32], b: &[u8; 32]) -> (same: bool)
    ensures
        same == (*a == *b),
        same == (a@ == b@),
{
    let mut i: usize = 0;
    while i < 32
        invariant
            i <= 32,
            forall|k: int| 0 <= k < i ==> a@[k] == b@[k],
        decreases 32 - i,
    {
        if a[i] != b[i] {
            return false;
        }
        i += 1;
    }
    assert(a@ =~= b@);
    assert(*a =~= *b);
    true
}

impl PartialEq for Identity {
    fn eq(&self, other: &Identity) -> (same: bool) {
        same_bytes(&self.bytes, &other.bytes)
    }
}

impl PartialEqSpecImpl for Identity {
    open spec fn obeys_eq_spec() -> bool {
        true
    }

    open spec fn eq_spec(&self, other: &Identity) -> bool {
        *self == *other
    }
}

impl Identity {
    /// Whether every byte is zero. Such an identity names nobody.
    pub open spec fn is_zero(&self) -> bool {
        forall|k: int| 0 <= k < 32 ==> self@[k] == 0u8
    }

    pub fn new(bytes: [u8; 32]) -> (id: Identity)
        ensures
            id.bytes == bytes,
    {
        Identity { bytes }
    }

    /// The identity that names nobody.
    pub fn zero() -> (id: Identity)
        ensures
            id.is_zero(),
    {
        Identity { bytes: [0u8; 32] }
    }

    /// Tells whether this is the identity that names nobody.
    pub fn is_default(&self) -> (unset: bool)
        ensures
            unset == self.is_zero(),
    {
        let zero = Identity::zero();
        let unset = same_bytes(&self.bytes, &zero.bytes);
        proof {
            if self.is_zero() {
                assert(self@ =~= zero@);
            }
        }
        unset
    }

    pub fn to_bytes(&self) -> (bytes: [u8; 32])
        ensures
            bytes == self.bytes,
    {
        self.bytes
    }
}

/// There is one identity that names nobody.
pub proof fn lemma_zero_is_unique(a: Identity, b: Identity)
    requires
        a.is_zero(),
        b.is_zero(),
    ensures
        a == b,
{
    assert(a@ =~= b@);
    assert(a.bytes =~= b.bytes);
}

} // verus!
