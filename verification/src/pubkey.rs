//! Account addresses.

use vstd::prelude::*;

verus! {

/// The address of an account: 32 bytes, compared byte for byte.
#[derive(Clone, Copy, Debug, Eq)]
pub struct Pubkey {
    pub bytes: [u8; 32],
}

impl Pubkey {
    /// The address made of `bytes`.
    pub fn new(bytes: [u8; 32]) -> (key: Pubkey)
        ensures
            key == (Pubkey { bytes }),
    {
        Pubkey { bytes }
    }

    /// The 32 bytes of the address, in order.
    pub open spec fn view(&self) -> Seq<u8> {
        self.bytes@
    }
}

/// Whether two 32-byte strings hold the same bytes.
pub fn same_bytes(a: &[u8; 32], b: &[u8; 32]) -> (same: bool)
    ensures
        same == (*a == *b),
        same == (a@ == b@),
{
    let mut i: usize = 0;
    while i < 32
        invariant
            i <= 32,
            forall|j: int| 0 <= j < i ==> a@[j] == b@[j],
        decreases 32 - i,
    {
        if a[i] != b[i] {
            return false;
        }
        i = i + 1;
    }
    assert(a@ =~= b@);
    assert(*a =~= *b);
    true
}

impl PartialEq for Pubkey {
    fn eq(&self, other: &Self) -> (same: bool) {
        same_bytes(&self.bytes, &other.bytes)
    }
}

impl vstd::std_specs::cmp::PartialEqSpecImpl for Pubkey {
    open spec fn obeys_eq_spec() -> bool {
        true
    }

    open spec fn eq_spec(&self, other: &Self) -> bool {
        *self == *other
    }
}

} // verus!
