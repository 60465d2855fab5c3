use vstd::prelude::*;

verus! {

broadcast use vstd::array::group_array_axioms;

/// An authenticated actor identity: a 32-byte public key, compared by
/// equality only.
#[derive(Clone, Copy, Debug)]
pub struct Principal {
    pub key: [u8; 32],
}

impl Principal {
    /// Builds a principal from its key bytes.
    pub fn new(key: [u8; 32]) -> (r: Principal)
        ensures
            r.key == key,
    {
        Principal { key }
    }

    /// Whether two principals are the same identity.
    pub fn same_as(&self, other: &Principal) -> (r: bool)
        ensures
            r == (*self == *other),
    {
        keys_equal(&self.key, &other.key)
    }
}

/// Byte-wise equality of two 32-byte values.
pub fn keys_equal(a: &[u8; 32], b: &[u8; 32]) -> (r: bool)
    ensures
        r == (*a == *b),
{
    let mut i: usize = 0;
    while i < 32
        invariant
            0 <= i <= 32,
            forall|j: int| 0 <= j < i ==> a[j] == b[j],
        decreases 32 - i,
    {
        if a[i] != b[i] {
            return false;
        }
        i = i + 1;
    }
    assert(*a =~= *b);
    true
}

impl PartialEq for Principal {
    fn eq(&self, other: &Principal) -> (r: bool) {
        self.same_as(other)
    }
}

impl Eq for Principal {
}

impl vstd::std_specs::cmp::PartialEqSpecImpl for Principal {
    open spec fn obeys_eq_spec() -> bool {
        true
    }

    open spec fn eq_spec(&self, other: &Principal) -> bool {
        *self == *other
    }
}

} // verus!
