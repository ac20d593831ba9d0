//! The identity of a depositor or of a vault's authority: 32 opaque bytes that
//! are only ever compared. Whoever calls the engine has verified them.

use vstd::prelude::*;

verus! {

/// A 32-byte identity. The all-zero identity stands for "nobody yet".
#[derive(Clone, Copy, Debug, Eq)]
pub struct Identity {
    pub bytes: [u8; 32],
}

impl View for Identity {
    type V = Seq<u8>;

    open spec fn view(&self) -> Seq<u8> {
        self.bytes@
    }
}

impl Identity {
    /// Whether this is the all-zero identity.
    pub open spec fn is_unset(self) -> bool {
        forall|i: int| 0 <= i < 32 ==> self.bytes[i] == 0u8
    }

    /// The identity made of the given bytes.
    pub fn new(bytes: [u8; 32]) -> (id: Identity)
        ensures
            id.bytes == bytes,
    {
        Identity { bytes }
    }

    /// The bytes of this identity.
    pub fn to_bytes(&self) -> (bytes: [u8; 32])
        ensures
            bytes == self.bytes,
    {
        self.bytes
    }

    /// Two identities with the same bytes are the same identity.
    pub proof fn lemma_same_bytes_same_identity(a: Identity, b: Identity)
        ensures
            a == b <==> a@ == b@,
            a == b <==> (forall|i: int| 0 <= i < 32 ==> a.bytes[i] == b.bytes[i]),
    {
        if forall|i: int| 0 <= i < 32 ==> a.bytes[i] == b.bytes[i] {
            assert(a.bytes =~= b.bytes);
        }
        if a@ == b@ {
            assert(forall|i: int| 0 <= i < 32 ==> a.bytes[i] == a@[i]);
            assert(forall|i: int| 0 <= i < 32 ==> b.bytes[i] == b@[i]);
            assert(a.bytes =~= b.bytes);
        }
    }

    /// There is only one unset identity.
    pub proof fn lemma_unset_is_unique(a: Identity, b: Identity)
        requires
            a.is_unset(),
        ensures
            b.is_unset() <==> a == b,
    {
        Self::lemma_same_bytes_same_identity(a, b);
    }
}

impl PartialEq for Identity {
    fn eq(&self, other: &Self) -> (r: bool) {
        let mut i: usize = 0;
        while i < 32
            invariant
                i <= 32,
                forall|j: int| 0 <= j < i ==> self.bytes[j] == other.bytes[j],
            decreases 32 - i,
        {
            if self.bytes[i] != other.bytes[i] {
                return false;
            }
            i = i + 1;
        }
        proof {
            Identity::lemma_same_bytes_same_identity(*self, *other);
        }
        true
    }
}

impl vstd::std_specs::cmp::PartialEqSpecImpl for Identity {
    open spec fn obeys_eq_spec() -> bool {
        true
    }

    open spec fn eq_spec(&self, other: &Self) -> bool {
        *self == *other
    }
}

impl Default for Identity {
    /// The unset identity.
    fn default() -> (id: Identity)
        ensures
            id.is_unset(),
    {
        Identity { bytes: [0u8; 32] }
    }
}

} // verus!
