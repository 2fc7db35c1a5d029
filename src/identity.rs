use vstd::prelude::*;

verus! {

/// A 32-byte account identity (a public key).
#[derive(Clone, Copy, Debug)]
pub struct Identity {
    pub bytes: [u8; 32],
}

impl Identity {
    /// Two identities are the same when all their bytes agree.
    pub open spec fn same(self, other: Identity) -> bool {
        self.bytes@ == other.bytes@
    }

    /// The all-zero identity marks a slot that no owner has claimed yet.
    pub open spec fn is_unset(self) -> bool {
        forall|i: int| 0 <= i < 32 ==> self.bytes@[i] == 0u8
    }

    pub fn new(bytes: [u8; 32]) -> (r: Identity)
        ensures
            r.bytes@ == bytes@,
    {
        Identity { bytes }
    }

    /// The all-zero identity.
    pub fn unset() -> (r: Identity)
        ensures
            r.is_unset(),
    {
        Identity { bytes: [0u8; 32] }
    }

    pub fn same_as(&self, other: &Identity) -> (r: bool)
        ensures
            r == self.same(*other),
    {
        let mut i: usize = 0;
        while i < 32
            invariant
                i <= 32,
                forall|j: int| 0 <= j < i ==> self.bytes@[j] == other.bytes@[j],
            decreases 32 - i,
        {
            if self.bytes[i] != other.bytes[i] {
                return false;
            }
            i = i + 1;
        }
        assert(self.bytes@ =~= other.bytes@);
        true
    }

    pub fn is_unset_identity(&self) -> (r: bool)
        ensures
            r == self.is_unset(),
    {
        let mut i: usize = 0;
        while i < 32
            invariant
                i <= 32,
                forall|j: int| 0 <= j < i ==> self.bytes@[j] == 0u8,
            decreases 32 - i,
        {
            if self.bytes[i] != 0 {
                return false;
            }
            i = i + 1;
        }
        true
    }
}

} // verus!
