use vstd::prelude::*;

verus! {

/// A ledger account address or signing identity: 32 opaque bytes, the shape
/// the underlying ledger uses for every account key.
#[derive(Clone, Copy, Debug, PartialEq, Eq)]
pub struct AccountId {
    pub bytes: [u8; 32],
}

impl AccountId {
    /// The all-zero address, the content of a freshly allocated account.
    pub open spec fn spec_zero() -> AccountId {
        AccountId { bytes: vstd::array::spec_array_fill_for_copy_type::<u8, 32>(0u8) }
    }

    /// The all-zero address.
    pub fn zero() -> (r: AccountId)
        ensures
            r == AccountId::spec_zero(),
    {
        AccountId { bytes: [0u8; 32] }
    }

    /// Byte-for-byte equality, the only question the escrow logic ever asks
    /// of an identity.
    pub open spec fn eq_spec(self, other: AccountId) -> bool {
        self.bytes@ == other.bytes@
    }

    /// Decides [`AccountId::eq_spec`].
    pub fn equals(&self, other: &AccountId) -> (r: bool)
        ensures
            r == self.eq_spec(*other),
    {
        let mut i: usize = 0;
        while i < 32
            invariant
                i <= 32,
                forall|j: int| 0 <= j < i ==> self.bytes@[j] == other.bytes@[j],
            decreases 32 - i,
        {
            if self.bytes[i] != other.bytes[i] {
                return false;
            }
            i += 1;
        }
        proof {
            assert(self.bytes@ =~= other.bytes@);
        }
        true
    }
}

} // verus!
