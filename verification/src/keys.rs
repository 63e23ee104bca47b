//! The keys of the registry's storage and the slots they occupy.

use vstd::prelude::*;

verus! {

/// The place of one entry in the contract's instance storage: the number of
/// the key's kind, then the token the key is about (zero for the two keys
/// that are about no token).
pub type Slot = (u32, u64);

/// The keys under which the registry keeps its entries.
#[derive(Clone, Copy, Debug, PartialEq, Eq, Structural)]
pub enum DataKey {
    /// The administrator's address.
    Admin,
    /// The number of tokens minted so far, which is the next token's number.
    TotalSupply,
    /// The owner of the token with the given number.
    Owner(u64),
    /// The metadata pointer of the token with the given number.
    URI(u64),
}

impl DataKey {
    /// The slot of this key.
    pub open spec fn spec_slot(self) -> Slot {
        match self {
            DataKey::Admin => (0u32, 0u64),
            DataKey::TotalSupply => (1u32, 0u64),
            DataKey::Owner(token_id) => (2u32, token_id),
            DataKey::URI(token_id) => (3u32, token_id),
        }
    }

    /// The slot of this key. Different keys have different slots
    /// ([`lemma_slots_are_distinct`]).
    #[verifier::when_used_as_spec(spec_slot)]
    pub fn slot(self) -> (r: Slot)
        ensures
            r == self.spec_slot(),
    {
        match self {
            DataKey::Admin => (0u32, 0u64),
            DataKey::TotalSupply => (1u32, 0u64),
            DataKey::Owner(token_id) => (2u32, token_id),
            DataKey::URI(token_id) => (3u32, token_id),
        }
    }
}

/// No two keys share a slot.
pub proof fn lemma_slots_are_distinct(a: DataKey, b: DataKey)
    ensures
        a.slot() == b.slot() <==> a == b,
{
}

} // verus!
