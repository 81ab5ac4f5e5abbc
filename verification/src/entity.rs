//! The identifiers by which the engine knows what it has spawned.

use vstd::prelude::*;

verus! {

/// The engine's identifier of a live entity. The low 32 bits are the entity's
/// ordinal, the high 32 bits count how often that ordinal was reused.
#[derive(Clone, Copy, Debug, PartialEq, Eq, Hash, Structural)]
pub struct EntityId {
    pub bits: u64,
}

/// The ordinal that the identifier with these bits carries.
pub open spec fn ordinal_of(bits: u64) -> int {
    bits as int % 0x1_0000_0000
}

impl EntityId {
    /// The identifier made of an ordinal and a reuse count.
    pub fn from_parts(ordinal: u32, generation: u32) -> (id: Self)
        ensures
            id.bits == generation as int * 0x1_0000_0000 + ordinal as int,
            ordinal_of(id.bits) == ordinal,
    {
        EntityId { bits: (generation as u64) * 0x1_0000_0000 + (ordinal as u64) }
    }

    /// The entity's ordinal.
    pub fn ordinal(&self) -> (ordinal: u32)
        ensures
            ordinal == ordinal_of(self.bits),
    {
        (self.bits % 0x1_0000_0000) as u32
    }

    /// How often the ordinal was reused.
    pub fn generation(&self) -> (generation: u32)
        ensures
            generation == self.bits as int / 0x1_0000_0000,
    {
        (self.bits / 0x1_0000_0000) as u32
    }
}

} // verus!
