use vstd::prelude::*;

use crate::abi::CapId;

verus! {

/// Number of low bits of a `CapId` that hold the slot index.
pub const SLOT_BITS: u64 = 32;

/// Mask of the slot-index bits of a `CapId`.
pub const SLOT_MASK: u64 = 0xffff_ffff;

/// Index of a slot in a capability table.
#[derive(Clone, Copy, Debug, PartialEq, Eq, Structural)]
pub struct CapSlotIndex(pub u32);

impl CapSlotIndex {
    pub fn new(raw: u32) -> (r: Self)
        ensures
            r.0 == raw,
    {
        CapSlotIndex(raw)
    }

    pub fn get(self) -> (r: u32)
        ensures
            r == self.0,
    {
        self.0
    }
}

/// A nonzero slot generation.
#[derive(Clone, Copy, Debug, PartialEq, Eq, Structural)]
pub struct CapGeneration(u32);

impl CapGeneration {
    #[verifier::type_invariant]
    spec fn nonzero(self) -> bool {
        self.0 != 0
    }

    pub closed spec fn spec_get(self) -> u32 {
        self.0
    }

    /// Accepts any nonzero generation.
    pub fn new(raw: u32) -> (r: Result<Self, CapIdError>)
        ensures
            raw != 0 ==> (r matches Ok(g) && g.spec_get() == raw),
            raw == 0 ==> r == Err::<CapGeneration, CapIdError>(CapIdError::ZeroGeneration),
    {
        if raw == 0 {
            return Err(CapIdError::ZeroGeneration);
        }
        Ok(CapGeneration(raw))
    }

    #[verifier::when_used_as_spec(spec_get)]
    pub fn get(self) -> (r: u32)
        ensures
            r == self.spec_get(),
            r != 0,
    {
        proof {
            use_type_invariant(&self);
        }
        self.0
    }
}

/// The packed identifier of a slot and a generation: generation in the high
/// 32 bits, slot index in the low 32 bits.
pub open spec fn pack_cap_id(slot: u32, generation: u32) -> u64 {
    (generation as u64 * 0x1_0000_0000 + slot as u64) as u64
}

/// The generation half of a packed identifier.
pub open spec fn cap_id_generation(id: u64) -> u32 {
    (id / 0x1_0000_0000) as u32
}

/// The slot half of a packed identifier.
pub open spec fn cap_id_slot(id: u64) -> u32 {
    (id % 0x1_0000_0000) as u32
}

/// A slot index together with its generation.
#[derive(Clone, Copy, Debug, PartialEq, Eq, Structural)]
pub struct CapIdParts {
    slot: CapSlotIndex,
    generation: CapGeneration,
}

impl CapIdParts {
    pub closed spec fn spec_slot(self) -> CapSlotIndex {
        self.slot
    }

    pub closed spec fn spec_generation(self) -> CapGeneration {
        self.generation
    }

    /// The packed value of these parts.
    pub open spec fn packed(self) -> u64 {
        pack_cap_id(self.spec_slot().0, self.spec_generation().spec_get())
    }

    pub fn new(slot: CapSlotIndex, generation: CapGeneration) -> (r: Self)
        ensures
            r.spec_slot() == slot,
            r.spec_generation() == generation,
    {
        CapIdParts { slot, generation }
    }

    /// Splits `id`; an identifier whose generation half is zero names no slot.
    pub fn from_cap_id(id: CapId) -> (r: Result<Self, CapIdError>)
        ensures
            cap_id_generation(id.0) != 0 ==> (r matches Ok(p) && p.spec_slot().0 == cap_id_slot(
                id.0,
            ) && p.spec_generation().spec_get() == cap_id_generation(id.0) && p.packed()
                == id.0),
            cap_id_generation(id.0) == 0 ==> r == Err::<CapIdParts, CapIdError>(
                CapIdError::ZeroGeneration,
            ),
    {
        let raw = id.0;
        let high = raw >> 32u64;
        let low = raw & SLOT_MASK;
        proof {
            lemma_split_cap_id(raw);
        }
        let generation = match CapGeneration::new(high as u32) {
            Ok(generation) => generation,
            Err(error) => return Err(error),
        };
        let slot = CapSlotIndex::new(low as u32);
        Ok(CapIdParts { slot, generation })
    }

    /// The packed identifier.
    pub fn cap_id(self) -> (r: CapId)
        ensures
            r.0 == self.packed(),
            cap_id_slot(r.0) == self.spec_slot().0,
            cap_id_generation(r.0) == self.spec_generation().spec_get(),
    {
        let generation = self.generation.get() as u64;
        let slot = self.slot.0 as u64;
        proof {
            lemma_join_cap_id(slot, generation);
        }
        CapId((generation << 32u64) | slot)
    }

    #[verifier::when_used_as_spec(spec_slot)]
    pub fn slot(self) -> (r: CapSlotIndex)
        ensures
            r == self.spec_slot(),
    {
        self.slot
    }

    #[verifier::when_used_as_spec(spec_generation)]
    pub fn generation(self) -> (r: CapGeneration)
        ensures
            r == self.spec_generation(),
    {
        self.generation
    }
}

proof fn lemma_split_cap_id(raw: u64)
    ensures
        (raw >> 32u64) as int == cap_id_generation(raw) as int,
        (raw & SLOT_MASK) as int == cap_id_slot(raw) as int,
        raw >> 32u64 <= 0xffff_ffff,
        raw & SLOT_MASK <= 0xffff_ffff,
{
    assert(raw >> 32u64 == raw / 0x1_0000_0000) by (bit_vector);
    assert(raw & 0xffff_ffffu64 == raw % 0x1_0000_0000) by (bit_vector);
    assert(raw >> 32u64 <= 0xffff_ffff) by (bit_vector);
    assert(raw & 0xffff_ffffu64 <= 0xffff_ffff) by (bit_vector);
}

proof fn lemma_join_cap_id(slot: u64, generation: u64)
    requires
        slot <= 0xffff_ffff,
        generation <= 0xffff_ffff,
    ensures
        ((generation << 32u64) | slot) == generation * 0x1_0000_0000 + slot,
        ((generation << 32u64) | slot) % 0x1_0000_0000 == slot,
        ((generation << 32u64) | slot) / 0x1_0000_0000 == generation,
{
    assert(((generation << 32u64) | slot) == generation * 0x1_0000_0000 + slot) by (bit_vector)
        requires
            slot <= 0xffff_ffff,
            generation <= 0xffff_ffff,
    ;
    assert(((generation << 32u64) | slot) % 0x1_0000_0000 == slot) by (bit_vector)
        requires
            slot <= 0xffff_ffff,
            generation <= 0xffff_ffff,
    ;
    assert(((generation << 32u64) | slot) / 0x1_0000_0000 == generation) by (bit_vector)
        requires
            slot <= 0xffff_ffff,
            generation <= 0xffff_ffff,
    ;
}

/// Packing and splitting are inverse: the parts of a packed identifier are
/// the parts it was packed from, and an identifier with a nonzero generation
/// is the packing of its parts.
pub proof fn lemma_cap_id_round_trip(slot: u32, generation: u32, id: u64)
    ensures
        cap_id_slot(pack_cap_id(slot, generation)) == slot,
        cap_id_generation(pack_cap_id(slot, generation)) == generation,
        pack_cap_id(cap_id_slot(id), cap_id_generation(id)) == id,
{
    lemma_join_cap_id(slot as u64, generation as u64);
    lemma_split_cap_id(id);
    assert(id == (id / 0x1_0000_0000) * 0x1_0000_0000 + id % 0x1_0000_0000);
}

#[derive(Clone, Copy, Debug, PartialEq, Eq, Structural)]
pub enum CapIdError {
    ZeroGeneration,
}

} // verus!
