//! Capability bytecode: the instruction set, bounds checks that turn
//! unchecked branch targets and memory offsets into verified ones, and the
//! fuel that bounds execution.

use vstd::prelude::*;

use crate::cap::perms::CapPerms;

verus! {

/// Bytes touched by a 64-bit access.
const U64_ACCESS_WIDTH: u64 = 8;

/// Most fuel a program may be given.
pub const MAX_FUEL: u64 = 1_000_000;

/// One bytecode instruction.
#[derive(Clone, Copy, Debug, PartialEq, Eq)]
pub enum Instruction {
    LoadCap { dst: u8, cap_slot: u16 },
    CheckPerm { reg: u8, perms: CapPerms },
    ReadU64 { dst: u8, base: u8, offset: UncheckedOffset },
    WriteU64 { base: u8, offset: UncheckedOffset, src: u8 },
    SendMsg { endpoint: u8, payload: u8 },
    BranchIf { reg: u8, target: UncheckedTarget },
    Return { reg: u8 },
    Yield,
}

/// A branch target as decoded, not yet bounds-checked.
#[derive(Clone, Copy, Debug, PartialEq, Eq, Structural)]
pub struct UncheckedTarget(pub u16);

impl UncheckedTarget {
    pub fn new(value: u16) -> (r: Self)
        ensures
            r.0 == value,
    {
        UncheckedTarget(value)
    }

    pub fn get(self) -> (r: u16)
        ensures
            r == self.0,
    {
        self.0
    }
}

/// A branch target known to lie inside the program; only the verifier
/// makes one.
#[derive(Clone, Copy, Debug, PartialEq, Eq, Structural)]
pub struct VerifiedTarget(u16);

impl VerifiedTarget {
    pub closed spec fn spec_get(self) -> u16 {
        self.0
    }

    pub fn get(self) -> (r: u16)
        ensures
            r == self.spec_get(),
    {
        self.0
    }
}

/// A memory offset as decoded, not yet bounds-checked.
#[derive(Clone, Copy, Debug, PartialEq, Eq, Structural)]
pub struct UncheckedOffset(pub u16);

impl UncheckedOffset {
    pub fn new(value: u16) -> (r: Self)
        ensures
            r.0 == value,
    {
        UncheckedOffset(value)
    }

    pub fn get(self) -> (r: u16)
        ensures
            r == self.0,
    {
        self.0
    }
}

/// A memory offset whose 64-bit access fits the accessible range; only the
/// verifier makes one.
#[derive(Clone, Copy, Debug, PartialEq, Eq, Structural)]
pub struct VerifiedOffset(u16);

impl VerifiedOffset {
    pub closed spec fn spec_get(self) -> u16 {
        self.0
    }

    pub fn get(self) -> (r: u16)
        ensures
            r == self.spec_get(),
    {
        self.0
    }
}

/// Why a target or an offset was refused.
#[derive(Clone, Copy, Debug, PartialEq, Eq, Structural)]
pub enum VerifyError {
    OffsetOutOfRange,
    TargetOutOfRange,
}

/// Bounds checks run before execution.
pub struct Verifier;

impl Verifier {
    /// Accepts a target exactly when it indexes one of `instruction_count`
    /// instructions.
    pub fn verify_target(target: UncheckedTarget, instruction_count: u16) -> (r: Result<
        VerifiedTarget,
        VerifyError,
    >)
        ensures
            target.0 < instruction_count ==> (r matches Ok(t) && t.spec_get() == target.0),
            target.0 >= instruction_count ==> r == Err::<VerifiedTarget, VerifyError>(
                VerifyError::TargetOutOfRange,
            ),
    {
        if target.get() >= instruction_count {
            return Err(VerifyError::TargetOutOfRange);
        }
        Ok(VerifiedTarget(target.get()))
    }

    /// Accepts an offset exactly when an eight-byte access there ends within
    /// `accessible_len`.
    pub fn verify_offset(offset: UncheckedOffset, accessible_len: u64) -> (r: Result<
        VerifiedOffset,
        VerifyError,
    >)
        ensures
            offset.0 + 8 <= accessible_len ==> (r matches Ok(o) && o.spec_get() == offset.0),
            offset.0 + 8 > accessible_len ==> r == Err::<VerifiedOffset, VerifyError>(
                VerifyError::OffsetOutOfRange,
            ),
    {
        let end = match (offset.get() as u64).checked_add(U64_ACCESS_WIDTH) {
            Some(end) => end,
            None => return Err(VerifyError::OffsetOutOfRange),
        };
        if end > accessible_len {
            return Err(VerifyError::OffsetOutOfRange);
        }
        Ok(VerifiedOffset(offset.get()))
    }
}

/// Remaining execution steps, never above `MAX_FUEL`.
#[derive(Clone, Copy, Debug, PartialEq, Eq, Structural)]
pub struct Fuel {
    remaining: u64,
}

impl Fuel {
    pub closed spec fn spec_remaining(self) -> u64 {
        self.remaining
    }

    /// Fuel of `remaining` steps, refused above the limit.
    pub fn new(remaining: u64) -> (r: Result<Self, FuelError>)
        ensures
            remaining <= MAX_FUEL ==> (r matches Ok(f) && f.spec_remaining() == remaining),
            remaining > MAX_FUEL ==> r == Err::<Self, FuelError>(FuelError::ExceedsLimit),
    {
        if remaining > MAX_FUEL {
            return Err(FuelError::ExceedsLimit);
        }
        Ok(Fuel { remaining })
    }

    pub fn remaining(self) -> (r: u64)
        ensures
            r == self.spec_remaining(),
    {
        self.remaining
    }

    /// Takes one step of fuel; fails, unchanged, when none is left.
    pub fn consume(&mut self) -> (r: Result<(), FuelError>)
        ensures
            old(self).spec_remaining() > 0 ==> r is Ok && final(self).spec_remaining()
                == old(self).spec_remaining() - 1,
            old(self).spec_remaining() == 0 ==> r == Err::<(), FuelError>(FuelError::Exhausted)
                && *final(self) == *old(self),
    {
        if self.remaining == 0 {
            return Err(FuelError::Exhausted);
        }
        self.remaining = self.remaining - 1;
        Ok(())
    }
}

/// Why fuel was refused or ran out.
#[derive(Clone, Copy, Debug, PartialEq, Eq, Structural)]
pub enum FuelError {
    ExceedsLimit,
    Exhausted,
}

} // verus!
