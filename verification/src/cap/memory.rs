use vstd::prelude::*;

use crate::abi::VirtAddr;
use crate::cap::capability::{Capability, CapabilityState};
use crate::cap::derivation::{bounded_range_contains, range_contains};
use crate::cap::kind::CapKind;
use crate::cap::perms::{CapPerms, PERM_EXECUTE, PERM_MAP, PERM_READ, PERM_WRITE};

verus! {

/// Access a memory mapping asks for.
#[derive(Clone, Copy, Debug, PartialEq, Eq, Structural)]
pub enum MemoryAccess {
    ReadOnly,
    ReadWrite,
    ReadExecute,
}

/// The permission bits an access mode needs, besides `MAP`.
pub open spec fn access_bits(access: MemoryAccess) -> u32 {
    match access {
        MemoryAccess::ReadOnly => PERM_READ,
        MemoryAccess::ReadWrite => PERM_READ | PERM_WRITE,
        MemoryAccess::ReadExecute => PERM_READ | PERM_EXECUTE,
    }
}

impl MemoryAccess {
    pub fn required_perms(self) -> (r: CapPerms)
        ensures
            r.spec_bits() == access_bits(self),
    {
        match self {
            MemoryAccess::ReadOnly => CapPerms::READ(),
            MemoryAccess::ReadWrite => CapPerms::READ().union(CapPerms::WRITE()),
            MemoryAccess::ReadExecute => CapPerms::READ().union(CapPerms::EXECUTE()),
        }
    }
}

/// A nonempty, non-overflowing range to map with an access mode.
#[derive(Clone, Copy, Debug, PartialEq, Eq, Structural)]
pub struct MemoryMapRequest {
    base: VirtAddr,
    len: u64,
    access: MemoryAccess,
}

impl MemoryMapRequest {
    #[verifier::type_invariant]
    spec fn well_formed(self) -> bool {
        self.len != 0 && self.base.0 + self.len <= u64::MAX
    }

    pub closed spec fn spec_base(self) -> VirtAddr {
        self.base
    }

    pub closed spec fn spec_byte_len(self) -> u64 {
        self.len
    }

    pub closed spec fn spec_access(self) -> MemoryAccess {
        self.access
    }

    /// Accepts a nonempty range whose end does not overflow.
    pub fn new(base: VirtAddr, len: u64, access: MemoryAccess) -> (r: Result<Self, MemoryCapError>)
        ensures
            (len != 0 && base.0 + len <= u64::MAX) ==> (r matches Ok(req) && req.spec_base()
                == base && req.spec_byte_len() == len && req.spec_access() == access),
            !(len != 0 && base.0 + len <= u64::MAX) ==> r == Err::<MemoryMapRequest, MemoryCapError>(
                MemoryCapError::InvalidRange,
            ),
    {
        if len == 0 {
            return Err(MemoryCapError::InvalidRange);
        }
        if base.0.checked_add(len).is_none() {
            return Err(MemoryCapError::InvalidRange);
        }
        Ok(MemoryMapRequest { base, len, access })
    }

    #[verifier::when_used_as_spec(spec_base)]
    pub fn base(self) -> (r: VirtAddr)
        ensures
            r == self.spec_base(),
    {
        self.base
    }

    #[verifier::when_used_as_spec(spec_byte_len)]
    pub fn byte_len(self) -> (r: u64)
        ensures
            r == self.spec_byte_len(),
            r != 0,
            self.spec_base().0 + r <= u64::MAX,
    {
        proof {
            use_type_invariant(&self);
        }
        self.len
    }

    #[verifier::when_used_as_spec(spec_access)]
    pub fn access(self) -> (r: MemoryAccess)
        ensures
            r == self.spec_access(),
    {
        self.access
    }

    /// `MAP` together with what the access mode needs.
    pub fn required_perms(self) -> (r: CapPerms)
        ensures
            r.spec_bits() == PERM_MAP | access_bits(self.spec_access()),
    {
        CapPerms::MAP().union(self.access.required_perms())
    }
}

/// The mapped range lies within the capability's range; whole-object memory
/// authority admits any non-overflowing range.
pub open spec fn map_range_is_subset(
    parent_base: Option<VirtAddr>,
    parent_len: Option<u64>,
    child_base: VirtAddr,
    child_len: u64,
) -> bool {
    match (parent_base, parent_len) {
        (None, None) => child_base.0 + child_len <= u64::MAX,
        (Some(parent_base), Some(parent_len)) => range_contains(
            parent_base.0,
            parent_len,
            child_base.0,
            child_len,
        ),
        _ => false,
    }
}

/// The first rule that mapping `request` under `cap` breaks, if any.
pub open spec fn memory_map_rejection(cap: CapabilityState, request: MemoryMapRequest) -> Option<
    MemoryCapError,
> {
    if !(cap.kind is Memory) {
        Some(MemoryCapError::WrongCapabilityKind)
    } else if !map_range_is_subset(
        cap.base,
        cap.len,
        request.spec_base(),
        request.spec_byte_len(),
    ) {
        Some(MemoryCapError::RangeEscapesCapability)
    } else if !cap.perms.has(PERM_MAP) {
        Some(MemoryCapError::MissingMapPermission)
    } else if !cap.perms.has(PERM_READ) {
        Some(MemoryCapError::MissingReadPermission)
    } else if request.spec_access() is ReadWrite && !cap.perms.has(PERM_WRITE) {
        Some(MemoryCapError::MissingWritePermission)
    } else if request.spec_access() is ReadExecute && !cap.perms.has(PERM_EXECUTE) {
        Some(MemoryCapError::MissingExecutePermission)
    } else {
        None
    }
}

impl Capability {
    /// Authorizes mapping `request` under this capability, or names the
    /// first rule it breaks.
    pub fn authorize_memory_map(&self, request: MemoryMapRequest) -> (r: Result<(), MemoryCapError>)
        ensures
            match memory_map_rejection(self@, request) {
                Some(e) => r == Err::<(), MemoryCapError>(e),
                None => r == Ok::<(), MemoryCapError>(()),
            },
    {
        match self.kind() {
            CapKind::Memory => {},
            _ => {
                return Err(MemoryCapError::WrongCapabilityKind);
            },
        }
        if !map_range_subset_exec(self.base(), self.range_len(), request.base(), request.byte_len()) {
            return Err(MemoryCapError::RangeEscapesCapability);
        }
        let perms = self.perms();
        if !perms.contains(CapPerms::MAP()) {
            return Err(MemoryCapError::MissingMapPermission);
        }
        if !perms.contains(CapPerms::READ()) {
            return Err(MemoryCapError::MissingReadPermission);
        }
        match request.access() {
            MemoryAccess::ReadWrite => {
                if !perms.contains(CapPerms::WRITE()) {
                    return Err(MemoryCapError::MissingWritePermission);
                }
            },
            MemoryAccess::ReadExecute => {
                if !perms.contains(CapPerms::EXECUTE()) {
                    return Err(MemoryCapError::MissingExecutePermission);
                }
            },
            MemoryAccess::ReadOnly => {},
        }
        Ok(())
    }
}

/// Whether the mapped range lies within the capability's range.
pub fn map_range_subset_exec(
    parent_base: Option<VirtAddr>,
    parent_len: Option<u64>,
    child_base: VirtAddr,
    child_len: u64,
) -> (r: bool)
    ensures
        r == map_range_is_subset(parent_base, parent_len, child_base, child_len),
{
    match (parent_base, parent_len) {
        (None, None) => child_base.0.checked_add(child_len).is_some(),
        (Some(parent_base), Some(parent_len)) => bounded_range_contains(
            parent_base.0,
            parent_len,
            child_base.0,
            child_len,
        ),
        _ => false,
    }
}

#[derive(Clone, Copy, Debug, PartialEq, Eq, Structural)]
pub enum MemoryCapError {
    InvalidRange,
    MissingExecutePermission,
    MissingMapPermission,
    MissingReadPermission,
    MissingWritePermission,
    RangeEscapesCapability,
    WrongCapabilityKind,
}

} // verus!
