use vstd::prelude::*;

use crate::abi::{PrincipalId, VirtAddr};
use crate::cap::perms::CapPerms;

verus! {

/// `[child_base, child_base + child_len)` lies inside
/// `[parent_base, parent_base + parent_len)` and neither end overflows.
pub open spec fn range_contains(parent_base: u64, parent_len: u64, child_base: u64, child_len: u64) -> bool {
    &&& parent_base + parent_len <= u64::MAX
    &&& child_base + child_len <= u64::MAX
    &&& child_base >= parent_base
    &&& child_base + child_len <= parent_base + parent_len
}

/// Whether `[child_base, child_base + child_len)` lies inside
/// `[parent_base, parent_base + parent_len)` without overflow.
pub fn bounded_range_contains(parent_base: u64, parent_len: u64, child_base: u64, child_len: u64) -> (r: bool)
    ensures
        r == range_contains(parent_base, parent_len, child_base, child_len),
{
    let parent_end = match parent_base.checked_add(parent_len) {
        Some(end) => end,
        None => return false,
    };
    let child_end = match child_base.checked_add(child_len) {
        Some(end) => end,
        None => return false,
    };
    child_base >= parent_base && child_end <= parent_end
}

/// A request to derive a child capability.
#[derive(Clone, Copy, Debug, PartialEq, Eq, Structural)]
pub struct DeriveRequest {
    perms: CapPerms,
    owner: PrincipalId,
    range: DeriveRange,
}

#[derive(Clone, Copy, Debug, PartialEq, Eq, Structural)]
enum DeriveRange {
    WholeObject,
    Bounded(ObjectBoundedRange),
}

impl DeriveRequest {
    pub closed spec fn spec_perms(self) -> CapPerms {
        self.perms
    }

    pub closed spec fn spec_owner(self) -> PrincipalId {
        self.owner
    }

    /// Base of the requested range; `None` for whole-object authority.
    pub closed spec fn spec_base(self) -> Option<VirtAddr> {
        match self.range {
            DeriveRange::WholeObject => None,
            DeriveRange::Bounded(range) => Some(range.base),
        }
    }

    /// Length of the requested range; `None` for whole-object authority.
    pub closed spec fn spec_range_len(self) -> Option<u64> {
        match self.range {
            DeriveRange::WholeObject => None,
            DeriveRange::Bounded(range) => Some(range.len),
        }
    }

    /// A request for whole-object authority.
    pub fn whole_object(perms: CapPerms, owner: PrincipalId) -> (r: Self)
        ensures
            r.spec_perms() == perms,
            r.spec_owner() == owner,
            r.spec_base() is None,
            r.spec_range_len() is None,
    {
        DeriveRequest { perms, owner, range: DeriveRange::WholeObject }
    }

    /// A request for authority over a range already checked against the
    /// object's extent.
    pub fn bounded(perms: CapPerms, owner: PrincipalId, range: ObjectBoundedRange) -> (r: Self)
        ensures
            r.spec_perms() == perms,
            r.spec_owner() == owner,
            r.spec_base() == Some(range.spec_base()),
            r.spec_range_len() == Some(range.spec_byte_len()),
    {
        DeriveRequest { perms, owner, range: DeriveRange::Bounded(range) }
    }

    #[verifier::when_used_as_spec(spec_perms)]
    pub fn perms(self) -> (r: CapPerms)
        ensures
            r == self.spec_perms(),
    {
        self.perms
    }

    #[verifier::when_used_as_spec(spec_owner)]
    pub fn owner(self) -> (r: PrincipalId)
        ensures
            r == self.spec_owner(),
    {
        self.owner
    }

    #[verifier::when_used_as_spec(spec_base)]
    pub fn base(self) -> (r: Option<VirtAddr>)
        ensures
            r == self.spec_base(),
    {
        match self.range {
            DeriveRange::WholeObject => None,
            DeriveRange::Bounded(range) => Some(range.base),
        }
    }

    #[verifier::when_used_as_spec(spec_range_len)]
    pub fn range_len(self) -> (r: Option<u64>)
        ensures
            r == self.spec_range_len(),
    {
        match self.range {
            DeriveRange::WholeObject => None,
            DeriveRange::Bounded(range) => Some(range.len),
        }
    }
}

/// A range already checked against the real backing extent of an object.
///
/// Bounded capability derivation requires this type instead of a raw
/// `(base, len)` pair so callers cannot accidentally derive arbitrary bounded
/// children from an unscoped whole-object parent without first naming and
/// checking the object's actual extent.
#[derive(Clone, Copy, Debug, PartialEq, Eq, Structural)]
pub struct ObjectBoundedRange {
    base: VirtAddr,
    len: u64,
}

impl ObjectBoundedRange {
    pub closed spec fn spec_base(self) -> VirtAddr {
        self.base
    }

    pub closed spec fn spec_byte_len(self) -> u64 {
        self.len
    }

    /// Accepts a nonempty range that lies inside the object's extent.
    pub fn new_within_extent(base: VirtAddr, len: u64, extent_base: VirtAddr, extent_len: u64) -> (r: Result<Self, DeriveError>)
        ensures
            (len != 0 && range_contains(extent_base.0, extent_len, base.0, len)) ==> (r matches Ok(
                range,
            ) && range.spec_base() == base && range.spec_byte_len() == len),
            !(len != 0 && range_contains(extent_base.0, extent_len, base.0, len)) ==> r == Err::<
                ObjectBoundedRange,
                DeriveError,
            >(DeriveError::RangeEscalates),
    {
        if len == 0 {
            return Err(DeriveError::RangeEscalates);
        }
        if !bounded_range_contains(extent_base.0, extent_len, base.0, len) {
            return Err(DeriveError::RangeEscalates);
        }
        Ok(ObjectBoundedRange { base, len })
    }

    /// A range taken as already checked, for tests and trusted object layers.
    pub fn new_for_test(base: VirtAddr, len: u64) -> (r: Self)
        ensures
            r.spec_base() == base,
            r.spec_byte_len() == len,
    {
        ObjectBoundedRange { base, len }
    }

    #[verifier::when_used_as_spec(spec_base)]
    pub fn base(self) -> (r: VirtAddr)
        ensures
            r == self.spec_base(),
    {
        self.base
    }

    #[verifier::when_used_as_spec(spec_byte_len)]
    pub fn byte_len(self) -> (r: u64)
        ensures
            r == self.spec_byte_len(),
    {
        self.len
    }
}

#[derive(Clone, Copy, Debug, PartialEq, Eq, Structural)]
pub enum DeriveError {
    MissingDerivePermission,
    MissingGrantPermission,
    ParentRevoked,
    ParentStaleGeneration,
    AuditRejected,
    PermissionsEscalate,
    RangeEscalates,
}

#[derive(Clone, Copy, Debug, PartialEq, Eq, Structural)]
pub enum CapValidationError {
    Revoked,
    StaleGeneration,
}

} // verus!
