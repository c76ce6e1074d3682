use vstd::prelude::*;

verus! {

pub const PERM_READ: u32 = 0x1;

pub const PERM_WRITE: u32 = 0x2;

pub const PERM_EXECUTE: u32 = 0x4;

pub const PERM_GRANT: u32 = 0x8;

pub const PERM_DERIVE: u32 = 0x10;

pub const PERM_MAP: u32 = 0x20;

pub const PERM_SEND: u32 = 0x40;

pub const PERM_REVOKE: u32 = 0x80;

pub const PERM_INTROSPECT: u32 = 0x100;

pub const PERM_ADMIN: u32 = 0x200;

/// Grant, revoke and admin: the permissions a principal cannot hand to
/// another principal.
pub const PERM_OWNER_ONLY: u32 = 0x288;

/// A set of capability permissions, one bit per permission.
#[derive(Clone, Copy, Debug, PartialEq, Eq, Structural)]
pub struct CapPerms(u32);

impl CapPerms {
    /// Every defined permission bit.
    pub const DEFINED_BITS: u32 = 0x3ff;

    pub closed spec fn spec_bits(self) -> u32 {
        self.0
    }

    /// The permission set whose bits are `bits`.
    pub closed spec fn from_spec_bits(bits: u32) -> CapPerms {
        CapPerms(bits)
    }

    /// A permission set is determined by its bits.
    pub proof fn lemma_bits_determine(p: CapPerms, bits: u32)
        ensures
            Self::from_spec_bits(bits).spec_bits() == bits,
            p.spec_bits() == bits ==> p == Self::from_spec_bits(bits),
    {
    }

    /// Every permission of `required` is in `self`.
    pub open spec fn spec_contains(self, required: CapPerms) -> bool {
        self.spec_bits() & required.spec_bits() == required.spec_bits()
    }

    /// `self` holds the permission bit `bit`.
    pub open spec fn has(self, bit: u32) -> bool {
        self.spec_bits() & bit == bit
    }

    pub fn from_bits_strict(raw: u32) -> (r: Result<Self, PermissionBitsError>)
        ensures
            raw & !Self::DEFINED_BITS == 0 ==> (r matches Ok(p) && p.spec_bits() == raw),
            raw & !Self::DEFINED_BITS != 0 ==> r == Err::<CapPerms, PermissionBitsError>(
                PermissionBitsError::UndefinedBits,
            ),
    {
        if raw & !Self::DEFINED_BITS == 0 {
            Ok(CapPerms(raw))
        } else {
            Err(PermissionBitsError::UndefinedBits)
        }
    }

    fn from_raw(raw: u32) -> (r: Self)
        ensures
            r.spec_bits() == raw,
    {
        CapPerms(raw)
    }

    #[allow(non_snake_case)]
    pub fn READ() -> (r: Self)
        ensures
            r.spec_bits() == PERM_READ,
    {
        Self::from_raw(PERM_READ)
    }

    #[allow(non_snake_case)]
    pub fn WRITE() -> (r: Self)
        ensures
            r.spec_bits() == PERM_WRITE,
    {
        Self::from_raw(PERM_WRITE)
    }

    #[allow(non_snake_case)]
    pub fn EXECUTE() -> (r: Self)
        ensures
            r.spec_bits() == PERM_EXECUTE,
    {
        Self::from_raw(PERM_EXECUTE)
    }

    #[allow(non_snake_case)]
    pub fn GRANT() -> (r: Self)
        ensures
            r.spec_bits() == PERM_GRANT,
    {
        Self::from_raw(PERM_GRANT)
    }

    #[allow(non_snake_case)]
    pub fn DERIVE() -> (r: Self)
        ensures
            r.spec_bits() == PERM_DERIVE,
    {
        Self::from_raw(PERM_DERIVE)
    }

    #[allow(non_snake_case)]
    pub fn MAP() -> (r: Self)
        ensures
            r.spec_bits() == PERM_MAP,
    {
        Self::from_raw(PERM_MAP)
    }

    #[allow(non_snake_case)]
    pub fn SEND() -> (r: Self)
        ensures
            r.spec_bits() == PERM_SEND,
    {
        Self::from_raw(PERM_SEND)
    }

    #[allow(non_snake_case)]
    pub fn REVOKE() -> (r: Self)
        ensures
            r.spec_bits() == PERM_REVOKE,
    {
        Self::from_raw(PERM_REVOKE)
    }

    #[allow(non_snake_case)]
    pub fn INTROSPECT() -> (r: Self)
        ensures
            r.spec_bits() == PERM_INTROSPECT,
    {
        Self::from_raw(PERM_INTROSPECT)
    }

    #[allow(non_snake_case)]
    pub fn ADMIN() -> (r: Self)
        ensures
            r.spec_bits() == PERM_ADMIN,
    {
        Self::from_raw(PERM_ADMIN)
    }

    /// The empty permission set.
    pub fn empty() -> (r: Self)
        ensures
            r.spec_bits() == 0,
    {
        CapPerms(0)
    }

    #[verifier::when_used_as_spec(spec_bits)]
    pub fn bits(self) -> (r: u32)
        ensures
            r == self.spec_bits(),
    {
        self.0
    }

    #[verifier::when_used_as_spec(spec_contains)]
    pub fn contains(self, required: Self) -> (r: bool)
        ensures
            r == self.spec_contains(required),
    {
        self.0 & required.0 == required.0
    }

    /// Some permission is in both sets.
    pub fn intersects(self, other: Self) -> (r: bool)
        ensures
            r == (self.spec_bits() & other.spec_bits() != 0),
    {
        self.0 & other.0 != 0
    }

    /// The permissions of either set; it contains both.
    pub fn union(self, other: Self) -> (r: Self)
        ensures
            r.spec_bits() == self.spec_bits() | other.spec_bits(),
            r.spec_contains(self),
            r.spec_contains(other),
    {
        proof {
            lemma_perm_set_algebra(self.0, other.0);
        }
        CapPerms(self.0 | other.0)
    }

    /// The permissions of both sets; both contain it.
    pub fn intersection(self, other: Self) -> (r: Self)
        ensures
            r.spec_bits() == self.spec_bits() & other.spec_bits(),
            self.spec_contains(r),
            other.spec_contains(r),
    {
        proof {
            lemma_perm_set_algebra(self.0, other.0);
        }
        CapPerms(self.0 & other.0)
    }

    /// The permissions of `self` that are not in `other`: `self` contains it
    /// and it shares no permission with `other`.
    pub fn without(self, other: Self) -> (r: Self)
        ensures
            r.spec_bits() == self.spec_bits() & !other.spec_bits(),
            self.spec_contains(r),
            r.spec_bits() & other.spec_bits() == 0,
    {
        proof {
            lemma_perm_set_algebra(self.0, other.0);
        }
        CapPerms(self.0 & !other.0)
    }
}

/// A union holds both operands; an intersection is held by both operands;
/// removing a set leaves none of its permissions and nothing new.
pub proof fn lemma_perm_set_algebra(a: u32, b: u32)
    ensures
        (a | b) & a == a,
        (a | b) & b == b,
        a & (a & b) == a & b,
        b & (a & b) == a & b,
        a & (a & !b) == a & !b,
        (a & !b) & b == 0,
{
    assert((a | b) & a == a) by (bit_vector);
    assert((a | b) & b == b) by (bit_vector);
    assert(a & (a & b) == a & b) by (bit_vector);
    assert(b & (a & b) == a & b) by (bit_vector);
    assert(a & (a & !b) == a & !b) by (bit_vector);
    assert((a & !b) & b == 0) by (bit_vector);
}

/// Containment of permission sets is transitive.
pub proof fn lemma_contains_transitive(a: u32, b: u32, c: u32)
    requires
        a & b == b,
        b & c == c,
    ensures
        a & c == c,
{
    assert(a & b == b && b & c == c ==> a & c == c) by (bit_vector);
}

#[derive(Clone, Copy, Debug, PartialEq, Eq, Structural)]
pub enum PermissionBitsError {
    UndefinedBits,
}

} // verus!
