use vstd::prelude::*;

use crate::abi::{CapId, ObjectId, PrincipalId, VirtAddr};
use crate::cap::derivation::{
    CapValidationError, DeriveError, DeriveRequest, bounded_range_contains, range_contains,
};
use crate::cap::id::{CapGeneration, CapIdError, CapIdParts, CapSlotIndex, pack_cap_id};
use crate::cap::kind::CapKind;
use crate::cap::perms::{CapPerms, PERM_DERIVE, PERM_GRANT, PERM_OWNER_ONLY};

verus! {

/// One audited movement of authority.
#[derive(Clone, Copy, PartialEq, Eq, Structural)]
pub struct CapAuditEvent {
    pub action: CapAuditAction,
    pub object_id: ObjectId,
    pub source_owner: PrincipalId,
    pub target_owner: PrincipalId,
    pub perms: CapPerms,
    pub generation: u32,
    pub revocation_epoch: u64,
    pub affected_slots: u32,
}

#[derive(Clone, Copy, Debug, PartialEq, Eq, Structural)]
pub enum CapAuditAction {
    Derive,
    Grant,
    Mint,
    Revoke,
}

impl CapAuditAction {
    /// A short lowercase name of the action.
    pub fn label(self) -> (r: &'static str)
        ensures
            self is Derive ==> r@ == "derive"@,
            self is Grant ==> r@ == "grant"@,
            self is Mint ==> r@ == "mint"@,
            self is Revoke ==> r@ == "revoke"@,
    {
        match self {
            CapAuditAction::Derive => "derive",
            CapAuditAction::Grant => "grant",
            CapAuditAction::Mint => "mint",
            CapAuditAction::Revoke => "revoke",
        }
    }
}

#[derive(Clone, Copy, Debug, PartialEq, Eq, Structural)]
pub enum CapAuditError {
    Rejected,
}

/// An audit event with authority identifiers removed.
#[derive(Clone, Copy, Debug, PartialEq, Eq, Structural)]
pub struct RedactedCapAuditEvent {
    pub action: CapAuditAction,
    pub permission_bits: u32,
    pub cross_owner: bool,
    pub affected_slots: u32,
}

/// Audit sink for capability authority movement.
///
/// Implementations must not reenter the capability table they are auditing.
/// Table mutation paths validate commit feasibility before calling `record`,
/// but the actual mutation may happen after the audit event is accepted.
///
/// A log is described by the events it holds and by which event it would
/// accept next; `record` appends an accepted event and leaves the recorded
/// events as they were when it rejects one. The default descriptions are
/// those of a log that holds nothing and accepts nothing; an implementation
/// that accepts events describes itself by overriding both.
pub trait CapAuditLog {
    /// The events the log holds, oldest first.
    closed spec fn recorded(&self) -> Seq<CapAuditEvent> {
        Seq::empty()
    }

    /// Whether the log, as it stands, accepts `event`.
    closed spec fn accepts(&self, event: CapAuditEvent) -> bool {
        false
    }

    fn record(&mut self, event: CapAuditEvent) -> (r: Result<(), CapAuditError>)
        ensures
            r is Ok <==> old(self).accepts(event),
            r is Ok ==> final(self).recorded() == old(self).recorded().push(event),
            r is Err ==> final(self).recorded() == old(self).recorded(),
    ;
}

/// `after` is what `record(event)` leaves of `before`: `event` appended when
/// `before` accepts it, the recorded events unchanged otherwise; `accepted`
/// says which.
pub open spec fn audited<A: CapAuditLog>(
    before: A,
    after: A,
    event: CapAuditEvent,
    accepted: bool,
) -> bool {
    &&& accepted == before.accepts(event)
    &&& accepted ==> after.recorded() == before.recorded().push(event)
    &&& !accepted ==> after.recorded() == before.recorded()
}

/// The event recording that `child` was handed out by `source_owner`, one
/// slot affected.
pub open spec fn movement_event(
    action: CapAuditAction,
    source_owner: PrincipalId,
    child: CapabilityState,
) -> CapAuditEvent {
    CapAuditEvent {
        action,
        object_id: child.object_id,
        source_owner,
        target_owner: child.owner,
        perms: child.perms,
        generation: child.generation,
        revocation_epoch: child.revocation_epoch,
        affected_slots: 1,
    }
}

impl CapAuditEvent {
    /// The event without object and principal identifiers, generation or
    /// epoch.
    pub fn redacted(self) -> (r: RedactedCapAuditEvent)
        ensures
            r.action == self.action,
            r.permission_bits == self.perms.spec_bits(),
            r.cross_owner == (self.source_owner.0 != self.target_owner.0),
            r.affected_slots == self.affected_slots,
    {
        RedactedCapAuditEvent {
            action: self.action,
            permission_bits: self.perms.bits(),
            cross_owner: self.source_owner.0 != self.target_owner.0,
            affected_slots: self.affected_slots,
        }
    }
}

/// The components of a capability.
pub struct CapabilityState {
    pub object_id: ObjectId,
    pub base: Option<VirtAddr>,
    pub len: Option<u64>,
    pub perms: CapPerms,
    pub owner: PrincipalId,
    pub generation: u32,
    pub revocation_epoch: u64,
    pub kind: CapKind,
}

/// The fields of a capability built directly, for tests and for object
/// layers that mint already-scoped authority.
pub struct TestCapabilitySpec {
    pub object_id: ObjectId,
    pub base: Option<VirtAddr>,
    pub len: Option<u64>,
    pub perms: CapPerms,
    pub owner: PrincipalId,
    pub generation: u32,
    pub revocation_epoch: u64,
    pub kind: CapKind,
}

/// Capability token for one object and owner.
///
/// `base = None` and `len = None` denotes unscoped whole-object authority. A
/// bounded derivation request must carry an `ObjectBoundedRange`, the
/// type-level handoff that an object, memory, or syscall layer already
/// checked the requested range against the real backing extent.
///
/// Object stores that create or recycle object generations must fail instead
/// of wrapping the `u32` generation counter; wrapped generations can let stale
/// capabilities pass `validate_live`.
#[derive(PartialEq, Eq, Structural)]
pub struct Capability {
    object_id: ObjectId,
    base: Option<VirtAddr>,
    len: Option<u64>,
    perms: CapPerms,
    owner: PrincipalId,
    generation: u32,
    revocation_epoch: u64,
    kind: CapKind,
}

impl View for Capability {
    type V = CapabilityState;

    closed spec fn view(&self) -> CapabilityState {
        CapabilityState {
            object_id: self.object_id,
            base: self.base,
            len: self.len,
            perms: self.perms,
            owner: self.owner,
            generation: self.generation,
            revocation_epoch: self.revocation_epoch,
            kind: self.kind,
        }
    }
}

/// The child range lies within the parent range: whole-object parents admit
/// any non-overflowing bounded child or a whole-object child; bounded parents
/// admit only bounded children inside their range.
pub open spec fn range_is_subset(
    parent_base: Option<VirtAddr>,
    parent_len: Option<u64>,
    child_base: Option<VirtAddr>,
    child_len: Option<u64>,
) -> bool {
    match (parent_base, parent_len, child_base, child_len) {
        (None, None, None, None) => true,
        (None, None, Some(child_base), Some(child_len)) => child_base.0 + child_len <= u64::MAX,
        (Some(parent_base), Some(parent_len), Some(child_base), Some(child_len)) => range_contains(
            parent_base.0,
            parent_len,
            child_base.0,
            child_len,
        ),
        _ => false,
    }
}

/// The permission bits a delegated capability keeps: everything requested,
/// except that authority moving to another principal loses grant, revoke and
/// admin.
pub open spec fn delegated_bits(bits: u32, cross_owner: bool) -> u32 {
    if cross_owner {
        bits & !PERM_OWNER_ONLY
    } else {
        bits
    }
}

/// The first rule a derivation of `request` from `parent` breaks, if any.
pub open spec fn derive_rejection(parent: CapabilityState, request: DeriveRequest) -> Option<
    DeriveError,
> {
    let cross_owner = request.spec_owner() != parent.owner;
    if !parent.perms.has(PERM_DERIVE) {
        Some(DeriveError::MissingDerivePermission)
    } else if cross_owner && !parent.perms.has(PERM_GRANT) {
        Some(DeriveError::MissingGrantPermission)
    } else if request.spec_range_len() == Some(0u64) {
        Some(DeriveError::RangeEscalates)
    } else if !parent.perms.spec_contains(request.spec_perms()) {
        Some(DeriveError::PermissionsEscalate)
    } else if !range_is_subset(
        parent.base,
        parent.len,
        request.spec_base(),
        request.spec_range_len(),
    ) {
        Some(DeriveError::RangeEscalates)
    } else {
        None
    }
}

/// `child` is the capability that deriving `request` from `parent` yields.
pub open spec fn derived_child(
    parent: CapabilityState,
    request: DeriveRequest,
    child: CapabilityState,
) -> bool {
    &&& child.object_id == parent.object_id
    &&& child.base == request.spec_base()
    &&& child.len == request.spec_range_len()
    &&& child.perms.spec_bits() == delegated_bits(
        request.spec_perms().spec_bits(),
        request.spec_owner() != parent.owner,
    )
    &&& child.owner == request.spec_owner()
    &&& child.generation == parent.generation
    &&& child.revocation_epoch == parent.revocation_epoch
    &&& child.kind == parent.kind
}

/// The capability that deriving `request` from `parent` yields.
pub open spec fn derived_state(parent: CapabilityState, request: DeriveRequest) -> CapabilityState {
    CapabilityState {
        object_id: parent.object_id,
        base: request.spec_base(),
        len: request.spec_range_len(),
        perms: CapPerms::from_spec_bits(
            delegated_bits(request.spec_perms().spec_bits(), request.spec_owner() != parent.owner),
        ),
        owner: request.spec_owner(),
        generation: parent.generation,
        revocation_epoch: parent.revocation_epoch,
        kind: parent.kind,
    }
}

/// The capability that granting `parent` to `target_owner` yields.
pub open spec fn granted_state(parent: CapabilityState, target_owner: PrincipalId) -> CapabilityState {
    CapabilityState {
        object_id: parent.object_id,
        base: parent.base,
        len: parent.len,
        perms: CapPerms::from_spec_bits(
            delegated_bits(parent.perms.spec_bits() & !PERM_GRANT, target_owner != parent.owner),
        ),
        owner: target_owner,
        generation: parent.generation,
        revocation_epoch: parent.revocation_epoch,
        kind: parent.kind,
    }
}

/// The derived capability is the one `derived_child` describes, and the
/// only one.
pub proof fn lemma_derived_state(parent: CapabilityState, request: DeriveRequest, child: CapabilityState)
    ensures
        derived_child(parent, request, derived_state(parent, request)),
        derived_child(parent, request, child) ==> child == derived_state(parent, request),
{
    CapPerms::lemma_bits_determine(
        child.perms,
        delegated_bits(request.spec_perms().spec_bits(), request.spec_owner() != parent.owner),
    );
}

/// The granted capability is the one `granted_child` describes, and the
/// only one.
pub proof fn lemma_granted_state(
    parent: CapabilityState,
    target_owner: PrincipalId,
    child: CapabilityState,
)
    ensures
        granted_child(parent, target_owner, granted_state(parent, target_owner)),
        granted_child(parent, target_owner, child) ==> child == granted_state(parent, target_owner),
{
    CapPerms::lemma_bits_determine(
        child.perms,
        delegated_bits(parent.perms.spec_bits() & !PERM_GRANT, target_owner != parent.owner),
    );
}

/// `child` is the capability that granting `parent` to `target_owner`
/// yields: the same authority minus grant, and minus revoke and admin when
/// it moves to another principal.
pub open spec fn granted_child(
    parent: CapabilityState,
    target_owner: PrincipalId,
    child: CapabilityState,
) -> bool {
    &&& child.object_id == parent.object_id
    &&& child.base == parent.base
    &&& child.len == parent.len
    &&& child.perms.spec_bits() == delegated_bits(
        parent.perms.spec_bits() & !PERM_GRANT,
        target_owner != parent.owner,
    )
    &&& child.owner == target_owner
    &&& child.generation == parent.generation
    &&& child.revocation_epoch == parent.revocation_epoch
    &&& child.kind == parent.kind
}

/// Why a capability fails live validation against the object's current
/// generation and revocation epoch, if it does.
pub open spec fn live_rejection(cap: CapabilityState, generation: u32, epoch: u64) -> Option<
    CapValidationError,
> {
    if cap.generation != generation {
        Some(CapValidationError::StaleGeneration)
    } else if cap.revocation_epoch != epoch {
        Some(CapValidationError::Revoked)
    } else {
        None
    }
}

/// The derivation error that a failed live validation maps to.
pub open spec fn live_derive_error(error: CapValidationError) -> DeriveError {
    match error {
        CapValidationError::Revoked => DeriveError::ParentRevoked,
        CapValidationError::StaleGeneration => DeriveError::ParentStaleGeneration,
    }
}

impl Capability {
    /// Mints whole-object authority; generation zero is rejected.
    pub fn new_root(
        object_id: ObjectId,
        kind: CapKind,
        owner: PrincipalId,
        perms: CapPerms,
        generation: u32,
        revocation_epoch: u64,
    ) -> (r: Result<Self, CapIdError>)
        ensures
            generation != 0 ==> (r matches Ok(cap) && cap@ == CapabilityState {
                object_id,
                base: None,
                len: None,
                perms,
                owner,
                generation,
                revocation_epoch,
                kind,
            }),
            generation == 0 ==> r == Err::<Capability, CapIdError>(CapIdError::ZeroGeneration),
    {
        match CapGeneration::new(generation) {
            Ok(_) => {},
            Err(error) => return Err(error),
        }
        Ok(Capability {
            object_id,
            base: None,
            len: None,
            perms,
            owner,
            generation,
            revocation_epoch,
            kind,
        })
    }

    /// Builds a capability with exactly the given fields.
    pub fn new_for_test(spec: TestCapabilitySpec) -> (r: Self)
        ensures
            r@ == (CapabilityState {
                object_id: spec.object_id,
                base: spec.base,
                len: spec.len,
                perms: spec.perms,
                owner: spec.owner,
                generation: spec.generation,
                revocation_epoch: spec.revocation_epoch,
                kind: spec.kind,
            }),
    {
        Capability {
            object_id: spec.object_id,
            base: spec.base,
            len: spec.len,
            perms: spec.perms,
            owner: spec.owner,
            generation: spec.generation,
            revocation_epoch: spec.revocation_epoch,
            kind: spec.kind,
        }
    }

    pub fn object_id(&self) -> (r: ObjectId)
        ensures
            r == self@.object_id,
    {
        self.object_id
    }

    pub fn base(&self) -> (r: Option<VirtAddr>)
        ensures
            r == self@.base,
    {
        self.base
    }

    pub fn range_len(&self) -> (r: Option<u64>)
        ensures
            r == self@.len,
    {
        self.len
    }

    /// Whether the capability is scoped to a range rather than the whole
    /// object.
    pub fn has_bounded_range(&self) -> (r: bool)
        ensures
            r == (self@.base is Some && self@.len is Some),
    {
        self.base.is_some() && self.len.is_some()
    }

    pub fn perms(&self) -> (r: CapPerms)
        ensures
            r == self@.perms,
    {
        self.perms
    }

    pub fn owner(&self) -> (r: PrincipalId)
        ensures
            r == self@.owner,
    {
        self.owner
    }

    /// The object generation this capability was minted against.
    pub fn generation(&self) -> (r: u32)
        ensures
            r == self@.generation,
    {
        self.generation
    }

    pub fn revocation_epoch(&self) -> (r: u64)
        ensures
            r == self@.revocation_epoch,
    {
        self.revocation_epoch
    }

    pub fn kind(&self) -> (r: CapKind)
        ensures
            r == self@.kind,
    {
        self.kind
    }

    /// The identifier of this capability when it is stored in `slot`.
    pub fn id_for_slot(&self, slot: CapSlotIndex) -> (r: Result<CapId, CapIdError>)
        ensures
            self@.generation != 0 ==> r == Ok::<CapId, CapIdError>(
                CapId(pack_cap_id(slot.0, self@.generation)),
            ),
            self@.generation == 0 ==> r == Err::<CapId, CapIdError>(CapIdError::ZeroGeneration),
    {
        let generation = match CapGeneration::new(self.generation) {
            Ok(generation) => generation,
            Err(error) => return Err(error),
        };
        Ok(CapIdParts::new(slot, generation).cap_id())
    }

    /// Whether the capability holds every permission of `required`.
    pub fn allows(&self, required: CapPerms) -> (r: bool)
        ensures
            r == self@.perms.spec_contains(required),
    {
        self.perms.contains(required)
    }

    pub fn matches_revocation_epoch(&self, current_epoch: u64) -> (r: bool)
        ensures
            r == (self@.revocation_epoch == current_epoch),
    {
        self.revocation_epoch == current_epoch
    }

    /// Checks the capability against the object's current generation and
    /// revocation epoch.
    pub fn validate_live(&self, current_generation: u32, current_epoch: u64) -> (r: Result<
        (),
        CapValidationError,
    >)
        ensures
            match live_rejection(self@, current_generation, current_epoch) {
                Some(e) => r == Err::<(), CapValidationError>(e),
                None => r == Ok::<(), CapValidationError>(()),
            },
    {
        if self.generation != current_generation {
            return Err(CapValidationError::StaleGeneration);
        }
        if self.revocation_epoch != current_epoch {
            return Err(CapValidationError::Revoked);
        }
        Ok(())
    }

    /// Derives a child without the live check, recording the derivation.
    pub fn derive_with_audit<A: CapAuditLog>(self, request: DeriveRequest, audit: &mut A) -> (r:
        Result<Self, DeriveError>)
        ensures
            match derive_rejection(self@, request) {
                Some(e) => r == Err::<Capability, DeriveError>(e) && *final(audit) == *old(audit),
                None => {
                    let child = derived_state(self@, request);
                    &&& audited(
                        *old(audit),
                        *final(audit),
                        movement_event(CapAuditAction::Derive, self@.owner, child),
                        r is Ok,
                    )
                    &&& match r {
                        Ok(c) => c@ == child,
                        Err(e) => e == DeriveError::AuditRejected,
                    }
                },
            },
    {
        self.derive_prevalidated_with_audit(request, audit)
    }

    /// Derives a child from a capability that is live for the given object
    /// generation and epoch, recording the derivation.
    ///
    /// Nothing is recorded when the parent is stale or the request is
    /// rejected.
    pub fn derive_live_with_audit<A: CapAuditLog>(
        &self,
        request: DeriveRequest,
        current_generation: u32,
        current_epoch: u64,
        audit: &mut A,
    ) -> (r: Result<Self, DeriveError>)
        ensures
            match live_rejection(self@, current_generation, current_epoch) {
                Some(e) => r == Err::<Capability, DeriveError>(live_derive_error(e)) && *final(audit)
                    == *old(audit),
                None => match derive_rejection(self@, request) {
                    Some(e) => r == Err::<Capability, DeriveError>(e) && *final(audit)
                        == *old(audit),
                    None => {
                        let child = derived_state(self@, request);
                        &&& audited(
                            *old(audit),
                            *final(audit),
                            movement_event(CapAuditAction::Derive, self@.owner, child),
                            r is Ok,
                        )
                        &&& match r {
                            Ok(c) => c@ == child,
                            Err(e) => e == DeriveError::AuditRejected,
                        }
                    },
                },
            },
    {
        match self.validate_live_for_derivation(current_generation, current_epoch) {
            Ok(()) => {},
            Err(error) => return Err(error),
        }
        self.derive_prevalidated_with_audit(request, audit)
    }

    fn derive_prevalidated_with_audit<A: CapAuditLog>(&self, request: DeriveRequest, audit: &mut A) -> (r: Result<
        Self,
        DeriveError,
    >)
        ensures
            match derive_rejection(self@, request) {
                Some(e) => r == Err::<Capability, DeriveError>(e) && *final(audit) == *old(audit),
                None => {
                    let child = derived_state(self@, request);
                    &&& audited(
                        *old(audit),
                        *final(audit),
                        movement_event(CapAuditAction::Derive, self@.owner, child),
                        r is Ok,
                    )
                    &&& match r {
                        Ok(c) => c@ == child,
                        Err(e) => e == DeriveError::AuditRejected,
                    }
                },
            },
    {
        let source_owner = self.owner;
        let child = match self.derive_inner(request) {
            Ok(child) => child,
            Err(error) => return Err(error),
        };
        proof {
            lemma_derived_state(self@, request, child@);
        }
        let event = CapAuditEvent {
            action: CapAuditAction::Derive,
            object_id: child.object_id,
            source_owner,
            target_owner: child.owner,
            perms: child.perms,
            generation: child.generation,
            revocation_epoch: child.revocation_epoch,
            affected_slots: 1,
        };
        match audit.record(event) {
            Ok(()) => Ok(child),
            Err(_error) => Err(DeriveError::AuditRejected),
        }
    }

    /// Grants this capability to `target_owner` without the live check,
    /// recording the grant.
    pub fn grant_with_audit<A: CapAuditLog>(self, target_owner: PrincipalId, audit: &mut A) -> (r:
        Result<Self, DeriveError>)
        ensures
            !self@.perms.has(PERM_GRANT) ==> r == Err::<Capability, DeriveError>(
                DeriveError::MissingGrantPermission,
            ) && *final(audit) == *old(audit),
            self@.perms.has(PERM_GRANT) ==> {
                let child = granted_state(self@, target_owner);
                &&& audited(
                    *old(audit),
                    *final(audit),
                    movement_event(CapAuditAction::Grant, self@.owner, child),
                    r is Ok,
                )
                &&& match r {
                    Ok(c) => c@ == child,
                    Err(e) => e == DeriveError::AuditRejected,
                }
            },
    {
        self.grant_prevalidated_with_audit(target_owner, audit)
    }

    /// Grants a capability that is live for the given object generation and
    /// epoch to `target_owner`, recording the grant.
    pub fn grant_live_with_audit<A: CapAuditLog>(
        &self,
        target_owner: PrincipalId,
        current_generation: u32,
        current_epoch: u64,
        audit: &mut A,
    ) -> (r: Result<Self, DeriveError>)
        ensures
            match live_rejection(self@, current_generation, current_epoch) {
                Some(e) => r == Err::<Capability, DeriveError>(live_derive_error(e)) && *final(audit)
                    == *old(audit),
                None => {
                    &&& !self@.perms.has(PERM_GRANT) ==> r == Err::<Capability, DeriveError>(
                        DeriveError::MissingGrantPermission,
                    ) && *final(audit) == *old(audit)
                    &&& self@.perms.has(PERM_GRANT) ==> {
                        let child = granted_state(self@, target_owner);
                        &&& audited(
                            *old(audit),
                            *final(audit),
                            movement_event(CapAuditAction::Grant, self@.owner, child),
                            r is Ok,
                        )
                        &&& match r {
                            Ok(c) => c@ == child,
                            Err(e) => e == DeriveError::AuditRejected,
                        }
                    }
                },
            },
    {
        match self.validate_live_for_derivation(current_generation, current_epoch) {
            Ok(()) => {},
            Err(error) => return Err(error),
        }
        self.grant_prevalidated_with_audit(target_owner, audit)
    }

    fn grant_prevalidated_with_audit<A: CapAuditLog>(&self, target_owner: PrincipalId, audit: &mut A) -> (r: Result<
        Self,
        DeriveError,
    >)
        ensures
            !self@.perms.has(PERM_GRANT) ==> r == Err::<Capability, DeriveError>(
                DeriveError::MissingGrantPermission,
            ) && *final(audit) == *old(audit),
            self@.perms.has(PERM_GRANT) ==> {
                let child = granted_state(self@, target_owner);
                &&& audited(
                    *old(audit),
                    *final(audit),
                    movement_event(CapAuditAction::Grant, self@.owner, child),
                    r is Ok,
                )
                &&& match r {
                    Ok(c) => c@ == child,
                    Err(e) => e == DeriveError::AuditRejected,
                }
            },
    {
        let source_owner = self.owner;
        let child = match self.grant_inner(target_owner) {
            Ok(child) => child,
            Err(error) => return Err(error),
        };
        proof {
            lemma_granted_state(self@, target_owner, child@);
        }
        let event = CapAuditEvent {
            action: CapAuditAction::Grant,
            object_id: child.object_id,
            source_owner,
            target_owner: child.owner,
            perms: child.perms,
            generation: child.generation,
            revocation_epoch: child.revocation_epoch,
            affected_slots: 1,
        };
        match audit.record(event) {
            Ok(()) => Ok(child),
            Err(_error) => Err(DeriveError::AuditRejected),
        }
    }

    fn validate_live_for_derivation(&self, current_generation: u32, current_epoch: u64) -> (r:
        Result<(), DeriveError>)
        ensures
            match live_rejection(self@, current_generation, current_epoch) {
                Some(e) => r == Err::<(), DeriveError>(live_derive_error(e)),
                None => r == Ok::<(), DeriveError>(()),
            },
    {
        match self.validate_live(current_generation, current_epoch) {
            Ok(()) => Ok(()),
            Err(CapValidationError::Revoked) => Err(DeriveError::ParentRevoked),
            Err(CapValidationError::StaleGeneration) => Err(DeriveError::ParentStaleGeneration),
        }
    }

    fn derive_inner(&self, request: DeriveRequest) -> (r: Result<Self, DeriveError>)
        ensures
            match derive_rejection(self@, request) {
                Some(e) => r == Err::<Capability, DeriveError>(e),
                None => r matches Ok(child) && derived_child(self@, request, child@),
            },
    {
        if !self.perms.contains(CapPerms::DERIVE()) {
            return Err(DeriveError::MissingDerivePermission);
        }
        let cross_owner = request.owner() != self.owner;
        if cross_owner && !self.perms.contains(CapPerms::GRANT()) {
            return Err(DeriveError::MissingGrantPermission);
        }
        match request.range_len() {
            Some(0) => {
                return Err(DeriveError::RangeEscalates);
            },
            _ => {},
        }
        if !self.perms.contains(request.perms()) {
            return Err(DeriveError::PermissionsEscalate);
        }
        if !range_is_subset_exec(self.base, self.len, request.base(), request.range_len()) {
            return Err(DeriveError::RangeEscalates);
        }
        let child_perms = delegated_perms(request.perms(), cross_owner);
        Ok(Capability {
            object_id: self.object_id,
            base: request.base(),
            len: request.range_len(),
            perms: child_perms,
            owner: request.owner(),
            generation: self.generation,
            revocation_epoch: self.revocation_epoch,
            kind: self.kind,
        })
    }

    fn grant_inner(&self, target_owner: PrincipalId) -> (r: Result<Self, DeriveError>)
        ensures
            !self@.perms.has(PERM_GRANT) ==> r == Err::<Capability, DeriveError>(
                DeriveError::MissingGrantPermission,
            ),
            self@.perms.has(PERM_GRANT) ==> (r matches Ok(child) && granted_child(
                self@,
                target_owner,
                child@,
            )),
    {
        if !self.perms.contains(CapPerms::GRANT()) {
            return Err(DeriveError::MissingGrantPermission);
        }
        let cross_owner = target_owner != self.owner;
        // Same-owner grants keep revoke and admin: the owner is creating
        // another handle for its own authority, not delegating it.
        Ok(Capability {
            perms: delegated_perms(self.perms.without(CapPerms::GRANT()), cross_owner),
            owner: target_owner,
            object_id: self.object_id,
            base: self.base,
            len: self.len,
            generation: self.generation,
            revocation_epoch: self.revocation_epoch,
            kind: self.kind,
        })
    }
}

/// The permissions a delegated capability keeps.
pub fn delegated_perms(perms: CapPerms, cross_owner: bool) -> (r: CapPerms)
    ensures
        r.spec_bits() == delegated_bits(perms.spec_bits(), cross_owner),
{
    if cross_owner {
        let owner_only = CapPerms::GRANT().union(CapPerms::REVOKE()).union(CapPerms::ADMIN());
        assert(PERM_GRANT | crate::cap::perms::PERM_REVOKE | crate::cap::perms::PERM_ADMIN
            == PERM_OWNER_ONLY) by (bit_vector);
        perms.without(owner_only)
    } else {
        perms
    }
}

/// Whether the child range lies within the parent range.
pub fn range_is_subset_exec(
    parent_base: Option<VirtAddr>,
    parent_len: Option<u64>,
    child_base: Option<VirtAddr>,
    child_len: Option<u64>,
) -> (r: bool)
    ensures
        r == range_is_subset(parent_base, parent_len, child_base, child_len),
{
    match (parent_base, parent_len, child_base, child_len) {
        (None, None, None, None) => true,
        (None, None, Some(child_base), Some(child_len)) => child_base.0.checked_add(
            child_len,
        ).is_some(),
        (Some(parent_base), Some(parent_len), Some(child_base), Some(child_len)) => {
            bounded_range_contains(parent_base.0, parent_len, child_base.0, child_len)
        },
        _ => false,
    }
}

/// A derived capability never holds more authority than its parent: its
/// permissions are contained in the parent's, its range lies within the
/// parent's, it names the same object, generation and epoch, and when it
/// moves to another principal it holds no grant, revoke or admin permission.
pub proof fn lemma_derivation_reduces_authority(
    parent: CapabilityState,
    request: DeriveRequest,
    child: CapabilityState,
)
    requires
        derive_rejection(parent, request) is None,
        derived_child(parent, request, child),
    ensures
        parent.perms.spec_contains(child.perms),
        range_is_subset(parent.base, parent.len, child.base, child.len),
        child.object_id == parent.object_id,
        child.generation == parent.generation,
        child.revocation_epoch == parent.revocation_epoch,
        child.owner != parent.owner ==> child.perms.spec_bits() & PERM_OWNER_ONLY == 0,
{
    let p = parent.perms.spec_bits();
    let q = request.spec_perms().spec_bits();
    assert(p & q == q ==> p & (q & !0x288u32) == q & !0x288u32) by (bit_vector);
    assert((q & !0x288u32) & 0x288u32 == 0) by (bit_vector);
}

/// Derivation never widens a range. A bounded parent yields only bounded
/// children, each starting at or after the parent's base and ending at or
/// before the parent's end; a whole-object parent yields a whole-object child
/// or a bounded one whose end fits in 64 bits; and no child is an empty
/// range.
pub proof fn lemma_derivation_stays_in_range(parent: CapabilityState, request: DeriveRequest)
    requires
        derive_rejection(parent, request) is None,
    ensures
        ({
            let child = derived_state(parent, request);
            &&& parent.base is Some ==> {
                &&& parent.len is Some
                &&& child.base is Some
                &&& child.len is Some
                &&& parent.base.unwrap().0 <= child.base.unwrap().0
                &&& child.base.unwrap().0 + child.len.unwrap() <= parent.base.unwrap().0
                    + parent.len.unwrap()
            }
            &&& parent.base is None ==> parent.len is None
            &&& child.base is Some <==> child.len is Some
            &&& child.len is Some ==> {
                &&& child.len.unwrap() > 0
                &&& child.base.unwrap().0 + child.len.unwrap() <= u64::MAX
            }
        }),
{
}

/// Only a parent holding the derive permission derives, only one also
/// holding the grant permission derives for another principal, and the
/// request asks for no permission the parent lacks.
pub proof fn lemma_derivation_requires_authority(parent: CapabilityState, request: DeriveRequest)
    requires
        derive_rejection(parent, request) is None,
    ensures
        parent.perms.spec_bits() & 0x10 == 0x10,
        request.spec_owner() != parent.owner ==> parent.perms.spec_bits() & 0x8 == 0x8,
        parent.perms.spec_bits() & request.spec_perms().spec_bits() == request.spec_perms().spec_bits(),
{
}

/// A capability is live exactly when it carries the object's current
/// generation and revocation epoch.
pub proof fn lemma_live_iff_current(cap: CapabilityState, generation: u32, epoch: u64)
    ensures
        live_rejection(cap, generation, epoch) is None <==> (cap.generation == generation
            && cap.revocation_epoch == epoch),
{
}

/// A granted capability never holds more authority than its parent and
/// never holds the grant permission; moving to another principal it also
/// loses revoke and admin.
pub proof fn lemma_grant_reduces_authority(
    parent: CapabilityState,
    target_owner: PrincipalId,
    child: CapabilityState,
)
    requires
        granted_child(parent, target_owner, child),
    ensures
        parent.perms.spec_contains(child.perms),
        child.perms.spec_bits() & PERM_GRANT == 0,
        child.base == parent.base && child.len == parent.len,
        child.object_id == parent.object_id,
        target_owner != parent.owner ==> child.perms.spec_bits() & PERM_OWNER_ONLY == 0,
{
    let p = parent.perms.spec_bits();
    assert(p & (p & !8u32) == p & !8u32) by (bit_vector);
    assert(p & ((p & !8u32) & !0x288u32) == (p & !8u32) & !0x288u32) by (bit_vector);
    assert((p & !8u32) & 8u32 == 0) by (bit_vector);
    assert(((p & !8u32) & !0x288u32) & 8u32 == 0) by (bit_vector);
    assert(((p & !8u32) & !0x288u32) & 0x288u32 == 0) by (bit_vector);
}

} // verus!
