use vstd::prelude::*;

use crate::abi::{CapId, ObjectId, PrincipalId};
use crate::cap::capability::{
    CapAuditAction, CapAuditEvent, CapAuditLog, Capability, CapabilityState, audited,
    derive_rejection, derived_state, granted_state, live_derive_error, live_rejection,
    movement_event,
};
use crate::cap::derivation::{CapValidationError, DeriveError, DeriveRequest};
use crate::cap::id::{
    CapGeneration, CapIdError, CapIdParts, CapSlotIndex, cap_id_generation, cap_id_slot,
    lemma_cap_id_round_trip, pack_cap_id,
};
use crate::cap::kind::CapKind;
use crate::cap::perms::{CapPerms, PERM_GRANT, PERM_REVOKE};
use crate::cap::revocation::{
    RevocationError, ensure_revoke_authority, revocation_error_from, revocation_error_of,
    revoke_authority_rejection,
};

verus! {

/// Generation of a slot that has never been revoked.
pub const INITIAL_SLOT_GENERATION: u32 = 1;

/// What one table slot holds: a capability or nothing, and the slot's
/// generation.
pub struct CapabilitySlotState {
    pub cap: Option<CapabilityState>,
    pub generation: u32,
}

struct CapabilitySlot {
    cap: Option<Capability>,
    generation: u32,
}

impl CapabilitySlot {
    closed spec fn state(self) -> CapabilitySlotState {
        CapabilitySlotState {
            cap: match self.cap {
                Some(cap) => Some(cap@),
                None => None,
            },
            generation: self.generation,
        }
    }

    fn is_occupied(&self) -> (r: bool)
        ensures
            r == self.state().cap is Some,
    {
        self.cap.is_some()
    }
}

/// A fixed-capacity table of capabilities addressed by `CapId`s.
///
/// An identifier names a slot and the slot's generation; revoking the
/// capabilities in a slot bumps its generation, so every identifier issued
/// for the slot before the revoke becomes stale.
pub struct CapabilityTable<const SLOTS: usize> {
    slots: Vec<CapabilitySlot>,
}

/// The first slot at or after `start` that holds no capability.
pub open spec fn first_vacant_from(slots: Seq<CapabilitySlotState>, start: int) -> Option<int>
    decreases slots.len() - start,
{
    if start < 0 || start >= slots.len() {
        None
    } else if slots[start].cap is None {
        Some(start)
    } else {
        first_vacant_from(slots, start + 1)
    }
}

/// The slot `first_vacant_from` names is vacant, lies at or after `start`,
/// and every slot between `start` and it is occupied.
pub proof fn lemma_first_vacant_from(slots: Seq<CapabilitySlotState>, start: int)
    requires
        0 <= start,
    ensures
        first_vacant_from(slots, start) matches Some(i) ==> start <= i < slots.len()
            && slots[i].cap is None,
    decreases slots.len() - start,
{
    if start < slots.len() && slots[start].cap is Some {
        lemma_first_vacant_from(slots, start + 1);
    }
}

/// The first slot that holds no capability.
pub open spec fn first_vacant(slots: Seq<CapabilitySlotState>) -> Option<int> {
    first_vacant_from(slots, 0)
}

/// Number of occupied slots among the first `n`.
pub open spec fn occupied_prefix(slots: Seq<CapabilitySlotState>, n: int) -> nat
    decreases n,
{
    if n <= 0 {
        0
    } else {
        occupied_prefix(slots, n - 1) + if slots[n - 1].cap is Some {
            1nat
        } else {
            0nat
        }
    }
}

/// The slot holds a capability for `object_id`.
pub open spec fn holds_object(slot: CapabilitySlotState, object_id: ObjectId) -> bool {
    slot.cap matches Some(cap) && cap.object_id == object_id
}

/// Number of slots among the first `n` that hold a capability for
/// `object_id`.
pub open spec fn object_prefix(slots: Seq<CapabilitySlotState>, object_id: ObjectId, n: int) -> nat
    decreases n,
{
    if n <= 0 {
        0
    } else {
        object_prefix(slots, object_id, n - 1) + if holds_object(slots[n - 1], object_id) {
            1nat
        } else {
            0nat
        }
    }
}

/// What `slots` resolves `id` to.
pub open spec fn lookup(slots: Seq<CapabilitySlotState>, id: u64) -> Result<
    CapabilityState,
    CapTableError,
> {
    let generation = cap_id_generation(id);
    let slot = cap_id_slot(id) as int;
    if generation == 0 {
        Err(CapTableError::Id(CapIdError::ZeroGeneration))
    } else if slot >= slots.len() {
        Err(CapTableError::SlotOutOfRange)
    } else if slots[slot].generation != generation {
        Err(CapTableError::StaleId)
    } else {
        match slots[slot].cap {
            Some(cap) => Ok(cap),
            None => Err(CapTableError::EmptySlot),
        }
    }
}

/// The slot after a revoke of `object_id`: emptied with its generation
/// bumped when it held the object, unchanged otherwise.
pub open spec fn revoked_slot(slot: CapabilitySlotState, object_id: ObjectId) -> CapabilitySlotState {
    if holds_object(slot, object_id) {
        CapabilitySlotState { cap: None, generation: (slot.generation + 1) as u32 }
    } else {
        slot
    }
}

/// The table after a revoke of `object_id`.
pub open spec fn revoked_table(slots: Seq<CapabilitySlotState>, object_id: ObjectId) -> Seq<
    CapabilitySlotState,
> {
    Seq::new(slots.len(), |i: int| revoked_slot(slots[i], object_id))
}

/// The table after storing `cap` in slot `index`, keeping the generation.
pub open spec fn stored(slots: Seq<CapabilitySlotState>, index: int, cap: CapabilityState) -> Seq<
    CapabilitySlotState,
> {
    slots.update(index, CapabilitySlotState { cap: Some(cap), generation: slots[index].generation })
}

/// The table error a derivation or grant error maps to.
pub open spec fn table_error_of(error: DeriveError) -> CapTableError {
    match error {
        DeriveError::AuditRejected => CapTableError::AuditRejected,
        DeriveError::MissingDerivePermission => CapTableError::MissingPermission,
        DeriveError::MissingGrantPermission => CapTableError::MissingPermission,
        DeriveError::ParentRevoked => CapTableError::StaleId,
        DeriveError::ParentStaleGeneration => CapTableError::StaleId,
        DeriveError::PermissionsEscalate => CapTableError::MissingPermission,
        DeriveError::RangeEscalates => CapTableError::MissingPermission,
    }
}

/// What deriving `request` from the capability `source_id` names into the
/// first vacant slot of `slots` comes to, before anything is recorded: the
/// child, or the error that stops it.
pub open spec fn derive_plan<L: LiveAuthorityView>(
    slots: Seq<CapabilitySlotState>,
    source_id: u64,
    request: DeriveRequest,
    live: L,
) -> Result<CapabilityState, CapTableError> {
    match first_vacant(slots) {
        None => Err(CapTableError::TableFull),
        Some(i) => if i > u32::MAX {
            Err(CapTableError::SlotOutOfRange)
        } else {
            match lookup(slots, source_id) {
                Err(e) => Err(e),
                Ok(source) => match live.spec_live(source.object_id) {
                    Err(e) => Err(CapTableError::LiveAuthority(e)),
                    Ok(current) => match live_rejection(
                        source,
                        current.spec_generation(),
                        current.spec_revocation_epoch(),
                    ) {
                        Some(e) => Err(table_error_of(live_derive_error(e))),
                        None => match derive_rejection(source, request) {
                            Some(e) => Err(table_error_of(e)),
                            None => Ok(derived_state(source, request)),
                        },
                    },
                },
            }
        },
    }
}

/// What granting the capability `source_id` names in `slots` to
/// `target_owner`, into the first vacant slot of `receiver`, comes to before
/// anything is recorded: the child, or the error that stops it.
pub open spec fn grant_plan<L: LiveAuthorityView>(
    receiver: Seq<CapabilitySlotState>,
    slots: Seq<CapabilitySlotState>,
    source_id: u64,
    target_owner: PrincipalId,
    live: L,
) -> Result<CapabilityState, CapTableError> {
    match first_vacant(receiver) {
        None => Err(CapTableError::TableFull),
        Some(i) => if i > u32::MAX {
            Err(CapTableError::SlotOutOfRange)
        } else {
            match lookup(slots, source_id) {
                Err(e) => Err(e),
                Ok(source) => match live.spec_live(source.object_id) {
                    Err(e) => Err(CapTableError::LiveAuthority(e)),
                    Ok(current) => match live_rejection(
                        source,
                        current.spec_generation(),
                        current.spec_revocation_epoch(),
                    ) {
                        Some(e) => Err(table_error_of(live_derive_error(e))),
                        None => if !source.perms.has(PERM_GRANT) {
                            Err(CapTableError::MissingPermission)
                        } else {
                            Ok(granted_state(source, target_owner))
                        },
                    },
                },
            }
        },
    }
}

/// No slot holding a capability for `object_id` is at the last generation,
/// so every one of them can be bumped.
pub open spec fn revoke_can_commit(slots: Seq<CapabilitySlotState>, object_id: ObjectId) -> bool {
    forall|i: int|
        0 <= i < slots.len() && holds_object(#[trigger] slots[i], object_id)
            ==> slots[i].generation < u32::MAX
}

/// What revoking, with the capability `authority_id` names, the object of
/// the capability `target_id` names comes to before anything is recorded:
/// the event to record, or the error that stops it.
pub open spec fn revoke_plan<L: LiveAuthorityView>(
    slots: Seq<CapabilitySlotState>,
    authority_id: u64,
    target_id: u64,
    live: L,
) -> Result<CapAuditEvent, CapTableError> {
    match lookup(slots, authority_id) {
        Err(e) => Err(e),
        Ok(authority) => match live.spec_live(authority.object_id) {
            Err(e) => Err(CapTableError::LiveAuthority(e)),
            Ok(current) => match live_rejection(
                authority,
                current.spec_generation(),
                current.spec_revocation_epoch(),
            ) {
                Some(e) => Err(CapTableError::Revoke(revocation_error_of(e))),
                None => match lookup(slots, target_id) {
                    Err(e) => Err(e),
                    Ok(target) => match revoke_authority_rejection(authority, target.object_id) {
                        Some(e) => Err(CapTableError::Revoke(e)),
                        None => {
                            let count = object_prefix(slots, target.object_id, slots.len() as int);
                            if !revoke_can_commit(slots, target.object_id) {
                                Err(CapTableError::GenerationOverflow)
                            } else if count > u32::MAX {
                                Err(CapTableError::RevokeCountOverflow)
                            } else {
                                Ok(
                                    CapAuditEvent {
                                        action: CapAuditAction::Revoke,
                                        object_id: target.object_id,
                                        source_owner: authority.owner,
                                        target_owner: target.owner,
                                        perms: CapPerms::from_spec_bits(PERM_REVOKE),
                                        generation: target.generation,
                                        revocation_epoch: target.revocation_epoch,
                                        affected_slots: count as u32,
                                    },
                                )
                            }
                        },
                    },
                },
            },
        },
    }
}

/// Counting capabilities of an object over a longer prefix never gives
/// less.
pub proof fn lemma_object_prefix_monotone(
    slots: Seq<CapabilitySlotState>,
    object_id: ObjectId,
    a: int,
    b: int,
)
    requires
        a <= b,
    ensures
        object_prefix(slots, object_id, a) <= object_prefix(slots, object_id, b),
    decreases b - a,
{
    if a < b {
        lemma_object_prefix_monotone(slots, object_id, a, b - 1);
    }
}

impl<const SLOTS: usize> View for CapabilityTable<SLOTS> {
    type V = Seq<CapabilitySlotState>;

    closed spec fn view(&self) -> Seq<CapabilitySlotState> {
        Seq::new(self.slots@.len(), |i: int| self.slots@[i].state())
    }
}

impl<const SLOTS: usize> CapabilityTable<SLOTS> {
    proof fn lemma_view_slot(&self, i: int)
        requires
            0 <= i < self.slots@.len(),
        ensures
            self@.len() == self.slots@.len(),
            self@[i] == self.slots@[i].state(),
    {
    }

    /// Every slot exists and carries a nonzero generation.
    pub open spec fn wf(&self) -> bool {
        &&& self@.len() == SLOTS
        &&& forall|i: int| 0 <= i < self@.len() ==> #[trigger] self@[i].generation != 0
    }

    /// An empty table: every slot vacant at the initial generation.
    pub fn new() -> (r: Self)
        ensures
            r.wf(),
            forall|i: int|
                0 <= i < SLOTS ==> #[trigger] r@[i] == (CapabilitySlotState {
                    cap: None,
                    generation: INITIAL_SLOT_GENERATION,
                }),
    {
        let mut slots: Vec<CapabilitySlot> = Vec::new();
        let mut index: usize = 0;
        while index < SLOTS
            invariant
                index <= SLOTS,
                slots@.len() == index,
                forall|i: int|
                    0 <= i < index ==> #[trigger] slots@[i].state() == (CapabilitySlotState {
                        cap: None,
                        generation: INITIAL_SLOT_GENERATION,
                    }),
            decreases SLOTS - index,
        {
            slots.push(CapabilitySlot { cap: None, generation: INITIAL_SLOT_GENERATION });
            index += 1;
        }
        CapabilityTable { slots }
    }

    /// The number of slots.
    pub fn capacity(&self) -> (r: usize)
        ensures
            r == SLOTS,
    {
        SLOTS
    }

    /// The number of slots holding a capability.
    pub fn occupied_slots(&self) -> (r: usize)
        requires
            self.wf(),
        ensures
            r == occupied_prefix(self@, self@.len() as int),
    {
        let mut occupied: usize = 0;
        let mut index: usize = 0;
        while index < self.slots.len()
            invariant
                index <= self.slots@.len(),
                self@.len() == self.slots@.len(),
                occupied == occupied_prefix(self@, index as int),
                occupied <= index,
            decreases self.slots@.len() - index,
        {
            proof {
                self.lemma_view_slot(index as int);
            }
            if self.slots[index].is_occupied() {
                occupied += 1;
            }
            index += 1;
        }
        occupied
    }

    fn vacant_slot(&self) -> (r: Option<usize>)
        requires
            self.wf(),
        ensures
            match first_vacant(self@) {
                Some(i) => r == Some(i as usize) && 0 <= i < SLOTS && self@[i].cap is None,
                None => r is None,
            },
            r matches Some(i) ==> i < SLOTS,
    {
        proof {
            lemma_first_vacant_from(self@, 0);
        }
        let mut index: usize = 0;
        while index < self.slots.len()
            invariant
                index <= self.slots@.len(),
                self.slots@.len() == SLOTS,
                self@.len() == self.slots@.len(),
                first_vacant(self@) == first_vacant_from(self@, index as int),
            decreases self.slots@.len() - index,
        {
            proof {
                self.lemma_view_slot(index as int);
            }
            if !self.slots[index].is_occupied() {
                return Some(index);
            }
            index += 1;
        }
        None
    }

    /// Resolves `id` to the capability it names.
    pub fn get(&self, id: CapId) -> (r: Result<&Capability, CapTableError>)
        requires
            self.wf(),
        ensures
            match r {
                Ok(cap) => lookup(self@, id.0) == Ok::<CapabilityState, CapTableError>(cap@),
                Err(e) => lookup(self@, id.0) == Err::<CapabilityState, CapTableError>(e),
            },
    {
        let parts = match CapIdParts::from_cap_id(id) {
            Ok(parts) => parts,
            Err(error) => return Err(CapTableError::Id(error)),
        };
        let slot = parts.slot().get() as usize;
        if slot >= self.slots.len() {
            return Err(CapTableError::SlotOutOfRange);
        }
        proof {
            self.lemma_view_slot(slot as int);
        }
        let entry = &self.slots[slot];
        if entry.generation != parts.generation().get() {
            return Err(CapTableError::StaleId);
        }
        match &entry.cap {
            Some(cap) => Ok(cap),
            None => Err(CapTableError::EmptySlot),
        }
    }

    /// Resolves `id` and checks that it holds every permission of
    /// `required`.
    pub fn check(&self, id: CapId, required: CapPerms) -> (r: Result<&Capability, CapTableError>)
        requires
            self.wf(),
        ensures
            match lookup(self@, id.0) {
                Err(e) => r == Err::<&Capability, CapTableError>(e),
                Ok(cap) => if cap.perms.spec_contains(required) {
                    r matches Ok(c) && c@ == cap
                } else {
                    r == Err::<&Capability, CapTableError>(CapTableError::MissingPermission)
                },
            },
    {
        let cap = match self.get(id) {
            Ok(cap) => cap,
            Err(error) => return Err(error),
        };
        if !cap.allows(required) {
            return Err(CapTableError::MissingPermission);
        }
        Ok(cap)
    }

    /// Stores whole-object authority in the first vacant slot and returns its
    /// identifier.
    pub fn insert_root(
        &mut self,
        object_id: ObjectId,
        kind: CapKind,
        owner: PrincipalId,
        perms: CapPerms,
        object_generation: u32,
        revocation_epoch: u64,
    ) -> (r: Result<CapId, CapTableError>)
        requires
            old(self).wf(),
        ensures
            final(self).wf(),
            match first_vacant(old(self)@) {
                None => r == Err::<CapId, CapTableError>(CapTableError::TableFull),
                Some(i) => if i > u32::MAX {
                    r == Err::<CapId, CapTableError>(CapTableError::SlotOutOfRange)
                } else if object_generation == 0 {
                    r == Err::<CapId, CapTableError>(CapTableError::Id(CapIdError::ZeroGeneration))
                } else {
                    let root = CapabilityState {
                        object_id,
                        base: None,
                        len: None,
                        perms,
                        owner,
                        generation: object_generation,
                        revocation_epoch,
                        kind,
                    };
                    &&& r == Ok::<CapId, CapTableError>(
                        CapId(pack_cap_id(i as u32, old(self)@[i].generation)),
                    )
                    &&& final(self)@ == stored(old(self)@, i, root)
                    &&& lookup(final(self)@, r->Ok_0.0) == Ok::<CapabilityState, CapTableError>(root)
                },
            },
            r is Err ==> final(self)@ == old(self)@,
    {
        let slot = match self.vacant_slot() {
            Some(slot) => slot,
            None => return Err(CapTableError::TableFull),
        };
        let slot_index = match slot_index(slot) {
            Ok(index) => index,
            Err(error) => return Err(error),
        };
        let cap = match Capability::new_root(
            object_id,
            kind,
            owner,
            perms,
            object_generation,
            revocation_epoch,
        ) {
            Ok(cap) => cap,
            Err(error) => return Err(CapTableError::Id(error)),
        };
        proof {
            self.lemma_view_slot(slot as int);
            assert(self@[slot as int].generation != 0);
        }
        let generation = self.slots[slot].generation;
        let id = cap_id_for_slot(slot_index, generation);
        let ghost cap_state = cap@;
        self.store(slot, cap);
        proof {
            lemma_cap_id_round_trip(slot as u32, generation, id.0);
        }
        Ok(id)
    }

    fn store(&mut self, slot: usize, cap: Capability)
        requires
            old(self).wf(),
            slot < old(self)@.len(),
        ensures
            final(self).wf(),
            final(self)@ == stored(old(self)@, slot as int, cap@),
    {
        self.slots[slot].cap = Some(cap);
        proof {
            assert(self@ =~= stored(old(self)@, slot as int, cap@));
        }
    }

    /// Derives a child of the capability named by `source_id` into the first
    /// vacant slot, after checking the source against the object's live
    /// generation and epoch.
    ///
    /// The table is unchanged on every error, and nothing is audited when the
    /// table is full or the source cannot be resolved.
    pub fn derive_with_audit<L: LiveAuthorityView, A: CapAuditLog>(
        &mut self,
        source_id: CapId,
        request: DeriveRequest,
        live: &L,
        audit: &mut A,
    ) -> (r: Result<CapId, CapTableError>)
        requires
            old(self).wf(),
        ensures
            final(self).wf(),
            match derive_plan(old(self)@, source_id.0, request, *live) {
                Err(e) => r == Err::<CapId, CapTableError>(e) && final(self)@ == old(self)@
                    && *final(audit) == *old(audit),
                Ok(child) => {
                    let i = first_vacant(old(self)@)->0;
                    let source = lookup(old(self)@, source_id.0)->Ok_0;
                    &&& audited(
                        *old(audit),
                        *final(audit),
                        movement_event(CapAuditAction::Derive, source.owner, child),
                        r is Ok,
                    )
                    &&& match r {
                        Ok(id) => {
                            &&& id.0 == pack_cap_id(i as u32, old(self)@[i].generation)
                            &&& final(self)@ == stored(old(self)@, i, child)
                            &&& lookup(final(self)@, id.0) == Ok::<CapabilityState, CapTableError>(
                                child,
                            )
                        },
                        Err(e) => e == CapTableError::AuditRejected && final(self)@ == old(self)@,
                    }
                },
            },
    {
        let slot = match self.vacant_slot() {
            Some(slot) => slot,
            None => return Err(CapTableError::TableFull),
        };
        let slot_index = match slot_index(slot) {
            Ok(index) => index,
            Err(error) => return Err(error),
        };
        proof {
            self.lemma_view_slot(slot as int);
            assert(self@[slot as int].generation != 0);
        }
        let generation = self.slots[slot].generation;
        let id = cap_id_for_slot(slot_index, generation);
        let child = {
            let source = match self.get(source_id) {
                Ok(source) => source,
                Err(error) => return Err(error),
            };
            let current = match live.live_authority(source.object_id()) {
                Ok(current) => current,
                Err(error) => return Err(CapTableError::LiveAuthority(error)),
            };
            match source.derive_live_with_audit(
                request,
                current.generation(),
                current.revocation_epoch(),
                audit,
            ) {
                Ok(child) => child,
                Err(error) => return Err(table_error_from(error)),
            }
        };
        self.store(slot, child);
        proof {
            lemma_cap_id_round_trip(slot as u32, generation, id.0);
        }
        Ok(id)
    }

    /// Grants the capability named by `source_id` to `target_owner` into the
    /// first vacant slot, after checking the source against the object's live
    /// generation and epoch.
    pub fn grant_with_audit<L: LiveAuthorityView, A: CapAuditLog>(
        &mut self,
        source_id: CapId,
        target_owner: PrincipalId,
        live: &L,
        audit: &mut A,
    ) -> (r: Result<CapId, CapTableError>)
        requires
            old(self).wf(),
        ensures
            final(self).wf(),
            match grant_plan(old(self)@, old(self)@, source_id.0, target_owner, *live) {
                Err(e) => r == Err::<CapId, CapTableError>(e) && final(self)@ == old(self)@
                    && *final(audit) == *old(audit),
                Ok(child) => {
                    let i = first_vacant(old(self)@)->0;
                    let source = lookup(old(self)@, source_id.0)->Ok_0;
                    &&& audited(
                        *old(audit),
                        *final(audit),
                        movement_event(CapAuditAction::Grant, source.owner, child),
                        r is Ok,
                    )
                    &&& match r {
                        Ok(id) => {
                            &&& id.0 == pack_cap_id(i as u32, old(self)@[i].generation)
                            &&& final(self)@ == stored(old(self)@, i, child)
                            &&& lookup(final(self)@, id.0) == Ok::<CapabilityState, CapTableError>(
                                child,
                            )
                        },
                        Err(e) => e == CapTableError::AuditRejected && final(self)@ == old(self)@,
                    }
                },
            },
    {
        let slot = match self.vacant_slot() {
            Some(slot) => slot,
            None => return Err(CapTableError::TableFull),
        };
        let slot_index = match slot_index(slot) {
            Ok(index) => index,
            Err(error) => return Err(error),
        };
        proof {
            self.lemma_view_slot(slot as int);
            assert(self@[slot as int].generation != 0);
        }
        let generation = self.slots[slot].generation;
        let id = cap_id_for_slot(slot_index, generation);
        let child = {
            let source = match self.get(source_id) {
                Ok(source) => source,
                Err(error) => return Err(error),
            };
            let current = match live.live_authority(source.object_id()) {
                Ok(current) => current,
                Err(error) => return Err(CapTableError::LiveAuthority(error)),
            };
            match source.grant_live_with_audit(
                target_owner,
                current.generation(),
                current.revocation_epoch(),
                audit,
            ) {
                Ok(child) => child,
                Err(error) => return Err(table_error_from(error)),
            }
        };
        self.store(slot, child);
        proof {
            lemma_cap_id_round_trip(slot as u32, generation, id.0);
        }
        Ok(id)
    }

    /// Grants the capability named by `source_id` to `target_owner` into the
    /// first vacant slot of `receiver`; this table is not changed.
    pub fn grant_to_table_with_audit<const RECEIVER_SLOTS: usize, L: LiveAuthorityView, A: CapAuditLog>(
        &self,
        source_id: CapId,
        receiver: &mut CapabilityTable<RECEIVER_SLOTS>,
        target_owner: PrincipalId,
        live: &L,
        audit: &mut A,
    ) -> (r: Result<CapId, CapTableError>)
        requires
            self.wf(),
            old(receiver).wf(),
        ensures
            final(receiver).wf(),
            match grant_plan(old(receiver)@, self@, source_id.0, target_owner, *live) {
                Err(e) => r == Err::<CapId, CapTableError>(e) && final(receiver)@ == old(receiver)@
                    && *final(audit) == *old(audit),
                Ok(child) => {
                    let i = first_vacant(old(receiver)@)->0;
                    let source = lookup(self@, source_id.0)->Ok_0;
                    &&& audited(
                        *old(audit),
                        *final(audit),
                        movement_event(CapAuditAction::Grant, source.owner, child),
                        r is Ok,
                    )
                    &&& match r {
                        Ok(id) => {
                            &&& id.0 == pack_cap_id(i as u32, old(receiver)@[i].generation)
                            &&& final(receiver)@ == stored(old(receiver)@, i, child)
                            &&& lookup(final(receiver)@, id.0) == Ok::<
                                CapabilityState,
                                CapTableError,
                            >(child)
                        },
                        Err(e) => e == CapTableError::AuditRejected && final(receiver)@ == old(
                            receiver,
                        )@,
                    }
                },
            },
    {
        let slot = match receiver.vacant_slot() {
            Some(slot) => slot,
            None => return Err(CapTableError::TableFull),
        };
        let slot_index = match slot_index(slot) {
            Ok(index) => index,
            Err(error) => return Err(error),
        };
        proof {
            receiver.lemma_view_slot(slot as int);
            assert(receiver@[slot as int].generation != 0);
        }
        let generation = receiver.slots[slot].generation;
        let id = cap_id_for_slot(slot_index, generation);
        let source = match self.get(source_id) {
            Ok(source) => source,
            Err(error) => return Err(error),
        };
        let current = match live.live_authority(source.object_id()) {
            Ok(current) => current,
            Err(error) => return Err(CapTableError::LiveAuthority(error)),
        };
        let child = match source.grant_live_with_audit(
            target_owner,
            current.generation(),
            current.revocation_epoch(),
            audit,
        ) {
            Ok(child) => child,
            Err(error) => return Err(table_error_from(error)),
        };
        receiver.store(slot, child);
        proof {
            lemma_cap_id_round_trip(slot as u32, generation, id.0);
        }
        Ok(id)
    }

    /// Revokes every in-table capability for the target object's authority
    /// epoch, including the authority capability used for the revoke.
    ///
    /// Every emptied slot gets a new generation, so every identifier issued
    /// for it before becomes stale. Slot generations fail instead of
    /// wrapping. The table is unchanged on every error, and nothing is
    /// audited unless the revoke is authorized and can commit.
    pub fn revoke_with_audit<L: LiveAuthorityView, A: CapAuditLog>(
        &mut self,
        authority_id: CapId,
        target_id: CapId,
        live: &L,
        audit: &mut A,
    ) -> (r: Result<u32, CapTableError>)
        requires
            old(self).wf(),
        ensures
            final(self).wf(),
            match revoke_plan(old(self)@, authority_id.0, target_id.0, *live) {
                Err(e) => r == Err::<u32, CapTableError>(e) && final(self)@ == old(self)@
                    && *final(audit) == *old(audit),
                Ok(event) => {
                    &&& audited(*old(audit), *final(audit), event, r is Ok)
                    &&& match r {
                        Ok(n) => {
                            &&& n == event.affected_slots
                            &&& final(self)@ == revoked_table(old(self)@, event.object_id)
                            &&& forall|i: int|
                                0 <= i < final(self)@.len() ==> !holds_object(
                                    #[trigger] final(self)@[i],
                                    event.object_id,
                                )
                        },
                        Err(e) => e == CapTableError::AuditRejected && final(self)@ == old(self)@,
                    }
                },
            },
    {
        let (target_object, source_owner, target_owner, target_generation, target_epoch) = {
            let authority = match self.get(authority_id) {
                Ok(authority) => authority,
                Err(error) => return Err(error),
            };
            let current = match live.live_authority(authority.object_id()) {
                Ok(current) => current,
                Err(error) => return Err(CapTableError::LiveAuthority(error)),
            };
            match authority.validate_live(current.generation(), current.revocation_epoch()) {
                Ok(()) => {},
                Err(error) => return Err(CapTableError::Revoke(revocation_error_from(error))),
            }
            let source_owner = authority.owner();
            let target = match self.get(target_id) {
                Ok(target) => target,
                Err(error) => return Err(error),
            };
            let target_object = target.object_id();
            let target_owner = target.owner();
            let target_generation = target.generation();
            let target_epoch = target.revocation_epoch();
            match ensure_revoke_authority(authority, target_object) {
                Ok(()) => {},
                Err(error) => return Err(CapTableError::Revoke(error)),
            }
            (target_object, source_owner, target_owner, target_generation, target_epoch)
        };
        match self.validate_revoke_can_commit(target_object) {
            Ok(()) => {},
            Err(error) => return Err(error),
        }
        let revoked = match self.count_revoke_targets(target_object) {
            Ok(revoked) => revoked,
            Err(error) => return Err(error),
        };
        let revoke_perms = CapPerms::REVOKE();
        proof {
            CapPerms::lemma_bits_determine(revoke_perms, PERM_REVOKE);
        }
        let event = CapAuditEvent {
            action: CapAuditAction::Revoke,
            object_id: target_object,
            source_owner,
            target_owner,
            perms: revoke_perms,
            generation: target_generation,
            revocation_epoch: target_epoch,
            affected_slots: revoked,
        };
        match audit.record(event) {
            Ok(()) => {},
            Err(_error) => return Err(CapTableError::AuditRejected),
        }
        self.clear_object(target_object);
        Ok(revoked)
    }

    fn validate_revoke_can_commit(&self, object_id: ObjectId) -> (r: Result<(), CapTableError>)
        requires
            self.wf(),
        ensures
            r is Ok <==> forall|i: int|
                0 <= i < self@.len() && holds_object(#[trigger] self@[i], object_id)
                    ==> self@[i].generation < u32::MAX,
            r is Err ==> r == Err::<(), CapTableError>(CapTableError::GenerationOverflow),
    {
        let mut index: usize = 0;
        while index < self.slots.len()
            invariant
                index <= self.slots@.len(),
                self@.len() == self.slots@.len(),
                forall|i: int|
                    0 <= i < index && holds_object(#[trigger] self@[i], object_id)
                        ==> self@[i].generation < u32::MAX,
            decreases self.slots@.len() - index,
        {
            proof {
                self.lemma_view_slot(index as int);
            }
            let slot = &self.slots[index];
            let holds = match &slot.cap {
                Some(cap) => cap.object_id() == object_id,
                None => false,
            };
            assert(holds == holds_object(self@[index as int], object_id));
            if holds && slot.generation == u32::MAX {
                return Err(CapTableError::GenerationOverflow);
            }
            index += 1;
        }
        Ok(())
    }

    fn count_revoke_targets(&self, object_id: ObjectId) -> (r: Result<u32, CapTableError>)
        requires
            self.wf(),
        ensures
            match r {
                Ok(n) => n == object_prefix(self@, object_id, self@.len() as int),
                Err(e) => e == CapTableError::RevokeCountOverflow && object_prefix(
                    self@,
                    object_id,
                    self@.len() as int,
                ) > u32::MAX,
            },
    {
        let mut revoked: u32 = 0;
        let mut index: usize = 0;
        while index < self.slots.len()
            invariant
                index <= self.slots@.len(),
                self@.len() == self.slots@.len(),
                revoked == object_prefix(self@, object_id, index as int),
            decreases self.slots@.len() - index,
        {
            proof {
                self.lemma_view_slot(index as int);
            }
            let holds = match &self.slots[index].cap {
                Some(cap) => cap.object_id() == object_id,
                None => false,
            };
            assert(holds == holds_object(self@[index as int], object_id));
            if holds {
                revoked = match revoked.checked_add(1) {
                    Some(count) => count,
                    None => {
                        proof {
                            lemma_object_prefix_monotone(
                                self@,
                                object_id,
                                index as int + 1,
                                self@.len() as int,
                            );
                        }
                        return Err(CapTableError::RevokeCountOverflow);
                    },
                };
            }
            index += 1;
        }
        Ok(revoked)
    }

    fn clear_object(&mut self, object_id: ObjectId)
        requires
            old(self).wf(),
            forall|i: int|
                0 <= i < old(self)@.len() && holds_object(#[trigger] old(self)@[i], object_id)
                    ==> old(self)@[i].generation < u32::MAX,
        ensures
            final(self).wf(),
            final(self)@ == revoked_table(old(self)@, object_id),
    {
        let ghost before = self@;
        let mut index: usize = 0;
        while index < self.slots.len()
            invariant
                index <= self.slots@.len(),
                self@.len() == before.len(),
                self.slots@.len() == before.len(),
                before.len() == SLOTS,
                forall|i: int|
                    0 <= i < before.len() && holds_object(#[trigger] before[i], object_id)
                        ==> before[i].generation < u32::MAX,
                forall|i: int| 0 <= i < before.len() ==> #[trigger] before[i].generation != 0,
                forall|i: int|
                    0 <= i < index ==> #[trigger] self@[i] == revoked_slot(before[i], object_id),
                forall|i: int| index <= i < before.len() ==> #[trigger] self@[i] == before[i],
            decreases self.slots@.len() - index,
        {
            proof {
                self.lemma_view_slot(index as int);
            }
            let holds = match &self.slots[index].cap {
                Some(cap) => cap.object_id() == object_id,
                None => false,
            };
            assert(holds == holds_object(before[index as int], object_id));
            let ghost prev = self@;
            if holds {
                let generation = self.slots[index].generation;
                self.slots[index] = CapabilitySlot { cap: None, generation: generation + 1 };
            }
            proof {
                self.lemma_view_slot(index as int);
                assert(self@ =~= prev.update(
                    index as int,
                    revoked_slot(before[index as int], object_id),
                ));
            }
            index += 1;
        }
        assert(self@ =~= revoked_table(before, object_id));
    }
}

impl<const SLOTS: usize> Default for CapabilityTable<SLOTS> {
    fn default() -> (r: Self)
        ensures
            r.wf(),
            forall|i: int|
                0 <= i < SLOTS ==> #[trigger] r@[i] == (CapabilitySlotState {
                    cap: None,
                    generation: INITIAL_SLOT_GENERATION,
                }),
    {
        Self::new()
    }
}

#[derive(Clone, Copy, Debug, PartialEq, Eq, Structural)]
pub enum CapTableError {
    AuditRejected,
    EmptySlot,
    GenerationOverflow,
    Id(CapIdError),
    LiveAuthority(LiveAuthorityError),
    MissingPermission,
    Revoke(RevocationError),
    RevokeCountOverflow,
    SlotOutOfRange,
    StaleId,
    TableFull,
}

/// Maps a derivation or grant error to the table error it stands for.
pub fn table_error_from(error: DeriveError) -> (r: CapTableError)
    ensures
        r == table_error_of(error),
{
    match error {
        DeriveError::AuditRejected => CapTableError::AuditRejected,
        DeriveError::MissingDerivePermission => CapTableError::MissingPermission,
        DeriveError::MissingGrantPermission => CapTableError::MissingPermission,
        DeriveError::ParentRevoked => CapTableError::StaleId,
        DeriveError::ParentStaleGeneration => CapTableError::StaleId,
        DeriveError::PermissionsEscalate => CapTableError::MissingPermission,
        DeriveError::RangeEscalates => CapTableError::MissingPermission,
    }
}

impl From<CapIdError> for CapTableError {
    fn from(error: CapIdError) -> (r: Self) {
        CapTableError::Id(error)
    }
}

impl vstd::std_specs::convert::FromSpecImpl<CapIdError> for CapTableError {
    open spec fn obeys_from_spec() -> bool {
        true
    }

    open spec fn from_spec(v: CapIdError) -> Self {
        CapTableError::Id(v)
    }
}

impl From<LiveAuthorityError> for CapTableError {
    fn from(error: LiveAuthorityError) -> (r: Self) {
        CapTableError::LiveAuthority(error)
    }
}

impl vstd::std_specs::convert::FromSpecImpl<LiveAuthorityError> for CapTableError {
    open spec fn obeys_from_spec() -> bool {
        true
    }

    open spec fn from_spec(v: LiveAuthorityError) -> Self {
        CapTableError::LiveAuthority(v)
    }
}

impl From<CapValidationError> for CapTableError {
    fn from(error: CapValidationError) -> (r: Self) {
        CapTableError::Revoke(revocation_error_from(error))
    }
}

impl vstd::std_specs::convert::FromSpecImpl<CapValidationError> for CapTableError {
    open spec fn obeys_from_spec() -> bool {
        true
    }

    open spec fn from_spec(v: CapValidationError) -> Self {
        CapTableError::Revoke(revocation_error_of(v))
    }
}

impl From<DeriveError> for CapTableError {
    fn from(error: DeriveError) -> (r: Self) {
        table_error_from(error)
    }
}

impl vstd::std_specs::convert::FromSpecImpl<DeriveError> for CapTableError {
    open spec fn obeys_from_spec() -> bool {
        true
    }

    open spec fn from_spec(v: DeriveError) -> Self {
        table_error_of(v)
    }
}

impl From<RevocationError> for CapTableError {
    fn from(error: RevocationError) -> (r: Self) {
        CapTableError::Revoke(error)
    }
}

impl vstd::std_specs::convert::FromSpecImpl<RevocationError> for CapTableError {
    open spec fn obeys_from_spec() -> bool {
        true
    }

    open spec fn from_spec(v: RevocationError) -> Self {
        CapTableError::Revoke(v)
    }
}

/// The current generation and revocation epoch of an object.
#[derive(Clone, Copy, Debug, PartialEq, Eq, Structural)]
pub struct LiveAuthorityState {
    generation: u32,
    revocation_epoch: u64,
}

impl LiveAuthorityState {
    pub closed spec fn spec_generation(self) -> u32 {
        self.generation
    }

    pub closed spec fn spec_revocation_epoch(self) -> u64 {
        self.revocation_epoch
    }

    pub fn new(generation: u32, revocation_epoch: u64) -> (r: Self)
        ensures
            r.spec_generation() == generation,
            r.spec_revocation_epoch() == revocation_epoch,
    {
        LiveAuthorityState { generation, revocation_epoch }
    }

    #[verifier::when_used_as_spec(spec_generation)]
    pub fn generation(self) -> (r: u32)
        ensures
            r == self.spec_generation(),
    {
        self.generation
    }

    #[verifier::when_used_as_spec(spec_revocation_epoch)]
    pub fn revocation_epoch(self) -> (r: u64)
        ensures
            r == self.spec_revocation_epoch(),
    {
        self.revocation_epoch
    }
}

/// Source of the live generation and revocation epoch of objects.
/// Source of each object's current generation and revocation epoch.
///
/// The default description is that of a view that knows no object; an
/// implementation that reports objects describes itself by overriding
/// `spec_live`.
pub trait LiveAuthorityView {
    /// What the view reports for `object_id`.
    closed spec fn spec_live(&self, object_id: ObjectId) -> Result<
        LiveAuthorityState,
        LiveAuthorityError,
    > {
        Err(LiveAuthorityError::ObjectNotFound)
    }

    fn live_authority(&self, object_id: ObjectId) -> (r: Result<LiveAuthorityState, LiveAuthorityError>)
        ensures
            r == self.spec_live(object_id),
    ;
}

#[derive(Clone, Copy, Debug, PartialEq, Eq, Structural)]
pub enum LiveAuthorityError {
    ObjectNotFound,
}

fn cap_id_for_slot(slot: CapSlotIndex, generation: u32) -> (r: CapId)
    requires
        generation != 0,
    ensures
        r.0 == pack_cap_id(slot.0, generation),
{
    let generation = match CapGeneration::new(generation) {
        Ok(generation) => generation,
        Err(_error) => {
            return CapId(0);
        },
    };
    CapIdParts::new(slot, generation).cap_id()
}

fn slot_index(index: usize) -> (r: Result<CapSlotIndex, CapTableError>)
    ensures
        index <= u32::MAX ==> (r matches Ok(s) && s.0 == index),
        index > u32::MAX ==> r == Err::<CapSlotIndex, CapTableError>(CapTableError::SlotOutOfRange),
{
    if index > 0xffff_ffffusize {
        return Err(CapTableError::SlotOutOfRange);
    }
    Ok(CapSlotIndex(index as u32))
}

/// After a successful revoke of an object, no identifier that named one of
/// its capabilities before the revoke resolves any more: each such lookup
/// reports a stale identifier.
pub proof fn lemma_revoke_makes_ids_stale(
    slots: Seq<CapabilitySlotState>,
    object_id: ObjectId,
    id: u64,
)
    requires
        lookup(slots, id) matches Ok(cap) && cap.object_id == object_id,
        forall|i: int|
            0 <= i < slots.len() && holds_object(#[trigger] slots[i], object_id)
                ==> slots[i].generation < u32::MAX,
    ensures
        lookup(revoked_table(slots, object_id), id) == Err::<CapabilityState, CapTableError>(
            CapTableError::StaleId,
        ),
{
    let slot = cap_id_slot(id) as int;
    assert(holds_object(slots[slot], object_id));
}

} // verus!
