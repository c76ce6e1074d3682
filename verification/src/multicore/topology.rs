use vstd::prelude::*;

use crate::abi::{CoreId, CpuHardwareId};
use crate::multicore::capabilities::CoreCapabilitySet;
use crate::multicore::error::CoreError;
use crate::multicore::local::{CoreLocal, CoreLocalTelemetry, CoreState};
use crate::multicore::role::CoreRole;
use crate::multicore::startup::{CoreStartupArrival, CoreStartupTicket};
use crate::multicore::startup_state::{
    CoreStartupJointState, joint_state_pre_online, joint_state_valid,
};

verus! {

/// Number of cores of the QEMU multicore smoke topology.
pub const QEMU_MULTICORE_TOPOLOGY_CORES: usize = 4;

/// Hardware lifecycle of a core as the coordinator observes it.
#[derive(Clone, Copy, Debug, PartialEq, Eq, Structural)]
pub enum CoreHardwareState {
    Discovered,
    StartupStaged,
    Online,
    Quarantined,
}

impl CoreHardwareState {
    pub fn is_online(self) -> (r: bool)
        ensures
            r == self is Online,
    {
        match self {
            CoreHardwareState::Online => true,
            _ => false,
        }
    }
}

/// Whether a core has been given a role.
#[derive(Clone, Copy, Debug, PartialEq, Eq, Structural)]
pub enum CoreAssignmentState {
    Unassigned,
    Assigned,
}

impl CoreAssignmentState {
    pub fn is_assigned(self) -> (r: bool)
        ensures
            r == self is Assigned,
    {
        match self {
            CoreAssignmentState::Assigned => true,
            _ => false,
        }
    }
}

/// One core of the topology.
#[derive(Clone, Copy, Debug, PartialEq, Eq, Structural)]
pub struct CoreTopologyEntry {
    hardware_id: CpuHardwareId,
    local: CoreLocal,
    hardware_state: CoreHardwareState,
    assignment_state: CoreAssignmentState,
    startup_epoch: u64,
}

impl CoreTopologyEntry {
    pub closed spec fn spec_hardware_id(self) -> CpuHardwareId {
        self.hardware_id
    }

    pub closed spec fn spec_local(self) -> CoreLocal {
        self.local
    }

    pub closed spec fn spec_hardware_state(self) -> CoreHardwareState {
        self.hardware_state
    }

    pub closed spec fn spec_assignment_state(self) -> CoreAssignmentState {
        self.assignment_state
    }

    /// Topology epoch at which the core was staged for startup; zero before.
    pub closed spec fn spec_startup_epoch(self) -> u64 {
        self.startup_epoch
    }

    pub open spec fn spec_core(self) -> CoreId {
        self.spec_local().spec_id()
    }

    /// The entry's hardware and local states are jointly valid.
    pub open spec fn valid(self) -> bool {
        joint_state_valid(self.spec_hardware_state(), self.spec_local().spec_state())
    }

    /// A freshly discovered, unassigned, offline idle core.
    pub fn discovered(core: CoreId, hardware_id: CpuHardwareId, capabilities: CoreCapabilitySet) -> (r:
        Self)
        ensures
            r.spec_core() == core,
            r.spec_hardware_id() == hardware_id,
            r.spec_local().spec_capabilities() == capabilities,
            r.spec_local().spec_role() is Idle,
            r.spec_local().spec_state() is Offline,
            r.spec_local().spec_telemetry().spec_role_assignments() == 0,
            r.spec_local().spec_telemetry().spec_local_events() == 0,
            r.spec_local().spec_telemetry().spec_boot_barrier_arrivals() == 0,
            r.spec_hardware_state() is Discovered,
            r.spec_assignment_state() is Unassigned,
            r.spec_startup_epoch() == 0,
            r.valid(),
    {
        CoreTopologyEntry {
            hardware_id,
            local: CoreLocal::new(core, CoreRole::Idle, capabilities, CoreState::Offline),
            hardware_state: CoreHardwareState::Discovered,
            assignment_state: CoreAssignmentState::Unassigned,
            startup_epoch: 0,
        }
    }

    pub fn core_id(self) -> (r: CoreId)
        ensures
            r == self.spec_core(),
    {
        self.local.id()
    }

    pub fn hardware_id(self) -> (r: CpuHardwareId)
        ensures
            r == self.spec_hardware_id(),
    {
        self.hardware_id
    }

    pub fn role(self) -> (r: CoreRole)
        ensures
            r == self.spec_local().spec_role(),
    {
        self.local.role()
    }

    pub fn capabilities(self) -> (r: CoreCapabilitySet)
        ensures
            r == self.spec_local().spec_capabilities(),
    {
        self.local.capabilities()
    }

    pub fn hardware_state(self) -> (r: CoreHardwareState)
        ensures
            r == self.spec_hardware_state(),
    {
        self.hardware_state
    }

    pub fn assignment_state(self) -> (r: CoreAssignmentState)
        ensures
            r == self.spec_assignment_state(),
    {
        self.assignment_state
    }

    pub fn local_state(self) -> (r: CoreState)
        ensures
            r == self.spec_local().spec_state(),
    {
        self.local.state()
    }

    pub fn telemetry(self) -> (r: CoreLocalTelemetry)
        ensures
            r == self.spec_local().spec_telemetry(),
    {
        self.local.telemetry()
    }

    fn joint_state(self) -> (r: CoreStartupJointState)
        ensures
            r.hardware_state == self.spec_hardware_state(),
            r.assignment_state == self.spec_assignment_state(),
            r.local_state == self.spec_local().spec_state(),
    {
        CoreStartupJointState::new(self.hardware_state, self.assignment_state, self.local.state())
    }
}

/// The entry counts towards the role totals: it is assigned and not
/// quarantined.
pub open spec fn counts_role(entry: CoreTopologyEntry) -> bool {
    entry.spec_assignment_state() is Assigned && !(entry.spec_hardware_state() is Quarantined)
}

/// Number of the first `n` entries that satisfy `p`.
pub open spec fn count_entries(
    entries: Seq<CoreTopologyEntry>,
    p: spec_fn(CoreTopologyEntry) -> bool,
    n: int,
) -> nat
    decreases n,
{
    if n <= 0 {
        0
    } else {
        count_entries(entries, p, n - 1) + if p(entries[n - 1]) {
            1nat
        } else {
            0nat
        }
    }
}

/// Counting over a prefix never exceeds its length.
pub proof fn lemma_count_entries_bound(
    entries: Seq<CoreTopologyEntry>,
    p: spec_fn(CoreTopologyEntry) -> bool,
    n: int,
)
    requires
        0 <= n,
    ensures
        count_entries(entries, p, n) <= n,
    decreases n,
{
    if n > 0 {
        lemma_count_entries_bound(entries, p, n - 1);
    }
}

/// Counts over the topology.
#[derive(Clone, Copy, Debug, PartialEq, Eq, Structural)]
pub struct CoreTopologyStatus {
    pub owner_core: CoreId,
    pub discovered: usize,
    pub hardware_online: usize,
    pub assigned: usize,
    pub bootstrap_roles: usize,
    pub scheduler_roles: usize,
    pub driver_service_roles: usize,
    pub idle_roles: usize,
    pub capacity: usize,
    pub epoch: u64,
}

impl CoreTopologyStatus {
    pub fn owner_core(self) -> (r: CoreId)
        ensures
            r == self.owner_core,
    {
        self.owner_core
    }

    pub fn discovered(self) -> (r: usize)
        ensures
            r == self.discovered,
    {
        self.discovered
    }

    pub fn hardware_online(self) -> (r: usize)
        ensures
            r == self.hardware_online,
    {
        self.hardware_online
    }

    pub fn assigned(self) -> (r: usize)
        ensures
            r == self.assigned,
    {
        self.assigned
    }

    pub fn bootstrap_roles(self) -> (r: usize)
        ensures
            r == self.bootstrap_roles,
    {
        self.bootstrap_roles
    }

    pub fn scheduler_roles(self) -> (r: usize)
        ensures
            r == self.scheduler_roles,
    {
        self.scheduler_roles
    }

    pub fn driver_service_roles(self) -> (r: usize)
        ensures
            r == self.driver_service_roles,
    {
        self.driver_service_roles
    }

    pub fn idle_roles(self) -> (r: usize)
        ensures
            r == self.idle_roles,
    {
        self.idle_roles
    }

    pub fn capacity(self) -> (r: usize)
        ensures
            r == self.capacity,
    {
        self.capacity
    }

    pub fn epoch(self) -> (r: u64)
        ensures
            r == self.epoch,
    {
        self.epoch
    }
}

/// The cores known to the startup coordinator, their hardware state, role
/// assignment and startup evidence. Only the owner core mutates it; every
/// successful mutation advances the epoch and a failed one changes nothing.
#[derive(Debug, PartialEq, Eq)]
pub struct CoreTopology<const CAPACITY: usize> {
    owner_core: CoreId,
    entries: Vec<CoreTopologyEntry>,
    epoch: u64,
}

/// Some entry is core `core`.
pub open spec fn has_core(entries: Seq<CoreTopologyEntry>, core: CoreId) -> bool {
    exists|i: int| 0 <= i < entries.len() && (#[trigger] entries[i]).spec_core() == core
}

/// Some entry has hardware id `hardware_id`.
pub open spec fn has_hardware_id(entries: Seq<CoreTopologyEntry>, hardware_id: CpuHardwareId) -> bool {
    exists|i: int| 0 <= i < entries.len() && (#[trigger] entries[i]).spec_hardware_id() == hardware_id
}

/// The index of core `core`, when it is present.
pub open spec fn core_index(entries: Seq<CoreTopologyEntry>, core: CoreId) -> int {
    choose|i: int| 0 <= i < entries.len() && (#[trigger] entries[i]).spec_core() == core
}

/// The entry of core `core`, if present.
pub open spec fn entry_of(entries: Seq<CoreTopologyEntry>, core: CoreId) -> Option<CoreTopologyEntry> {
    if has_core(entries, core) {
        Some(entries[core_index(entries, core)])
    } else {
        None
    }
}

/// `after` is `before` with entry `index` replaced by one for which
/// `changed(before[index], after[index])` holds.
pub open spec fn entries_changed_at(
    before: Seq<CoreTopologyEntry>,
    after: Seq<CoreTopologyEntry>,
    index: int,
) -> bool {
    &&& after.len() == before.len()
    &&& forall|j: int| 0 <= j < before.len() && j != index ==> #[trigger] after[j] == before[j]
}

/// The staged form of a discovered entry: booting, one more local event,
/// startup epoch recorded.
pub open spec fn staged_entry(before: CoreTopologyEntry, after: CoreTopologyEntry, epoch: u64) -> bool {
    &&& after.spec_hardware_id() == before.spec_hardware_id()
    &&& after.spec_hardware_state() is StartupStaged
    &&& after.spec_assignment_state() == before.spec_assignment_state()
    &&& after.spec_startup_epoch() == epoch
    &&& after.spec_local().spec_state() is Booting
    &&& after.spec_local().spec_id() == before.spec_local().spec_id()
    &&& after.spec_local().spec_role() == before.spec_local().spec_role()
    &&& after.spec_local().spec_capabilities() == before.spec_local().spec_capabilities()
    &&& after.spec_local().spec_telemetry().spec_local_events() == before.spec_local().spec_telemetry().spec_local_events() + 1
    &&& after.spec_local().spec_telemetry().spec_role_assignments() == before.spec_local().spec_telemetry().spec_role_assignments()
}

/// The online form of a staged entry: online, one more local event.
pub open spec fn online_entry(before: CoreTopologyEntry, after: CoreTopologyEntry) -> bool {
    &&& after.spec_hardware_id() == before.spec_hardware_id()
    &&& after.spec_hardware_state() is Online
    &&& after.spec_assignment_state() == before.spec_assignment_state()
    &&& after.spec_startup_epoch() == before.spec_startup_epoch()
    &&& after.spec_local().spec_state() is Online
    &&& after.spec_local().spec_id() == before.spec_local().spec_id()
    &&& after.spec_local().spec_role() == before.spec_local().spec_role()
    &&& after.spec_local().spec_capabilities() == before.spec_local().spec_capabilities()
    &&& after.spec_local().spec_telemetry().spec_local_events() == before.spec_local().spec_telemetry().spec_local_events() + 1
    &&& after.spec_local().spec_telemetry().spec_role_assignments() == before.spec_local().spec_telemetry().spec_role_assignments()
}

/// The assigned form of an entry: the new role, counted.
pub open spec fn assigned_entry(before: CoreTopologyEntry, after: CoreTopologyEntry, role: CoreRole) -> bool {
    &&& after.spec_hardware_id() == before.spec_hardware_id()
    &&& after.spec_hardware_state() == before.spec_hardware_state()
    &&& after.spec_assignment_state() is Assigned
    &&& after.spec_startup_epoch() == before.spec_startup_epoch()
    &&& after.spec_local().spec_state() == before.spec_local().spec_state()
    &&& after.spec_local().spec_id() == before.spec_local().spec_id()
    &&& after.spec_local().spec_role() == role
    &&& after.spec_local().spec_capabilities() == before.spec_local().spec_capabilities()
    &&& after.spec_local().spec_telemetry().spec_local_events() == before.spec_local().spec_telemetry().spec_local_events()
    &&& after.spec_local().spec_telemetry().spec_role_assignments() == before.spec_local().spec_telemetry().spec_role_assignments() + 1
}

/// The quarantined form of an entry.
pub open spec fn quarantined_entry(before: CoreTopologyEntry, after: CoreTopologyEntry) -> bool {
    &&& after.spec_hardware_id() == before.spec_hardware_id()
    &&& after.spec_hardware_state() is Quarantined
    &&& after.spec_assignment_state() == before.spec_assignment_state()
    &&& after.spec_startup_epoch() == before.spec_startup_epoch()
    &&& after.spec_local().spec_state() is Quarantined
    &&& after.spec_local().spec_id() == before.spec_local().spec_id()
    &&& after.spec_local().spec_role() == before.spec_local().spec_role()
    &&& after.spec_local().spec_capabilities() == before.spec_local().spec_capabilities()
    &&& after.spec_local().spec_telemetry() == before.spec_local().spec_telemetry()
}

impl<const CAPACITY: usize> CoreTopology<CAPACITY> {
    pub closed spec fn spec_owner_core(&self) -> CoreId {
        self.owner_core
    }

    pub closed spec fn spec_entries(&self) -> Seq<CoreTopologyEntry> {
        self.entries@
    }

    pub closed spec fn spec_epoch(&self) -> u64 {
        self.epoch
    }

    /// At most `CAPACITY` entries, no core or hardware id twice, and every
    /// entry's hardware and local states jointly valid.
    pub open spec fn wf(&self) -> bool {
        let entries = self.spec_entries();
        &&& entries.len() <= CAPACITY
        &&& forall|i: int| 0 <= i < entries.len() ==> (#[trigger] entries[i]).valid()
        &&& forall|i: int, j: int|
            0 <= i < entries.len() && 0 <= j < entries.len() && i != j ==> (#[trigger] entries[i]).spec_core()
                != (#[trigger] entries[j]).spec_core()
        &&& forall|i: int, j: int|
            0 <= i < entries.len() && 0 <= j < entries.len() && i != j ==> (#[trigger] entries[i]).spec_hardware_id()
                != (#[trigger] entries[j]).spec_hardware_id()
    }

    /// An empty topology owned by `owner_core`.
    pub fn new(owner_core: CoreId) -> (r: Result<Self, CoreError>)
        ensures
            CAPACITY == 0 ==> r == Err::<Self, CoreError>(CoreError::CapacityZero),
            CAPACITY != 0 ==> (r matches Ok(t) && t.wf() && t.spec_owner_core() == owner_core
                && t.spec_entries().len() == 0 && t.spec_epoch() == 0),
    {
        if CAPACITY == 0 {
            return Err(CoreError::CapacityZero);
        }
        Ok(CoreTopology { owner_core, entries: Vec::new(), epoch: 0 })
    }

    /// The same topology at another epoch.
    pub fn with_epoch_for_test(self, epoch: u64) -> (r: Self)
        ensures
            r.spec_owner_core() == self.spec_owner_core(),
            r.spec_entries() == self.spec_entries(),
            r.spec_epoch() == epoch,
    {
        CoreTopology { owner_core: self.owner_core, entries: self.entries, epoch }
    }

    fn require_owner(&self, caller: CoreId) -> (r: Result<(), CoreError>)
        ensures
            caller == self.spec_owner_core() ==> r is Ok,
            caller != self.spec_owner_core() ==> r == Err::<(), CoreError>(CoreError::OwnerMismatch),
    {
        if caller != self.owner_core {
            return Err(CoreError::OwnerMismatch);
        }
        Ok(())
    }

    fn index_of_core(&self, core: CoreId) -> (r: Option<usize>)
        requires
            self.wf(),
        ensures
            match r {
                Some(i) => i < self.spec_entries().len() && self.spec_entries()[i as int].spec_core()
                    == core && has_core(self.spec_entries(), core) && core_index(
                    self.spec_entries(),
                    core,
                ) == i,
                None => !has_core(self.spec_entries(), core),
            },
    {
        let mut index: usize = 0;
        while index < self.entries.len()
            invariant
                self.wf(),
                index <= self.entries@.len(),
                forall|j: int| 0 <= j < index ==> (#[trigger] self.entries@[j]).spec_core() != core,
            decreases self.entries@.len() - index,
        {
            if self.entries[index].core_id() == core {
                proof {
                    let k = core_index(self.spec_entries(), core);
                    assert(self.spec_entries()[index as int].spec_core() == core);
                    assert(has_core(self.spec_entries(), core));
                    if k != index as int {
                        assert(self.spec_entries()[k].spec_core() != self.spec_entries()[index as int].spec_core());
                    }
                }
                return Some(index);
            }
            index += 1;
        }
        None
    }

    fn index_of_hardware_id(&self, hardware_id: CpuHardwareId) -> (r: Option<usize>)
        requires
            self.wf(),
        ensures
            r is Some <==> has_hardware_id(self.spec_entries(), hardware_id),
    {
        let mut index: usize = 0;
        while index < self.entries.len()
            invariant
                index <= self.entries@.len(),
                forall|j: int|
                    0 <= j < index ==> (#[trigger] self.entries@[j]).spec_hardware_id() != hardware_id,
            decreases self.entries@.len() - index,
        {
            if self.entries[index].hardware_id() == hardware_id {
                assert(self.spec_entries()[index as int].spec_hardware_id() == hardware_id);
                return Some(index);
            }
            index += 1;
        }
        None
    }

    fn next_epoch(&self) -> (r: Result<u64, CoreError>)
        ensures
            self.spec_epoch() < u64::MAX ==> r == Ok::<u64, CoreError>((self.spec_epoch() + 1) as u64),
            self.spec_epoch() == u64::MAX ==> r == Err::<u64, CoreError>(CoreError::TelemetryOverflow),
    {
        match self.epoch.checked_add(1) {
            Some(epoch) => Ok(epoch),
            None => Err(CoreError::TelemetryOverflow),
        }
    }

    /// Records a newly discovered core.
    pub fn insert_discovered(
        &mut self,
        caller: CoreId,
        core: CoreId,
        hardware_id: CpuHardwareId,
        capabilities: CoreCapabilitySet,
    ) -> (r: Result<(), CoreError>)
        requires
            old(self).wf(),
        ensures
            final(self).wf(),
            r is Err ==> *final(self) == *old(self),
            caller != old(self).spec_owner_core() ==> r == Err::<(), CoreError>(CoreError::OwnerMismatch),
            caller == old(self).spec_owner_core() ==> {
                if old(self).spec_entries().len() == CAPACITY {
                    r == Err::<(), CoreError>(CoreError::RegistryFull)
                } else if has_core(old(self).spec_entries(), core) {
                    r == Err::<(), CoreError>(CoreError::DuplicateCore)
                } else if has_hardware_id(old(self).spec_entries(), hardware_id) {
                    r == Err::<(), CoreError>(CoreError::DuplicateHardwareId)
                } else if old(self).spec_epoch() == u64::MAX {
                    r == Err::<(), CoreError>(CoreError::TelemetryOverflow)
                } else {
                    &&& r is Ok
                    &&& final(self).spec_epoch() == old(self).spec_epoch() + 1
                    &&& final(self).spec_owner_core() == old(self).spec_owner_core()
                    &&& final(self).spec_entries().len() == old(self).spec_entries().len() + 1
                    &&& final(self).spec_entries().drop_last() == old(self).spec_entries()
                    &&& final(self).spec_entries().last().spec_core() == core
                    &&& final(self).spec_entries().last().spec_hardware_id() == hardware_id
                    &&& final(self).spec_entries().last().spec_hardware_state() is Discovered
                    &&& final(self).spec_entries().last().spec_assignment_state() is Unassigned
                    &&& final(self).spec_entries().last().spec_local().spec_state() is Offline
                    &&& final(self).spec_entries().last().spec_local().spec_role() is Idle
                    &&& final(self).spec_entries().last().spec_local().spec_capabilities() == capabilities
                }
            },
    {
        match self.require_owner(caller) {
            Ok(()) => {},
            Err(error) => return Err(error),
        }
        if self.entries.len() == CAPACITY {
            return Err(CoreError::RegistryFull);
        }
        if self.index_of_core(core).is_some() {
            return Err(CoreError::DuplicateCore);
        }
        if self.index_of_hardware_id(hardware_id).is_some() {
            return Err(CoreError::DuplicateHardwareId);
        }
        let epoch = match self.next_epoch() {
            Ok(epoch) => epoch,
            Err(error) => return Err(error),
        };
        let entry = CoreTopologyEntry::discovered(core, hardware_id, capabilities);
        let ghost before = self.entries@;
        self.entries.push(entry);
        self.epoch = epoch;
        proof {
            assert(self.entries@.drop_last() =~= before);
            assert forall|i: int, j: int|
                0 <= i < self.entries@.len() && 0 <= j < self.entries@.len() && i != j
                    implies (#[trigger] self.entries@[i]).spec_core() != (#[trigger] self.entries@[j]).spec_core()
                && self.entries@[i].spec_hardware_id() != self.entries@[j].spec_hardware_id() by {
                if i < before.len() && j < before.len() {
                    assert(self.entries@[i] == before[i]);
                    assert(self.entries@[j] == before[j]);
                } else if i < before.len() {
                    assert(self.entries@[i] == before[i]);
                    assert(before[i].spec_core() != core);
                    assert(before[i].spec_hardware_id() != hardware_id);
                } else {
                    assert(self.entries@[j] == before[j]);
                    assert(before[j].spec_core() != core);
                    assert(before[j].spec_hardware_id() != hardware_id);
                }
            }
        }
        Ok(())
    }

    /// Stages a discovered, offline core for startup and returns the ticket
    /// its arrival must match.
    pub fn stage_startup_ticket(&mut self, caller: CoreId, core: CoreId) -> (r: Result<
        CoreStartupTicket,
        CoreError,
    >)
        requires
            old(self).wf(),
        ensures
            final(self).wf(),
            r is Err ==> *final(self) == *old(self),
            caller != old(self).spec_owner_core() ==> (r matches Err(e) && e == CoreError::OwnerMismatch),
            caller == old(self).spec_owner_core() ==> match entry_of(old(self).spec_entries(), core) {
                None => (r matches Err(e) && e == CoreError::UnknownCore),
                Some(entry) => if !(entry.spec_hardware_state() is Discovered
                    && entry.spec_local().spec_state() is Offline) {
                    (r matches Err(e) && e == CoreError::InvalidStateTransition)
                } else if entry.spec_local().spec_telemetry().spec_local_events() == u64::MAX
                    || old(self).spec_epoch() == u64::MAX {
                    (r matches Err(e) && e == CoreError::TelemetryOverflow)
                } else {
                    let i = core_index(old(self).spec_entries(), core);
                    let epoch = (old(self).spec_epoch() + 1) as u64;
                    &&& r matches Ok(ticket) && ticket.spec_target_core() == core
                        && ticket.spec_hardware_id() == entry.spec_hardware_id()
                        && ticket.spec_coordinator_core() == old(self).spec_owner_core()
                        && ticket.spec_startup_epoch() == epoch
                    &&& final(self).spec_epoch() == epoch
                    &&& final(self).spec_owner_core() == old(self).spec_owner_core()
                    &&& entries_changed_at(old(self).spec_entries(), final(self).spec_entries(), i)
                    &&& staged_entry(entry, final(self).spec_entries()[i], epoch)
                },
            },
    {
        match self.require_owner(caller) {
            Ok(()) => {},
            Err(error) => return Err(error),
        }
        let index = match self.index_of_core(core) {
            Some(index) => index,
            None => return Err(CoreError::UnknownCore),
        };
        let mut entry = self.entries[index];
        match entry.joint_state().validate_startup_stage() {
            Ok(()) => {},
            Err(error) => return Err(error),
        }
        match entry.local.telemetry_mut().record_local_event() {
            Ok(()) => {},
            Err(error) => return Err(error),
        }
        let epoch = match self.next_epoch() {
            Ok(epoch) => epoch,
            Err(error) => return Err(error),
        };
        entry.hardware_state = CoreHardwareState::StartupStaged;
        entry.local.set_state(CoreState::Booting);
        entry.startup_epoch = epoch;
        let ghost before = self.entries@;
        self.entries.set(index, entry);
        self.epoch = epoch;
        proof {
            self.lemma_replace_keeps_uniqueness(before, index as int);
        }
        Ok(CoreStartupTicket::new(core, entry.hardware_id, self.owner_core, epoch))
    }

    /// Stages a discovered, offline core for startup on the coordinator's
    /// behalf, without handing out the ticket.
    pub fn stage_startup(&mut self, core: CoreId) -> (r: Result<(), CoreError>)
        requires
            old(self).wf(),
        ensures
            final(self).wf(),
            r is Err ==> *final(self) == *old(self),
            match entry_of(old(self).spec_entries(), core) {
                None => r == Err::<(), CoreError>(CoreError::UnknownCore),
                Some(entry) => if !(entry.spec_hardware_state() is Discovered
                    && entry.spec_local().spec_state() is Offline) {
                    r == Err::<(), CoreError>(CoreError::InvalidStateTransition)
                } else if entry.spec_local().spec_telemetry().spec_local_events() == u64::MAX
                    || old(self).spec_epoch() == u64::MAX {
                    r == Err::<(), CoreError>(CoreError::TelemetryOverflow)
                } else {
                    let i = core_index(old(self).spec_entries(), core);
                    let epoch = (old(self).spec_epoch() + 1) as u64;
                    &&& r == Ok::<(), CoreError>(())
                    &&& final(self).spec_epoch() == epoch
                    &&& final(self).spec_owner_core() == old(self).spec_owner_core()
                    &&& entries_changed_at(old(self).spec_entries(), final(self).spec_entries(), i)
                    &&& staged_entry(entry, final(self).spec_entries()[i], epoch)
                },
            },
    {
        let owner = self.owner_core;
        match self.stage_startup_ticket(owner, core) {
            Ok(_ticket) => Ok(()),
            Err(error) => Err(error),
        }
    }

    proof fn lemma_replace_keeps_uniqueness(&self, before: Seq<CoreTopologyEntry>, index: int)
        requires
            0 <= index < before.len(),
            self.spec_entries() == before.update(index, self.spec_entries()[index]),
            self.spec_entries()[index].spec_core() == before[index].spec_core(),
            self.spec_entries()[index].spec_hardware_id() == before[index].spec_hardware_id(),
            self.spec_entries()[index].valid(),
            before.len() <= CAPACITY,
            forall|i: int| 0 <= i < before.len() ==> (#[trigger] before[i]).valid(),
            forall|i: int, j: int|
                0 <= i < before.len() && 0 <= j < before.len() && i != j ==> (#[trigger] before[i]).spec_core()
                    != (#[trigger] before[j]).spec_core(),
            forall|i: int, j: int|
                0 <= i < before.len() && 0 <= j < before.len() && i != j ==> (#[trigger] before[i]).spec_hardware_id()
                    != (#[trigger] before[j]).spec_hardware_id(),
        ensures
            self.wf(),
            entries_changed_at(before, self.spec_entries(), index),
    {
        let entries = self.spec_entries();
        assert forall|i: int| 0 <= i < entries.len() implies (#[trigger] entries[i]).valid() by {
            if i != index {
                assert(entries[i] == before[i]);
            }
        }
        assert forall|i: int, j: int|
            0 <= i < entries.len() && 0 <= j < entries.len() && i != j implies (#[trigger] entries[i]).spec_core()
                != (#[trigger] entries[j]).spec_core() && entries[i].spec_hardware_id()
                != entries[j].spec_hardware_id() by {
            assert(before[i].spec_core() != before[j].spec_core());
            assert(before[i].spec_hardware_id() != before[j].spec_hardware_id());
        }
    }

    /// Brings a staged core online once its arrival evidence matches what was
    /// staged: the same hardware thread, this coordinator and the staging
    /// epoch.
    pub fn mark_hardware_online(&mut self, caller: CoreId, arrival: CoreStartupArrival) -> (r:
        Result<(), CoreError>)
        requires
            old(self).wf(),
        ensures
            final(self).wf(),
            r is Err ==> *final(self) == *old(self),
            caller != old(self).spec_owner_core() ==> r == Err::<(), CoreError>(CoreError::OwnerMismatch),
            caller == old(self).spec_owner_core() ==> match entry_of(
                old(self).spec_entries(),
                arrival.spec_arrived_core(),
            ) {
                None => r == Err::<(), CoreError>(CoreError::UnknownCore),
                Some(entry) => if !(entry.spec_hardware_state() is StartupStaged
                    && entry.spec_local().spec_state() is Booting) {
                    r == Err::<(), CoreError>(CoreError::InvalidStateTransition)
                } else if arrival.spec_hardware_id() != entry.spec_hardware_id()
                    || arrival.spec_coordinator_core() != old(self).spec_owner_core() {
                    r == Err::<(), CoreError>(CoreError::StartupEvidenceMismatch)
                } else if arrival.spec_startup_epoch() != entry.spec_startup_epoch() {
                    r == Err::<(), CoreError>(CoreError::InvalidStartupEpoch)
                } else if entry.spec_local().spec_telemetry().spec_local_events() == u64::MAX
                    || old(self).spec_epoch() == u64::MAX {
                    r == Err::<(), CoreError>(CoreError::TelemetryOverflow)
                } else {
                    let i = core_index(old(self).spec_entries(), arrival.spec_arrived_core());
                    &&& r is Ok
                    &&& final(self).spec_epoch() == old(self).spec_epoch() + 1
                    &&& final(self).spec_owner_core() == old(self).spec_owner_core()
                    &&& entries_changed_at(old(self).spec_entries(), final(self).spec_entries(), i)
                    &&& online_entry(entry, final(self).spec_entries()[i])
                },
            },
    {
        match self.require_owner(caller) {
            Ok(()) => {},
            Err(error) => return Err(error),
        }
        let index = match self.index_of_core(arrival.arrived_core()) {
            Some(index) => index,
            None => return Err(CoreError::UnknownCore),
        };
        let mut entry = self.entries[index];
        match entry.joint_state().validate_hardware_online() {
            Ok(()) => {},
            Err(error) => return Err(error),
        }
        if arrival.hardware_id() != entry.hardware_id
            || arrival.coordinator_core() != self.owner_core {
            return Err(CoreError::StartupEvidenceMismatch);
        }
        if arrival.startup_epoch() != entry.startup_epoch {
            return Err(CoreError::InvalidStartupEpoch);
        }
        match entry.local.telemetry_mut().record_local_event() {
            Ok(()) => {},
            Err(error) => return Err(error),
        }
        let epoch = match self.next_epoch() {
            Ok(epoch) => epoch,
            Err(error) => return Err(error),
        };
        entry.hardware_state = CoreHardwareState::Online;
        entry.local.set_state(CoreState::Online);
        let ghost before = self.entries@;
        self.entries.set(index, entry);
        self.epoch = epoch;
        proof {
            self.lemma_replace_keeps_uniqueness(before, index as int);
        }
        Ok(())
    }

    /// Assigns a role to a core that is not yet online.
    pub fn assign_role(&mut self, caller: CoreId, core: CoreId, role: CoreRole) -> (r: Result<
        (),
        CoreError,
    >)
        requires
            old(self).wf(),
        ensures
            final(self).wf(),
            r is Err ==> *final(self) == *old(self),
            caller != old(self).spec_owner_core() ==> r == Err::<(), CoreError>(CoreError::OwnerMismatch),
            caller == old(self).spec_owner_core() ==> match entry_of(old(self).spec_entries(), core) {
                None => r == Err::<(), CoreError>(CoreError::UnknownCore),
                Some(entry) => if !joint_state_pre_online(
                    entry.spec_hardware_state(),
                    entry.spec_local().spec_state(),
                ) {
                    r == Err::<(), CoreError>(CoreError::InvalidStateTransition)
                } else if entry.spec_local().spec_telemetry().spec_role_assignments() == u64::MAX
                    || old(self).spec_epoch() == u64::MAX {
                    r == Err::<(), CoreError>(CoreError::TelemetryOverflow)
                } else {
                    let i = core_index(old(self).spec_entries(), core);
                    &&& r is Ok
                    &&& final(self).spec_epoch() == old(self).spec_epoch() + 1
                    &&& final(self).spec_owner_core() == old(self).spec_owner_core()
                    &&& entries_changed_at(old(self).spec_entries(), final(self).spec_entries(), i)
                    &&& assigned_entry(entry, final(self).spec_entries()[i], role)
                },
            },
    {
        match self.require_owner(caller) {
            Ok(()) => {},
            Err(error) => return Err(error),
        }
        let index = match self.index_of_core(core) {
            Some(index) => index,
            None => return Err(CoreError::UnknownCore),
        };
        let mut entry = self.entries[index];
        match entry.joint_state().validate_role_assignment() {
            Ok(()) => {},
            Err(error) => return Err(error),
        }
        match entry.local.assign_role(role) {
            Ok(()) => {},
            Err(error) => return Err(error),
        }
        let epoch = match self.next_epoch() {
            Ok(epoch) => epoch,
            Err(error) => return Err(error),
        };
        entry.assignment_state = CoreAssignmentState::Assigned;
        let ghost before = self.entries@;
        self.entries.set(index, entry);
        self.epoch = epoch;
        proof {
            self.lemma_replace_keeps_uniqueness(before, index as int);
        }
        Ok(())
    }

    /// Quarantines a core that is not yet online; quarantine is terminal.
    pub fn quarantine(&mut self, caller: CoreId, core: CoreId) -> (r: Result<(), CoreError>)
        requires
            old(self).wf(),
        ensures
            final(self).wf(),
            r is Err ==> *final(self) == *old(self),
            caller != old(self).spec_owner_core() ==> r == Err::<(), CoreError>(CoreError::OwnerMismatch),
            caller == old(self).spec_owner_core() ==> match entry_of(old(self).spec_entries(), core) {
                None => r == Err::<(), CoreError>(CoreError::UnknownCore),
                Some(entry) => if !joint_state_pre_online(
                    entry.spec_hardware_state(),
                    entry.spec_local().spec_state(),
                ) {
                    r == Err::<(), CoreError>(CoreError::InvalidStateTransition)
                } else if old(self).spec_epoch() == u64::MAX {
                    r == Err::<(), CoreError>(CoreError::TelemetryOverflow)
                } else {
                    let i = core_index(old(self).spec_entries(), core);
                    &&& r is Ok
                    &&& final(self).spec_epoch() == old(self).spec_epoch() + 1
                    &&& final(self).spec_owner_core() == old(self).spec_owner_core()
                    &&& entries_changed_at(old(self).spec_entries(), final(self).spec_entries(), i)
                    &&& quarantined_entry(entry, final(self).spec_entries()[i])
                },
            },
    {
        match self.require_owner(caller) {
            Ok(()) => {},
            Err(error) => return Err(error),
        }
        let index = match self.index_of_core(core) {
            Some(index) => index,
            None => return Err(CoreError::UnknownCore),
        };
        let mut entry = self.entries[index];
        match entry.joint_state().validate_quarantine() {
            Ok(()) => {},
            Err(error) => return Err(error),
        }
        let epoch = match self.next_epoch() {
            Ok(epoch) => epoch,
            Err(error) => return Err(error),
        };
        entry.hardware_state = CoreHardwareState::Quarantined;
        entry.local.set_state(CoreState::Quarantined);
        let ghost before = self.entries@;
        self.entries.set(index, entry);
        self.epoch = epoch;
        proof {
            self.lemma_replace_keeps_uniqueness(before, index as int);
        }
        Ok(())
    }

    /// The entry of `core`, if known.
    pub fn get(&self, core: CoreId) -> (r: Option<CoreTopologyEntry>)
        requires
            self.wf(),
        ensures
            r == entry_of(self.spec_entries(), core),
    {
        match self.index_of_core(core) {
            Some(index) => Some(self.entries[index]),
            None => None,
        }
    }

    /// Counts over the entries: online hardware, and assigned roles of cores
    /// that are not quarantined.
    pub fn status(&self) -> (r: CoreTopologyStatus)
        requires
            self.wf(),
        ensures
            ({
                let entries = self.spec_entries();
                let n = entries.len() as int;
                &&& r.owner_core == self.spec_owner_core()
                &&& r.discovered == entries.len()
                &&& r.hardware_online == count_entries(
                    entries,
                    |e: CoreTopologyEntry| e.spec_hardware_state() is Online,
                    n,
                )
                &&& r.assigned == count_entries(entries, |e: CoreTopologyEntry| counts_role(e), n)
                &&& r.bootstrap_roles == count_entries(
                    entries,
                    |e: CoreTopologyEntry| counts_role(e) && e.spec_local().spec_role() is Bootstrap,
                    n,
                )
                &&& r.scheduler_roles == count_entries(
                    entries,
                    |e: CoreTopologyEntry| counts_role(e) && e.spec_local().spec_role() is Scheduler,
                    n,
                )
                &&& r.driver_service_roles == count_entries(
                    entries,
                    |e: CoreTopologyEntry| counts_role(e) && e.spec_local().spec_role() is DriverService,
                    n,
                )
                &&& r.idle_roles == count_entries(
                    entries,
                    |e: CoreTopologyEntry| counts_role(e) && e.spec_local().spec_role() is Idle,
                    n,
                )
                &&& r.capacity == CAPACITY
                &&& r.epoch == self.spec_epoch()
            }),
    {
        let ghost entries = self.spec_entries();
        let ghost online = |e: CoreTopologyEntry| e.spec_hardware_state() is Online;
        let ghost assigned_p = |e: CoreTopologyEntry| counts_role(e);
        let ghost boot_p = |e: CoreTopologyEntry| counts_role(e) && e.spec_local().spec_role() is Bootstrap;
        let ghost sched_p = |e: CoreTopologyEntry| counts_role(e) && e.spec_local().spec_role() is Scheduler;
        let ghost driver_p = |e: CoreTopologyEntry| counts_role(e) && e.spec_local().spec_role() is DriverService;
        let ghost idle_p = |e: CoreTopologyEntry| counts_role(e) && e.spec_local().spec_role() is Idle;
        let mut hardware_online: usize = 0;
        let mut assigned: usize = 0;
        let mut bootstrap_roles: usize = 0;
        let mut scheduler_roles: usize = 0;
        let mut driver_service_roles: usize = 0;
        let mut idle_roles: usize = 0;
        let mut index: usize = 0;
        while index < self.entries.len()
            invariant
                entries == self.spec_entries(),
                index <= entries.len(),
                hardware_online == count_entries(entries, online, index as int),
                assigned == count_entries(entries, assigned_p, index as int),
                bootstrap_roles == count_entries(entries, boot_p, index as int),
                scheduler_roles == count_entries(entries, sched_p, index as int),
                driver_service_roles == count_entries(entries, driver_p, index as int),
                idle_roles == count_entries(entries, idle_p, index as int),
                online == (|e: CoreTopologyEntry| e.spec_hardware_state() is Online),
                assigned_p == (|e: CoreTopologyEntry| counts_role(e)),
                boot_p == (|e: CoreTopologyEntry| counts_role(e) && e.spec_local().spec_role() is Bootstrap),
                sched_p == (|e: CoreTopologyEntry| counts_role(e) && e.spec_local().spec_role() is Scheduler),
                driver_p == (|e: CoreTopologyEntry| counts_role(e) && e.spec_local().spec_role() is DriverService),
                idle_p == (|e: CoreTopologyEntry| counts_role(e) && e.spec_local().spec_role() is Idle),
            decreases entries.len() - index,
        {
            proof {
                lemma_count_entries_bound(entries, online, index as int);
                lemma_count_entries_bound(entries, assigned_p, index as int);
                lemma_count_entries_bound(entries, boot_p, index as int);
                lemma_count_entries_bound(entries, sched_p, index as int);
                lemma_count_entries_bound(entries, driver_p, index as int);
                lemma_count_entries_bound(entries, idle_p, index as int);
            }
            let entry = self.entries[index];
            if entry.hardware_state.is_online() {
                hardware_online += 1;
            }
            let counted = entry.assignment_state.is_assigned() && !matches!(
                entry.hardware_state,
                CoreHardwareState::Quarantined
            );
            if counted {
                assigned += 1;
                match entry.role() {
                    CoreRole::Bootstrap => bootstrap_roles += 1,
                    CoreRole::Scheduler => scheduler_roles += 1,
                    CoreRole::DriverService => driver_service_roles += 1,
                    CoreRole::Idle => idle_roles += 1,
                }
            }
            index += 1;
        }
        CoreTopologyStatus {
            owner_core: self.owner_core,
            discovered: self.entries.len(),
            hardware_online,
            assigned,
            bootstrap_roles,
            scheduler_roles,
            driver_service_roles,
            idle_roles,
            capacity: CAPACITY,
            epoch: self.epoch,
        }
    }
}

/// The arrival evidence observed from a staging's ticket, for the core and
/// hardware thread it names, passes every evidence check of
/// `mark_hardware_online` on the topology that the staging left: the core is
/// staged and booting, the hardware thread matches, the coordinator is the
/// owner and the epoch is the staging epoch.
pub proof fn lemma_staged_arrival_is_accepted<const CAPACITY: usize>(
    before: CoreTopology<CAPACITY>,
    after: CoreTopology<CAPACITY>,
    core_id: CoreId,
    ticket: CoreStartupTicket,
    arrival: CoreStartupArrival,
)
    requires
        before.wf(),
        after.wf(),
        has_core(before.spec_entries(), core_id),
        after.spec_owner_core() == before.spec_owner_core(),
        entries_changed_at(
            before.spec_entries(),
            after.spec_entries(),
            core_index(before.spec_entries(), core_id),
        ),
        staged_entry(
            entry_of(before.spec_entries(), core_id).unwrap(),
            after.spec_entries()[core_index(before.spec_entries(), core_id)],
            ticket.spec_startup_epoch(),
        ),
        ticket.spec_target_core() == core_id,
        ticket.spec_hardware_id() == entry_of(before.spec_entries(), core_id).unwrap().spec_hardware_id(),
        ticket.spec_coordinator_core() == before.spec_owner_core(),
        arrival.spec_arrived_core() == ticket.spec_target_core(),
        arrival.spec_hardware_id() == ticket.spec_hardware_id(),
        arrival.spec_coordinator_core() == ticket.spec_coordinator_core(),
        arrival.spec_startup_epoch() == ticket.spec_startup_epoch(),
    ensures
        entry_of(after.spec_entries(), arrival.spec_arrived_core()) matches Some(entry) && {
            &&& entry.spec_hardware_state() is StartupStaged
            &&& entry.spec_local().spec_state() is Booting
            &&& arrival.spec_hardware_id() == entry.spec_hardware_id()
            &&& arrival.spec_coordinator_core() == after.spec_owner_core()
            &&& arrival.spec_startup_epoch() == entry.spec_startup_epoch()
        },
{
    let b = before.spec_entries();
    let a = after.spec_entries();
    let i = core_index(b, core_id);
    assert(a[i].spec_core() == core_id);
    assert(has_core(a, core_id));
    let k = core_index(a, core_id);
    if k != i {
        assert(a[k].spec_core() != a[i].spec_core());
    }
}

/// A quarantined core can be neither staged, brought online, given a role
/// nor quarantined again: quarantine is terminal.
pub proof fn lemma_quarantine_is_terminal(entry: CoreTopologyEntry)
    requires
        entry.valid(),
        entry.spec_hardware_state() is Quarantined,
    ensures
        !(entry.spec_hardware_state() is Discovered && entry.spec_local().spec_state() is Offline),
        !(entry.spec_hardware_state() is StartupStaged && entry.spec_local().spec_state() is Booting),
        !joint_state_pre_online(entry.spec_hardware_state(), entry.spec_local().spec_state()),
        entry.spec_local().spec_state() is Quarantined,
{
}

} // verus!
