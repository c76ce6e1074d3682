use vstd::prelude::*;

use crate::abi::CoreId;
use crate::multicore::capabilities::CoreCapabilitySet;
use crate::multicore::error::CoreError;
use crate::multicore::role::CoreRole;

verus! {

/// Lifecycle state of a core as the core itself tracks it.
#[derive(Clone, Copy, Debug, PartialEq, Eq, Structural)]
pub enum CoreState {
    Offline,
    Booting,
    Online,
    Quarantined,
}

impl CoreState {
    /// Booting and online cores are live.
    pub fn is_live(self) -> (r: bool)
        ensures
            r == (self is Booting || self is Online),
    {
        match self {
            CoreState::Booting | CoreState::Online => true,
            _ => false,
        }
    }
}

/// Monotonic per-core event counters.
#[derive(Clone, Copy, Debug, PartialEq, Eq, Structural)]
pub struct CoreLocalTelemetry {
    role_assignments: u64,
    boot_barrier_arrivals: u64,
    local_events: u64,
}

impl Default for CoreLocalTelemetry {
    fn default() -> (r: Self)
        ensures
            r.spec_role_assignments() == 0,
            r.spec_boot_barrier_arrivals() == 0,
            r.spec_local_events() == 0,
    {
        CoreLocalTelemetry { role_assignments: 0, boot_barrier_arrivals: 0, local_events: 0 }
    }
}

impl CoreLocalTelemetry {
    pub closed spec fn spec_role_assignments(self) -> u64 {
        self.role_assignments
    }

    pub closed spec fn spec_boot_barrier_arrivals(self) -> u64 {
        self.boot_barrier_arrivals
    }

    pub closed spec fn spec_local_events(self) -> u64 {
        self.local_events
    }

    /// All counters at zero.
    pub fn zero() -> (r: Self)
        ensures
            r.spec_role_assignments() == 0,
            r.spec_boot_barrier_arrivals() == 0,
            r.spec_local_events() == 0,
    {
        CoreLocalTelemetry { role_assignments: 0, boot_barrier_arrivals: 0, local_events: 0 }
    }

    /// Counts one role assignment; fails without change at the counter's
    /// limit.
    pub fn record_role_assignment(&mut self) -> (r: Result<(), CoreError>)
        ensures
            old(self).spec_role_assignments() < u64::MAX ==> r is Ok
                && final(self).spec_role_assignments() == old(self).spec_role_assignments() + 1
                && final(self).spec_boot_barrier_arrivals() == old(self).spec_boot_barrier_arrivals() && final(self).spec_local_events() == old(self).spec_local_events(),
            old(self).spec_role_assignments() == u64::MAX ==> r == Err::<(), CoreError>(
                CoreError::TelemetryOverflow,
            ) && *final(self) == *old(self),
    {
        self.role_assignments = match self.role_assignments.checked_add(1) {
            Some(count) => count,
            None => return Err(CoreError::TelemetryOverflow),
        };
        Ok(())
    }

    /// Counts one boot-barrier arrival; fails without change at the
    /// counter's limit.
    pub fn record_boot_barrier_arrival(&mut self) -> (r: Result<(), CoreError>)
        ensures
            old(self).spec_boot_barrier_arrivals() < u64::MAX ==> r is Ok && final(self).spec_boot_barrier_arrivals() == old(self).spec_boot_barrier_arrivals() + 1 && final(self).spec_role_assignments() == old(self).spec_role_assignments() && final(self).spec_local_events() == old(self).spec_local_events(),
            old(self).spec_boot_barrier_arrivals() == u64::MAX ==> r == Err::<(), CoreError>(
                CoreError::TelemetryOverflow,
            ) && *final(self) == *old(self),
    {
        self.boot_barrier_arrivals = match self.boot_barrier_arrivals.checked_add(1) {
            Some(count) => count,
            None => return Err(CoreError::TelemetryOverflow),
        };
        Ok(())
    }

    /// Counts one local event; fails without change at the counter's limit.
    pub fn record_local_event(&mut self) -> (r: Result<(), CoreError>)
        ensures
            old(self).spec_local_events() < u64::MAX ==> r is Ok && final(self).spec_local_events()
                == old(self).spec_local_events() + 1 && final(self).spec_role_assignments() == old(self).spec_role_assignments() && final(self).spec_boot_barrier_arrivals() == old(self).spec_boot_barrier_arrivals(),
            old(self).spec_local_events() == u64::MAX ==> r == Err::<(), CoreError>(
                CoreError::TelemetryOverflow,
            ) && *final(self) == *old(self),
    {
        self.local_events = match self.local_events.checked_add(1) {
            Some(count) => count,
            None => return Err(CoreError::TelemetryOverflow),
        };
        Ok(())
    }

    #[verifier::when_used_as_spec(spec_role_assignments)]
    pub fn role_assignments(self) -> (r: u64)
        ensures
            r == self.spec_role_assignments(),
    {
        self.role_assignments
    }

    #[verifier::when_used_as_spec(spec_boot_barrier_arrivals)]
    pub fn boot_barrier_arrivals(self) -> (r: u64)
        ensures
            r == self.spec_boot_barrier_arrivals(),
    {
        self.boot_barrier_arrivals
    }

    #[verifier::when_used_as_spec(spec_local_events)]
    pub fn local_events(self) -> (r: u64)
        ensures
            r == self.spec_local_events(),
    {
        self.local_events
    }
}

/// The state a core keeps about itself.
#[derive(Clone, Copy, Debug, PartialEq, Eq, Structural)]
pub struct CoreLocal {
    id: CoreId,
    role: CoreRole,
    capabilities: CoreCapabilitySet,
    state: CoreState,
    telemetry: CoreLocalTelemetry,
}

impl CoreLocal {
    pub closed spec fn spec_id(self) -> CoreId {
        self.id
    }

    pub closed spec fn spec_role(self) -> CoreRole {
        self.role
    }

    pub closed spec fn spec_capabilities(self) -> CoreCapabilitySet {
        self.capabilities
    }

    pub closed spec fn spec_state(self) -> CoreState {
        self.state
    }

    pub closed spec fn spec_telemetry(self) -> CoreLocalTelemetry {
        self.telemetry
    }

    /// Everything but the state is the same in `self` and `other`.
    pub open spec fn same_except_state(self, other: CoreLocal) -> bool {
        &&& self.spec_id() == other.spec_id()
        &&& self.spec_role() == other.spec_role()
        &&& self.spec_capabilities() == other.spec_capabilities()
        &&& self.spec_telemetry() == other.spec_telemetry()
    }

    /// A core with zeroed telemetry.
    pub fn new(id: CoreId, role: CoreRole, capabilities: CoreCapabilitySet, state: CoreState) -> (r:
        Self)
        ensures
            r.spec_id() == id,
            r.spec_role() == role,
            r.spec_capabilities() == capabilities,
            r.spec_state() == state,
            r.spec_telemetry().spec_role_assignments() == 0,
            r.spec_telemetry().spec_boot_barrier_arrivals() == 0,
            r.spec_telemetry().spec_local_events() == 0,
    {
        CoreLocal { id, role, capabilities, state, telemetry: CoreLocalTelemetry::zero() }
    }

    #[verifier::when_used_as_spec(spec_id)]
    pub fn id(self) -> (r: CoreId)
        ensures
            r == self.spec_id(),
    {
        self.id
    }

    #[verifier::when_used_as_spec(spec_role)]
    pub fn role(self) -> (r: CoreRole)
        ensures
            r == self.spec_role(),
    {
        self.role
    }

    /// Assigns `role`, counting the assignment; fails without change when the
    /// counter is at its limit.
    pub fn assign_role(&mut self, role: CoreRole) -> (r: Result<(), CoreError>)
        ensures
            old(self).spec_telemetry().spec_role_assignments() < u64::MAX ==> {
                &&& r is Ok
                &&& final(self).spec_role() == role
                &&& final(self).spec_id() == old(self).spec_id()
                &&& final(self).spec_capabilities() == old(self).spec_capabilities()
                &&& final(self).spec_state() == old(self).spec_state()
                &&& final(self).spec_telemetry().spec_role_assignments() == old(self).spec_telemetry().spec_role_assignments() + 1
                &&& final(self).spec_telemetry().spec_local_events() == old(self).spec_telemetry().spec_local_events()
                &&& final(self).spec_telemetry().spec_boot_barrier_arrivals() == old(self).spec_telemetry().spec_boot_barrier_arrivals()
            },
            old(self).spec_telemetry().spec_role_assignments() == u64::MAX ==> r == Err::<
                (),
                CoreError,
            >(CoreError::TelemetryOverflow) && *final(self) == *old(self),
    {
        match self.telemetry.record_role_assignment() {
            Ok(()) => {},
            Err(error) => return Err(error),
        }
        self.role = role;
        Ok(())
    }

    #[verifier::when_used_as_spec(spec_capabilities)]
    pub fn capabilities(self) -> (r: CoreCapabilitySet)
        ensures
            r == self.spec_capabilities(),
    {
        self.capabilities
    }

    #[verifier::when_used_as_spec(spec_state)]
    pub fn state(self) -> (r: CoreState)
        ensures
            r == self.spec_state(),
    {
        self.state
    }

    pub(crate) fn set_state(&mut self, state: CoreState)
        ensures
            final(self).spec_state() == state,
            final(self).same_except_state(*old(self)),
    {
        self.state = state;
    }

    /// Offline to booting.
    pub fn stage_startup(&mut self) -> (r: Result<(), CoreError>)
        ensures
            old(self).spec_state() is Offline ==> r is Ok && final(self).spec_state() is Booting
                && final(self).same_except_state(*old(self)),
            !(old(self).spec_state() is Offline) ==> r == Err::<(), CoreError>(
                CoreError::InvalidStateTransition,
            ) && *final(self) == *old(self),
    {
        if self.state != CoreState::Offline {
            return Err(CoreError::InvalidStateTransition);
        }
        self.state = CoreState::Booting;
        Ok(())
    }

    /// Booting to online.
    pub fn mark_online(&mut self) -> (r: Result<(), CoreError>)
        ensures
            old(self).spec_state() is Booting ==> r is Ok && final(self).spec_state() is Online
                && final(self).same_except_state(*old(self)),
            !(old(self).spec_state() is Booting) ==> r == Err::<(), CoreError>(
                CoreError::InvalidStateTransition,
            ) && *final(self) == *old(self),
    {
        if self.state != CoreState::Booting {
            return Err(CoreError::InvalidStateTransition);
        }
        self.state = CoreState::Online;
        Ok(())
    }

    /// Any state but quarantined to quarantined.
    pub fn quarantine(&mut self) -> (r: Result<(), CoreError>)
        ensures
            !(old(self).spec_state() is Quarantined) ==> r is Ok && final(self).spec_state() is Quarantined
                && final(self).same_except_state(*old(self)),
            old(self).spec_state() is Quarantined ==> r == Err::<(), CoreError>(
                CoreError::InvalidStateTransition,
            ) && *final(self) == *old(self),
    {
        if self.state == CoreState::Quarantined {
            return Err(CoreError::InvalidStateTransition);
        }
        self.state = CoreState::Quarantined;
        Ok(())
    }

    #[verifier::when_used_as_spec(spec_telemetry)]
    pub fn telemetry(self) -> (r: CoreLocalTelemetry)
        ensures
            r == self.spec_telemetry(),
    {
        self.telemetry
    }

    /// Mutable access to the counters; nothing else can change through it.
    pub fn telemetry_mut(&mut self) -> (r: &mut CoreLocalTelemetry)
        ensures
            *r == old(self).spec_telemetry(),
            final(self).spec_telemetry() == *final(r),
            final(self).spec_id() == old(self).spec_id(),
            final(self).spec_role() == old(self).spec_role(),
            final(self).spec_capabilities() == old(self).spec_capabilities(),
            final(self).spec_state() == old(self).spec_state(),
    {
        &mut self.telemetry
    }

    /// Whether the core is booting or online.
    pub fn is_live(self) -> (r: bool)
        ensures
            r == (self.spec_state() is Booting || self.spec_state() is Online),
    {
        self.state.is_live()
    }
}

} // verus!
