use vstd::prelude::*;

use crate::abi::{CoreId, CpuHardwareId};
use crate::multicore::error::CoreError;

verus! {

/// Evidence that a core was staged for startup: which core, which hardware
/// thread, who coordinates it, and at which topology epoch.
#[derive(PartialEq, Eq, Structural)]
pub struct CoreStartupTicket {
    target_core: CoreId,
    hardware_id: CpuHardwareId,
    coordinator_core: CoreId,
    startup_epoch: u64,
}

/// Evidence that a staged core arrived.
#[derive(PartialEq, Eq, Structural)]
pub struct CoreStartupArrival {
    arrived_core: CoreId,
    hardware_id: CpuHardwareId,
    coordinator_core: CoreId,
    startup_epoch: u64,
}

impl CoreStartupTicket {
    pub closed spec fn spec_target_core(&self) -> CoreId {
        self.target_core
    }

    pub closed spec fn spec_hardware_id(&self) -> CpuHardwareId {
        self.hardware_id
    }

    pub closed spec fn spec_coordinator_core(&self) -> CoreId {
        self.coordinator_core
    }

    pub closed spec fn spec_startup_epoch(&self) -> u64 {
        self.startup_epoch
    }

    pub(crate) fn new(
        target_core: CoreId,
        hardware_id: CpuHardwareId,
        coordinator_core: CoreId,
        startup_epoch: u64,
    ) -> (r: Self)
        ensures
            r.spec_target_core() == target_core,
            r.spec_hardware_id() == hardware_id,
            r.spec_coordinator_core() == coordinator_core,
            r.spec_startup_epoch() == startup_epoch,
    {
        CoreStartupTicket { target_core, hardware_id, coordinator_core, startup_epoch }
    }

    #[verifier::when_used_as_spec(spec_target_core)]
    pub fn target_core(&self) -> (r: CoreId)
        ensures
            r == self.spec_target_core(),
    {
        self.target_core
    }

    #[verifier::when_used_as_spec(spec_hardware_id)]
    pub fn hardware_id(&self) -> (r: CpuHardwareId)
        ensures
            r == self.spec_hardware_id(),
    {
        self.hardware_id
    }

    #[verifier::when_used_as_spec(spec_coordinator_core)]
    pub fn coordinator_core(&self) -> (r: CoreId)
        ensures
            r == self.spec_coordinator_core(),
    {
        self.coordinator_core
    }

    #[verifier::when_used_as_spec(spec_startup_epoch)]
    pub fn startup_epoch(&self) -> (r: u64)
        ensures
            r == self.spec_startup_epoch(),
    {
        self.startup_epoch
    }

    /// Turns the ticket into arrival evidence when the arriving core and
    /// hardware thread are the ones the ticket was issued for.
    pub fn observe_arrival(&self, arrived_core: CoreId, hardware_id: CpuHardwareId) -> (r: Result<
        CoreStartupArrival,
        CoreError,
    >)
        ensures
            (arrived_core == self.spec_target_core() && hardware_id == self.spec_hardware_id())
                ==> (r matches Ok(arrival) && arrival.spec_arrived_core() == arrived_core
                && arrival.spec_hardware_id() == hardware_id && arrival.spec_coordinator_core()
                == self.spec_coordinator_core() && arrival.spec_startup_epoch()
                == self.spec_startup_epoch()),
            !(arrived_core == self.spec_target_core() && hardware_id == self.spec_hardware_id())
                ==> r == Err::<CoreStartupArrival, CoreError>(CoreError::StartupEvidenceMismatch),
    {
        if arrived_core != self.target_core || hardware_id != self.hardware_id {
            return Err(CoreError::StartupEvidenceMismatch);
        }
        Ok(
            CoreStartupArrival {
                arrived_core,
                hardware_id,
                coordinator_core: self.coordinator_core,
                startup_epoch: self.startup_epoch,
            },
        )
    }
}

impl CoreStartupArrival {
    pub closed spec fn spec_arrived_core(&self) -> CoreId {
        self.arrived_core
    }

    pub closed spec fn spec_hardware_id(&self) -> CpuHardwareId {
        self.hardware_id
    }

    pub closed spec fn spec_coordinator_core(&self) -> CoreId {
        self.coordinator_core
    }

    pub closed spec fn spec_startup_epoch(&self) -> u64 {
        self.startup_epoch
    }

    /// Arrival evidence built directly; the topology still checks it
    /// against what it staged.
    pub fn new(
        arrived_core: CoreId,
        hardware_id: CpuHardwareId,
        coordinator_core: CoreId,
        startup_epoch: u64,
    ) -> (r: Self)
        ensures
            r.spec_arrived_core() == arrived_core,
            r.spec_hardware_id() == hardware_id,
            r.spec_coordinator_core() == coordinator_core,
            r.spec_startup_epoch() == startup_epoch,
    {
        CoreStartupArrival { arrived_core, hardware_id, coordinator_core, startup_epoch }
    }

    #[verifier::when_used_as_spec(spec_arrived_core)]
    pub fn arrived_core(&self) -> (r: CoreId)
        ensures
            r == self.spec_arrived_core(),
    {
        self.arrived_core
    }

    #[verifier::when_used_as_spec(spec_hardware_id)]
    pub fn hardware_id(&self) -> (r: CpuHardwareId)
        ensures
            r == self.spec_hardware_id(),
    {
        self.hardware_id
    }

    #[verifier::when_used_as_spec(spec_coordinator_core)]
    pub fn coordinator_core(&self) -> (r: CoreId)
        ensures
            r == self.spec_coordinator_core(),
    {
        self.coordinator_core
    }

    #[verifier::when_used_as_spec(spec_startup_epoch)]
    pub fn startup_epoch(&self) -> (r: u64)
        ensures
            r == self.spec_startup_epoch(),
    {
        self.startup_epoch
    }
}

} // verus!
