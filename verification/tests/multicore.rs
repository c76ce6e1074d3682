use aesynx::abi::{CoreId, CpuHardwareId, ROOT_CORE, VirtAddr};
use aesynx::multicore::barrier::BootBarrier;
use aesynx::multicore::capabilities::{CoreCapabilitySet, CoreIsa, CorePerformanceClass};
use aesynx::multicore::error::CoreError;
use aesynx::multicore::local::{CoreLocal, CoreState};
use aesynx::multicore::registry::CoreRegistry;
use aesynx::multicore::role::CoreRole;
use aesynx::multicore::startup::{CoreStartupArrival, CoreStartupTicket};
use aesynx::multicore::startup_preflight::{
    ApDescriptorTableReadiness, ApStackPlan, ApStackRegion, ApStartupPreflight,
};
use aesynx::multicore::startup_state::{CoreStartupJointState, audit_startup_state_table};
use aesynx::multicore::topology::{
    CoreAssignmentState, CoreHardwareState, CoreTopology,
};

fn qemu_bootstrap_caps() -> CoreCapabilitySet {
    CoreCapabilitySet::new(CoreIsa::X86_64, CorePerformanceClass::Control)
        .with_local_timer(true)
        .with_ipi(true)
        .with_directed_irq(true)
        .with_shared_memory_atomics(true)
}

fn qemu_worker_caps(performance_class: CorePerformanceClass) -> CoreCapabilitySet {
    CoreCapabilitySet::new(CoreIsa::X86_64, performance_class)
        .with_local_timer(true)
        .with_ipi(true)
        .with_directed_irq(true)
        .with_shared_memory_atomics(true)
}

fn staged_single_core_ticket() -> Result<CoreStartupTicket, CoreError> {
    let mut topology = CoreTopology::<1>::new(ROOT_CORE())?;
    topology.insert_discovered(
        ROOT_CORE(),
        ROOT_CORE(),
        CpuHardwareId::new(0),
        qemu_bootstrap_caps(),
    )?;
    topology.stage_startup_ticket(ROOT_CORE(), ROOT_CORE())
}

fn staged_two_core_topology() -> Result<CoreTopology<2>, CoreError> {
    let mut topology = CoreTopology::<2>::new(ROOT_CORE())?;
    topology.insert_discovered(
        ROOT_CORE(),
        ROOT_CORE(),
        CpuHardwareId::new(0),
        qemu_bootstrap_caps(),
    )?;
    topology.insert_discovered(
        ROOT_CORE(),
        CoreId::new(1),
        CpuHardwareId::new(1),
        qemu_worker_caps(CorePerformanceClass::Performance),
    )?;
    let _root_ticket = topology.stage_startup_ticket(ROOT_CORE(), ROOT_CORE())?;
    let _scheduler_ticket = topology.stage_startup_ticket(ROOT_CORE(), CoreId::new(1))?;
    Ok(topology)
}

fn test_ap_stack_plan(base: VirtAddr, len: u64) -> ApStackPlan {
    ApStackPlan::test_only(base, len, test_ap_stack_region())
}

fn test_ap_stack_region() -> ApStackRegion {
    ApStackRegion::test_only(
        VirtAddr::new(0xffff_ffff_8000_0000),
        VirtAddr::new(0xffff_ffff_c000_0000),
    )
}

#[test]
fn core_roles_expose_amp_authority_classes() {
    assert_eq!(CoreRole::Bootstrap.label(), "bootstrap");
    assert!(CoreRole::Bootstrap.can_schedule_tasks());
    assert!(CoreRole::Bootstrap.can_own_driver_irq());
    assert!(CoreRole::Scheduler.can_schedule_tasks());
    assert!(!CoreRole::Scheduler.can_own_driver_irq());
    assert!(CoreRole::DriverService.can_own_driver_irq());
    assert!(!CoreRole::Idle.can_schedule_tasks());
}

#[test]
fn core_capabilities_record_heterogeneous_metadata() {
    let caps = CoreCapabilitySet::new(CoreIsa::Aarch64, CorePerformanceClass::Efficiency)
        .with_local_timer(true);

    assert_eq!(caps.isa(), CoreIsa::Aarch64);
    assert_eq!(caps.isa().label(), "aarch64");
    assert_eq!(caps.performance_class(), CorePerformanceClass::Efficiency);
    assert_eq!(caps.performance_class().label(), "efficiency");
    assert!(caps.has_local_timer());
    assert!(!caps.supports_ipi());
}

#[test]
fn core_local_tracks_role_state_and_telemetry() {
    let mut local = CoreLocal::new(
        ROOT_CORE(),
        CoreRole::Idle,
        qemu_bootstrap_caps(),
        CoreState::Booting,
    );

    assert!(local.is_live());
    assert!(local.assign_role(CoreRole::Bootstrap).is_ok());
    assert!(local.mark_online().is_ok());
    assert!(local.telemetry_mut().record_local_event().is_ok());

    assert_eq!(local.id(), ROOT_CORE());
    assert_eq!(local.role(), CoreRole::Bootstrap);
    assert_eq!(local.state(), CoreState::Online);
    assert_eq!(local.telemetry().role_assignments(), 1);
    assert_eq!(local.telemetry().local_events(), 1);
}

#[test]
fn core_registry_is_owner_scoped_and_rejects_duplicates() {
    let local = CoreLocal::new(
        ROOT_CORE(),
        CoreRole::Bootstrap,
        qemu_bootstrap_caps(),
        CoreState::Online,
    );
    let mut registry = match CoreRegistry::<2>::new(ROOT_CORE()) {
        Ok(registry) => registry,
        Err(error) => return assert_eq!(error, CoreError::CapacityZero),
    };

    assert!(registry.insert(ROOT_CORE(), local).is_ok());
    assert_eq!(
        registry.insert(ROOT_CORE(), local).err(),
        Some(CoreError::DuplicateCore)
    );
    assert_eq!(registry.live_count(), 1);
    assert_eq!(registry.status().owner_core(), ROOT_CORE());
    assert_eq!(registry.status().len(), 1);
    assert_eq!(registry.status().capacity(), 2);
    assert_eq!(registry.status().epoch(), 1);
    assert!(
        registry
            .require_role(ROOT_CORE(), CoreRole::Bootstrap)
            .is_ok()
    );
    assert_eq!(
        registry
            .require_role(ROOT_CORE(), CoreRole::DriverService)
            .err(),
        Some(CoreError::RoleMismatch)
    );
    assert_eq!(
        registry.require_role(CoreId::new(9), CoreRole::Idle).err(),
        Some(CoreError::UnknownCore)
    );
}

#[test]
fn core_registry_insert_rejects_epoch_overflow_without_mutation() {
    let local = CoreLocal::new(
        ROOT_CORE(),
        CoreRole::Bootstrap,
        qemu_bootstrap_caps(),
        CoreState::Online,
    );
    let mut registry = match CoreRegistry::<2>::new(ROOT_CORE())
        .map(|registry| registry.with_epoch_for_test(u64::MAX))
    {
        Ok(registry) => registry,
        Err(error) => return assert_eq!(error, CoreError::CapacityZero),
    };

    assert_eq!(
        registry.insert(ROOT_CORE(), local).err(),
        Some(CoreError::TelemetryOverflow)
    );
    assert_eq!(registry.status().len(), 0);
    assert_eq!(registry.status().epoch(), u64::MAX);
    assert!(!registry.contains(ROOT_CORE()));
    assert_eq!(registry.live_count(), 0);
}

#[test]
fn boot_barrier_is_validate_then_commit() {
    let mut barrier = match BootBarrier::<2>::new(ROOT_CORE()) {
        Ok(barrier) => barrier,
        Err(error) => return assert_eq!(error, CoreError::CapacityZero),
    };

    assert_eq!(
        barrier.arrive(ROOT_CORE()).err(),
        Some(CoreError::BarrierNotSealed)
    );
    assert!(barrier.add_participant(ROOT_CORE(), ROOT_CORE()).is_ok());
    assert_eq!(
        barrier.add_participant(ROOT_CORE(), ROOT_CORE()).err(),
        Some(CoreError::DuplicateCore)
    );
    assert_eq!(barrier.status().participants(), 1);
    assert_eq!(barrier.status().arrivals(), 0);
    assert!(barrier.seal(ROOT_CORE()).is_ok());
    assert_eq!(
        barrier.add_participant(ROOT_CORE(), CoreId::new(1)).err(),
        Some(CoreError::BarrierSealed)
    );
    assert_eq!(
        barrier.arrive(CoreId::new(1)).err(),
        Some(CoreError::UnknownCore)
    );
    assert!(barrier.arrive(ROOT_CORE()).is_ok());
    assert_eq!(
        barrier.arrive(ROOT_CORE()).err(),
        Some(CoreError::AlreadyArrived)
    );

    let status = barrier.status();
    assert!(status.sealed());
    assert!(status.all_arrived());
    assert_eq!(status.owner_core(), ROOT_CORE());
}

#[test]
fn registry_and_barrier_setup_require_owner_core() {
    let local = CoreLocal::new(
        ROOT_CORE(),
        CoreRole::Bootstrap,
        qemu_bootstrap_caps(),
        CoreState::Online,
    );
    let mut registry = match CoreRegistry::<1>::new(ROOT_CORE()) {
        Ok(registry) => registry,
        Err(error) => return assert_eq!(error, CoreError::CapacityZero),
    };
    assert_eq!(
        registry.insert(CoreId::new(99), local).err(),
        Some(CoreError::OwnerMismatch)
    );
    assert!(registry.status().is_empty());

    let mut barrier = match BootBarrier::<1>::new(ROOT_CORE()) {
        Ok(barrier) => barrier,
        Err(error) => return assert_eq!(error, CoreError::CapacityZero),
    };
    assert_eq!(
        barrier.add_participant(CoreId::new(99), ROOT_CORE()).err(),
        Some(CoreError::OwnerMismatch)
    );
    assert_eq!(
        barrier.seal(CoreId::new(99)).err(),
        Some(CoreError::OwnerMismatch)
    );
    assert!(barrier.status().is_empty());
}

#[test]
fn core_topology_tracks_qemu_four_core_ownership() {
    let mut topology = match CoreTopology::<4>::new(ROOT_CORE()) {
        Ok(topology) => topology,
        Err(error) => return assert_eq!(error, CoreError::CapacityZero),
    };

    assert!(
        topology
            .insert_discovered(
                ROOT_CORE(),
                ROOT_CORE(),
                CpuHardwareId::new(0),
                qemu_bootstrap_caps(),
            )
            .is_ok()
    );
    assert!(
        topology
            .insert_discovered(
                ROOT_CORE(),
                CoreId::new(1),
                CpuHardwareId::new(1),
                qemu_worker_caps(CorePerformanceClass::Performance),
            )
            .is_ok()
    );
    assert!(
        topology
            .insert_discovered(
                ROOT_CORE(),
                CoreId::new(2),
                CpuHardwareId::new(2),
                qemu_worker_caps(CorePerformanceClass::Control),
            )
            .is_ok()
    );
    assert!(
        topology
            .insert_discovered(
                ROOT_CORE(),
                CoreId::new(3),
                CpuHardwareId::new(3),
                qemu_worker_caps(CorePerformanceClass::Efficiency),
            )
            .is_ok()
    );

    let root_ticket = match topology.stage_startup_ticket(ROOT_CORE(), ROOT_CORE()) {
        Ok(ticket) => ticket,
        Err(error) => return assert_eq!(Some(error), None),
    };
    let scheduler_ticket = match topology.stage_startup_ticket(ROOT_CORE(), CoreId::new(1)) {
        Ok(ticket) => ticket,
        Err(error) => return assert_eq!(Some(error), None),
    };
    let driver_ticket = match topology.stage_startup_ticket(ROOT_CORE(), CoreId::new(2)) {
        Ok(ticket) => ticket,
        Err(error) => return assert_eq!(Some(error), None),
    };
    let idle_ticket = match topology.stage_startup_ticket(ROOT_CORE(), CoreId::new(3)) {
        Ok(ticket) => ticket,
        Err(error) => return assert_eq!(Some(error), None),
    };
    assert!(
        topology
            .assign_role(ROOT_CORE(), ROOT_CORE(), CoreRole::Bootstrap)
            .is_ok()
    );
    assert!(
        topology
            .assign_role(ROOT_CORE(), CoreId::new(1), CoreRole::Scheduler)
            .is_ok()
    );
    assert!(
        topology
            .assign_role(ROOT_CORE(), CoreId::new(2), CoreRole::DriverService)
            .is_ok()
    );
    assert!(
        topology
            .assign_role(ROOT_CORE(), CoreId::new(3), CoreRole::Idle)
            .is_ok()
    );
    let root_arrival = match root_ticket.observe_arrival(ROOT_CORE(), CpuHardwareId::new(0)) {
        Ok(arrival) => arrival,
        Err(error) => return assert_eq!(Some(error), None),
    };
    let scheduler_arrival =
        match scheduler_ticket.observe_arrival(CoreId::new(1), CpuHardwareId::new(1)) {
            Ok(arrival) => arrival,
            Err(error) => return assert_eq!(Some(error), None),
        };
    let driver_arrival = match driver_ticket.observe_arrival(CoreId::new(2), CpuHardwareId::new(2))
    {
        Ok(arrival) => arrival,
        Err(error) => return assert_eq!(Some(error), None),
    };
    let idle_arrival = match idle_ticket.observe_arrival(CoreId::new(3), CpuHardwareId::new(3)) {
        Ok(arrival) => arrival,
        Err(error) => return assert_eq!(Some(error), None),
    };

    assert!(
        topology
            .mark_hardware_online(ROOT_CORE(), root_arrival)
            .is_ok()
    );
    assert!(
        topology
            .mark_hardware_online(ROOT_CORE(), scheduler_arrival)
            .is_ok()
    );
    assert!(
        topology
            .mark_hardware_online(ROOT_CORE(), driver_arrival)
            .is_ok()
    );
    assert!(
        topology
            .mark_hardware_online(ROOT_CORE(), idle_arrival)
            .is_ok()
    );

    let status = topology.status();
    assert_eq!(status.owner_core(), ROOT_CORE());
    assert_eq!(status.discovered(), 4);
    assert_eq!(status.hardware_online(), 4);
    assert_eq!(status.assigned(), 4);
    assert_eq!(status.bootstrap_roles(), 1);
    assert_eq!(status.scheduler_roles(), 1);
    assert_eq!(status.driver_service_roles(), 1);
    assert_eq!(status.idle_roles(), 1);
    assert_eq!(status.capacity(), 4);

    let Some(driver_core) = topology.get(CoreId::new(2)) else {
        return assert_eq!(Some(CoreError::UnknownCore), None);
    };
    assert_eq!(driver_core.hardware_id(), CpuHardwareId::new(2));
    assert_eq!(driver_core.hardware_state(), CoreHardwareState::Online);
    assert_eq!(
        driver_core.assignment_state(),
        CoreAssignmentState::Assigned
    );
    assert_eq!(driver_core.local_state(), CoreState::Online);
    assert_eq!(driver_core.telemetry().role_assignments(), 1);
    assert_eq!(driver_core.telemetry().local_events(), 2);
}

#[test]
fn core_topology_rejects_duplicate_hardware_ids_without_mutation() {
    let mut topology = match CoreTopology::<2>::new(ROOT_CORE()) {
        Ok(topology) => topology,
        Err(error) => return assert_eq!(error, CoreError::CapacityZero),
    };

    assert!(
        topology
            .insert_discovered(
                ROOT_CORE(),
                ROOT_CORE(),
                CpuHardwareId::new(7),
                qemu_bootstrap_caps(),
            )
            .is_ok()
    );
    let before = topology.status();

    assert_eq!(
        topology
            .insert_discovered(
                ROOT_CORE(),
                CoreId::new(1),
                CpuHardwareId::new(7),
                qemu_worker_caps(CorePerformanceClass::Performance),
            )
            .err(),
        Some(CoreError::DuplicateHardwareId)
    );
    assert_eq!(topology.status(), before);
    assert!(topology.get(CoreId::new(1)).is_none());
}

#[test]
fn core_topology_failed_transition_keeps_state_unchanged() {
    let mut topology = match CoreTopology::<1>::new(ROOT_CORE()) {
        Ok(topology) => topology,
        Err(error) => return assert_eq!(error, CoreError::CapacityZero),
    };
    assert!(
        topology
            .insert_discovered(
                ROOT_CORE(),
                ROOT_CORE(),
                CpuHardwareId::new(0),
                qemu_bootstrap_caps(),
            )
            .is_ok()
    );
    let _ticket = match topology.stage_startup_ticket(ROOT_CORE(), ROOT_CORE()) {
        Ok(ticket) => ticket,
        Err(error) => return assert_eq!(Some(error), None),
    };
    let before = topology.status();
    let entry_before = topology.get(ROOT_CORE());

    assert_eq!(
        topology.stage_startup_ticket(ROOT_CORE(), ROOT_CORE()).err(),
        Some(CoreError::InvalidStateTransition)
    );
    assert_eq!(topology.status(), before);
    assert_eq!(topology.get(ROOT_CORE()), entry_before);
}

#[test]
fn core_topology_epoch_overflow_rejects_commit() {
    let mut topology = match CoreTopology::<1>::new(ROOT_CORE())
        .map(|topology| topology.with_epoch_for_test(u64::MAX))
    {
        Ok(topology) => topology,
        Err(error) => return assert_eq!(error, CoreError::CapacityZero),
    };

    assert_eq!(
        topology
            .insert_discovered(
                ROOT_CORE(),
                ROOT_CORE(),
                CpuHardwareId::new(0),
                qemu_bootstrap_caps(),
            )
            .err(),
        Some(CoreError::TelemetryOverflow)
    );
    assert_eq!(topology.status().discovered(), 0);
    assert!(topology.get(ROOT_CORE()).is_none());
}

#[test]
fn core_topology_rejects_online_role_reassignment() {
    let mut topology = match CoreTopology::<1>::new(ROOT_CORE()) {
        Ok(topology) => topology,
        Err(error) => return assert_eq!(error, CoreError::CapacityZero),
    };
    assert!(
        topology
            .insert_discovered(
                ROOT_CORE(),
                ROOT_CORE(),
                CpuHardwareId::new(0),
                qemu_bootstrap_caps()
            )
            .is_ok()
    );
    let ticket = match topology.stage_startup_ticket(ROOT_CORE(), ROOT_CORE()) {
        Ok(ticket) => ticket,
        Err(error) => return assert_eq!(Some(error), None),
    };
    assert!(
        topology
            .assign_role(ROOT_CORE(), ROOT_CORE(), CoreRole::Bootstrap)
            .is_ok()
    );
    let arrival = match ticket.observe_arrival(ROOT_CORE(), CpuHardwareId::new(0)) {
        Ok(arrival) => arrival,
        Err(error) => return assert_eq!(Some(error), None),
    };
    assert!(topology.mark_hardware_online(ROOT_CORE(), arrival).is_ok());
    let before = topology.get(ROOT_CORE());

    assert_eq!(
        topology
            .assign_role(ROOT_CORE(), ROOT_CORE(), CoreRole::Idle)
            .err(),
        Some(CoreError::InvalidStateTransition)
    );
    assert_eq!(topology.get(ROOT_CORE()), before);
}

#[test]
fn core_topology_rejects_online_quarantine_without_fault_path() {
    let mut topology = match CoreTopology::<1>::new(ROOT_CORE()) {
        Ok(topology) => topology,
        Err(error) => return assert_eq!(error, CoreError::CapacityZero),
    };
    assert!(
        topology
            .insert_discovered(
                ROOT_CORE(),
                ROOT_CORE(),
                CpuHardwareId::new(0),
                qemu_bootstrap_caps()
            )
            .is_ok()
    );
    let ticket = match topology.stage_startup_ticket(ROOT_CORE(), ROOT_CORE()) {
        Ok(ticket) => ticket,
        Err(error) => return assert_eq!(Some(error), None),
    };
    let arrival = match ticket.observe_arrival(ROOT_CORE(), CpuHardwareId::new(0)) {
        Ok(arrival) => arrival,
        Err(error) => return assert_eq!(Some(error), None),
    };
    assert!(topology.mark_hardware_online(ROOT_CORE(), arrival).is_ok());
    let before = topology.get(ROOT_CORE());

    assert_eq!(
        topology.quarantine(ROOT_CORE(), ROOT_CORE()).err(),
        Some(CoreError::InvalidStateTransition)
    );
    assert_eq!(topology.get(ROOT_CORE()), before);
}

#[test]
fn core_topology_arrival_evidence_requires_matching_ticket() {
    let ticket = match staged_single_core_ticket() {
        Ok(ticket) => ticket,
        Err(error) => return assert_eq!(Some(error), None),
    };

    assert_eq!(
        ticket
            .observe_arrival(ROOT_CORE(), CpuHardwareId::new(99))
            .err(),
        Some(CoreError::StartupEvidenceMismatch)
    );

    let ticket = match staged_single_core_ticket() {
        Ok(ticket) => ticket,
        Err(error) => return assert_eq!(Some(error), None),
    };
    assert_eq!(
        ticket
            .observe_arrival(CoreId::new(99), CpuHardwareId::new(0))
            .err(),
        Some(CoreError::StartupEvidenceMismatch)
    );
}

#[test]
fn core_topology_rejects_arrival_epoch_that_does_not_match_staging() {
    let mut topology = match CoreTopology::<1>::new(ROOT_CORE()) {
        Ok(topology) => topology,
        Err(error) => return assert_eq!(error, CoreError::CapacityZero),
    };
    assert!(
        topology
            .insert_discovered(
                ROOT_CORE(),
                ROOT_CORE(),
                CpuHardwareId::new(0),
                qemu_bootstrap_caps()
            )
            .is_ok()
    );
    let ticket = match topology.stage_startup_ticket(ROOT_CORE(), ROOT_CORE()) {
        Ok(ticket) => ticket,
        Err(error) => return assert_eq!(Some(error), None),
    };
    let stale_arrival = CoreStartupArrival::new(ROOT_CORE(), CpuHardwareId::new(0), ROOT_CORE(), 0);
    let future_arrival =
        CoreStartupArrival::new(ROOT_CORE(), CpuHardwareId::new(0), ROOT_CORE(), u64::MAX);
    let before = topology.get(ROOT_CORE());

    assert_eq!(
        topology
            .mark_hardware_online(ROOT_CORE(), stale_arrival)
            .err(),
        Some(CoreError::InvalidStartupEpoch)
    );
    assert_eq!(topology.get(ROOT_CORE()), before);
    assert_eq!(
        topology
            .mark_hardware_online(ROOT_CORE(), future_arrival)
            .err(),
        Some(CoreError::InvalidStartupEpoch)
    );
    assert_eq!(topology.get(ROOT_CORE()), before);

    let arrival = match ticket.observe_arrival(ROOT_CORE(), CpuHardwareId::new(0)) {
        Ok(arrival) => arrival,
        Err(error) => return assert_eq!(Some(error), None),
    };
    assert!(topology.mark_hardware_online(ROOT_CORE(), arrival).is_ok());
}

#[test]
fn core_topology_quarantine_is_reachable_and_terminal() {
    let mut topology = match CoreTopology::<1>::new(ROOT_CORE()) {
        Ok(topology) => topology,
        Err(error) => return assert_eq!(error, CoreError::CapacityZero),
    };
    assert!(
        topology
            .insert_discovered(
                ROOT_CORE(),
                ROOT_CORE(),
                CpuHardwareId::new(0),
                qemu_bootstrap_caps()
            )
            .is_ok()
    );
    assert!(topology.quarantine(ROOT_CORE(), ROOT_CORE()).is_ok());
    let Some(entry) = topology.get(ROOT_CORE()) else {
        return assert_eq!(Some(CoreError::UnknownCore), None);
    };
    assert_eq!(entry.hardware_state(), CoreHardwareState::Quarantined);
    assert_eq!(entry.local_state(), CoreState::Quarantined);

    assert_eq!(
        topology.quarantine(ROOT_CORE(), ROOT_CORE()).err(),
        Some(CoreError::InvalidStateTransition)
    );
    assert_eq!(
        topology.stage_startup_ticket(ROOT_CORE(), ROOT_CORE()).err(),
        Some(CoreError::InvalidStateTransition)
    );
    assert_eq!(
        topology
            .assign_role(ROOT_CORE(), ROOT_CORE(), CoreRole::Bootstrap)
            .err(),
        Some(CoreError::InvalidStateTransition)
    );
}

#[test]
fn core_topology_status_excludes_quarantined_assigned_roles() {
    let mut topology = match CoreTopology::<1>::new(ROOT_CORE()) {
        Ok(topology) => topology,
        Err(error) => return assert_eq!(error, CoreError::CapacityZero),
    };
    assert!(
        topology
            .insert_discovered(
                ROOT_CORE(),
                ROOT_CORE(),
                CpuHardwareId::new(0),
                qemu_bootstrap_caps()
            )
            .is_ok()
    );
    assert!(
        topology
            .assign_role(ROOT_CORE(), ROOT_CORE(), CoreRole::Bootstrap)
            .is_ok()
    );

    let assigned_status = topology.status();
    assert_eq!(assigned_status.assigned(), 1);
    assert_eq!(assigned_status.bootstrap_roles(), 1);

    assert!(topology.quarantine(ROOT_CORE(), ROOT_CORE()).is_ok());

    let status = topology.status();
    assert_eq!(status.discovered(), 1);
    assert_eq!(status.hardware_online(), 0);
    assert_eq!(status.assigned(), 0);
    assert_eq!(status.bootstrap_roles(), 0);
    assert_eq!(status.scheduler_roles(), 0);
    assert_eq!(status.driver_service_roles(), 0);
    assert_eq!(status.idle_roles(), 0);
}

#[test]
fn core_topology_does_not_count_unassigned_idle_cores() {
    let mut topology = match CoreTopology::<1>::new(ROOT_CORE()) {
        Ok(topology) => topology,
        Err(error) => return assert_eq!(error, CoreError::CapacityZero),
    };
    assert!(
        topology
            .insert_discovered(
                ROOT_CORE(),
                ROOT_CORE(),
                CpuHardwareId::new(0),
                qemu_bootstrap_caps()
            )
            .is_ok()
    );
    assert_eq!(topology.status().idle_roles(), 0);

    assert!(
        topology
            .assign_role(ROOT_CORE(), ROOT_CORE(), CoreRole::Idle)
            .is_ok()
    );
    assert_eq!(topology.status().idle_roles(), 1);
}

#[test]
fn core_topology_mutation_requires_owner_core() {
    let mut topology = match CoreTopology::<1>::new(ROOT_CORE()) {
        Ok(topology) => topology,
        Err(error) => return assert_eq!(error, CoreError::CapacityZero),
    };

    assert_eq!(
        topology
            .insert_discovered(
                CoreId::new(99),
                ROOT_CORE(),
                CpuHardwareId::new(0),
                qemu_bootstrap_caps(),
            )
            .err(),
        Some(CoreError::OwnerMismatch)
    );
    assert_eq!(topology.status().discovered(), 0);
}

#[test]
fn ap_startup_preflight_blocks_execution_until_per_core_descriptors_exist() {
    let mut topology = match staged_two_core_topology() {
        Ok(topology) => topology,
        Err(error) => return assert_eq!(Some(error), None),
    };
    assert!(
        topology
            .assign_role(ROOT_CORE(), ROOT_CORE(), CoreRole::Bootstrap)
            .is_ok()
    );
    assert!(
        topology
            .assign_role(ROOT_CORE(), CoreId::new(1), CoreRole::Scheduler)
            .is_ok()
    );

    let root = match topology.get(ROOT_CORE()) {
        Some(entry) => entry,
        None => return assert_eq!(Some(CoreError::UnknownCore), None),
    };
    let scheduler = match topology.get(CoreId::new(1)) {
        Some(entry) => entry,
        None => return assert_eq!(Some(CoreError::UnknownCore), None),
    };
    let mut preflight = match ApStartupPreflight::<2>::new(ROOT_CORE()) {
        Ok(preflight) => preflight,
        Err(error) => return assert_eq!(error, CoreError::CapacityZero),
    };

    assert!(
        preflight
            .add_staged_core(
                ROOT_CORE(),
                root,
                test_ap_stack_plan(VirtAddr::new(0xffff_ffff_9000_0000), 0x8000),
                ApDescriptorTableReadiness::PerCoreReady,
                10_000,
            )
            .is_ok()
    );
    assert!(
        preflight
            .add_staged_core(
                ROOT_CORE(),
                scheduler,
                test_ap_stack_plan(VirtAddr::new(0xffff_ffff_9001_0000), 0x8000),
                ApDescriptorTableReadiness::SharedBootstrapOnly,
                10_000,
            )
            .is_ok()
    );

    let status = preflight.status();
    assert_eq!(status.owner_core(), ROOT_CORE());
    assert_eq!(status.planned(), 2);
    assert_eq!(status.stack_ready(), 2);
    assert_eq!(status.watchdog_ready(), 2);
    assert_eq!(status.descriptor_ready(), 1);
    assert!(!status.execution_allowed());
    assert_eq!(
        preflight.into_dispatch_token(ROOT_CORE()).err(),
        Some(CoreError::StartupPreflightBlocked)
    );
}

#[test]
fn ap_startup_preflight_accepts_only_staged_booting_entries() {
    let mut topology = match CoreTopology::<1>::new(ROOT_CORE()) {
        Ok(topology) => topology,
        Err(error) => return assert_eq!(error, CoreError::CapacityZero),
    };
    assert!(
        topology
            .insert_discovered(
                ROOT_CORE(),
                ROOT_CORE(),
                CpuHardwareId::new(0),
                qemu_bootstrap_caps(),
            )
            .is_ok()
    );
    let entry = match topology.get(ROOT_CORE()) {
        Some(entry) => entry,
        None => return assert_eq!(Some(CoreError::UnknownCore), None),
    };
    let mut preflight = match ApStartupPreflight::<1>::new(ROOT_CORE()) {
        Ok(preflight) => preflight,
        Err(error) => return assert_eq!(error, CoreError::CapacityZero),
    };

    assert_eq!(
        preflight
            .add_staged_core(
                ROOT_CORE(),
                entry,
                test_ap_stack_plan(VirtAddr::new(0xffff_ffff_9000_0000), 0x8000),
                ApDescriptorTableReadiness::PerCoreReady,
                10_000,
            )
            .err(),
        Some(CoreError::InvalidStateTransition)
    );
}

#[test]
fn ap_startup_preflight_rejects_overlapping_stacks_without_mutation() {
    let topology = match staged_two_core_topology() {
        Ok(topology) => topology,
        Err(error) => return assert_eq!(Some(error), None),
    };
    let root = match topology.get(ROOT_CORE()) {
        Some(entry) => entry,
        None => return assert_eq!(Some(CoreError::UnknownCore), None),
    };
    let scheduler = match topology.get(CoreId::new(1)) {
        Some(entry) => entry,
        None => return assert_eq!(Some(CoreError::UnknownCore), None),
    };
    let mut preflight = match ApStartupPreflight::<2>::new(ROOT_CORE()) {
        Ok(preflight) => preflight,
        Err(error) => return assert_eq!(error, CoreError::CapacityZero),
    };

    assert!(
        preflight
            .add_staged_core(
                ROOT_CORE(),
                root,
                test_ap_stack_plan(VirtAddr::new(0xffff_ffff_9000_0000), 0x8000),
                ApDescriptorTableReadiness::PerCoreReady,
                10_000,
            )
            .is_ok()
    );
    let before = preflight.status();
    assert_eq!(
        preflight
            .add_staged_core(
                ROOT_CORE(),
                scheduler,
                test_ap_stack_plan(VirtAddr::new(0xffff_ffff_9000_4000), 0x8000),
                ApDescriptorTableReadiness::PerCoreReady,
                10_000,
            )
            .err(),
        Some(CoreError::DuplicateStartupStack)
    );
    assert_eq!(preflight.status(), before);
    assert!(preflight.resource(CoreId::new(1)).is_none());
}

#[test]
fn ap_startup_preflight_rejects_missing_watchdog() {
    let topology = match staged_two_core_topology() {
        Ok(topology) => topology,
        Err(error) => return assert_eq!(Some(error), None),
    };
    let root = match topology.get(ROOT_CORE()) {
        Some(entry) => entry,
        None => return assert_eq!(Some(CoreError::UnknownCore), None),
    };
    let mut preflight = match ApStartupPreflight::<1>::new(ROOT_CORE()) {
        Ok(preflight) => preflight,
        Err(error) => return assert_eq!(error, CoreError::CapacityZero),
    };

    assert_eq!(
        preflight
            .add_staged_core(
                ROOT_CORE(),
                root,
                test_ap_stack_plan(VirtAddr::new(0xffff_ffff_9000_0000), 0x8000),
                ApDescriptorTableReadiness::PerCoreReady,
                0,
            )
            .err(),
        Some(CoreError::MissingStartupWatchdog)
    );
}

#[test]
fn ap_startup_preflight_rejects_stack_outside_ap_region() {
    let topology = match staged_two_core_topology() {
        Ok(topology) => topology,
        Err(error) => return assert_eq!(Some(error), None),
    };
    let root = match topology.get(ROOT_CORE()) {
        Some(entry) => entry,
        None => return assert_eq!(Some(CoreError::UnknownCore), None),
    };
    let preflight = match ApStartupPreflight::<1>::new(ROOT_CORE()) {
        Ok(preflight) => preflight,
        Err(error) => return assert_eq!(error, CoreError::CapacityZero),
    };

    assert_eq!(
        ApStackPlan::new(VirtAddr::new(0), 0x8000, test_ap_stack_region()).err(),
        Some(CoreError::InvalidStartupStack)
    );
    assert!(preflight.resource(root.core_id()).is_none());
    assert_eq!(
        preflight.status().planned(),
        0,
        "failed stack validation must not mutate preflight resources"
    );
}

#[test]
fn startup_state_table_accepts_only_jointly_valid_combinations() {
    assert!(
        CoreStartupJointState::new(
            CoreHardwareState::Discovered,
            CoreAssignmentState::Unassigned,
            CoreState::Offline,
        )
        .is_valid()
    );
    assert!(
        CoreStartupJointState::new(
            CoreHardwareState::StartupStaged,
            CoreAssignmentState::Assigned,
            CoreState::Booting,
        )
        .is_valid()
    );
    assert!(
        CoreStartupJointState::new(
            CoreHardwareState::Online,
            CoreAssignmentState::Assigned,
            CoreState::Online,
        )
        .is_valid()
    );
    assert!(
        CoreStartupJointState::new(
            CoreHardwareState::Quarantined,
            CoreAssignmentState::Assigned,
            CoreState::Quarantined,
        )
        .is_valid()
    );

    assert!(
        !CoreStartupJointState::new(
            CoreHardwareState::Discovered,
            CoreAssignmentState::Assigned,
            CoreState::Online,
        )
        .is_valid()
    );
    assert!(
        !CoreStartupJointState::new(
            CoreHardwareState::StartupStaged,
            CoreAssignmentState::Assigned,
            CoreState::Offline,
        )
        .is_valid()
    );
    assert!(
        !CoreStartupJointState::new(
            CoreHardwareState::Online,
            CoreAssignmentState::Assigned,
            CoreState::Booting,
        )
        .is_valid()
    );
    assert!(
        !CoreStartupJointState::new(
            CoreHardwareState::Quarantined,
            CoreAssignmentState::Assigned,
            CoreState::Online,
        )
        .is_valid()
    );
}

#[test]
fn startup_state_table_counts_every_axis_combination() {
    let status = audit_startup_state_table();

    assert_eq!(status.valid_combinations(), 8);
    assert_eq!(status.invalid_combinations(), 24);
    assert_eq!(status.total_combinations(), 32);
}

#[test]
fn startup_state_table_rejects_invalid_transition_intents() {
    let discovered = CoreStartupJointState::new(
        CoreHardwareState::Discovered,
        CoreAssignmentState::Unassigned,
        CoreState::Offline,
    );
    let staged = CoreStartupJointState::new(
        CoreHardwareState::StartupStaged,
        CoreAssignmentState::Assigned,
        CoreState::Booting,
    );
    let online = CoreStartupJointState::new(
        CoreHardwareState::Online,
        CoreAssignmentState::Assigned,
        CoreState::Online,
    );
    let quarantined = CoreStartupJointState::new(
        CoreHardwareState::Quarantined,
        CoreAssignmentState::Assigned,
        CoreState::Quarantined,
    );

    assert!(discovered.validate_startup_stage().is_ok());
    assert!(discovered.validate_role_assignment().is_ok());
    assert!(discovered.validate_quarantine().is_ok());
    assert_eq!(
        discovered.validate_hardware_online().err(),
        Some(CoreError::InvalidStateTransition)
    );

    assert!(staged.validate_hardware_online().is_ok());
    assert!(staged.validate_role_assignment().is_ok());
    assert!(staged.validate_quarantine().is_ok());
    assert_eq!(
        staged.validate_startup_stage().err(),
        Some(CoreError::InvalidStateTransition)
    );

    assert_eq!(
        online.validate_role_assignment().err(),
        Some(CoreError::InvalidStateTransition)
    );
    assert_eq!(
        online.validate_startup_stage().err(),
        Some(CoreError::InvalidStateTransition)
    );
    assert_eq!(
        online.validate_quarantine().err(),
        Some(CoreError::InvalidStateTransition)
    );

    assert_eq!(
        quarantined.validate_quarantine().err(),
        Some(CoreError::InvalidStateTransition)
    );
    assert_eq!(
        quarantined.validate_role_assignment().err(),
        Some(CoreError::InvalidStateTransition)
    );
}

#[test]
fn ap_startup_preflight_dispatch_token_requires_owner_and_execution_ready() {
    let topology = match staged_two_core_topology() {
        Ok(topology) => topology,
        Err(error) => return assert_eq!(Some(error), None),
    };
    let root = topology.get(ROOT_CORE()).unwrap();
    let scheduler = topology.get(CoreId::new(1)).unwrap();
    let mut wrong_owner = ApStartupPreflight::<2>::new(ROOT_CORE()).unwrap();
    assert!(wrong_owner
        .add_staged_core(
            ROOT_CORE(),
            root,
            test_ap_stack_plan(VirtAddr::new(0xffff_ffff_9000_0000), 0x8000),
            ApDescriptorTableReadiness::PerCoreReady,
            10_000,
        )
        .is_ok());
    assert!(wrong_owner
        .add_staged_core(
            ROOT_CORE(),
            scheduler,
            test_ap_stack_plan(VirtAddr::new(0xffff_ffff_9001_0000), 0x8000),
            ApDescriptorTableReadiness::PerCoreReady,
            10_000,
        )
        .is_ok());
    assert_eq!(
        wrong_owner.into_dispatch_token(CoreId::new(1)).err(),
        Some(CoreError::OwnerMismatch)
    );

    let mut ready = ApStartupPreflight::<2>::new(ROOT_CORE()).unwrap();
    assert!(ready
        .add_staged_core(
            ROOT_CORE(),
            root,
            test_ap_stack_plan(VirtAddr::new(0xffff_ffff_9000_0000), 0x8000),
            ApDescriptorTableReadiness::PerCoreReady,
            10_000,
        )
        .is_ok());
    assert!(ready
        .add_staged_core(
            ROOT_CORE(),
            scheduler,
            test_ap_stack_plan(VirtAddr::new(0xffff_ffff_9001_0000), 0x8000),
            ApDescriptorTableReadiness::PerCoreReady,
            10_000,
        )
        .is_ok());
    assert!(ready.status().execution_allowed());
    let token = match ready.into_dispatch_token(ROOT_CORE()) {
        Ok(token) => token,
        Err(error) => return assert_eq!(Some(error), None),
    };
    assert_eq!(token.owner_core(), ROOT_CORE());
    assert_eq!(token.planned(), 2);
    assert_eq!(token.capacity(), 2);
    assert!(token.resource(ROOT_CORE()).is_some());
    assert!(token.resource(CoreId::new(1)).is_some());
    assert_eq!(token.resource(ROOT_CORE()).map(|r| r.stack_len()), Some(0x8000));
    assert_eq!(token.resource(CoreId::new(1)).map(|r| r.stack_base()), Some(VirtAddr::new(0xffff_ffff_9001_0000)));
    assert!(token.resource(CoreId::new(7)).is_none());
}

#[test]
fn empty_preflight_blocks_dispatch() {
    let preflight = ApStartupPreflight::<1>::new(ROOT_CORE()).unwrap();
    assert!(!preflight.status().execution_allowed());
    assert_eq!(
        preflight.into_dispatch_token(ROOT_CORE()).err(),
        Some(CoreError::StartupPreflightBlocked)
    );
}

#[test]
fn preflight_reports_first_conflict_in_planning_order() {
    let topology = staged_two_core_topology().unwrap();
    let root = topology.get(ROOT_CORE()).unwrap();
    let mut preflight = ApStartupPreflight::<2>::new(ROOT_CORE()).unwrap();
    assert!(preflight
        .add_staged_core(
            ROOT_CORE(),
            root,
            test_ap_stack_plan(VirtAddr::new(0xffff_ffff_9000_0000), 0x8000),
            ApDescriptorTableReadiness::PerCoreReady,
            1,
        )
        .is_ok());
    assert_eq!(
        preflight
            .add_staged_core(
                ROOT_CORE(),
                root,
                test_ap_stack_plan(VirtAddr::new(0xffff_ffff_9000_0000), 0x8000),
                ApDescriptorTableReadiness::PerCoreReady,
                1,
            )
            .err(),
        Some(CoreError::DuplicateCore)
    );
    assert_eq!(
        preflight
            .add_staged_core(
                CoreId::new(5),
                root,
                test_ap_stack_plan(VirtAddr::new(0xffff_ffff_9000_0000), 0x8000),
                ApDescriptorTableReadiness::PerCoreReady,
                1,
            )
            .err(),
        Some(CoreError::OwnerMismatch)
    );
    assert_eq!(
        preflight
            .add_staged_core(
                ROOT_CORE(),
                root,
                test_ap_stack_plan(VirtAddr::new(u64::MAX - 0x1000), 0x8000),
                ApDescriptorTableReadiness::PerCoreReady,
                1,
            )
            .err(),
        Some(CoreError::InvalidStartupStack)
    );
    assert_eq!(preflight.status().planned(), 1);
}

#[test]
fn stack_plans_require_size_alignment_and_region() {
    let region = ApStackRegion::new(
        VirtAddr::new(0xffff_ffff_8000_0000),
        VirtAddr::new(0xffff_ffff_c000_0000),
    )
    .unwrap();
    assert!(ApStackPlan::new(VirtAddr::new(0xffff_ffff_9000_0000), 0x8000, region).is_ok());
    assert_eq!(
        ApStackPlan::new(VirtAddr::new(0xffff_ffff_9000_0000), 0x4000, region).err(),
        Some(CoreError::InvalidStartupStack)
    );
    assert_eq!(
        ApStackPlan::new(VirtAddr::new(0xffff_ffff_9000_0010), 0x8000, region).err(),
        Some(CoreError::InvalidStartupStack)
    );
    assert_eq!(
        ApStackPlan::new(VirtAddr::new(0xffff_ffff_bfff_c000), 0x8000, region).err(),
        Some(CoreError::InvalidStartupStack)
    );
    assert_eq!(
        ApStackRegion::new(VirtAddr::new(0x2000), VirtAddr::new(0x1000)).err(),
        Some(CoreError::InvalidStartupStack)
    );
    assert_eq!(
        ApStackRegion::new(VirtAddr::new(0x1001), VirtAddr::new(0x3000)).err(),
        Some(CoreError::InvalidStartupStack)
    );
}

#[test]
fn registry_live_count_counts_booting_and_online_cores() {
    let mut registry = CoreRegistry::<3>::new(ROOT_CORE()).unwrap();
    let caps = qemu_bootstrap_caps();
    assert!(registry.insert(ROOT_CORE(), CoreLocal::new(ROOT_CORE(), CoreRole::Bootstrap, caps, CoreState::Online)).is_ok());
    assert!(registry.insert(ROOT_CORE(), CoreLocal::new(CoreId::new(1), CoreRole::Idle, caps, CoreState::Booting)).is_ok());
    assert!(registry.insert(ROOT_CORE(), CoreLocal::new(CoreId::new(2), CoreRole::Idle, caps, CoreState::Quarantined)).is_ok());
    assert_eq!(registry.live_count(), 2);
    assert_eq!(
        registry.insert(ROOT_CORE(), CoreLocal::new(CoreId::new(3), CoreRole::Idle, caps, CoreState::Offline)).err(),
        Some(CoreError::RegistryFull)
    );
    assert_eq!(registry.status().epoch(), 3);
    assert!(registry.contains(CoreId::new(2)));
}

#[test]
fn barrier_reports_all_arrived_only_after_every_participant() {
    let mut barrier = BootBarrier::<2>::new(ROOT_CORE()).unwrap();
    assert_eq!(barrier.seal(ROOT_CORE()).err(), Some(CoreError::UnknownCore));
    assert!(barrier.add_participant(ROOT_CORE(), ROOT_CORE()).is_ok());
    assert!(barrier.add_participant(ROOT_CORE(), CoreId::new(1)).is_ok());
    assert_eq!(
        barrier.add_participant(ROOT_CORE(), CoreId::new(2)).err(),
        Some(CoreError::RegistryFull)
    );
    assert!(barrier.seal(ROOT_CORE()).is_ok());
    assert_eq!(barrier.seal(ROOT_CORE()).err(), Some(CoreError::BarrierSealed));
    assert!(barrier.arrive(CoreId::new(1)).is_ok());
    assert!(!barrier.status().all_arrived());
    assert!(barrier.arrive(ROOT_CORE()).is_ok());
    assert!(barrier.status().all_arrived());
    assert_eq!(barrier.status().arrivals(), 2);
}

#[test]
fn topology_get_and_staging_track_startup_epoch() {
    let mut topology = CoreTopology::<2>::new(ROOT_CORE()).unwrap();
    assert_eq!(CoreTopology::<0>::new(ROOT_CORE()).err(), Some(CoreError::CapacityZero));
    assert!(topology.insert_discovered(ROOT_CORE(), ROOT_CORE(), CpuHardwareId::new(4), qemu_bootstrap_caps()).is_ok());
    assert_eq!(
        topology.insert_discovered(ROOT_CORE(), ROOT_CORE(), CpuHardwareId::new(5), qemu_bootstrap_caps()).err(),
        Some(CoreError::DuplicateCore)
    );
    let ticket = topology.stage_startup_ticket(ROOT_CORE(), ROOT_CORE()).unwrap();
    assert_eq!(ticket.startup_epoch(), 2);
    assert_eq!(ticket.target_core(), ROOT_CORE());
    assert_eq!(ticket.hardware_id(), CpuHardwareId::new(4));
    assert_eq!(ticket.coordinator_core(), ROOT_CORE());
    assert_eq!(topology.status().epoch(), 2);
    assert_eq!(topology.stage_startup_ticket(ROOT_CORE(), CoreId::new(9)).err(), Some(CoreError::UnknownCore));
    let arrival = CoreStartupArrival::new(ROOT_CORE(), CpuHardwareId::new(4), CoreId::new(3), 2);
    assert_eq!(
        topology.mark_hardware_online(ROOT_CORE(), arrival).err(),
        Some(CoreError::StartupEvidenceMismatch)
    );
    let entry = topology.get(ROOT_CORE()).unwrap();
    assert_eq!(entry.hardware_state(), CoreHardwareState::StartupStaged);
    assert_eq!(entry.local_state(), CoreState::Booting);
    assert_eq!(entry.assignment_state(), CoreAssignmentState::Unassigned);
    assert_eq!(entry.telemetry().local_events(), 1);
}

#[test]
fn startup_state_validate_reports_invalid_joint_state() {
    let bad = CoreStartupJointState::new(
        CoreHardwareState::Online,
        CoreAssignmentState::Unassigned,
        CoreState::Offline,
    );
    assert_eq!(bad.validate().err(), Some(CoreError::InvalidStateTransition));
    let good = CoreStartupJointState::new(
        CoreHardwareState::Online,
        CoreAssignmentState::Unassigned,
        CoreState::Online,
    );
    assert!(good.validate().is_ok());
}

#[test]
fn stage_startup_stages_discovered_core_once() {
    let mut topology = CoreTopology::<2>::new(ROOT_CORE()).unwrap();
    topology
        .insert_discovered(ROOT_CORE(), ROOT_CORE(), CpuHardwareId::new(0), qemu_bootstrap_caps())
        .unwrap();
    assert_eq!(topology.stage_startup(CoreId::new(9)), Err(CoreError::UnknownCore));
    assert_eq!(topology.stage_startup(ROOT_CORE()), Ok(()));
    assert_eq!(
        topology.get(ROOT_CORE()).map(|entry| entry.hardware_state()),
        Some(CoreHardwareState::StartupStaged)
    );
    assert_eq!(
        topology.stage_startup(ROOT_CORE()),
        Err(CoreError::InvalidStateTransition)
    );
}
