use vstd::prelude::*;

use crate::multicore::error::CoreError;
use crate::multicore::local::CoreState;
use crate::multicore::topology::{CoreAssignmentState, CoreHardwareState};

verus! {

/// The hardware, assignment and local states of one core taken together.
#[derive(Clone, Copy, Debug, PartialEq, Eq, Structural)]
pub struct CoreStartupJointState {
    pub hardware_state: CoreHardwareState,
    pub assignment_state: CoreAssignmentState,
    pub local_state: CoreState,
}

/// The hardware state and the core's own state agree: discovered cores are
/// offline, staged cores booting, online cores online, quarantined cores
/// quarantined; any assignment state goes with each.
pub open spec fn joint_state_valid(hardware: CoreHardwareState, local: CoreState) -> bool {
    ||| hardware is Discovered && local is Offline
    ||| hardware is StartupStaged && local is Booting
    ||| hardware is Online && local is Online
    ||| hardware is Quarantined && local is Quarantined
}

/// A core may be assigned a role, or quarantined, only before it is online:
/// while discovered or staged.
pub open spec fn joint_state_pre_online(hardware: CoreHardwareState, local: CoreState) -> bool {
    ||| hardware is Discovered && local is Offline
    ||| hardware is StartupStaged && local is Booting
}

impl CoreStartupJointState {
    pub fn new(
        hardware_state: CoreHardwareState,
        assignment_state: CoreAssignmentState,
        local_state: CoreState,
    ) -> (r: Self)
        ensures
            r == (CoreStartupJointState { hardware_state, assignment_state, local_state }),
    {
        CoreStartupJointState { hardware_state, assignment_state, local_state }
    }

    pub fn hardware_state(self) -> (r: CoreHardwareState)
        ensures
            r == self.hardware_state,
    {
        self.hardware_state
    }

    pub fn assignment_state(self) -> (r: CoreAssignmentState)
        ensures
            r == self.assignment_state,
    {
        self.assignment_state
    }

    pub fn local_state(self) -> (r: CoreState)
        ensures
            r == self.local_state,
    {
        self.local_state
    }

    /// Whether the three states are jointly valid.
    pub fn is_valid(self) -> (r: bool)
        ensures
            r == joint_state_valid(self.hardware_state, self.local_state),
    {
        match (self.hardware_state, self.local_state) {
            (CoreHardwareState::Discovered, CoreState::Offline)
            | (CoreHardwareState::StartupStaged, CoreState::Booting)
            | (CoreHardwareState::Online, CoreState::Online)
            | (CoreHardwareState::Quarantined, CoreState::Quarantined) => true,
            _ => false,
        }
    }

    pub fn validate(self) -> (r: Result<(), CoreError>)
        ensures
            r is Ok <==> joint_state_valid(self.hardware_state, self.local_state),
            r is Err ==> r == Err::<(), CoreError>(CoreError::InvalidStateTransition),
    {
        if self.is_valid() {
            Ok(())
        } else {
            Err(CoreError::InvalidStateTransition)
        }
    }

    /// Staging needs a discovered, offline core.
    pub fn validate_startup_stage(self) -> (r: Result<(), CoreError>)
        ensures
            r is Ok <==> (self.hardware_state is Discovered && self.local_state is Offline),
            r is Err ==> r == Err::<(), CoreError>(CoreError::InvalidStateTransition),
    {
        match self.validate() {
            Ok(()) => {},
            Err(error) => return Err(error),
        }
        match (self.hardware_state, self.local_state) {
            (CoreHardwareState::Discovered, CoreState::Offline) => Ok(()),
            _ => Err(CoreError::InvalidStateTransition),
        }
    }

    /// Role assignment needs a core that is not yet online.
    pub fn validate_role_assignment(self) -> (r: Result<(), CoreError>)
        ensures
            r is Ok <==> joint_state_pre_online(self.hardware_state, self.local_state),
            r is Err ==> r == Err::<(), CoreError>(CoreError::InvalidStateTransition),
    {
        match self.validate() {
            Ok(()) => {},
            Err(error) => return Err(error),
        }
        match (self.hardware_state, self.local_state) {
            (CoreHardwareState::Discovered, CoreState::Offline)
            | (CoreHardwareState::StartupStaged, CoreState::Booting) => Ok(()),
            _ => Err(CoreError::InvalidStateTransition),
        }
    }

    /// Bringing a core online needs a staged, booting core.
    pub fn validate_hardware_online(self) -> (r: Result<(), CoreError>)
        ensures
            r is Ok <==> (self.hardware_state is StartupStaged && self.local_state is Booting),
            r is Err ==> r == Err::<(), CoreError>(CoreError::InvalidStateTransition),
    {
        match self.validate() {
            Ok(()) => {},
            Err(error) => return Err(error),
        }
        match (self.hardware_state, self.local_state) {
            (CoreHardwareState::StartupStaged, CoreState::Booting) => Ok(()),
            _ => Err(CoreError::InvalidStateTransition),
        }
    }

    /// Quarantine is reachable only from a core that is not yet online;
    /// online cores need a fault path, and quarantine is terminal.
    pub fn validate_quarantine(self) -> (r: Result<(), CoreError>)
        ensures
            r is Ok <==> joint_state_pre_online(self.hardware_state, self.local_state),
            r is Err ==> r == Err::<(), CoreError>(CoreError::InvalidStateTransition),
    {
        match self.validate() {
            Ok(()) => {},
            Err(error) => return Err(error),
        }
        match (self.hardware_state, self.local_state) {
            (CoreHardwareState::Discovered, CoreState::Offline)
            | (CoreHardwareState::StartupStaged, CoreState::Booting) => Ok(()),
            _ => Err(CoreError::InvalidStateTransition),
        }
    }
}

/// How many combinations of the three state axes are jointly valid.
#[derive(Clone, Copy, Debug, PartialEq, Eq, Structural)]
pub struct CoreStartupStateTableStatus {
    valid_combinations: usize,
    invalid_combinations: usize,
}

impl CoreStartupStateTableStatus {
    pub closed spec fn spec_valid_combinations(self) -> usize {
        self.valid_combinations
    }

    pub closed spec fn spec_invalid_combinations(self) -> usize {
        self.invalid_combinations
    }

    #[verifier::when_used_as_spec(spec_valid_combinations)]
    pub fn valid_combinations(self) -> (r: usize)
        ensures
            r == self.spec_valid_combinations(),
    {
        self.valid_combinations
    }

    #[verifier::when_used_as_spec(spec_invalid_combinations)]
    pub fn invalid_combinations(self) -> (r: usize)
        ensures
            r == self.spec_invalid_combinations(),
    {
        self.invalid_combinations
    }

    pub fn total_combinations(self) -> (r: usize)
        requires
            self.spec_valid_combinations() + self.spec_invalid_combinations() <= usize::MAX,
        ensures
            r == self.spec_valid_combinations() + self.spec_invalid_combinations(),
    {
        self.valid_combinations + self.invalid_combinations
    }
}

/// The hardware state with index `index` in declaration order.
pub open spec fn hardware_state_index(state: CoreHardwareState) -> int {
    match state {
        CoreHardwareState::Discovered => 0,
        CoreHardwareState::StartupStaged => 1,
        CoreHardwareState::Online => 2,
        CoreHardwareState::Quarantined => 3,
    }
}

/// The local state with index `index` in declaration order.
pub open spec fn local_state_index(state: CoreState) -> int {
    match state {
        CoreState::Offline => 0,
        CoreState::Booting => 1,
        CoreState::Online => 2,
        CoreState::Quarantined => 3,
    }
}

fn hardware_state_at(index: usize) -> (r: CoreHardwareState)
    requires
        index < 4,
    ensures
        hardware_state_index(r) == index,
{
    match index {
        0 => CoreHardwareState::Discovered,
        1 => CoreHardwareState::StartupStaged,
        2 => CoreHardwareState::Online,
        _ => CoreHardwareState::Quarantined,
    }
}

fn assignment_state_at(index: usize) -> (r: CoreAssignmentState)
    requires
        index < 2,
    ensures
        index == 0 ==> r is Unassigned,
        index == 1 ==> r is Assigned,
{
    match index {
        0 => CoreAssignmentState::Unassigned,
        _ => CoreAssignmentState::Assigned,
    }
}

fn local_state_at(index: usize) -> (r: CoreState)
    requires
        index < 4,
    ensures
        local_state_index(r) == index,
{
    match index {
        0 => CoreState::Offline,
        1 => CoreState::Booting,
        2 => CoreState::Online,
        _ => CoreState::Quarantined,
    }
}

/// Counts, over every hardware, assignment and local state, the jointly
/// valid combinations: exactly one local state fits each hardware state, so 8
/// of the 32 combinations are valid.
pub fn audit_startup_state_table() -> (r: CoreStartupStateTableStatus)
    ensures
        r.spec_valid_combinations() == 8,
        r.spec_invalid_combinations() == 24,
{
    let mut valid_combinations: usize = 0;
    let mut invalid_combinations: usize = 0;
    let mut hardware_index: usize = 0;
    while hardware_index < 4
        invariant
            hardware_index <= 4,
            valid_combinations == 2 * hardware_index,
            invalid_combinations == 6 * hardware_index,
        decreases 4 - hardware_index,
    {
        let hardware = hardware_state_at(hardware_index);
        let mut assignment_index: usize = 0;
        while assignment_index < 2
            invariant
                hardware_index < 4,
                assignment_index <= 2,
                hardware_state_index(hardware) == hardware_index,
                valid_combinations == 2 * hardware_index + assignment_index,
                invalid_combinations == 6 * hardware_index + 3 * assignment_index,
            decreases 2 - assignment_index,
        {
            let assignment = assignment_state_at(assignment_index);
            let mut local_index: usize = 0;
            while local_index < 4
                invariant
                    hardware_index < 4,
                    assignment_index < 2,
                    local_index <= 4,
                    hardware_state_index(hardware) == hardware_index,
                    valid_combinations == 2 * hardware_index + assignment_index + if local_index
                        > hardware_index {
                        1usize
                    } else {
                        0usize
                    },
                    invalid_combinations == 6 * hardware_index + 3 * assignment_index + local_index
                        - if local_index > hardware_index {
                        1usize
                    } else {
                        0usize
                    },
                decreases 4 - local_index,
            {
                let local = local_state_at(local_index);
                let state = CoreStartupJointState::new(hardware, assignment, local);
                if state.is_valid() {
                    valid_combinations += 1;
                } else {
                    invalid_combinations += 1;
                }
                local_index += 1;
            }
            assignment_index += 1;
        }
        hardware_index += 1;
    }
    CoreStartupStateTableStatus { valid_combinations, invalid_combinations }
}

} // verus!
