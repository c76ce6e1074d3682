use vstd::prelude::*;

verus! {

#[derive(Clone, Copy, Debug, PartialEq, Eq, Structural)]
pub enum CoreError {
    AlreadyArrived,
    BarrierNotSealed,
    BarrierSealed,
    CapacityZero,
    DuplicateCore,
    DuplicateHardwareId,
    DuplicateStartupStack,
    InvalidStateTransition,
    InvalidStartupStack,
    MissingStartupWatchdog,
    OwnerMismatch,
    RegistryFull,
    RoleMismatch,
    InvalidStartupEpoch,
    StartupEvidenceMismatch,
    StartupPreflightBlocked,
    TelemetryOverflow,
    UnknownCore,
}

} // verus!
