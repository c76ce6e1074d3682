use vstd::prelude::*;

verus! {

/// The authority class a core runs in.
#[derive(Clone, Copy, Debug, PartialEq, Eq, Structural)]
pub enum CoreRole {
    Bootstrap,
    Scheduler,
    DriverService,
    Idle,
}

impl CoreRole {
    pub fn label(self) -> (r: &'static str)
        ensures
            self is Bootstrap ==> r@ == "bootstrap"@,
            self is Scheduler ==> r@ == "scheduler"@,
            self is DriverService ==> r@ == "driver-service"@,
            self is Idle ==> r@ == "idle"@,
    {
        match self {
            CoreRole::Bootstrap => "bootstrap",
            CoreRole::Scheduler => "scheduler",
            CoreRole::DriverService => "driver-service",
            CoreRole::Idle => "idle",
        }
    }

    /// Bootstrap and scheduler cores run tasks.
    pub fn can_schedule_tasks(self) -> (r: bool)
        ensures
            r == (self is Bootstrap || self is Scheduler),
    {
        match self {
            CoreRole::Bootstrap | CoreRole::Scheduler => true,
            _ => false,
        }
    }

    /// Bootstrap and driver-service cores own driver interrupts.
    pub fn can_own_driver_irq(self) -> (r: bool)
        ensures
            r == (self is Bootstrap || self is DriverService),
    {
        match self {
            CoreRole::Bootstrap | CoreRole::DriverService => true,
            _ => false,
        }
    }
}

} // verus!
