//! Architecture-neutral interfaces: interrupt vectors for inter-processor
//! interrupts, the errors that architecture back ends report, and the
//! interrupt-controller interface they implement.

use vstd::prelude::*;

use crate::abi::{CoreId, IrqLine};

verus! {

/// Vector of an inter-processor interrupt.
#[derive(Clone, Copy, Debug, PartialEq, Eq, Structural)]
pub struct IpiVector(pub u8);

impl IpiVector {
    pub fn new(value: u8) -> (r: Self)
        ensures
            r.0 == value,
    {
        IpiVector(value)
    }

    pub fn get(self) -> (r: u8)
        ensures
            r == self.0,
    {
        self.0
    }
}

/// Why a memory-management operation failed.
#[derive(Clone, Copy, Debug, PartialEq, Eq, Structural)]
pub enum MemoryError {
    Unsupported,
    InvalidAddress,
    AlreadyMapped,
    NotMapped,
    OutOfMemory,
}

/// Why an interrupt-controller operation failed.
#[derive(Clone, Copy, Debug, PartialEq, Eq, Structural)]
pub enum InterruptError {
    Unsupported,
    InvalidIrq,
    ControllerUnavailable,
}

/// An interrupt controller that an architecture back end provides.
pub trait InterruptController {
    fn init() -> Result<(), InterruptError>;

    fn enable_irq(irq: IrqLine) -> Result<(), InterruptError>;

    fn disable_irq(irq: IrqLine) -> Result<(), InterruptError>;

    fn acknowledge(irq: IrqLine);

    fn send_ipi(target: CoreId, vector: IpiVector) -> Result<(), InterruptError>;
}

} // verus!
