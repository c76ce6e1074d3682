use vstd::prelude::*;

use crate::abi::{CoreId, IrqLine};
use crate::arch::{InterruptError, IpiVector};
use crate::x86_64::port::AdmittedPort;

verus! {

/// Lines of the two cascaded 8259 controllers.
pub const LEGACY_PIC_IRQS: u32 = 16;

/// First vector the legacy lines are remapped to.
pub const IRQ_VECTOR_BASE: u8 = 0x20;

/// Number of remapped legacy vectors.
pub const IRQ_VECTOR_COUNT: u8 = 16;

/// Mask byte that masks every line of one controller.
pub const PIC_MASK_ALL: u8 = 0xff;

/// End-of-interrupt command byte.
pub const PIC_EOI: u8 = 0x20;

/// CPUID leaf 1 EDX bit that reports a local APIC.
pub const CPUID_FEATURE_EDX_APIC: u32 = 0x200;

/// What the interrupt controller setup found and did.
#[derive(Clone, Copy, Debug, PartialEq, Eq, Structural)]
pub struct InterruptControllerStatus {
    pub legacy_pic_masked: bool,
    pub local_apic_present: bool,
    pub local_apic_mode: LocalApicMode,
    pub irq_vector_base: u8,
    pub irq_vector_count: u8,
}

/// How the local APIC is used.
#[derive(Clone, Copy, Debug, PartialEq, Eq, Structural)]
pub enum LocalApicMode {
    Unavailable,
    DeferredUntilMmioMapping,
}

/// The vector a legacy interrupt line is remapped to.
#[derive(Clone, Copy, Debug, PartialEq, Eq, Structural)]
pub struct IrqVector(u8);

impl IrqVector {
    pub closed spec fn spec_get(self) -> u8 {
        self.0
    }

    /// The remapped vector of `irq`, for the sixteen legacy lines only.
    pub fn from_irq(irq: IrqLine) -> (r: Result<Self, InterruptError>)
        ensures
            irq.0 < LEGACY_PIC_IRQS ==> (r matches Ok(v) && v.spec_get() == IRQ_VECTOR_BASE + irq.0),
            irq.0 >= LEGACY_PIC_IRQS ==> r == Err::<Self, InterruptError>(InterruptError::InvalidIrq),
    {
        let line = irq.get();
        if line >= LEGACY_PIC_IRQS {
            return Err(InterruptError::InvalidIrq);
        }
        Ok(IrqVector(IRQ_VECTOR_BASE + line as u8))
    }

    pub fn get(self) -> (r: u8)
        ensures
            r == self.spec_get(),
    {
        self.0
    }
}

/// The remapped vector of `irq`.
pub fn irq_vector(irq: IrqLine) -> (r: Result<IrqVector, InterruptError>)
    ensures
        irq.0 < LEGACY_PIC_IRQS ==> (r matches Ok(v) && v.spec_get() == IRQ_VECTOR_BASE + irq.0),
        irq.0 >= LEGACY_PIC_IRQS ==> r == Err::<IrqVector, InterruptError>(InterruptError::InvalidIrq),
{
    IrqVector::from_irq(irq)
}

/// Whether CPUID leaf 1 EDX reports a local APIC.
pub fn local_apic_present(leaf_1_edx: u32) -> (r: bool)
    ensures
        r == (leaf_1_edx & CPUID_FEATURE_EDX_APIC != 0),
{
    leaf_1_edx & CPUID_FEATURE_EDX_APIC != 0
}

/// The status after the legacy controllers are masked: the local APIC,
/// when present, waits for its MMIO mapping.
pub fn controller_status(local_apic_present: bool) -> (r: InterruptControllerStatus)
    ensures
        r.legacy_pic_masked,
        r.local_apic_present == local_apic_present,
        local_apic_present ==> r.local_apic_mode is DeferredUntilMmioMapping,
        !local_apic_present ==> r.local_apic_mode is Unavailable,
        r.irq_vector_base == IRQ_VECTOR_BASE,
        r.irq_vector_count == IRQ_VECTOR_COUNT,
{
    InterruptControllerStatus {
        legacy_pic_masked: true,
        local_apic_present,
        local_apic_mode: if local_apic_present {
            LocalApicMode::DeferredUntilMmioMapping
        } else {
            LocalApicMode::Unavailable
        },
        irq_vector_base: IRQ_VECTOR_BASE,
        irq_vector_count: IRQ_VECTOR_COUNT,
    }
}

/// The data port and bit that mask `irq`: the master controller for lines
/// below eight, the slave above.
pub fn legacy_pic_mask_bit(irq: IrqLine) -> (r: Result<(AdmittedPort, u8), InterruptError>)
    ensures
        irq.0 >= LEGACY_PIC_IRQS ==> r == Err::<(AdmittedPort, u8), InterruptError>(
            InterruptError::InvalidIrq,
        ),
        irq.0 < 8 ==> r == Ok::<(AdmittedPort, u8), InterruptError>(
            (AdmittedPort::PicMasterData, (1u8 << (irq.0 % 8)) as u8),
        ),
        8 <= irq.0 < LEGACY_PIC_IRQS ==> r == Ok::<(AdmittedPort, u8), InterruptError>(
            (AdmittedPort::PicSlaveData, (1u8 << (irq.0 % 8)) as u8),
        ),
{
    let line = irq.get();
    if line >= LEGACY_PIC_IRQS {
        return Err(InterruptError::InvalidIrq);
    }
    let port = if line < 8 {
        AdmittedPort::PicMasterData
    } else {
        AdmittedPort::PicSlaveData
    };
    let shift: u8 = (line % 8) as u8;
    Ok((port, 1u8 << shift))
}

/// Whether acknowledging `irq` needs an end-of-interrupt to the slave
/// controller before the master: only lines eight and up do.
pub fn legacy_pic_needs_slave_eoi(irq: IrqLine) -> (r: Result<bool, InterruptError>)
    ensures
        irq.0 >= LEGACY_PIC_IRQS ==> r == Err::<bool, InterruptError>(InterruptError::InvalidIrq),
        irq.0 < LEGACY_PIC_IRQS ==> r == Ok::<bool, InterruptError>(irq.0 >= 8),
{
    let line = irq.get();
    if line >= LEGACY_PIC_IRQS {
        return Err(InterruptError::InvalidIrq);
    }
    Ok(line >= 8)
}

/// The legacy interrupt controller of the x86_64 back end.
pub struct X86_64InterruptController;

impl X86_64InterruptController {
    /// Enabling a line is deferred until the local APIC is mapped; the line
    /// is still validated first.
    pub fn enable_irq(irq: IrqLine) -> (r: Result<(), InterruptError>)
        ensures
            irq.0 >= LEGACY_PIC_IRQS ==> r == Err::<(), InterruptError>(InterruptError::InvalidIrq),
            irq.0 < LEGACY_PIC_IRQS ==> r == Err::<(), InterruptError>(
                InterruptError::ControllerUnavailable,
            ),
    {
        match IrqVector::from_irq(irq) {
            Ok(_) => Err(InterruptError::ControllerUnavailable),
            Err(error) => Err(error),
        }
    }

    /// Inter-processor interrupts need the local APIC, which is not mapped.
    pub fn send_ipi(target: CoreId, vector: IpiVector) -> (r: Result<(), InterruptError>)
        ensures
            r == Err::<(), InterruptError>(InterruptError::ControllerUnavailable),
    {
        Err(InterruptError::ControllerUnavailable)
    }
}

} // verus!
