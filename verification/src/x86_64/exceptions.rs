use vstd::prelude::*;

use crate::x86_64::RFLAGS_PUBLIC_MASK;
use crate::x86_64::descriptors::{InterruptStackTableIndex, SegmentSelector};
use crate::x86_64::lemma_low_bits;

verus! {

pub const IDT_ENTRIES: usize = 256;

pub const BREAKPOINT_VECTOR: usize = 3;

pub const DOUBLE_FAULT_VECTOR: usize = 8;

pub const PAGE_FAULT_VECTOR: usize = 14;

/// Gate options: present, DPL 0, 64-bit interrupt gate.
pub const INTERRUPT_GATE_PRESENT: u16 = 0x8e00;

/// Bytes of each entry stub in the exception stub table.
pub const EXCEPTION_STUB_BYTES: usize = 16;

/// General-purpose registers the returning exception path saves.
pub const RETURNING_EXCEPTION_GPR_SAVE_COUNT: usize = 15;

/// Bytes those saved registers take.
pub const RETURNING_EXCEPTION_GPR_SAVE_BYTES: usize = RETURNING_EXCEPTION_GPR_SAVE_COUNT * 8;

/// First vector that is not a processor exception.
pub const FIRST_INTERRUPT_VECTOR: usize = 0x20;

/// What exception-table setup installed.
#[derive(Clone, Copy, Debug, PartialEq, Eq, Structural)]
pub struct ExceptionTableStatus {
    pub idt_entries: usize,
    pub breakpoint_vector: u8,
    pub page_fault_vector: u8,
    pub double_fault_vector: u8,
    pub double_fault_ist: InterruptStackTableIndex,
    pub initialized_this_call: bool,
}

/// The status of the exception table; `initialized_this_call` tells whether
/// this call installed it.
pub fn exception_table_status(double_fault_ist: InterruptStackTableIndex, initialized_this_call: bool) -> (r:
    ExceptionTableStatus)
    ensures
        r.idt_entries == IDT_ENTRIES,
        r.breakpoint_vector == BREAKPOINT_VECTOR,
        r.page_fault_vector == PAGE_FAULT_VECTOR,
        r.double_fault_vector == DOUBLE_FAULT_VECTOR,
        r.double_fault_ist == double_fault_ist,
        r.initialized_this_call == initialized_this_call,
{
    ExceptionTableStatus {
        idt_entries: IDT_ENTRIES,
        breakpoint_vector: 3,
        page_fault_vector: 14,
        double_fault_vector: 8,
        double_fault_ist,
        initialized_this_call,
    }
}

/// Why an interrupt gate was not installed.
#[derive(Clone, Copy, Debug, PartialEq, Eq, Structural)]
pub enum IdtError {
    InvalidInterruptVector,
    CpuStateUnavailable,
}

/// The checks before an interrupt gate is written: the vector must be past
/// the processor exceptions, and interrupts must have been masked already.
/// Gives the table index.
pub fn check_interrupt_gate_install(vector: u8, interrupts_were_enabled: bool) -> (r: Result<usize, IdtError>)
    ensures
        vector < FIRST_INTERRUPT_VECTOR ==> r == Err::<usize, IdtError>(IdtError::InvalidInterruptVector),
        vector >= FIRST_INTERRUPT_VECTOR && interrupts_were_enabled ==> r == Err::<usize, IdtError>(
            IdtError::CpuStateUnavailable,
        ),
        vector >= FIRST_INTERRUPT_VECTOR && !interrupts_were_enabled ==> r == Ok::<usize, IdtError>(
            vector as usize,
        ),
{
    let index = vector as usize;
    if index < FIRST_INTERRUPT_VECTOR || index >= IDT_ENTRIES {
        return Err(IdtError::InvalidInterruptVector);
    }
    if interrupts_were_enabled {
        return Err(IdtError::CpuStateUnavailable);
    }
    Ok(index)
}

/// An IDT gate descriptor.
#[derive(Clone, Copy, Debug, PartialEq, Eq, Structural)]
pub struct IdtEntry {
    pub offset_low: u16,
    pub selector: u16,
    pub options: u16,
    pub offset_mid: u16,
    pub offset_high: u32,
    pub reserved: u32,
}

/// The IDT entry that sends to the handler at `address` through IST `ist`.
pub open spec fn gate_for(address: u64, ist: u8) -> IdtEntry {
    IdtEntry {
        offset_low: address as u16,
        selector: 0x08,
        options: INTERRUPT_GATE_PRESENT | ((ist & 0x07) as u16),
        offset_mid: (address >> 16u64) as u16,
        offset_high: (address >> 32u64) as u32,
        reserved: 0,
    }
}

impl IdtEntry {
    /// A not-present gate.
    pub fn missing() -> (r: Self)
        ensures
            r == (IdtEntry {
                offset_low: 0,
                selector: 0,
                options: 0,
                offset_mid: 0,
                offset_high: 0,
                reserved: 0,
            }),
    {
        IdtEntry { offset_low: 0, selector: 0, options: 0, offset_mid: 0, offset_high: 0, reserved: 0 }
    }

    /// A present ring-0 interrupt gate to `address` in the kernel code
    /// segment, using the low three bits of `ist` as its stack-table index.
    pub fn interrupt_gate_address(address: u64, ist: u8) -> (r: Self)
        ensures
            r == gate_for(address, ist),
    {
        let options = INTERRUPT_GATE_PRESENT | ((ist & 0x07) as u16);
        IdtEntry {
            offset_low: address as u16,
            selector: SegmentSelector::KERNEL_CODE().bits(),
            options,
            offset_mid: (address >> 16u64) as u16,
            offset_high: (address >> 32u64) as u32,
            reserved: 0,
        }
    }
}

/// Address of the stub for `vector` in a stub table at `table`.
pub fn exception_stub_address(table: u64, vector: usize) -> (r: u64)
    requires
        vector < IDT_ENTRIES,
        table + IDT_ENTRIES * EXCEPTION_STUB_BYTES <= u64::MAX,
    ensures
        r == table + vector * EXCEPTION_STUB_BYTES,
{
    table + (vector as u64) * (EXCEPTION_STUB_BYTES as u64)
}

/// The IDT entry of `vector` in the boot IDT: breakpoint, page fault and double
/// fault go to their own handlers, the double fault on its own stack, and
/// every other vector to its stub in the table at `stub_table`.
pub fn boot_idt_gate(
    vector: usize,
    stub_table: u64,
    breakpoint_handler: u64,
    page_fault_handler: u64,
    double_fault_handler: u64,
    double_fault_ist: InterruptStackTableIndex,
) -> (r: IdtEntry)
    requires
        vector < IDT_ENTRIES,
        stub_table + IDT_ENTRIES * EXCEPTION_STUB_BYTES <= u64::MAX,
    ensures
        vector == BREAKPOINT_VECTOR ==> r == gate_for(breakpoint_handler, 0),
        vector == PAGE_FAULT_VECTOR ==> r == gate_for(page_fault_handler, 0),
        vector == DOUBLE_FAULT_VECTOR ==> r == gate_for(double_fault_handler, double_fault_ist.0 as u8),
        vector != BREAKPOINT_VECTOR && vector != PAGE_FAULT_VECTOR && vector != DOUBLE_FAULT_VECTOR
            ==> r == gate_for((stub_table + vector * EXCEPTION_STUB_BYTES) as u64, 0),
{
    if vector == BREAKPOINT_VECTOR {
        IdtEntry::interrupt_gate_address(breakpoint_handler, 0)
    } else if vector == PAGE_FAULT_VECTOR {
        IdtEntry::interrupt_gate_address(page_fault_handler, 0)
    } else if vector == DOUBLE_FAULT_VECTOR {
        IdtEntry::interrupt_gate_address(double_fault_handler, double_fault_ist.get() as u8)
    } else {
        IdtEntry::interrupt_gate_address(exception_stub_address(stub_table, vector), 0)
    }
}

/// The frame the exception stubs push, as they lay it out.
#[derive(Clone, Copy, Debug, PartialEq, Eq, Structural)]
pub struct RawExceptionFrame {
    pub vector: u64,
    pub error_code: u64,
    pub instruction_pointer: u64,
    pub code_segment: u64,
    pub rflags: u64,
}

/// The fields of an exception frame that diagnostics use.
#[derive(Clone, Copy, Debug, PartialEq, Eq, Structural)]
pub struct ExceptionFrame {
    pub vector: u8,
    pub error_code: u64,
    pub instruction_pointer: u64,
    pub code_segment: u64,
    pub rflags: u64,
}

impl ExceptionFrame {
    /// The frame copied from `raw`, unless its vector is not a byte.
    pub fn from_raw_frame(raw: RawExceptionFrame) -> (r: Option<Self>)
        ensures
            raw.vector <= 0xff ==> r == Some(
                ExceptionFrame {
                    vector: raw.vector as u8,
                    error_code: raw.error_code,
                    instruction_pointer: raw.instruction_pointer,
                    code_segment: raw.code_segment,
                    rflags: raw.rflags,
                },
            ),
            raw.vector > 0xff ==> r is None,
    {
        if raw.vector > 0xff {
            return None;
        }
        Some(
            ExceptionFrame {
                vector: raw.vector as u8,
                error_code: raw.error_code,
                instruction_pointer: raw.instruction_pointer,
                code_segment: raw.code_segment,
                rflags: raw.rflags,
            },
        )
    }

    /// The flags safe to report.
    pub fn public_rflags(self) -> (r: u64)
        ensures
            r == self.rflags & RFLAGS_PUBLIC_MASK,
    {
        self.rflags & RFLAGS_PUBLIC_MASK
    }

    pub fn instruction_pointer_present(self) -> (r: bool)
        ensures
            r == (self.instruction_pointer != 0),
    {
        self.instruction_pointer != 0
    }

    /// The offset of the faulting instruction within its page.
    pub fn instruction_pointer_offset(self) -> (r: u16)
        ensures
            r == self.instruction_pointer % 4096,
    {
        proof {
            lemma_low_bits(self.instruction_pointer);
        }
        (self.instruction_pointer & 0xfff) as u16
    }
}

/// The exceptions the boot path reports by name.
#[derive(Clone, Copy, Debug, PartialEq, Eq, Structural)]
pub enum ExceptionKind {
    /// Breakpoint: reported, then execution resumes.
    Breakpoint,
    /// Page fault: the error code and a redacted register summary are
    /// reported, then the core halts.
    PageFault,
    /// Double fault: reported, then the core halts.
    DoubleFault,
    /// Any other vector: reported by number.
    Other(u8),
}

/// How the exception dispatcher reports vector `vector`.
pub fn classify_exception(vector: u8) -> (r: ExceptionKind)
    ensures
        vector == BREAKPOINT_VECTOR ==> r is Breakpoint,
        vector == PAGE_FAULT_VECTOR ==> r is PageFault,
        vector == DOUBLE_FAULT_VECTOR ==> r is DoubleFault,
        vector != BREAKPOINT_VECTOR && vector != PAGE_FAULT_VECTOR && vector != DOUBLE_FAULT_VECTOR
            ==> r == ExceptionKind::Other(vector),
{
    if vector == 3 {
        ExceptionKind::Breakpoint
    } else if vector == 14 {
        ExceptionKind::PageFault
    } else if vector == 8 {
        ExceptionKind::DoubleFault
    } else {
        ExceptionKind::Other(vector)
    }
}

/// A page-fault error code.
#[derive(Clone, Copy, Debug, PartialEq, Eq, Structural)]
pub struct PageFaultErrorCode(pub u64);

impl PageFaultErrorCode {
    pub fn new(raw: u64) -> (r: Self)
        ensures
            r.0 == raw,
    {
        PageFaultErrorCode(raw)
    }

    /// The fault was a protection violation on a present page.
    pub fn present(self) -> (r: bool)
        ensures
            r == (self.0 & 0x1 != 0),
    {
        self.0 & 0x1 != 0
    }

    pub fn write(self) -> (r: bool)
        ensures
            r == (self.0 & 0x2 != 0),
    {
        self.0 & 0x2 != 0
    }

    pub fn user(self) -> (r: bool)
        ensures
            r == (self.0 & 0x4 != 0),
    {
        self.0 & 0x4 != 0
    }

    pub fn reserved_bit(self) -> (r: bool)
        ensures
            r == (self.0 & 0x8 != 0),
    {
        self.0 & 0x8 != 0
    }

    pub fn instruction_fetch(self) -> (r: bool)
        ensures
            r == (self.0 & 0x10 != 0),
    {
        self.0 & 0x10 != 0
    }

    pub fn protection_key(self) -> (r: bool)
        ensures
            r == (self.0 & 0x20 != 0),
    {
        self.0 & 0x20 != 0
    }

    pub fn shadow_stack(self) -> (r: bool)
        ensures
            r == (self.0 & 0x40 != 0),
    {
        self.0 & 0x40 != 0
    }

    pub fn sgx(self) -> (r: bool)
        ensures
            r == (self.0 & 0x8000 != 0),
    {
        self.0 & 0x8000 != 0
    }
}

} // verus!
