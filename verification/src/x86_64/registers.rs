use vstd::prelude::*;

use crate::abi::PhysAddr;
use crate::x86_64::{RFLAGS_INTERRUPT_ENABLE, RFLAGS_PUBLIC_MASK, lemma_low_bits, lemma_same_page};

verus! {

/// Stack, frame, flags and page-table registers of the boot path, exposed
/// only through summaries that hide the addresses.
#[derive(Clone, Copy, PartialEq, Eq, Structural)]
pub struct EarlyRegisterSnapshot {
    stack_pointer: u64,
    frame_pointer: u64,
    rflags: u64,
    cr3: u64,
}

impl EarlyRegisterSnapshot {
    pub closed spec fn spec_stack_pointer(self) -> u64 {
        self.stack_pointer
    }

    pub closed spec fn spec_frame_pointer(self) -> u64 {
        self.frame_pointer
    }

    pub closed spec fn spec_rflags(self) -> u64 {
        self.rflags
    }

    pub closed spec fn spec_cr3(self) -> u64 {
        self.cr3
    }

    /// A snapshot of the given register values.
    pub fn new(stack_pointer: u64, frame_pointer: u64, rflags: u64, cr3: u64) -> (r: Self)
        ensures
            r.spec_stack_pointer() == stack_pointer,
            r.spec_frame_pointer() == frame_pointer,
            r.spec_rflags() == rflags,
            r.spec_cr3() == cr3,
    {
        EarlyRegisterSnapshot { stack_pointer, frame_pointer, rflags, cr3 }
    }

    pub fn stack_pointer_present(self) -> (r: bool)
        ensures
            r == (self.spec_stack_pointer() != 0),
    {
        self.stack_pointer != 0
    }

    pub fn frame_pointer_present(self) -> (r: bool)
        ensures
            r == (self.spec_frame_pointer() != 0),
    {
        self.frame_pointer != 0
    }

    /// The stack pointer modulo 16.
    pub fn stack_pointer_alignment(self) -> (r: u16)
        ensures
            r == self.spec_stack_pointer() % 16,
    {
        proof {
            lemma_low_bits(self.stack_pointer);
        }
        (self.stack_pointer & 0xf) as u16
    }

    /// The frame pointer modulo 16.
    pub fn frame_pointer_alignment(self) -> (r: u16)
        ensures
            r == self.spec_frame_pointer() % 16,
    {
        proof {
            lemma_low_bits(self.frame_pointer);
        }
        (self.frame_pointer & 0xf) as u16
    }

    /// The flags safe to report.
    pub fn public_rflags(self) -> (r: u64)
        ensures
            r == self.spec_rflags() & RFLAGS_PUBLIC_MASK,
    {
        self.rflags & RFLAGS_PUBLIC_MASK
    }

    /// The offset of CR3 within its page.
    pub fn cr3_page_offset(self) -> (r: u16)
        ensures
            r == self.spec_cr3() % 4096,
    {
        proof {
            lemma_low_bits(self.cr3);
        }
        (self.cr3 & 0xfff) as u16
    }

    /// Whether CR3 points into the page of `phys`.
    pub fn cr3_page_matches(self, phys: PhysAddr) -> (r: bool)
        ensures
            r == (self.spec_cr3() / 4096 == phys.0 / 4096),
    {
        proof {
            lemma_same_page(self.cr3, phys.0);
        }
        (self.cr3 & !0xfffu64) == (phys.get() & !0xfffu64)
    }
}

/// Fault address, flags and page-table register at a fault, exposed only
/// through summaries that hide the addresses.
#[derive(Clone, Copy, PartialEq, Eq, Structural)]
pub struct FaultRegisterSnapshot {
    fault_address: u64,
    rflags: u64,
    cr3: u64,
}

impl FaultRegisterSnapshot {
    pub closed spec fn spec_fault_address(self) -> u64 {
        self.fault_address
    }

    pub closed spec fn spec_rflags(self) -> u64 {
        self.rflags
    }

    pub closed spec fn spec_cr3(self) -> u64 {
        self.cr3
    }

    /// A snapshot of the given register values.
    pub fn new(fault_address: u64, rflags: u64, cr3: u64) -> (r: Self)
        ensures
            r.spec_fault_address() == fault_address,
            r.spec_rflags() == rflags,
            r.spec_cr3() == cr3,
    {
        FaultRegisterSnapshot { fault_address, rflags, cr3 }
    }

    pub fn fault_address_present(self) -> (r: bool)
        ensures
            r == (self.spec_fault_address() != 0),
    {
        self.fault_address != 0
    }

    /// The offset of the fault address within its page.
    pub fn fault_address_page_offset(self) -> (r: u16)
        ensures
            r == self.spec_fault_address() % 4096,
    {
        proof {
            lemma_low_bits(self.fault_address);
        }
        (self.fault_address & 0xfff) as u16
    }

    /// The flags safe to report.
    pub fn public_rflags(self) -> (r: u64)
        ensures
            r == self.spec_rflags() & RFLAGS_PUBLIC_MASK,
    {
        self.rflags & RFLAGS_PUBLIC_MASK
    }

    pub fn interrupts_enabled(self) -> (r: bool)
        ensures
            r == (self.spec_rflags() & RFLAGS_INTERRUPT_ENABLE != 0),
    {
        self.rflags & RFLAGS_INTERRUPT_ENABLE != 0
    }

    /// The offset of CR3 within its page.
    pub fn cr3_page_offset(self) -> (r: u16)
        ensures
            r == self.spec_cr3() % 4096,
    {
        proof {
            lemma_low_bits(self.cr3);
        }
        (self.cr3 & 0xfff) as u16
    }

    /// Whether CR3 points into the page of `phys`.
    pub fn cr3_page_matches(self, phys: PhysAddr) -> (r: bool)
        ensures
            r == (self.spec_cr3() / 4096 == phys.0 / 4096),
    {
        proof {
            lemma_same_page(self.cr3, phys.0);
        }
        (self.cr3 & !0xfffu64) == (phys.get() & !0xfffu64)
    }
}

} // verus!
