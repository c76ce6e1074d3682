use vstd::prelude::*;

verus! {

/// Entries of the boot GDT: null, kernel code, kernel data and the two
/// halves of the TSS descriptor.
pub const GDT_ENTRIES: usize = 5;

/// Bytes of the double-fault stack.
pub const DOUBLE_FAULT_STACK_BYTES: usize = 16384;

/// Position of the double-fault stack in `TSS.ist`; the IST number written
/// into gates is one more, since zero means none.
pub const DOUBLE_FAULT_IST_SLOT: usize = 0;

/// Bytes of a 64-bit task-state segment.
pub const TASK_STATE_SEGMENT_BYTES: usize = 104;

/// Present, ring-0, long-mode code segment descriptor.
pub const KERNEL_CODE_DESCRIPTOR: u64 = 0x00af_9a00_0000_ffff;

/// Present, ring-0 data segment descriptor.
pub const KERNEL_DATA_DESCRIPTOR: u64 = 0x00af_9200_0000_ffff;

/// System-descriptor type of an available 64-bit TSS.
pub const TSS_DESCRIPTOR_TYPE: u64 = 0x9;

/// Present bit of a descriptor.
pub const PRESENT_BIT: u64 = 0x8000_0000_0000;

/// Lowest kernel-half virtual address.
pub const X86_64_KERNEL_VMA_MIN: u64 = 0xffff_8000_0000_0000;

/// States of the one-time descriptor-table setup.
pub const INIT_UNINITIALIZED: u8 = 0;

pub const INIT_IN_PROGRESS: u8 = 1;

pub const INIT_READY: u8 = 2;

pub const MSR_FS_BASE: u32 = 0xc000_0100;

pub const MSR_GS_BASE: u32 = 0xc000_0101;

pub const MSR_KERNEL_GS_BASE: u32 = 0xc000_0102;

/// The segment-base MSRs the boot path clears.
#[derive(Clone, Copy, Debug, PartialEq, Eq, Structural)]
pub enum SegmentBaseMsr {
    Fs,
    Gs,
    KernelGs,
}

impl SegmentBaseMsr {
    pub fn index(self) -> (r: u32)
        ensures
            self is Fs ==> r == MSR_FS_BASE,
            self is Gs ==> r == MSR_GS_BASE,
            self is KernelGs ==> r == MSR_KERNEL_GS_BASE,
    {
        match self {
            SegmentBaseMsr::Fs => MSR_FS_BASE,
            SegmentBaseMsr::Gs => MSR_GS_BASE,
            SegmentBaseMsr::KernelGs => MSR_KERNEL_GS_BASE,
        }
    }
}

/// What descriptor-table setup installed.
#[derive(Clone, Copy, Debug, PartialEq, Eq, Structural)]
pub struct DescriptorTableStatus {
    pub gdt_entries: usize,
    pub tss_selector: SegmentSelector,
    pub double_fault_ist: InterruptStackTableIndex,
    pub double_fault_stack_bytes: usize,
    pub initialized_this_call: bool,
}

/// The status of the boot descriptor tables; `initialized_this_call` tells
/// whether this call installed them.
pub fn descriptor_table_status(initialized_this_call: bool) -> (r: DescriptorTableStatus)
    ensures
        r.gdt_entries == GDT_ENTRIES,
        r.tss_selector.0 == 0x18,
        r.double_fault_ist.0 == 1,
        r.double_fault_stack_bytes == DOUBLE_FAULT_STACK_BYTES,
        r.initialized_this_call == initialized_this_call,
{
    DescriptorTableStatus {
        gdt_entries: GDT_ENTRIES,
        tss_selector: SegmentSelector::TSS(),
        double_fault_ist: InterruptStackTableIndex::DOUBLE_FAULT(),
        double_fault_stack_bytes: DOUBLE_FAULT_STACK_BYTES,
        initialized_this_call,
    }
}

/// Why the ring-0 stack was not set.
#[derive(Clone, Copy, Debug, PartialEq, Eq, Structural)]
pub enum Ring0StackError {
    InvalidStackTop,
    InterruptsEnabled,
}

/// A segment selector of the boot GDT.
#[derive(Clone, Copy, Debug, PartialEq, Eq, Structural)]
pub struct SegmentSelector(pub u16);

impl SegmentSelector {
    /// The kernel code segment, GDT entry 1.
    #[allow(non_snake_case)]
    pub fn KERNEL_CODE() -> (r: Self)
        ensures
            r.0 == 0x08,
    {
        SegmentSelector(0x08)
    }

    /// The kernel data segment, GDT entry 2.
    #[allow(non_snake_case)]
    pub fn KERNEL_DATA() -> (r: Self)
        ensures
            r.0 == 0x10,
    {
        SegmentSelector(0x10)
    }

    /// The task-state segment, GDT entries 3 and 4.
    #[allow(non_snake_case)]
    pub fn TSS() -> (r: Self)
        ensures
            r.0 == 0x18,
    {
        SegmentSelector(0x18)
    }

    pub fn bits(self) -> (r: u16)
        ensures
            r == self.0,
    {
        self.0
    }
}

/// The IST number written into an IDT gate.
#[derive(Clone, Copy, Debug, PartialEq, Eq, Structural)]
pub struct InterruptStackTableIndex(pub u16);

impl InterruptStackTableIndex {
    /// The IST value of the double-fault handler entry: one, which the CPU
    /// maps to `TSS.ist[0]`.
    #[allow(non_snake_case)]
    pub fn DOUBLE_FAULT() -> (r: Self)
        ensures
            r.0 == 1,
    {
        InterruptStackTableIndex(1)
    }

    pub fn get(self) -> (r: u16)
        ensures
            r == self.0,
    {
        self.0
    }
}

/// `address` is canonical: bits 47 to 63 are all equal.
pub open spec fn canonical(address: u64) -> bool {
    address < 0x8000_0000_0000 || address >= 0xffff_8000_0000_0000
}

proof fn lemma_canonical_bits(address: u64)
    by (bit_vector)
    ensures
        ((address >> 47u64) & 1u64 == 0u64 && address >> 48u64 == 0u64) <==> address < 0x8000_0000_0000u64,
        ((address >> 47u64) & 1u64 == 1u64 && address >> 48u64 == 0xffffu64) <==> address
            >= 0xffff_8000_0000_0000u64,
        (address & 0xfu64 == 0u64) <==> (address % 16 == 0),
{
}

/// Whether `address` is canonical.
pub fn is_canonical_address(address: u64) -> (r: bool)
    ensures
        r == canonical(address),
{
    proof {
        lemma_canonical_bits(address);
    }
    let sign_bit = (address >> 47u64) & 1;
    let upper = address >> 48u64;
    (sign_bit == 0 && upper == 0) || (sign_bit == 1 && upper == 0xffff)
}

/// A ring-0 stack top must be non-zero, in the kernel half, 16-byte aligned
/// and canonical.
pub open spec fn ring0_stack_top_ok(stack_top: u64) -> bool {
    &&& stack_top != 0
    &&& stack_top >= X86_64_KERNEL_VMA_MIN
    &&& stack_top % 16 == 0
    &&& canonical(stack_top)
}

/// Whether `stack_top` may be installed as the ring-0 stack.
pub fn valid_ring0_stack_top(stack_top: u64) -> (r: bool)
    ensures
        r == ring0_stack_top_ok(stack_top),
{
    proof {
        lemma_canonical_bits(stack_top);
    }
    stack_top != 0 && stack_top >= X86_64_KERNEL_VMA_MIN && stack_top & 0xf == 0
        && is_canonical_address(stack_top)
}

/// The checks before `TSS.rsp[0]` may be updated: a valid stack top, then
/// interrupts masked.
pub fn check_ring0_stack_update(stack_top: u64, interrupts_enabled: bool) -> (r: Result<(), Ring0StackError>)
    ensures
        !ring0_stack_top_ok(stack_top) ==> r == Err::<(), Ring0StackError>(Ring0StackError::InvalidStackTop),
        ring0_stack_top_ok(stack_top) && interrupts_enabled ==> r == Err::<(), Ring0StackError>(
            Ring0StackError::InterruptsEnabled,
        ),
        ring0_stack_top_ok(stack_top) && !interrupts_enabled ==> r is Ok,
{
    if !valid_ring0_stack_top(stack_top) {
        return Err(Ring0StackError::InvalidStackTop);
    }
    if interrupts_enabled {
        return Err(Ring0StackError::InterruptsEnabled);
    }
    Ok(())
}

/// A 16-byte system descriptor as two GDT words.
#[derive(Clone, Copy, Debug, PartialEq, Eq, Structural)]
pub struct SystemDescriptor {
    pub low: u64,
    pub high: u64,
}

/// The TSS descriptor word that `tss_descriptor` builds.
pub open spec fn tss_low_word(base: u64, limit: u64) -> u64 {
    (limit & 0xffff) | ((base & 0x00ff_ffff) << 16u64) | (TSS_DESCRIPTOR_TYPE << 40u64) | PRESENT_BIT
        | (((limit >> 16u64) & 0x0f) << 48u64) | (((base >> 24u64) & 0xff) << 56u64)
}

/// Decoding the TSS descriptor word gives back its fields.
proof fn lemma_tss_low_word_fields(base: u64, limit: u64, low: u64)
    by (bit_vector)
    requires
        low == (limit & 0xffffu64) | ((base & 0x00ff_ffffu64) << 16u64) | (0x9u64 << 40u64)
            | 0x8000_0000_0000u64 | (((limit >> 16u64) & 0x0fu64) << 48u64) | (((base >> 24u64)
            & 0xffu64) << 56u64),
    ensures
        low & 0xffffu64 == limit & 0xffffu64,
        (low >> 16u64) & 0x00ff_ffffu64 == base & 0x00ff_ffffu64,
        (low >> 40u64) & 0x0fu64 == 0x9u64,
        (low >> 44u64) & 0x7u64 == 0u64,
        (low >> 47u64) & 1u64 == 1u64,
        (low >> 48u64) & 0x0fu64 == (limit >> 16u64) & 0x0fu64,
        (low >> 56u64) & 0xffu64 == (base >> 24u64) & 0xffu64,
{
}

/// The available-TSS descriptor for a segment at `base` with byte limit
/// `limit`: limit bits 0..15 and 16..19, base bits 0..23 and 24..31 in the
/// low word with type 9, DPL 0 and the present bit; base bits 32..63 in the
/// high word.
pub fn tss_descriptor(base: u64, limit: usize) -> (r: SystemDescriptor)
    ensures
        r.low == tss_low_word(base, limit as u64),
        r.low & 0xffff == limit as u64 & 0xffff,
        (r.low >> 16u64) & 0x00ff_ffff == base & 0x00ff_ffff,
        (r.low >> 40u64) & 0x0f == 0x9,
        (r.low >> 44u64) & 0x7 == 0,
        (r.low >> 47u64) & 1 == 1,
        (r.low >> 48u64) & 0x0f == (limit as u64 >> 16u64) & 0x0f,
        (r.low >> 56u64) & 0xff == (base >> 24u64) & 0xff,
        r.high == base >> 32u64,
{
    let limit = limit as u64;
    let low = (limit & 0xffff) | ((base & 0x00ff_ffff) << 16u64) | (TSS_DESCRIPTOR_TYPE << 40u64)
        | PRESENT_BIT | (((limit >> 16u64) & 0x0f) << 48u64) | (((base >> 24u64) & 0xff) << 56u64);
    proof {
        lemma_tss_low_word_fields(base, limit, low);
    }
    SystemDescriptor { low, high: base >> 32u64 }
}

/// What the one-time descriptor-table setup does, given the state it found.
#[derive(Clone, Copy, Debug, PartialEq, Eq, Structural)]
pub enum DescriptorInitStep {
    /// Nobody set the tables up yet: this call does.
    Initialize,
    /// The tables are in place: nothing to do.
    AlreadyInitialized,
    /// Setup is under way in an interrupted caller: stop the boot.
    Reentered,
}

/// The step for a setup that found the state `observed`.
pub fn init_step(observed: u8) -> (r: DescriptorInitStep)
    ensures
        observed == INIT_UNINITIALIZED ==> r is Initialize,
        observed == INIT_READY ==> r is AlreadyInitialized,
        observed != INIT_UNINITIALIZED && observed != INIT_READY ==> r is Reentered,
{
    if observed == INIT_UNINITIALIZED {
        DescriptorInitStep::Initialize
    } else if observed == INIT_READY {
        DescriptorInitStep::AlreadyInitialized
    } else {
        DescriptorInitStep::Reentered
    }
}

/// The boot GDT for a TSS at `tss_base`: null, kernel code, kernel data,
/// then the two words of the TSS descriptor.
pub fn boot_gdt_entries(tss_base: u64) -> (r: Vec<u64>)
    ensures
        r@.len() == GDT_ENTRIES,
        r@[0] == 0,
        r@[1] == KERNEL_CODE_DESCRIPTOR,
        r@[2] == KERNEL_DATA_DESCRIPTOR,
        r@[3] == tss_low_word(tss_base, (TASK_STATE_SEGMENT_BYTES - 1) as u64),
        r@[4] == tss_base >> 32u64,
{
    let descriptor = tss_descriptor(tss_base, TASK_STATE_SEGMENT_BYTES - 1);
    let mut entries: Vec<u64> = Vec::new();
    entries.push(0);
    entries.push(KERNEL_CODE_DESCRIPTOR);
    entries.push(KERNEL_DATA_DESCRIPTOR);
    entries.push(descriptor.low);
    entries.push(descriptor.high);
    entries
}

} // verus!
