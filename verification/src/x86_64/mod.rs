//! x86_64 back end: CPU hardening policy, descriptor and interrupt-table
//! encodings, exception frames, the legacy interrupt controller, admitted
//! I/O ports, register snapshots, the serial line discipline and the smoke
//! timer. Everything here computes on register and table values; the
//! instructions that read and write them live with the program.

use vstd::prelude::*;

pub mod cpu_hardening;
pub mod cpuid;
pub mod descriptors;
pub mod entropy;
pub mod exceptions;
pub mod interrupts;
pub mod paging_hardening;
pub mod port;
pub mod registers;
pub mod serial;
pub mod timer;

verus! {

/// RFLAGS bits safe to report: carry, parity, auxiliary carry, zero, sign,
/// direction and overflow.
pub const RFLAGS_PUBLIC_MASK: u64 = 0xcd5;

/// RFLAGS interrupt-enable flag.
pub const RFLAGS_INTERRUPT_ENABLE: u64 = 0x200;

/// Whether maskable interrupts are enabled in `rflags`.
pub fn interrupt_flag_set(rflags: u64) -> (r: bool)
    ensures
        r == (rflags & RFLAGS_INTERRUPT_ENABLE != 0),
{
    rflags & RFLAGS_INTERRUPT_ENABLE != 0
}

/// Joining and splitting a 64-bit value at bit 32.
proof fn lemma_halves(value: u64, high: u32, low: u32)
    by (bit_vector)
    ensures
        ((high as u64) << 32u64) | (low as u64) == (high as u64) * 0x1_0000_0000u64 + (low as u64),
        (value as u32) as u64 == value % 0x1_0000_0000u64,
        ((value >> 32u64) as u32) as u64 == value / 0x1_0000_0000u64,
{
}

/// Masks of the low four and twelve bits are remainders, and clearing the
/// low twelve bits rounds down to a page.
pub proof fn lemma_low_bits(value: u64)
    by (bit_vector)
    ensures
        value & 0xfu64 == value % 16,
        value & 0xfffu64 == value % 4096,
        value & !0xfffu64 == value - value % 4096,
{
}

/// Two values lie in the same 4 KiB page exactly when clearing their low
/// twelve bits gives the same value.
pub proof fn lemma_same_page(a: u64, b: u64)
    ensures
        (a & !0xfffu64 == b & !0xfffu64) <==> (a / 4096 == b / 4096),
{
    lemma_low_bits(a);
    lemma_low_bits(b);
    assert(a - a % 4096 == (a / 4096) * 4096) by (nonlinear_arith);
    assert(b - b % 4096 == (b / 4096) * 4096) by (nonlinear_arith);
    assert((a / 4096) * 4096 == (b / 4096) * 4096 ==> a / 4096 == b / 4096) by (nonlinear_arith);
}

/// The 64-bit value whose upper half is `high` and lower half `low`, as
/// `rdmsr` and `rdtsc` deliver it in EDX:EAX.
pub fn join_halves(high: u32, low: u32) -> (r: u64)
    ensures
        r == high * 0x1_0000_0000 + low,
{
    proof {
        lemma_halves(0, high, low);
    }
    ((high as u64) << 32u64) | (low as u64)
}

/// The lower and upper halves of `value`, as `wrmsr` takes them in EAX and
/// EDX.
pub fn split_halves(value: u64) -> (r: (u32, u32))
    ensures
        r.0 == value % 0x1_0000_0000,
        r.1 == value / 0x1_0000_0000,
{
    proof {
        lemma_halves(value, 0, 0);
    }
    (value as u32, (value >> 32u64) as u32)
}

} // verus!
