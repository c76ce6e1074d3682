use vstd::prelude::*;

verus! {

pub const CPUID_LEAF_1: u32 = 1;

pub const CPUID_LEAF_7: u32 = 7;

/// CPUID leaf 1 ECX bit that reports RDRAND.
pub const CPUID_LEAF_1_ECX_RDRAND: u32 = 0x4000_0000;

/// CPUID leaf 7 EBX bit that reports RDSEED.
pub const CPUID_LEAF_7_EBX_RDSEED: u32 = 0x4_0000;

/// Hardware random-number instructions the processor reports.
#[derive(Clone, Copy, Debug, PartialEq, Eq, Structural)]
pub struct EntropySupport {
    pub rdrand: bool,
    pub rdseed: bool,
}

/// Decodes RDRAND and RDSEED support from the highest basic CPUID leaf and
/// the feature registers of leaves 1 and 7; a feature of a leaf above the
/// highest one is absent.
pub fn entropy_support_from_cpuid(max_leaf: u32, leaf_1_ecx: u32, leaf_7_ebx: u32) -> (r: EntropySupport)
    ensures
        r.rdrand == (max_leaf >= CPUID_LEAF_1 && leaf_1_ecx & CPUID_LEAF_1_ECX_RDRAND != 0),
        r.rdseed == (max_leaf >= CPUID_LEAF_7 && leaf_7_ebx & CPUID_LEAF_7_EBX_RDSEED != 0),
{
    EntropySupport {
        rdrand: max_leaf >= CPUID_LEAF_1 && leaf_1_ecx & CPUID_LEAF_1_ECX_RDRAND != 0,
        rdseed: max_leaf >= CPUID_LEAF_7 && leaf_7_ebx & CPUID_LEAF_7_EBX_RDSEED != 0,
    }
}

} // verus!
