use vstd::prelude::*;

use crate::x86_64::cpu_hardening::CpuHardeningCapabilities;

verus! {

pub const CPUID_LEAF_7: u32 = 7;

pub const CPUID_LEAF_EXTENDED_MAX: u32 = 0x8000_0000;

pub const CPUID_LEAF_EXTENDED_FEATURES: u32 = 0x8000_0001;

pub const CPUID_LEAF_AMD_EXTENDED_SECURITY: u32 = 0x8000_0008;

/// CPUID 0x8000_0001 EDX: no-execute.
pub const CPUID_EXT_FEATURE_EDX_NX: u32 = 0x10_0000;

/// CPUID 7 EBX: SMEP.
pub const CPUID_LEAF_7_EBX_SMEP: u32 = 0x80;

/// CPUID 7 EBX: SMAP.
pub const CPUID_LEAF_7_EBX_SMAP: u32 = 0x10_0000;

/// CPUID 7 ECX: UMIP.
pub const CPUID_LEAF_7_ECX_UMIP: u32 = 0x4;

/// CPUID 7 EDX: IBRS and IBPB.
pub const CPUID_LEAF_7_EDX_IBRS_IBPB: u32 = 0x400_0000;

/// CPUID 7 EDX: STIBP.
pub const CPUID_LEAF_7_EDX_STIBP: u32 = 0x800_0000;

/// CPUID 7 EDX: IA32_ARCH_CAPABILITIES.
pub const CPUID_LEAF_7_EDX_ARCH_CAPABILITIES: u32 = 0x2000_0000;

/// CPUID 7 EDX: SSBD.
pub const CPUID_LEAF_7_EDX_SSBD: u32 = 0x8000_0000;

/// CPUID 0x8000_0008 EBX: IBRS.
pub const CPUID_AMD_EXTENDED_EBX_IBRS: u32 = 0x200;

/// CPUID 0x8000_0008 EBX: IBPB.
pub const CPUID_AMD_EXTENDED_EBX_IBPB: u32 = 0x1000;

/// CPUID 0x8000_0008 EBX: STIBP.
pub const CPUID_AMD_EXTENDED_EBX_STIBP: u32 = 0x8000;

/// CPUID 0x8000_0008 EBX: SSBD.
pub const CPUID_AMD_EXTENDED_EBX_SSBD: u32 = 0x100_0000;

/// The four result registers of one CPUID leaf.
#[derive(Clone, Copy, Debug, PartialEq, Eq, Structural)]
pub struct CpuidSnapshot {
    pub eax: u32,
    pub ebx: u32,
    pub ecx: u32,
    pub edx: u32,
}

impl CpuidSnapshot {
    /// A leaf that reports nothing.
    #[allow(non_snake_case)]
    pub fn ZERO() -> (r: Self)
        ensures
            r == (CpuidSnapshot { eax: 0, ebx: 0, ecx: 0, edx: 0 }),
    {
        CpuidSnapshot { eax: 0, ebx: 0, ecx: 0, edx: 0 }
    }

    pub fn from_regs(eax: u32, ebx: u32, ecx: u32, edx: u32) -> (r: Self)
        ensures
            r == (CpuidSnapshot { eax, ebx, ecx, edx }),
    {
        CpuidSnapshot { eax, ebx, ecx, edx }
    }
}

/// The capabilities that leaf 7 and the AMD extended leaf add to the given
/// paging features: IBRS/IBPB from the Intel bit or both AMD bits, STIBP and
/// SSBD from either vendor, and the capabilities MSR from leaf 7.
///
/// IBRS and IBPB are one capability here: Intel reports them with a single
/// leaf 7 bit, while AMD reports them separately, so the AMD side counts only
/// when both bits are set.
pub fn capabilities_from_cpuid(
    nx: bool,
    smep: bool,
    smap: bool,
    umip: bool,
    leaf_7: CpuidSnapshot,
    amd_extended: CpuidSnapshot,
) -> (r: CpuHardeningCapabilities)
    ensures
        r.nx == nx && r.smep == smep && r.smap == smap && r.umip == umip,
        r.ibrs_ibpb == (leaf_7.edx & CPUID_LEAF_7_EDX_IBRS_IBPB != 0 || (amd_extended.ebx
            & CPUID_AMD_EXTENDED_EBX_IBRS != 0 && amd_extended.ebx & CPUID_AMD_EXTENDED_EBX_IBPB != 0)),
        r.stibp == (leaf_7.edx & CPUID_LEAF_7_EDX_STIBP != 0 || amd_extended.ebx
            & CPUID_AMD_EXTENDED_EBX_STIBP != 0),
        r.ssbd == (leaf_7.edx & CPUID_LEAF_7_EDX_SSBD != 0 || amd_extended.ebx
            & CPUID_AMD_EXTENDED_EBX_SSBD != 0),
        r.arch_capabilities == (leaf_7.edx & CPUID_LEAF_7_EDX_ARCH_CAPABILITIES != 0),
{
    let intel_ibrs_ibpb = leaf_7.edx & CPUID_LEAF_7_EDX_IBRS_IBPB != 0;
    let amd_ibrs = amd_extended.ebx & CPUID_AMD_EXTENDED_EBX_IBRS != 0;
    let amd_ibpb = amd_extended.ebx & CPUID_AMD_EXTENDED_EBX_IBPB != 0;
    let stibp = leaf_7.edx & CPUID_LEAF_7_EDX_STIBP != 0 || amd_extended.ebx
        & CPUID_AMD_EXTENDED_EBX_STIBP != 0;
    let ssbd = leaf_7.edx & CPUID_LEAF_7_EDX_SSBD != 0 || amd_extended.ebx
        & CPUID_AMD_EXTENDED_EBX_SSBD != 0;
    let arch_capabilities = leaf_7.edx & CPUID_LEAF_7_EDX_ARCH_CAPABILITIES != 0;
    CpuHardeningCapabilities {
        nx,
        smep,
        smap,
        umip,
        ibrs_ibpb: intel_ibrs_ibpb || (amd_ibrs && amd_ibpb),
        stibp,
        ssbd,
        arch_capabilities,
    }
}

/// Decodes every hardening capability from the highest extended and basic
/// leaves, the extended feature EDX, leaf 7 and the AMD extended security
/// leaf; a leaf above the highest reported one counts as all zero.
pub fn capabilities_from_leaves(
    extended_max: u32,
    extended_features_edx: u32,
    max_basic_leaf: u32,
    leaf_7: CpuidSnapshot,
    amd_extended: CpuidSnapshot,
) -> (r: CpuHardeningCapabilities)
    ensures
        ({
            let l7 = if max_basic_leaf >= CPUID_LEAF_7 { leaf_7 } else { CpuidSnapshot { eax: 0, ebx: 0, ecx: 0, edx: 0 } };
            let amd = if extended_max >= CPUID_LEAF_AMD_EXTENDED_SECURITY {
                amd_extended
            } else {
                CpuidSnapshot { eax: 0, ebx: 0, ecx: 0, edx: 0 }
            };
            &&& r.nx == (extended_max >= CPUID_LEAF_EXTENDED_FEATURES && extended_features_edx
                & CPUID_EXT_FEATURE_EDX_NX != 0)
            &&& r.smep == (l7.ebx & CPUID_LEAF_7_EBX_SMEP != 0)
            &&& r.smap == (l7.ebx & CPUID_LEAF_7_EBX_SMAP != 0)
            &&& r.umip == (l7.ecx & CPUID_LEAF_7_ECX_UMIP != 0)
            &&& r.ibrs_ibpb == (l7.edx & CPUID_LEAF_7_EDX_IBRS_IBPB != 0 || (amd.ebx
                & CPUID_AMD_EXTENDED_EBX_IBRS != 0 && amd.ebx & CPUID_AMD_EXTENDED_EBX_IBPB != 0))
            &&& r.stibp == (l7.edx & CPUID_LEAF_7_EDX_STIBP != 0 || amd.ebx
                & CPUID_AMD_EXTENDED_EBX_STIBP != 0)
            &&& r.ssbd == (l7.edx & CPUID_LEAF_7_EDX_SSBD != 0 || amd.ebx
                & CPUID_AMD_EXTENDED_EBX_SSBD != 0)
            &&& r.arch_capabilities == (l7.edx & CPUID_LEAF_7_EDX_ARCH_CAPABILITIES != 0)
        }),
{
    let nx = extended_max >= CPUID_LEAF_EXTENDED_FEATURES && extended_features_edx
        & CPUID_EXT_FEATURE_EDX_NX != 0;
    let leaf_7 = if max_basic_leaf >= CPUID_LEAF_7 {
        leaf_7
    } else {
        CpuidSnapshot::ZERO()
    };
    let smep = leaf_7.ebx & CPUID_LEAF_7_EBX_SMEP != 0;
    let smap = leaf_7.ebx & CPUID_LEAF_7_EBX_SMAP != 0;
    let umip = leaf_7.ecx & CPUID_LEAF_7_ECX_UMIP != 0;
    let amd_extended = if extended_max >= CPUID_LEAF_AMD_EXTENDED_SECURITY {
        amd_extended
    } else {
        CpuidSnapshot::ZERO()
    };
    capabilities_from_cpuid(nx, smep, smap, umip, leaf_7, amd_extended)
}

} // verus!
