//! Paging and privilege hardening: no-execute, supervisor write protection,
//! SMEP, SMAP and UMIP, planned from CPUID, applied to EFER, CR0 and CR4,
//! and checked by reading the registers back.

use vstd::prelude::*;

verus! {

pub const CPUID_LEAF_7: u32 = 7;

pub const CPUID_LEAF_EXTENDED_MAX: u32 = 0x8000_0000;

pub const CPUID_LEAF_EXTENDED_FEATURES: u32 = 0x8000_0001;

/// CPUID 0x8000_0001 EDX: no-execute.
pub const CPUID_EXT_FEATURE_EDX_NX: u32 = 0x10_0000;

/// CPUID 7 EBX: SMEP.
pub const CPUID_LEAF_7_EBX_SMEP: u32 = 0x80;

/// CPUID 7 EBX: SMAP.
pub const CPUID_LEAF_7_EBX_SMAP: u32 = 0x10_0000;

/// CPUID 7 ECX: UMIP.
pub const CPUID_LEAF_7_ECX_UMIP: u32 = 0x4;

pub const MSR_EFER: u32 = 0xc000_0080;

/// EFER: no-execute enable.
pub const EFER_NXE: u64 = 0x800;

/// CR0: write protect.
pub const CR0_WP: u64 = 0x1_0000;

/// CR4: user-mode instruction prevention.
pub const CR4_UMIP: u64 = 0x800;

/// CR4: supervisor-mode execution prevention.
pub const CR4_SMEP: u64 = 0x10_0000;

/// CR4: supervisor-mode access prevention.
pub const CR4_SMAP: u64 = 0x20_0000;

/// The model-specific registers hardening may touch.
#[derive(Clone, Copy, Debug, PartialEq, Eq, Structural)]
pub enum AdmittedMsr {
    Efer,
}

impl AdmittedMsr {
    pub fn index(self) -> (r: u32)
        ensures
            r == MSR_EFER,
    {
        match self {
            AdmittedMsr::Efer => MSR_EFER,
        }
    }
}

/// What the processor supports.
#[derive(Clone, Copy, Debug, PartialEq, Eq, Structural)]
pub struct CpuHardeningCapabilities {
    pub nx: bool,
    pub smep: bool,
    pub smap: bool,
    pub umip: bool,
}

/// What hardening will enable.
#[derive(Clone, Copy, Debug, PartialEq, Eq, Structural)]
pub struct CpuHardeningPlan {
    pub enable_nx: bool,
    pub enable_wp: bool,
    pub enable_smep: bool,
    pub enable_smap: bool,
    pub enable_umip: bool,
}

/// What the registers show as enabled.
#[derive(Clone, Copy, Debug, PartialEq, Eq, Structural)]
pub struct CpuHardeningStatus {
    pub nx_enabled: bool,
    pub wp_enabled: bool,
    pub smep_enabled: bool,
    pub smap_enabled: bool,
    pub umip_enabled: bool,
}

/// Why hardening could not be planned or did not take.
#[derive(Clone, Copy, Debug, PartialEq, Eq, Structural)]
pub enum CpuHardeningError {
    HardeningWriteDidNotStick,
    NxUnavailable,
    SmapUnavailable,
    SmepUnavailable,
    UmipUnavailable,
}

/// Decodes the supported features from the highest extended and basic CPUID
/// leaves and the feature registers; a leaf above the highest reported one
/// contributes nothing.
pub fn capabilities_from_leaves(
    extended_max: u32,
    extended_features_edx: u32,
    max_basic_leaf: u32,
    leaf_7_ebx: u32,
    leaf_7_ecx: u32,
) -> (r: CpuHardeningCapabilities)
    ensures
        r.nx == (extended_max >= CPUID_LEAF_EXTENDED_FEATURES && extended_features_edx
            & CPUID_EXT_FEATURE_EDX_NX != 0),
        r.smep == (max_basic_leaf >= CPUID_LEAF_7 && leaf_7_ebx & CPUID_LEAF_7_EBX_SMEP != 0),
        r.smap == (max_basic_leaf >= CPUID_LEAF_7 && leaf_7_ebx & CPUID_LEAF_7_EBX_SMAP != 0),
        r.umip == (max_basic_leaf >= CPUID_LEAF_7 && leaf_7_ecx & CPUID_LEAF_7_ECX_UMIP != 0),
{
    let leaf_7_supported = max_basic_leaf >= CPUID_LEAF_7;
    CpuHardeningCapabilities {
        nx: extended_max >= CPUID_LEAF_EXTENDED_FEATURES && extended_features_edx
            & CPUID_EXT_FEATURE_EDX_NX != 0,
        smep: leaf_7_supported && leaf_7_ebx & CPUID_LEAF_7_EBX_SMEP != 0,
        smap: leaf_7_supported && leaf_7_ebx & CPUID_LEAF_7_EBX_SMAP != 0,
        umip: leaf_7_supported && leaf_7_ecx & CPUID_LEAF_7_ECX_UMIP != 0,
    }
}

impl CpuHardeningPlan {
    /// NX and WP always, the other features where supported; no plan
    /// without NX.
    pub fn required(capabilities: CpuHardeningCapabilities) -> (r: Result<Self, CpuHardeningError>)
        ensures
            !capabilities.nx ==> r == Err::<Self, CpuHardeningError>(CpuHardeningError::NxUnavailable),
            capabilities.nx ==> r == Ok::<Self, CpuHardeningError>(
                CpuHardeningPlan {
                    enable_nx: true,
                    enable_wp: true,
                    enable_smep: capabilities.smep,
                    enable_smap: capabilities.smap,
                    enable_umip: capabilities.umip,
                },
            ),
    {
        if !capabilities.nx {
            return Err(CpuHardeningError::NxUnavailable);
        }
        Ok(
            CpuHardeningPlan {
                enable_nx: true,
                enable_wp: true,
                enable_smep: capabilities.smep,
                enable_smap: capabilities.smap,
                enable_umip: capabilities.umip,
            },
        )
    }

    /// Every feature, or the first one missing, in the order NX, SMEP, SMAP,
    /// UMIP.
    pub fn strict_required(capabilities: CpuHardeningCapabilities) -> (r: Result<Self, CpuHardeningError>)
        ensures
            !capabilities.nx ==> r == Err::<Self, CpuHardeningError>(CpuHardeningError::NxUnavailable),
            capabilities.nx && !capabilities.smep ==> r == Err::<Self, CpuHardeningError>(
                CpuHardeningError::SmepUnavailable,
            ),
            capabilities.nx && capabilities.smep && !capabilities.smap ==> r == Err::<
                Self,
                CpuHardeningError,
            >(CpuHardeningError::SmapUnavailable),
            capabilities.nx && capabilities.smep && capabilities.smap && !capabilities.umip ==> r
                == Err::<Self, CpuHardeningError>(CpuHardeningError::UmipUnavailable),
            capabilities.nx && capabilities.smep && capabilities.smap && capabilities.umip ==> r
                == Ok::<Self, CpuHardeningError>(
                CpuHardeningPlan {
                    enable_nx: true,
                    enable_wp: true,
                    enable_smep: true,
                    enable_smap: true,
                    enable_umip: true,
                },
            ),
    {
        if !capabilities.nx {
            return Err(CpuHardeningError::NxUnavailable);
        }
        if !capabilities.smep {
            return Err(CpuHardeningError::SmepUnavailable);
        }
        if !capabilities.smap {
            return Err(CpuHardeningError::SmapUnavailable);
        }
        if !capabilities.umip {
            return Err(CpuHardeningError::UmipUnavailable);
        }
        Ok(
            CpuHardeningPlan {
                enable_nx: true,
                enable_wp: true,
                enable_smep: true,
                enable_smap: true,
                enable_umip: true,
            },
        )
    }
}

/// The status that register values `efer`, `cr0` and `cr4` show.
pub open spec fn status_of(efer: u64, cr0: u64, cr4: u64) -> CpuHardeningStatus {
    CpuHardeningStatus {
        nx_enabled: efer & EFER_NXE != 0,
        wp_enabled: cr0 & CR0_WP != 0,
        smep_enabled: cr4 & CR4_SMEP != 0,
        smap_enabled: cr4 & CR4_SMAP != 0,
        umip_enabled: cr4 & CR4_UMIP != 0,
    }
}

impl CpuHardeningStatus {
    /// The status that the given register values show.
    pub fn from_registers(efer: u64, cr0: u64, cr4: u64) -> (r: Self)
        ensures
            r == status_of(efer, cr0, cr4),
    {
        CpuHardeningStatus {
            nx_enabled: efer & EFER_NXE != 0,
            wp_enabled: cr0 & CR0_WP != 0,
            smep_enabled: cr4 & CR4_SMEP != 0,
            smap_enabled: cr4 & CR4_SMAP != 0,
            umip_enabled: cr4 & CR4_UMIP != 0,
        }
    }
}

/// Every feature the plan enables shows as enabled; extra ones may.
pub open spec fn status_covers(plan: CpuHardeningPlan, status: CpuHardeningStatus) -> bool {
    &&& plan.enable_nx ==> status.nx_enabled
    &&& plan.enable_wp ==> status.wp_enabled
    &&& plan.enable_smep ==> status.smep_enabled
    &&& plan.enable_smap ==> status.smap_enabled
    &&& plan.enable_umip ==> status.umip_enabled
}

/// Checks that every feature the plan enables shows as enabled.
pub fn verify_applied(plan: CpuHardeningPlan, status: CpuHardeningStatus) -> (r: Result<(), CpuHardeningError>)
    ensures
        status_covers(plan, status) ==> r is Ok,
        !status_covers(plan, status) ==> r == Err::<(), CpuHardeningError>(
            CpuHardeningError::HardeningWriteDidNotStick,
        ),
{
    if (plan.enable_nx && !status.nx_enabled) || (plan.enable_wp && !status.wp_enabled) || (
    plan.enable_smep && !status.smep_enabled) || (plan.enable_smap && !status.smap_enabled) || (
    plan.enable_umip && !status.umip_enabled) {
        return Err(CpuHardeningError::HardeningWriteDidNotStick);
    }
    Ok(())
}

/// EFER with NXE set when the plan enables NX; other bits kept.
pub fn planned_efer(plan: CpuHardeningPlan, efer: u64) -> (r: u64)
    ensures
        r == (if plan.enable_nx { efer | EFER_NXE } else { efer }),
{
    if plan.enable_nx {
        efer | EFER_NXE
    } else {
        efer
    }
}

/// CR0 with WP set when the plan enables it; other bits kept.
pub fn planned_cr0(plan: CpuHardeningPlan, cr0: u64) -> (r: u64)
    ensures
        r == (if plan.enable_wp { cr0 | CR0_WP } else { cr0 }),
{
    if plan.enable_wp {
        cr0 | CR0_WP
    } else {
        cr0
    }
}

/// CR4 with UMIP, SMEP and SMAP set as the plan enables them; other bits
/// kept.
pub fn planned_cr4(plan: CpuHardeningPlan, cr4: u64) -> (r: u64)
    ensures
        r == ((cr4 | (if plan.enable_umip { CR4_UMIP } else { 0 })) | (if plan.enable_smep {
            CR4_SMEP
        } else {
            0
        })) | (if plan.enable_smap { CR4_SMAP } else { 0 }),
{
    let mut value = cr4;
    if plan.enable_umip {
        value = value | CR4_UMIP;
    } else {
        value = value | 0;
    }
    if plan.enable_smep {
        value = value | CR4_SMEP;
    } else {
        value = value | 0;
    }
    if plan.enable_smap {
        value = value | CR4_SMAP;
    } else {
        value = value | 0;
    }
    value
}

proof fn lemma_or_sets_bits(efer: u64, cr0: u64, cr4: u64, u: u64, s: u64, p: u64)
    by (bit_vector)
    requires
        u == 0u64 || u == 0x800u64,
        s == 0u64 || s == 0x10_0000u64,
        p == 0u64 || p == 0x20_0000u64,
    ensures
        (efer | 0x800u64) & 0x800u64 != 0u64,
        (cr0 | 0x1_0000u64) & 0x1_0000u64 != 0u64,
        u == 0x800u64 ==> (((cr4 | u) | s) | p) & 0x800u64 != 0u64,
        s == 0x10_0000u64 ==> (((cr4 | u) | s) | p) & 0x10_0000u64 != 0u64,
        p == 0x20_0000u64 ==> (((cr4 | u) | s) | p) & 0x20_0000u64 != 0u64,
{
}

/// Writing the planned register values makes the read-back status cover
/// the plan, whatever the registers held before.
pub proof fn lemma_planned_registers_verify(plan: CpuHardeningPlan, efer: u64, cr0: u64, cr4: u64)
    ensures
        status_covers(
            plan,
            status_of(
                if plan.enable_nx { efer | EFER_NXE } else { efer },
                if plan.enable_wp { cr0 | CR0_WP } else { cr0 },
                ((cr4 | (if plan.enable_umip { CR4_UMIP } else { 0 })) | (if plan.enable_smep {
                    CR4_SMEP
                } else {
                    0
                })) | (if plan.enable_smap { CR4_SMAP } else { 0 }),
            ),
        ),
{
    lemma_or_sets_bits(
        efer,
        cr0,
        cr4,
        if plan.enable_umip { CR4_UMIP } else { 0 },
        if plan.enable_smep { CR4_SMEP } else { 0 },
        if plan.enable_smap { CR4_SMAP } else { 0 },
    );
}

} // verus!
