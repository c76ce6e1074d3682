//! Boot CPU hardening with speculative-execution controls: the paging and
//! privilege features plus IBRS/IBPB, STIBP, SSBD and the architectural
//! capabilities MSR.

use vstd::prelude::*;

verus! {

pub const MSR_EFER: u32 = 0xc000_0080;

/// IA32_SPEC_CTRL.
pub const MSR_IA32_SPEC_CTRL: u32 = 0x48;

/// EFER: no-execute enable.
pub const EFER_NXE: u64 = 0x800;

/// CR0: write protect.
pub const CR0_WP: u64 = 0x1_0000;

/// CR4: user-mode instruction prevention.
pub const CR4_UMIP: u64 = 0x800;

/// CR4: supervisor-mode execution prevention.
pub const CR4_SMEP: u64 = 0x10_0000;

/// CR4: supervisor-mode access prevention.
pub const CR4_SMAP: u64 = 0x20_0000;

/// SPEC_CTRL: indirect branch restricted speculation.
pub const SPEC_CTRL_IBRS: u64 = 0x1;

/// SPEC_CTRL: single thread indirect branch predictors.
pub const SPEC_CTRL_STIBP: u64 = 0x2;

/// SPEC_CTRL: speculative store bypass disable.
pub const SPEC_CTRL_SSBD: u64 = 0x4;

/// The model-specific registers hardening may touch.
#[derive(Clone, Copy, Debug, PartialEq, Eq, Structural)]
pub enum AdmittedMsr {
    Efer,
    SpecCtrl,
}

impl AdmittedMsr {
    pub fn index(self) -> (r: u32)
        ensures
            self is Efer ==> r == MSR_EFER,
            self is SpecCtrl ==> r == MSR_IA32_SPEC_CTRL,
    {
        match self {
            AdmittedMsr::Efer => MSR_EFER,
            AdmittedMsr::SpecCtrl => MSR_IA32_SPEC_CTRL,
        }
    }
}

/// What the processor supports.
#[derive(Clone, Copy, Debug, PartialEq, Eq, Structural)]
pub struct CpuHardeningCapabilities {
    pub nx: bool,
    pub smep: bool,
    pub smap: bool,
    pub umip: bool,
    pub ibrs_ibpb: bool,
    pub stibp: bool,
    pub ssbd: bool,
    pub arch_capabilities: bool,
}

/// What hardening will enable.
#[derive(Clone, Copy, Debug, PartialEq, Eq, Structural)]
pub struct CpuHardeningPlan {
    pub enable_nx: bool,
    pub enable_wp: bool,
    pub enable_smep: bool,
    pub enable_smap: bool,
    pub enable_umip: bool,
    pub enable_ibrs: bool,
    pub enable_stibp: bool,
    pub enable_ssbd: bool,
    pub arch_capabilities_supported: bool,
}

/// What the registers show as enabled, and what the processor supports
/// without a control bit.
#[derive(Clone, Copy, Debug, PartialEq, Eq, Structural)]
pub struct CpuHardeningStatus {
    pub nx_enabled: bool,
    pub wp_enabled: bool,
    pub smep_enabled: bool,
    pub smap_enabled: bool,
    pub umip_enabled: bool,
    pub ibrs_enabled: bool,
    pub ibpb_supported: bool,
    pub stibp_enabled: bool,
    pub ssbd_enabled: bool,
    pub arch_capabilities_supported: bool,
}

/// Why hardening could not be planned or did not take.
#[derive(Clone, Copy, Debug, PartialEq, Eq, Structural)]
pub enum CpuHardeningError {
    HardeningWriteDidNotStick,
    NxUnavailable,
    SmapUnavailable,
    SmepUnavailable,
    UmipUnavailable,
    IbrsIbpbUnavailable,
    StibpUnavailable,
    SsbdUnavailable,
    ArchCapabilitiesUnavailable,
}

/// The plan that enables NX and WP and every supported feature.
pub open spec fn supported_plan(capabilities: CpuHardeningCapabilities) -> CpuHardeningPlan {
    CpuHardeningPlan {
        enable_nx: true,
        enable_wp: true,
        enable_smep: capabilities.smep,
        enable_smap: capabilities.smap,
        enable_umip: capabilities.umip,
        enable_ibrs: capabilities.ibrs_ibpb,
        enable_stibp: capabilities.stibp,
        enable_ssbd: capabilities.ssbd,
        arch_capabilities_supported: capabilities.arch_capabilities,
    }
}

/// The first feature strict hardening misses, in the order NX, SMEP, SMAP,
/// UMIP, IBRS/IBPB, STIBP, SSBD, architectural capabilities.
pub open spec fn strict_missing(capabilities: CpuHardeningCapabilities) -> Option<CpuHardeningError> {
    if !capabilities.nx {
        Some(CpuHardeningError::NxUnavailable)
    } else if !capabilities.smep {
        Some(CpuHardeningError::SmepUnavailable)
    } else if !capabilities.smap {
        Some(CpuHardeningError::SmapUnavailable)
    } else if !capabilities.umip {
        Some(CpuHardeningError::UmipUnavailable)
    } else if !capabilities.ibrs_ibpb {
        Some(CpuHardeningError::IbrsIbpbUnavailable)
    } else if !capabilities.stibp {
        Some(CpuHardeningError::StibpUnavailable)
    } else if !capabilities.ssbd {
        Some(CpuHardeningError::SsbdUnavailable)
    } else if !capabilities.arch_capabilities {
        Some(CpuHardeningError::ArchCapabilitiesUnavailable)
    } else {
        None
    }
}

impl CpuHardeningPlan {
    /// NX and WP always, every other feature where supported; no plan
    /// without NX.
    pub fn required(capabilities: CpuHardeningCapabilities) -> (r: Result<Self, CpuHardeningError>)
        ensures
            !capabilities.nx ==> r == Err::<Self, CpuHardeningError>(CpuHardeningError::NxUnavailable),
            capabilities.nx ==> r == Ok::<Self, CpuHardeningError>(supported_plan(capabilities)),
    {
        if !capabilities.nx {
            return Err(CpuHardeningError::NxUnavailable);
        }
        Ok(
            CpuHardeningPlan {
                enable_nx: true,
                enable_wp: true,
                enable_smep: capabilities.smep,
                enable_smap: capabilities.smap,
                enable_umip: capabilities.umip,
                enable_ibrs: capabilities.ibrs_ibpb,
                enable_stibp: capabilities.stibp,
                enable_ssbd: capabilities.ssbd,
                arch_capabilities_supported: capabilities.arch_capabilities,
            },
        )
    }

    /// Every feature, or the first one missing.
    pub fn strict_required(capabilities: CpuHardeningCapabilities) -> (r: Result<Self, CpuHardeningError>)
        ensures
            match strict_missing(capabilities) {
                Some(error) => r == Err::<Self, CpuHardeningError>(error),
                None => r == Ok::<Self, CpuHardeningError>(supported_plan(capabilities)),
            },
    {
        if !capabilities.nx {
            return Err(CpuHardeningError::NxUnavailable);
        }
        if !capabilities.smep {
            return Err(CpuHardeningError::SmepUnavailable);
        }
        if !capabilities.smap {
            return Err(CpuHardeningError::SmapUnavailable);
        }
        if !capabilities.umip {
            return Err(CpuHardeningError::UmipUnavailable);
        }
        if !capabilities.ibrs_ibpb {
            return Err(CpuHardeningError::IbrsIbpbUnavailable);
        }
        if !capabilities.stibp {
            return Err(CpuHardeningError::StibpUnavailable);
        }
        if !capabilities.ssbd {
            return Err(CpuHardeningError::SsbdUnavailable);
        }
        if !capabilities.arch_capabilities {
            return Err(CpuHardeningError::ArchCapabilitiesUnavailable);
        }
        Ok(
            CpuHardeningPlan {
                enable_nx: true,
                enable_wp: true,
                enable_smep: true,
                enable_smap: true,
                enable_umip: true,
                enable_ibrs: true,
                enable_stibp: true,
                enable_ssbd: true,
                arch_capabilities_supported: true,
            },
        )
    }
}

/// The plan the boot path uses: the required plan, which tolerates missing
/// optional features.
pub fn selected_boot_plan(capabilities: CpuHardeningCapabilities) -> (r: Result<
    CpuHardeningPlan,
    CpuHardeningError,
>)
    ensures
        !capabilities.nx ==> r == Err::<CpuHardeningPlan, CpuHardeningError>(
            CpuHardeningError::NxUnavailable,
        ),
        capabilities.nx ==> r == Ok::<CpuHardeningPlan, CpuHardeningError>(supported_plan(capabilities)),
{
    CpuHardeningPlan::required(capabilities)
}

/// The status that the register values show, with the support bits taken
/// from `capabilities`.
pub open spec fn status_of(
    efer: u64,
    cr0: u64,
    cr4: u64,
    spec_ctrl: u64,
    capabilities: CpuHardeningCapabilities,
) -> CpuHardeningStatus {
    CpuHardeningStatus {
        nx_enabled: efer & EFER_NXE != 0,
        wp_enabled: cr0 & CR0_WP != 0,
        smep_enabled: cr4 & CR4_SMEP != 0,
        smap_enabled: cr4 & CR4_SMAP != 0,
        umip_enabled: cr4 & CR4_UMIP != 0,
        ibrs_enabled: spec_ctrl & SPEC_CTRL_IBRS != 0,
        ibpb_supported: capabilities.ibrs_ibpb,
        stibp_enabled: spec_ctrl & SPEC_CTRL_STIBP != 0,
        ssbd_enabled: spec_ctrl & SPEC_CTRL_SSBD != 0,
        arch_capabilities_supported: capabilities.arch_capabilities,
    }
}

impl CpuHardeningStatus {
    /// The status that the given register values show.
    pub fn from_registers(
        efer: u64,
        cr0: u64,
        cr4: u64,
        spec_ctrl: u64,
        capabilities: CpuHardeningCapabilities,
    ) -> (r: Self)
        ensures
            r == status_of(efer, cr0, cr4, spec_ctrl, capabilities),
    {
        CpuHardeningStatus {
            nx_enabled: efer & EFER_NXE != 0,
            wp_enabled: cr0 & CR0_WP != 0,
            smep_enabled: cr4 & CR4_SMEP != 0,
            smap_enabled: cr4 & CR4_SMAP != 0,
            umip_enabled: cr4 & CR4_UMIP != 0,
            ibrs_enabled: spec_ctrl & SPEC_CTRL_IBRS != 0,
            ibpb_supported: capabilities.ibrs_ibpb,
            stibp_enabled: spec_ctrl & SPEC_CTRL_STIBP != 0,
            ssbd_enabled: spec_ctrl & SPEC_CTRL_SSBD != 0,
            arch_capabilities_supported: capabilities.arch_capabilities,
        }
    }
}

/// Every control the plan enables shows as enabled; extra ones may.
pub open spec fn status_covers(plan: CpuHardeningPlan, status: CpuHardeningStatus) -> bool {
    &&& plan.enable_nx ==> status.nx_enabled
    &&& plan.enable_wp ==> status.wp_enabled
    &&& plan.enable_smep ==> status.smep_enabled
    &&& plan.enable_smap ==> status.smap_enabled
    &&& plan.enable_umip ==> status.umip_enabled
    &&& plan.enable_ibrs ==> status.ibrs_enabled
    &&& plan.enable_stibp ==> status.stibp_enabled
    &&& plan.enable_ssbd ==> status.ssbd_enabled
}

/// Checks that every control the plan enables shows as enabled.
pub fn verify_applied(plan: CpuHardeningPlan, status: CpuHardeningStatus) -> (r: Result<(), CpuHardeningError>)
    ensures
        status_covers(plan, status) ==> r is Ok,
        !status_covers(plan, status) ==> r == Err::<(), CpuHardeningError>(
            CpuHardeningError::HardeningWriteDidNotStick,
        ),
{
    if (plan.enable_nx && !status.nx_enabled) || (plan.enable_wp && !status.wp_enabled) || (
    plan.enable_smep && !status.smep_enabled) || (plan.enable_smap && !status.smap_enabled) || (
    plan.enable_umip && !status.umip_enabled) || (plan.enable_ibrs && !status.ibrs_enabled) || (
    plan.enable_stibp && !status.stibp_enabled) || (plan.enable_ssbd && !status.ssbd_enabled) {
        return Err(CpuHardeningError::HardeningWriteDidNotStick);
    }
    Ok(())
}

/// When strict hardening finds every feature, the boot plan it matches
/// enables every control.
pub proof fn lemma_complete_capabilities_enable_everything(capabilities: CpuHardeningCapabilities)
    requires
        strict_missing(capabilities) is None,
    ensures
        supported_plan(capabilities) == (CpuHardeningPlan {
            enable_nx: true,
            enable_wp: true,
            enable_smep: true,
            enable_smap: true,
            enable_umip: true,
            enable_ibrs: true,
            enable_stibp: true,
            enable_ssbd: true,
            arch_capabilities_supported: true,
        }),
{
}

} // verus!
