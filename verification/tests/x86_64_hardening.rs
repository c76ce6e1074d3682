use aesynx::x86_64::paging_hardening as paging;
use aesynx::x86_64::cpu_hardening::{
    AdmittedMsr, CR0_WP, CR4_SMAP, CR4_SMEP, CR4_UMIP, CpuHardeningCapabilities, CpuHardeningError,
    CpuHardeningPlan, CpuHardeningStatus, EFER_NXE, MSR_EFER, MSR_IA32_SPEC_CTRL, SPEC_CTRL_IBRS,
    SPEC_CTRL_SSBD, SPEC_CTRL_STIBP, selected_boot_plan, verify_applied,
};
use aesynx::x86_64::cpuid::{CpuidSnapshot, capabilities_from_cpuid, capabilities_from_leaves};

fn base_capabilities() -> CpuHardeningCapabilities {
    CpuHardeningCapabilities {
        nx: true,
        smep: true,
        smap: true,
        umip: true,
        ibrs_ibpb: true,
        stibp: true,
        ssbd: true,
        arch_capabilities: true,
    }
}

#[test]
fn cpu_hardening_admitted_msr_set_is_explicit() {
    assert_eq!(paging::AdmittedMsr::Efer.index(), paging::MSR_EFER);
}

#[test]
fn cpu_hardening_hardening_policy_requires_nx() {
    let capabilities = paging::CpuHardeningCapabilities {
        nx: false,
        smep: true,
        smap: true,
        umip: true,
    };

    assert_eq!(
        paging::CpuHardeningPlan::required(capabilities),
        Err(paging::CpuHardeningError::NxUnavailable)
    );
}

#[test]
fn cpu_hardening_hardening_policy_enables_required_and_supported_bits() {
    let capabilities = paging::CpuHardeningCapabilities {
        nx: true,
        smep: true,
        smap: false,
        umip: true,
    };
    let plan = paging::CpuHardeningPlan::required(capabilities);

    assert_eq!(
        plan,
        Ok(paging::CpuHardeningPlan {
            enable_nx: true,
            enable_wp: true,
            enable_smep: true,
            enable_smap: false,
            enable_umip: true,
        })
    );
}

#[test]
fn cpu_hardening_strict_hardening_policy_rejects_missing_optional_bits() {
    let no_smep = paging::CpuHardeningCapabilities {
        nx: true,
        smep: false,
        smap: true,
        umip: true,
    };
    let no_smap = paging::CpuHardeningCapabilities {
        nx: true,
        smep: true,
        smap: false,
        umip: true,
    };
    let no_umip = paging::CpuHardeningCapabilities {
        nx: true,
        smep: true,
        smap: true,
        umip: false,
    };

    assert_eq!(
        paging::CpuHardeningPlan::strict_required(no_smep),
        Err(paging::CpuHardeningError::SmepUnavailable)
    );
    assert_eq!(
        paging::CpuHardeningPlan::strict_required(no_smap),
        Err(paging::CpuHardeningError::SmapUnavailable)
    );
    assert_eq!(
        paging::CpuHardeningPlan::strict_required(no_umip),
        Err(paging::CpuHardeningError::UmipUnavailable)
    );
}

#[test]
fn cpu_hardening_strict_hardening_policy_requires_all_bits() {
    let capabilities = paging::CpuHardeningCapabilities {
        nx: true,
        smep: true,
        smap: true,
        umip: true,
    };

    assert_eq!(
        paging::CpuHardeningPlan::strict_required(capabilities),
        Ok(paging::CpuHardeningPlan {
            enable_nx: true,
            enable_wp: true,
            enable_smep: true,
            enable_smap: true,
            enable_umip: true,
        })
    );
}

#[test]
fn cpu_hardening_hardening_status_reports_read_back_register_bits() {
    assert_eq!(
        paging::CpuHardeningStatus::from_registers(paging::EFER_NXE, paging::CR0_WP, paging::CR4_SMAP),
        paging::CpuHardeningStatus {
            nx_enabled: true,
            wp_enabled: true,
            smep_enabled: false,
            smap_enabled: true,
            umip_enabled: false,
        }
    );
}

#[test]
fn cpu_hardening_hardening_readback_verification_requires_requested_bits() {
    let plan = paging::CpuHardeningPlan {
        enable_nx: true,
        enable_wp: true,
        enable_smep: true,
        enable_smap: false,
        enable_umip: true,
    };
    let missing_smep = paging::CpuHardeningStatus::from_registers(paging::EFER_NXE, paging::CR0_WP, paging::CR4_UMIP);
    let applied = paging::CpuHardeningStatus::from_registers(paging::EFER_NXE, paging::CR0_WP, paging::CR4_SMEP | paging::CR4_UMIP);

    assert_eq!(
        paging::verify_applied(plan, missing_smep),
        Err(paging::CpuHardeningError::HardeningWriteDidNotStick)
    );
    assert_eq!(paging::verify_applied(plan, applied), Ok(()));
}

#[test]
fn cpu_hardening_hardening_readback_allows_unrequested_extra_bits() {
    let plan = paging::CpuHardeningPlan {
        enable_nx: true,
        enable_wp: true,
        enable_smep: false,
        enable_smap: false,
        enable_umip: false,
    };
    let status =
        paging::CpuHardeningStatus::from_registers(paging::EFER_NXE, paging::CR0_WP, paging::CR4_SMEP | paging::CR4_SMAP | paging::CR4_UMIP);

    assert_eq!(paging::verify_applied(plan, status), Ok(()));
}

#[test]
fn tests_admitted_msr_set_is_explicit() {
    assert_eq!(AdmittedMsr::Efer.index(), MSR_EFER);
    assert_eq!(AdmittedMsr::SpecCtrl.index(), MSR_IA32_SPEC_CTRL);
}

#[test]
fn tests_hardening_policy_requires_nx() {
    let capabilities = CpuHardeningCapabilities {
        nx: false,
        ..base_capabilities()
    };

    assert_eq!(
        CpuHardeningPlan::required(capabilities),
        Err(CpuHardeningError::NxUnavailable)
    );
}

#[test]
fn tests_hardening_policy_enables_required_and_supported_bits() {
    let capabilities = CpuHardeningCapabilities {
        nx: true,
        smep: true,
        smap: false,
        umip: true,
        ibrs_ibpb: true,
        stibp: false,
        ssbd: true,
        arch_capabilities: true,
    };
    let plan = CpuHardeningPlan::required(capabilities);

    assert_eq!(
        plan,
        Ok(CpuHardeningPlan {
            enable_nx: true,
            enable_wp: true,
            enable_smep: true,
            enable_smap: false,
            enable_umip: true,
            enable_ibrs: true,
            enable_stibp: false,
            enable_ssbd: true,
            arch_capabilities_supported: true,
        })
    );
}

#[test]
fn tests_strict_hardening_policy_rejects_missing_optional_bits() {
    let no_smep = CpuHardeningCapabilities {
        nx: true,
        smep: false,
        ..base_capabilities()
    };
    let no_smap = CpuHardeningCapabilities {
        nx: true,
        smap: false,
        ..base_capabilities()
    };
    let no_umip = CpuHardeningCapabilities {
        nx: true,
        umip: false,
        ..base_capabilities()
    };

    assert_eq!(
        CpuHardeningPlan::strict_required(no_smep),
        Err(CpuHardeningError::SmepUnavailable)
    );
    assert_eq!(
        CpuHardeningPlan::strict_required(no_smap),
        Err(CpuHardeningError::SmapUnavailable)
    );
    assert_eq!(
        CpuHardeningPlan::strict_required(no_umip),
        Err(CpuHardeningError::UmipUnavailable)
    );
}

#[test]
fn strict_hardening_policy_rejects_missing_speculative_controls() {
    let no_ibrs = CpuHardeningCapabilities {
        ibrs_ibpb: false,
        ..base_capabilities()
    };
    let no_stibp = CpuHardeningCapabilities {
        stibp: false,
        ..base_capabilities()
    };
    let no_ssbd = CpuHardeningCapabilities {
        ssbd: false,
        ..base_capabilities()
    };
    let no_arch_capabilities = CpuHardeningCapabilities {
        arch_capabilities: false,
        ..base_capabilities()
    };

    assert_eq!(
        CpuHardeningPlan::strict_required(no_ibrs),
        Err(CpuHardeningError::IbrsIbpbUnavailable)
    );
    assert_eq!(
        CpuHardeningPlan::strict_required(no_stibp),
        Err(CpuHardeningError::StibpUnavailable)
    );
    assert_eq!(
        CpuHardeningPlan::strict_required(no_ssbd),
        Err(CpuHardeningError::SsbdUnavailable)
    );
    assert_eq!(
        CpuHardeningPlan::strict_required(no_arch_capabilities),
        Err(CpuHardeningError::ArchCapabilitiesUnavailable)
    );
}

#[test]
fn tests_strict_hardening_policy_requires_all_bits() {
    let capabilities = CpuHardeningCapabilities {
        ..base_capabilities()
    };

    assert_eq!(
        CpuHardeningPlan::strict_required(capabilities),
        Ok(CpuHardeningPlan {
            enable_nx: true,
            enable_wp: true,
            enable_smep: true,
            enable_smap: true,
            enable_umip: true,
            enable_ibrs: true,
            enable_stibp: true,
            enable_ssbd: true,
            arch_capabilities_supported: true,
        })
    );
}

#[test]
fn default_boot_plan_allows_missing_optional_bits_for_qemu() {
    let capabilities = CpuHardeningCapabilities {
        nx: true,
        smep: false,
        smap: false,
        umip: false,
        ibrs_ibpb: false,
        stibp: false,
        ssbd: false,
        arch_capabilities: false,
    };

    assert_eq!(
        selected_boot_plan(capabilities),
        Ok(CpuHardeningPlan {
            enable_nx: true,
            enable_wp: true,
            enable_smep: false,
            enable_smap: false,
            enable_umip: false,
            enable_ibrs: false,
            enable_stibp: false,
            enable_ssbd: false,
            arch_capabilities_supported: false,
        })
    );
}

#[test]
fn tests_hardening_status_reports_read_back_register_bits() {
    assert_eq!(
        CpuHardeningStatus::from_registers(
            EFER_NXE,
            CR0_WP,
            CR4_SMAP,
            SPEC_CTRL_IBRS | SPEC_CTRL_SSBD,
            CpuHardeningCapabilities {
                ibrs_ibpb: true,
                ssbd: true,
                arch_capabilities: true,
                ..base_capabilities()
            },
        ),
        CpuHardeningStatus {
            nx_enabled: true,
            wp_enabled: true,
            smep_enabled: false,
            smap_enabled: true,
            umip_enabled: false,
            ibrs_enabled: true,
            ibpb_supported: true,
            stibp_enabled: false,
            ssbd_enabled: true,
            arch_capabilities_supported: true,
        }
    );
}

#[test]
fn tests_hardening_readback_verification_requires_requested_bits() {
    let plan = CpuHardeningPlan {
        enable_nx: true,
        enable_wp: true,
        enable_smep: true,
        enable_smap: false,
        enable_umip: true,
        enable_ibrs: true,
        enable_stibp: false,
        enable_ssbd: true,
        arch_capabilities_supported: true,
    };
    let missing_smep = CpuHardeningStatus::from_registers(
        EFER_NXE,
        CR0_WP,
        CR4_UMIP,
        SPEC_CTRL_IBRS | SPEC_CTRL_SSBD,
        base_capabilities(),
    );
    let missing_ibrs = CpuHardeningStatus::from_registers(
        EFER_NXE,
        CR0_WP,
        CR4_SMEP | CR4_UMIP,
        SPEC_CTRL_SSBD,
        base_capabilities(),
    );
    let applied = CpuHardeningStatus::from_registers(
        EFER_NXE,
        CR0_WP,
        CR4_SMEP | CR4_UMIP,
        SPEC_CTRL_IBRS | SPEC_CTRL_SSBD,
        base_capabilities(),
    );

    assert_eq!(
        verify_applied(plan, missing_smep),
        Err(CpuHardeningError::HardeningWriteDidNotStick)
    );
    assert_eq!(
        verify_applied(plan, missing_ibrs),
        Err(CpuHardeningError::HardeningWriteDidNotStick)
    );
    assert_eq!(verify_applied(plan, applied), Ok(()));
}

#[test]
fn tests_hardening_readback_allows_unrequested_extra_bits() {
    let plan = CpuHardeningPlan {
        enable_nx: true,
        enable_wp: true,
        enable_smep: false,
        enable_smap: false,
        enable_umip: false,
        enable_ibrs: false,
        enable_stibp: false,
        enable_ssbd: false,
        arch_capabilities_supported: false,
    };
    let status = CpuHardeningStatus::from_registers(
        EFER_NXE,
        CR0_WP,
        CR4_SMEP | CR4_SMAP | CR4_UMIP,
        SPEC_CTRL_IBRS | SPEC_CTRL_STIBP | SPEC_CTRL_SSBD,
        base_capabilities(),
    );

    assert_eq!(verify_applied(plan, status), Ok(()));
}

#[test]
fn cpuid_capabilities_combine_intel_and_amd_bits() {
    let leaf_7 = CpuidSnapshot::from_regs(0, 0, 0, (1 << 26) | (1 << 29));
    let caps = capabilities_from_cpuid(true, false, true, false, leaf_7, CpuidSnapshot::ZERO());
    assert!(caps.nx && !caps.smep && caps.smap && !caps.umip);
    assert!(caps.ibrs_ibpb);
    assert!(caps.arch_capabilities);
    assert!(!caps.stibp && !caps.ssbd);

    let amd_ibrs_only = CpuidSnapshot::from_regs(0, 1 << 9, 0, 0);
    let caps = capabilities_from_cpuid(true, true, true, true, CpuidSnapshot::ZERO(), amd_ibrs_only);
    assert!(!caps.ibrs_ibpb);
    let amd_both = CpuidSnapshot::from_regs(0, (1 << 9) | (1 << 12) | (1 << 15) | (1 << 24), 0, 0);
    let caps = capabilities_from_cpuid(true, true, true, true, CpuidSnapshot::ZERO(), amd_both);
    assert!(caps.ibrs_ibpb && caps.stibp && caps.ssbd && !caps.arch_capabilities);
}

#[test]
fn cpuid_leaves_above_the_reported_maximum_count_as_absent() {
    let leaf_7 = CpuidSnapshot::from_regs(0, (1 << 7) | (1 << 20), 1 << 2, 1 << 31);
    let caps = capabilities_from_leaves(0x8000_0001, 1 << 20, 6, leaf_7, CpuidSnapshot::ZERO());
    assert!(caps.nx);
    assert!(!caps.smep && !caps.smap && !caps.umip && !caps.ssbd);
    let caps = capabilities_from_leaves(0x8000_0000, 1 << 20, 7, leaf_7, CpuidSnapshot::ZERO());
    assert!(!caps.nx);
    assert!(caps.smep && caps.smap && caps.umip && caps.ssbd);
    let paging_caps = paging::capabilities_from_leaves(0x8000_0008, 1 << 20, 7, 1 << 7, 0);
    assert!(paging_caps.nx && paging_caps.smep && !paging_caps.smap && !paging_caps.umip);
}

#[test]
fn planned_registers_read_back_as_applied() {
    let plan = paging::CpuHardeningPlan {
        enable_nx: true,
        enable_wp: true,
        enable_smep: true,
        enable_smap: false,
        enable_umip: true,
    };
    let efer = paging::planned_efer(plan, 0x500);
    let cr0 = paging::planned_cr0(plan, 0x8000_0011);
    let cr4 = paging::planned_cr4(plan, 0x20);
    assert_eq!(efer, 0xd00);
    assert_eq!(cr0, 0x8001_0011);
    assert_eq!(cr4, 0x20 | paging::CR4_UMIP | paging::CR4_SMEP);
    let status = paging::CpuHardeningStatus::from_registers(efer, cr0, cr4);
    assert_eq!(paging::verify_applied(plan, status), Ok(()));
    assert!(!status.smap_enabled);
}

#[test]
fn spec_ctrl_msr_and_missing_controls_fail_readback() {
    assert_eq!(AdmittedMsr::SpecCtrl.index(), 0x48);
    let plan = selected_boot_plan(base_capabilities()).unwrap();
    let status = CpuHardeningStatus::from_registers(
        EFER_NXE,
        CR0_WP,
        CR4_SMEP | CR4_SMAP | CR4_UMIP,
        SPEC_CTRL_IBRS | SPEC_CTRL_SSBD,
        base_capabilities(),
    );
    assert_eq!(
        verify_applied(plan, status),
        Err(CpuHardeningError::HardeningWriteDidNotStick)
    );
    assert_eq!(
        selected_boot_plan(CpuHardeningCapabilities { nx: false, ..base_capabilities() }),
        Err(CpuHardeningError::NxUnavailable)
    );
    let _ = MSR_EFER;
    let _ = MSR_IA32_SPEC_CTRL;
    let _ = SPEC_CTRL_STIBP;
    let _: Option<CpuHardeningPlan> = None;
}

#[test]
fn strict_boot_plan_rejects_missing_optional_bits() {
    let capabilities = CpuHardeningCapabilities {
        nx: true,
        smep: false,
        smap: true,
        umip: true,
        ibrs_ibpb: true,
        stibp: true,
        ssbd: true,
        arch_capabilities: true,
    };

    assert_eq!(
        CpuHardeningPlan::strict_required(capabilities),
        Err(CpuHardeningError::SmepUnavailable)
    );
}
