use std::mem::size_of;

use aesynx::abi::{CoreId, IrqLine, PhysAddr};
use aesynx::arch::{InterruptError, IpiVector};
use aesynx::x86_64::descriptors::{
    DOUBLE_FAULT_IST_SLOT, DOUBLE_FAULT_STACK_BYTES, DescriptorInitStep, GDT_ENTRIES,
    INIT_IN_PROGRESS, INIT_READY, INIT_UNINITIALIZED, InterruptStackTableIndex,
    KERNEL_CODE_DESCRIPTOR, KERNEL_DATA_DESCRIPTOR, MSR_FS_BASE, MSR_GS_BASE, MSR_KERNEL_GS_BASE,
    Ring0StackError, SegmentBaseMsr, SegmentSelector, TASK_STATE_SEGMENT_BYTES, boot_gdt_entries,
    check_ring0_stack_update, descriptor_table_status, init_step, is_canonical_address,
    tss_descriptor, valid_ring0_stack_top,
};
use aesynx::x86_64::entropy::entropy_support_from_cpuid;
use aesynx::x86_64::exceptions::{
    DOUBLE_FAULT_VECTOR, ExceptionFrame, ExceptionKind, IDT_ENTRIES, INTERRUPT_GATE_PRESENT,
    IdtEntry, IdtError, PAGE_FAULT_VECTOR, PageFaultErrorCode, RETURNING_EXCEPTION_GPR_SAVE_BYTES,
    RETURNING_EXCEPTION_GPR_SAVE_COUNT, RawExceptionFrame, boot_idt_gate,
    check_interrupt_gate_install, classify_exception, exception_stub_address,
    exception_table_status,
};
use aesynx::x86_64::interrupts::{
    CPUID_FEATURE_EDX_APIC, IRQ_VECTOR_BASE, IrqVector, LEGACY_PIC_IRQS, LocalApicMode,
    X86_64InterruptController, controller_status, legacy_pic_mask_bit, legacy_pic_needs_slave_eoi,
    local_apic_present,
};
use aesynx::x86_64::port::{AdmittedPort, Port};
use aesynx::x86_64::registers::{EarlyRegisterSnapshot, FaultRegisterSnapshot};
use aesynx::x86_64::serial::{
    Com1, MAX_TRANSMIT_POLLS, TransmitPoll, ascii_wire_bytes, init_writes, transmit_poll,
};
use aesynx::x86_64::timer::{
    PIT_COMMAND_CHANNEL0_LO_HI_MODE2, PIT_DIVISOR_100HZ, TIMER_IRQ, TIMER_SMOKE_TARGET_TICKS,
    TIMER_VECTOR, pit_channel0_writes, status, target_ticks, tick_action,
};
use aesynx::x86_64::{interrupt_flag_set, join_halves, split_halves};

#[test]
fn segment_selectors_match_gdt_layout() {
    assert_eq!(SegmentSelector::KERNEL_CODE().bits(), 0x08);
    assert_eq!(SegmentSelector::KERNEL_DATA().bits(), 0x10);
    assert_eq!(SegmentSelector::TSS().bits(), 0x18);
    assert_eq!(GDT_ENTRIES, 5);
}

#[test]
fn init_state_values_are_ordered() {
    assert_eq!(INIT_UNINITIALIZED, 0);
    assert_eq!(INIT_IN_PROGRESS, 1);
    assert_eq!(INIT_READY, 2);
}

#[test]
fn admitted_segment_base_msrs_are_explicit() {
    assert_eq!(SegmentBaseMsr::Fs.index(), MSR_FS_BASE);
    assert_eq!(SegmentBaseMsr::Gs.index(), MSR_GS_BASE);
    assert_eq!(SegmentBaseMsr::KernelGs.index(), MSR_KERNEL_GS_BASE);
}

#[test]
fn code_and_data_descriptors_are_present_ring_zero_long_mode_entries() {
    assert_eq!(KERNEL_CODE_DESCRIPTOR, 0x00af_9a00_0000_ffff);
    assert_eq!(KERNEL_DATA_DESCRIPTOR, 0x00af_9200_0000_ffff);
}

#[test]
fn tss_descriptor_encodes_base_limit_type_and_present_bit() {
    let base = 0x1234_5678_9abc_def0;
    let limit = TASK_STATE_SEGMENT_BYTES - 1;
    let descriptor = tss_descriptor(base, limit);

    assert_eq!(descriptor.low & 0xffff, limit as u64 & 0xffff);
    assert_eq!((descriptor.low >> 16) & 0x00ff_ffff, base & 0x00ff_ffff);
    assert_eq!((descriptor.low >> 40) & 0x0f, 0x9);
    assert_eq!((descriptor.low >> 47) & 1, 1);
    assert_eq!((descriptor.low >> 48) & 0x0f, (limit as u64 >> 16) & 0x0f);
    assert_eq!((descriptor.low >> 56) & 0xff, (base >> 24) & 0xff);
    assert_eq!(descriptor.high, base >> 32);
}

#[test]
fn ring0_stack_validator_accepts_aligned_canonical_kernel_stack_top() {
    assert!(valid_ring0_stack_top(0xffff_ffff_8000_1000));
}

#[test]
fn ring0_stack_validator_rejects_invalid_stack_tops() {
    assert!(!valid_ring0_stack_top(0));
    assert!(!valid_ring0_stack_top(0x0000_7fff_ffff_f000));
    assert!(!valid_ring0_stack_top(0xffff_ffff_8000_1008));
    assert!(!valid_ring0_stack_top(0x0000_8000_0000_0000));
}

#[test]
fn idt_entry_encodes_handler_selector_and_ist() {
    let address: u64 = 0xffff_ffff_8012_3456;
    let entry =
        IdtEntry::interrupt_gate_address(address, InterruptStackTableIndex::DOUBLE_FAULT().get() as u8);

    assert_eq!(entry.offset_low, address as u16);
    assert_eq!(entry.offset_mid, (address >> 16) as u16);
    assert_eq!(entry.offset_high, (address >> 32) as u32);
    assert_eq!(entry.selector, SegmentSelector::KERNEL_CODE().bits());
    assert_eq!(
        entry.options,
        INTERRUPT_GATE_PRESENT | InterruptStackTableIndex::DOUBLE_FAULT().get()
    );
    assert_eq!(entry.reserved, 0);
}

#[test]
fn idt_shape_matches_x86_64_descriptor_size() {
    assert_eq!(size_of::<IdtEntry>(), 16);
    assert_eq!(size_of::<RawExceptionFrame>(), 40);
    assert_eq!(IDT_ENTRIES, 256);
    assert_eq!(DOUBLE_FAULT_VECTOR, 8);
    assert_eq!(PAGE_FAULT_VECTOR, 14);
}

#[test]
fn returning_exception_frame_offset_tracks_saved_gprs() {
    assert_eq!(RETURNING_EXCEPTION_GPR_SAVE_COUNT, 15);
    assert_eq!(
        RETURNING_EXCEPTION_GPR_SAVE_BYTES,
        RETURNING_EXCEPTION_GPR_SAVE_COUNT * size_of::<u64>()
    );
    assert_eq!(RETURNING_EXCEPTION_GPR_SAVE_BYTES, 120);
}

#[test]
fn page_fault_error_code_decodes_architectural_bits() {
    let error = PageFaultErrorCode::new(
        (1 << 0) | (1 << 1) | (1 << 2) | (1 << 3) | (1 << 4) | (1 << 5) | (1 << 6) | (1 << 15),
    );

    assert!(error.present());
    assert!(error.write());
    assert!(error.user());
    assert!(error.reserved_bit());
    assert!(error.instruction_fetch());
    assert!(error.protection_key());
    assert!(error.shadow_stack());
    assert!(error.sgx());
}

#[test]
fn irq_vector_allocator_rejects_out_of_range_lines() {
    assert_eq!(
        IrqVector::from_irq(IrqLine::new(0)).map(IrqVector::get),
        Ok(IRQ_VECTOR_BASE)
    );
    assert_eq!(
        IrqVector::from_irq(IrqLine::new(15)).map(IrqVector::get),
        Ok(IRQ_VECTOR_BASE + 15)
    );
    assert_eq!(
        IrqVector::from_irq(IrqLine::new(LEGACY_PIC_IRQS)),
        Err(InterruptError::InvalidIrq)
    );
}

#[test]
fn local_apic_modes_are_explicit() {
    assert_ne!(
        LocalApicMode::Unavailable,
        LocalApicMode::DeferredUntilMmioMapping
    );
    assert_eq!(CPUID_FEATURE_EDX_APIC, 1 << 9);
}

#[test]
fn deferred_enable_still_validates_irq_line() {
    assert_eq!(
        X86_64InterruptController::enable_irq(IrqLine::new(LEGACY_PIC_IRQS)),
        Err(InterruptError::InvalidIrq)
    );
    assert_eq!(
        X86_64InterruptController::enable_irq(IrqLine::new(0)),
        Err(InterruptError::ControllerUnavailable)
    );
}

#[test]
fn admitted_ports_are_limited_to_early_boot_devices() {
    let serial_ports = [
        AdmittedPort::Data,
        AdmittedPort::InterruptEnable,
        AdmittedPort::FifoControl,
        AdmittedPort::LineControl,
        AdmittedPort::ModemControl,
        AdmittedPort::LineStatus,
    ];

    for port in serial_ports {
        let address = Port::new(port).admitted().address();
        assert!((0x3f8..=0x3fd).contains(&address));
    }

    let pic_ports = [
        AdmittedPort::PicMasterCommand,
        AdmittedPort::PicMasterData,
        AdmittedPort::PicSlaveCommand,
        AdmittedPort::PicSlaveData,
    ];

    assert_eq!(
        pic_ports.map(|port| Port::new(port).admitted().address()),
        [0x20, 0x21, 0xa0, 0xa1]
    );
}

#[test]
fn register_snapshot_exposes_only_redacted_summary() {
    let snapshot = EarlyRegisterSnapshot::new(
        0xffff_ffff_8000_1008,
        0xffff_ffff_8000_2000,
        0xffff_ffff_0000_0ed7,
        0x1234_5abc,
    );

    assert!(snapshot.stack_pointer_present());
    assert!(snapshot.frame_pointer_present());
    assert_eq!(snapshot.stack_pointer_alignment(), 8);
    assert_eq!(snapshot.frame_pointer_alignment(), 0);
    assert_eq!(snapshot.public_rflags(), 0x0cd5);
    assert_eq!(snapshot.cr3_page_offset(), 0xabc);
    assert!(snapshot.cr3_page_matches(PhysAddr::new(0x1234_5000)));
    assert!(snapshot.cr3_page_matches(PhysAddr::new(0x1234_5fff)));
    assert!(!snapshot.cr3_page_matches(PhysAddr::new(0x1234_6000)));
}

#[test]
fn public_rflags_excludes_debug_interrupt_and_privilege_state() {
    const TF_IF_IOPL_AC: u64 = (1 << 8) | (1 << 9) | (3 << 12) | (1 << 18);
    let snapshot = EarlyRegisterSnapshot::new(0, 0, TF_IF_IOPL_AC, 0);

    assert_eq!(snapshot.public_rflags(), 0);
}

#[test]
fn serial_timeout_bound_is_nonzero() {
    let max_polls = MAX_TRANSMIT_POLLS;
    assert!(max_polls > 0);
}

#[test]
fn com1_is_single_core_marker_type() {
    let _serial = Com1::new();
    assert_eq!(size_of::<Com1>(), 0);
}

#[test]
fn timer_smoke_uses_remapped_irq0_vector() {
    assert_eq!(TIMER_IRQ, 0);
    assert_eq!(TIMER_VECTOR, 0x20);
    assert_eq!(target_ticks(), 3);
    assert_eq!(TIMER_SMOKE_TARGET_TICKS, 3);
}

#[test]
fn pit_configuration_uses_channel0_rate_generator() {
    assert_eq!(PIT_COMMAND_CHANNEL0_LO_HI_MODE2, 0x34);
    assert_eq!(PIT_DIVISOR_100HZ, 11_932);
}

#[test]
fn status_reports_current_counter_without_mutation() {
    let status = status(0);
    assert_eq!(status.vector, TIMER_VECTOR);
    assert_eq!(status.irq.get(), TIMER_IRQ);
    assert_eq!(status.target_ticks, TIMER_SMOKE_TARGET_TICKS);
}

#[test]
fn fault_snapshot_summarizes_fault_address_flags_and_cr3() {
    let snapshot = FaultRegisterSnapshot::new(0xffff_ffff_8000_dead, 0xffff_ffff_0000_0ed7, 0x1234_5abc);

    assert!(snapshot.fault_address_present());
    assert_eq!(snapshot.fault_address_page_offset(), 0xead);
    assert_eq!(snapshot.public_rflags(), 0x0cd5);
    assert!(snapshot.interrupts_enabled());
    assert_eq!(snapshot.cr3_page_offset(), 0xabc);
    assert!(snapshot.cr3_page_matches(PhysAddr::new(0x1234_5000)));
    assert!(!snapshot.cr3_page_matches(PhysAddr::new(0x1234_4000)));
    assert!(!FaultRegisterSnapshot::new(0, 0, 0).fault_address_present());
}

#[test]
fn exception_frame_copies_only_byte_vectors() {
    let raw = RawExceptionFrame {
        vector: 14,
        error_code: 0b101,
        instruction_pointer: 0xffff_ffff_8000_1234,
        code_segment: SegmentSelector::KERNEL_CODE().bits() as u64,
        rflags: 0xffff_ffff_0000_0ed7,
    };
    let frame = ExceptionFrame::from_raw_frame(raw);
    assert_eq!(
        frame,
        Some(ExceptionFrame {
            vector: 14,
            error_code: 0b101,
            instruction_pointer: 0xffff_ffff_8000_1234,
            code_segment: 0x08,
            rflags: 0xffff_ffff_0000_0ed7,
        })
    );
    assert_eq!(frame.map(ExceptionFrame::public_rflags), Some(0x0cd5));
    assert_eq!(frame.map(ExceptionFrame::instruction_pointer_present), Some(true));
    assert_eq!(frame.map(ExceptionFrame::instruction_pointer_offset), Some(0x234));
    assert_eq!(ExceptionFrame::from_raw_frame(RawExceptionFrame { vector: 256, ..raw }), None);
}

#[test]
fn interrupt_gates_install_only_above_exceptions_with_interrupts_masked() {
    assert_eq!(check_interrupt_gate_install(0x1f, false), Err(IdtError::InvalidInterruptVector));
    assert_eq!(check_interrupt_gate_install(0x20, true), Err(IdtError::CpuStateUnavailable));
    assert_eq!(check_interrupt_gate_install(0x20, false), Ok(0x20));
    assert_eq!(check_interrupt_gate_install(0xff, false), Ok(0xff));
}

#[test]
fn boot_idt_routes_named_exceptions_to_their_handlers() {
    let table = 0xffff_ffff_8000_0000;
    let ist = InterruptStackTableIndex::DOUBLE_FAULT();
    assert_eq!(exception_stub_address(table, 5), table + 80);
    assert_eq!(
        boot_idt_gate(5, table, 0x1000, 0x2000, 0x3000, ist),
        IdtEntry::interrupt_gate_address(table + 80, 0)
    );
    assert_eq!(boot_idt_gate(3, table, 0x1000, 0x2000, 0x3000, ist), IdtEntry::interrupt_gate_address(0x1000, 0));
    assert_eq!(boot_idt_gate(14, table, 0x1000, 0x2000, 0x3000, ist), IdtEntry::interrupt_gate_address(0x2000, 0));
    let double_fault = boot_idt_gate(8, table, 0x1000, 0x2000, 0x3000, ist);
    assert_eq!(double_fault.options, INTERRUPT_GATE_PRESENT | 1);
    assert_eq!(double_fault.offset_low, 0x3000);
    assert_eq!(IdtEntry::missing().options, 0);
    assert_eq!(classify_exception(3), ExceptionKind::Breakpoint);
    assert_eq!(classify_exception(14), ExceptionKind::PageFault);
    assert_eq!(classify_exception(8), ExceptionKind::DoubleFault);
    assert_eq!(classify_exception(13), ExceptionKind::Other(13));
    let status = exception_table_status(ist, true);
    assert_eq!(status.idt_entries, 256);
    assert_eq!(status.double_fault_vector, 8);
}

#[test]
fn ring0_stack_update_checks_stack_then_interrupts() {
    assert_eq!(check_ring0_stack_update(0x1000, false), Err(Ring0StackError::InvalidStackTop));
    assert_eq!(
        check_ring0_stack_update(0xffff_ffff_8000_1000, true),
        Err(Ring0StackError::InterruptsEnabled)
    );
    assert_eq!(check_ring0_stack_update(0xffff_ffff_8000_1000, false), Ok(()));
    assert!(is_canonical_address(0x0000_7fff_ffff_ffff));
    assert!(is_canonical_address(0xffff_8000_0000_0000));
    assert!(!is_canonical_address(0x0000_8000_0000_0000));
}

#[test]
fn boot_gdt_and_init_state_machine() {
    let gdt = boot_gdt_entries(0xffff_ffff_8010_0000);
    assert_eq!(gdt.len(), GDT_ENTRIES);
    assert_eq!(gdt[0], 0);
    assert_eq!(gdt[1], KERNEL_CODE_DESCRIPTOR);
    assert_eq!(gdt[2], KERNEL_DATA_DESCRIPTOR);
    assert_eq!(gdt[3], tss_descriptor(0xffff_ffff_8010_0000, 103).low);
    assert_eq!(gdt[4], 0xffff_ffff);
    assert_eq!(init_step(INIT_UNINITIALIZED), DescriptorInitStep::Initialize);
    assert_eq!(init_step(INIT_READY), DescriptorInitStep::AlreadyInitialized);
    assert_eq!(init_step(INIT_IN_PROGRESS), DescriptorInitStep::Reentered);
    let status = descriptor_table_status(false);
    assert_eq!(status.tss_selector, SegmentSelector::TSS());
    assert_eq!(status.double_fault_stack_bytes, DOUBLE_FAULT_STACK_BYTES);
    assert_eq!(DOUBLE_FAULT_IST_SLOT, 0);
}

#[test]
fn legacy_pic_masks_and_acknowledges_by_controller() {
    assert_eq!(legacy_pic_mask_bit(IrqLine::new(3)), Ok((AdmittedPort::PicMasterData, 0x08)));
    assert_eq!(legacy_pic_mask_bit(IrqLine::new(10)), Ok((AdmittedPort::PicSlaveData, 0x04)));
    assert_eq!(legacy_pic_mask_bit(IrqLine::new(16)), Err(InterruptError::InvalidIrq));
    assert_eq!(legacy_pic_needs_slave_eoi(IrqLine::new(7)), Ok(false));
    assert_eq!(legacy_pic_needs_slave_eoi(IrqLine::new(8)), Ok(true));
    assert_eq!(legacy_pic_needs_slave_eoi(IrqLine::new(99)), Err(InterruptError::InvalidIrq));
    assert!(local_apic_present(1 << 9));
    assert!(!local_apic_present(!(1 << 9)));
    let status = controller_status(true);
    assert_eq!(status.local_apic_mode, LocalApicMode::DeferredUntilMmioMapping);
    assert_eq!(controller_status(false).local_apic_mode, LocalApicMode::Unavailable);
    assert_eq!(
        X86_64InterruptController::send_ipi(CoreId::new(1), IpiVector::new(0x40)),
        Err(InterruptError::ControllerUnavailable)
    );
}

#[test]
fn serial_line_discipline_and_polling() {
    assert_eq!(ascii_wire_bytes(b"a\nb\n"), b"a\r\nb\r\n".to_vec());
    assert_eq!(ascii_wire_bytes(b""), Vec::<u8>::new());
    assert_eq!(transmit_poll(0x20, 0), TransmitPoll::Send);
    assert_eq!(transmit_poll(0x00, 5), TransmitPoll::Wait(6));
    assert_eq!(transmit_poll(0x00, MAX_TRANSMIT_POLLS), TransmitPoll::TimedOut);
    let writes = init_writes();
    assert_eq!(writes.len(), 7);
    assert_eq!(writes[1], (AdmittedPort::LineControl, 0x80));
    assert_eq!(writes[6], (AdmittedPort::ModemControl, 0x0b));
}

#[test]
fn timer_programs_divisor_bytes_and_finishes_at_target() {
    assert_eq!(
        pit_channel0_writes(),
        vec![
            (AdmittedPort::PitCommand, 0x34),
            (AdmittedPort::PitChannel0, 0x9c),
            (AdmittedPort::PitChannel0, 0x2e),
        ]
    );
    assert!(tick_action(1).log_tick && !tick_action(1).finish_smoke);
    assert!(tick_action(3).log_tick && tick_action(3).finish_smoke);
    assert!(!tick_action(4).log_tick && !tick_action(4).finish_smoke);
    assert_eq!(status(9).ticks, 9);
}

#[test]
fn halves_join_and_split_and_entropy_bits_decode() {
    assert_eq!(join_halves(0x1234_5678, 0x9abc_def0), 0x1234_5678_9abc_def0);
    assert_eq!(split_halves(0x1234_5678_9abc_def0), (0x9abc_def0, 0x1234_5678));
    assert!(interrupt_flag_set(0x202));
    assert!(!interrupt_flag_set(0x002));
    let support = entropy_support_from_cpuid(7, 1 << 30, 1 << 18);
    assert!(support.rdrand && support.rdseed);
    let support = entropy_support_from_cpuid(6, 1 << 30, 1 << 18);
    assert!(support.rdrand && !support.rdseed);
    let support = entropy_support_from_cpuid(0, 1 << 30, 1 << 18);
    assert!(!support.rdrand && !support.rdseed);
}
