use aesynx::abi::{PhysAddr, VirtAddr};
use aesynx::boot::normalize::{BootInfoError, BootMetadata};
use aesynx::boot::types::{
    ArchKind, BootInfo, FRAME_SIZE, FramebufferInfo, HhdmInfo, KernelImageInfo,
    MAX_EARLY_MEMORY_REGIONS, MemoryAccountingError, MemoryMap, MemoryRegion, MemoryRegionKind,
    MemorySummary, PlatformKind,
};

fn qemu_metadata<'a>(memory_regions: &'a [MemoryRegion]) -> BootMetadata<'a> {
    BootMetadata {
        arch: ArchKind::X86_64,
        platform: PlatformKind::Qemu,
        memory_regions,
        framebuffer: None,
        rsdp: None,
        device_tree: None,
        cpu_topology: &[],
        kernel_image: KernelImageInfo::new(
            VirtAddr::new(0xffffffff80000000),
            VirtAddr::new(0xffffffff80002000),
            PhysAddr::new(0x200000),
        ),
        hhdm: None,
    }
}

#[test]
fn memory_summary_accounts_region_kinds_and_full_frames() {
    let regions = [
        MemoryRegion::new(PhysAddr::new(0x1001), 0x2fff, MemoryRegionKind::Usable),
        MemoryRegion::new(PhysAddr::new(0x5000), 0x2000, MemoryRegionKind::Kernel),
        MemoryRegion::new(PhysAddr::new(0x7000), 0x1000, MemoryRegionKind::Framebuffer),
        MemoryRegion::new(PhysAddr::new(0x8000), 0x1000, MemoryRegionKind::Acpi),
        MemoryRegion::new(PhysAddr::new(0x9000), 0x1000, MemoryRegionKind::Bad),
    ];

    let summary = MemoryMap::new(&regions).summary();

    assert_eq!(
        summary,
        Ok(MemorySummary {
            region_count: 5,
            total_bytes: 0x7fff,
            total_frames: 7,
            usable_regions: 1,
            usable_bytes: 0x2fff,
            usable_frames: 2,
            reserved_regions: 4,
            reserved_bytes: 0x5000,
            reserved_frames: 5,
            kernel_bytes: 0x2000,
            bootloader_bytes: 0,
            framebuffer_bytes: 0x1000,
            acpi_bytes: 0x1000,
            bad_bytes: 0x1000,
        })
    );
}

#[test]
fn bootinfo_rejects_empty_memory_map() {
    let result = BootInfo::normalize(qemu_metadata(&[]));

    assert!(result == Err(BootInfoError::EmptyMemoryMap));
}

#[test]
fn bootinfo_rejects_memory_accounting_overflow() {
    let regions = [
        MemoryRegion::new(PhysAddr::new(0), u64::MAX - 1, MemoryRegionKind::Usable),
        MemoryRegion::new(PhysAddr::new(u64::MAX - 1), 1, MemoryRegionKind::Usable),
    ];
    let result = BootInfo::normalize(qemu_metadata(&regions));

    assert!(
        result
            == Err(BootInfoError::MemoryAccounting(
                MemoryAccountingError::Overflow
            ))
    );
}

#[test]
fn bootinfo_rejects_overlapping_memory_regions() {
    let regions = [
        MemoryRegion::new(PhysAddr::new(0x1000), 0x4000, MemoryRegionKind::Usable),
        MemoryRegion::new(PhysAddr::new(0x3000), 0x2000, MemoryRegionKind::Kernel),
    ];
    let result = BootInfo::normalize(qemu_metadata(&regions));

    assert!(result == Err(BootInfoError::OverlappingMemoryRegion));
}

#[test]
fn bootinfo_rejects_misaligned_kernel_image() {
    let regions = [MemoryRegion::new(
        PhysAddr::new(0x1000),
        0x9000,
        MemoryRegionKind::Usable,
    )];
    let result = BootInfo::normalize(BootMetadata {
        arch: ArchKind::X86_64,
        platform: PlatformKind::Qemu,
        memory_regions: &regions,
        framebuffer: None,
        rsdp: None,
        device_tree: None,
        cpu_topology: &[],
        kernel_image: KernelImageInfo::new(
            VirtAddr::new(0xffffffff80000001),
            VirtAddr::new(0xffffffff80002000),
            PhysAddr::new(0x200000),
        ),
        hhdm: None,
    });

    assert!(result == Err(BootInfoError::KernelImageEmpty));
}

#[test]
fn bootinfo_rejects_user_half_x86_64_kernel_image() {
    let regions = [MemoryRegion::new(
        PhysAddr::new(0x1000),
        0x9000,
        MemoryRegionKind::Usable,
    )];
    let result = BootInfo::normalize(BootMetadata {
        arch: ArchKind::X86_64,
        platform: PlatformKind::Qemu,
        memory_regions: &regions,
        framebuffer: None,
        rsdp: None,
        device_tree: None,
        cpu_topology: &[],
        kernel_image: KernelImageInfo::new(
            VirtAddr::new(0x400000),
            VirtAddr::new(0x402000),
            PhysAddr::new(0x200000),
        ),
        hhdm: None,
    });

    assert!(result == Err(BootInfoError::KernelImageEmpty));
}

#[test]
fn bootinfo_rejects_user_half_aarch64_kernel_image() {
    let regions = [MemoryRegion::new(
        PhysAddr::new(0x1000),
        0x9000,
        MemoryRegionKind::Usable,
    )];
    let result = BootInfo::normalize(BootMetadata {
        arch: ArchKind::Aarch64,
        platform: PlatformKind::Qemu,
        memory_regions: &regions,
        framebuffer: None,
        rsdp: None,
        device_tree: None,
        cpu_topology: &[],
        kernel_image: KernelImageInfo::new(
            VirtAddr::new(0x400000),
            VirtAddr::new(0x402000),
            PhysAddr::new(0x200000),
        ),
        hhdm: None,
    });

    assert!(result == Err(BootInfoError::KernelImageEmpty));
}

#[test]
fn bootinfo_normalizes_synthetic_memory_map() -> Result<(), BootInfoError> {
    let regions = [
        MemoryRegion::new(PhysAddr::new(0x1000), 0x9000, MemoryRegionKind::Usable),
        MemoryRegion::new(PhysAddr::new(0x10000), 0x2000, MemoryRegionKind::Bootloader),
        MemoryRegion::new(PhysAddr::new(0x200000), 0x2000, MemoryRegionKind::Kernel),
    ];

    let info = BootInfo::normalize(BootMetadata {
        arch: ArchKind::X86_64,
        platform: PlatformKind::Qemu,
        memory_regions: &regions,
        framebuffer: None,
        rsdp: Some(VirtAddr::new(0xffff800000007000)),
        device_tree: None,
        cpu_topology: &[],
        kernel_image: KernelImageInfo::new(
            VirtAddr::new(0xffffffff80000000),
            VirtAddr::new(0xffffffff80002000),
            PhysAddr::new(0x200000),
        ),
        hhdm: None,
    })?;

    assert_eq!(
        info.memory_map.summary(),
        Ok(MemorySummary {
            region_count: 3,
            total_bytes: 0xd000,
            total_frames: 13,
            usable_regions: 1,
            usable_bytes: 0x9000,
            usable_frames: 9,
            reserved_regions: 2,
            reserved_bytes: 0x4000,
            reserved_frames: 4,
            kernel_bytes: 0x2000,
            bootloader_bytes: 0x2000,
            framebuffer_bytes: 0,
            acpi_bytes: 0,
            bad_bytes: 0,
        })
    );
    assert!(info.rsdp_present());
    Ok(())
}

#[test]
fn bootinfo_accepts_adjacent_memory_regions() -> Result<(), BootInfoError> {
    let regions = [
        MemoryRegion::new(PhysAddr::new(0x1000), 0x1ff000, MemoryRegionKind::Usable),
        MemoryRegion::new(PhysAddr::new(0x200000), 0x2000, MemoryRegionKind::Kernel),
    ];
    BootInfo::normalize(qemu_metadata(&regions))?;

    Ok(())
}

#[test]
fn bootinfo_accepts_kernel_image_split_across_reserved_regions() -> Result<(), BootInfoError> {
    let regions = [
        MemoryRegion::new(PhysAddr::new(0x1000), 0x1ff000, MemoryRegionKind::Usable),
        MemoryRegion::new(PhysAddr::new(0x200000), 0x1000, MemoryRegionKind::Reserved),
        MemoryRegion::new(PhysAddr::new(0x201000), 0x1000, MemoryRegionKind::Kernel),
    ];
    BootInfo::normalize(qemu_metadata(&regions))?;

    Ok(())
}

#[test]
fn bootinfo_rejects_kernel_image_inside_usable_memory() {
    let regions = [MemoryRegion::new(
        PhysAddr::new(0x200000),
        0x2000,
        MemoryRegionKind::Usable,
    )];
    let result = BootInfo::normalize(qemu_metadata(&regions));

    assert!(result == Err(BootInfoError::KernelImageMemoryMapMismatch));
}

#[test]
fn bootinfo_rejects_kernel_image_without_reserved_memory_coverage() {
    let regions = [
        MemoryRegion::new(PhysAddr::new(0x1000), 0x1ff000, MemoryRegionKind::Usable),
        MemoryRegion::new(PhysAddr::new(0x200000), 0x1000, MemoryRegionKind::Kernel),
    ];
    let result = BootInfo::normalize(qemu_metadata(&regions));

    assert!(result == Err(BootInfoError::KernelImageMemoryMapMismatch));
}

#[test]
fn bootinfo_rejects_unaligned_kernel_image_end() {
    let regions = [MemoryRegion::new(
        PhysAddr::new(0x200000),
        0x2000,
        MemoryRegionKind::Kernel,
    )];
    let result = BootInfo::normalize(BootMetadata {
        arch: ArchKind::X86_64,
        platform: PlatformKind::Qemu,
        memory_regions: &regions,
        framebuffer: None,
        rsdp: None,
        device_tree: None,
        cpu_topology: &[],
        kernel_image: KernelImageInfo::new(
            VirtAddr::new(0xffffffff80000000),
            VirtAddr::new(0xffffffff80001001),
            PhysAddr::new(0x200000),
        ),
        hhdm: None,
    });

    assert!(result == Err(BootInfoError::KernelImageEmpty));
}

#[test]
fn bootinfo_rejects_too_many_memory_regions_before_overlap_scan() {
    let mut regions = [MemoryRegion::EMPTY(); MAX_EARLY_MEMORY_REGIONS + 1];
    let mut index = 0usize;
    while index < regions.len() {
        regions[index] = MemoryRegion::new(
            PhysAddr::new(0x1000 + (index as u64 * 0x2000)),
            0x1000,
            MemoryRegionKind::Usable,
        );
        index += 1;
    }

    let result = BootInfo::normalize(qemu_metadata(&regions));

    assert!(result == Err(BootInfoError::InvalidMemoryRegion));
}

#[test]
fn kernel_image_translates_virtual_address_to_physical_offset() {
    let image = KernelImageInfo::new(
        VirtAddr::new(0xffff_ffff_8000_0000),
        VirtAddr::new(0xffff_ffff_8001_0000),
        PhysAddr::new(0x0040_0000),
    );

    assert_eq!(
        image.phys_for_virt(VirtAddr::new(0xffff_ffff_8000_3000)),
        Some(PhysAddr::new(0x0040_3000))
    );
    assert_eq!(
        image.phys_for_virt(VirtAddr::new(0xffff_ffff_8001_0000)),
        None
    );
}

#[test]
fn kernel_image_translation_rejects_addresses_below_start_and_overflow() {
    let image = KernelImageInfo::new(
        VirtAddr::new(0x1000),
        VirtAddr::new(0x3000),
        PhysAddr::new(u64::MAX - 0x800),
    );
    assert_eq!(image.phys_for_virt(VirtAddr::new(0xfff)), None);
    assert_eq!(image.phys_for_virt(VirtAddr::new(0x1000)), Some(PhysAddr::new(u64::MAX - 0x800)));
    assert_eq!(image.phys_for_virt(VirtAddr::new(0x2000)), None);
}

#[test]
fn bootinfo_carries_handoff_fields_and_offsets() -> Result<(), BootInfoError> {
    let regions = [
        MemoryRegion::new(PhysAddr::new(0x1000), 0x9000, MemoryRegionKind::Usable),
        MemoryRegion::new(PhysAddr::new(0x200000), 0x2000, MemoryRegionKind::Kernel),
    ];
    let info = BootInfo::normalize(BootMetadata {
        arch: ArchKind::X86_64,
        platform: PlatformKind::Uefi,
        memory_regions: &regions,
        framebuffer: Some(FramebufferInfo::new(VirtAddr::new(0xffff80000000b800), 80, 25, 80)),
        rsdp: None,
        device_tree: Some(VirtAddr::new(0xffff800000008000)),
        cpu_topology: &[],
        kernel_image: KernelImageInfo::new(
            VirtAddr::new(0xffffffff80000000),
            VirtAddr::new(0xffffffff80002000),
            PhysAddr::new(0x200000),
        ),
        hhdm: Some(HhdmInfo::new(VirtAddr::new(0xffff_8000_0000_0000))),
    })?;

    assert_eq!(info.arch, ArchKind::X86_64);
    assert_eq!(info.platform, PlatformKind::Uefi);
    assert_eq!(info.memory_map.len(), 2);
    assert!(info.framebuffer_present());
    assert_eq!(info.framebuffer_base(), Some(VirtAddr::new(0xffff80000000b800)));
    assert!(!info.rsdp_present());
    assert!(info.device_tree_present());
    assert!(info.hhdm_present());
    assert_eq!(info.hhdm_offset(), Some(VirtAddr::new(0xffff_8000_0000_0000)));
    assert!(info.cpu_topology.is_empty());
    Ok(())
}

#[test]
fn memory_regions_reject_empty_and_overflowing_entries() {
    let empty = [MemoryRegion::new(PhysAddr::new(0x1000), 0, MemoryRegionKind::Usable)];
    assert!(BootInfo::normalize(qemu_metadata(&empty)) == Err(BootInfoError::InvalidMemoryRegion));
    let overflow = [MemoryRegion::new(PhysAddr::new(u64::MAX), 2, MemoryRegionKind::Usable)];
    assert!(BootInfo::normalize(qemu_metadata(&overflow)) == Err(BootInfoError::InvalidMemoryRegion));
    assert_eq!(overflow[0].end(), None);
    assert_eq!(empty[0].end(), Some(PhysAddr::new(0x1000)));
    assert!(empty[0].start_present());
    assert!(!MemoryRegion::EMPTY().start_present());
}

#[test]
fn summary_counts_only_whole_frames_and_reports_frame_overflow() {
    let regions = [MemoryRegion::new(PhysAddr::new(0x1800), 0x1000, MemoryRegionKind::Reserved)];
    let summary = MemoryMap::new(&regions).summary().unwrap();
    assert_eq!(summary.total_frames, 0);
    assert_eq!(summary.reserved_regions, 1);
    assert_eq!(summary.reserved_bytes, 0x1000);
    assert_eq!(summary.usable_bytes + summary.reserved_bytes, summary.total_bytes);
    let unroundable = [MemoryRegion::new(PhysAddr::new(u64::MAX - 10), 1, MemoryRegionKind::Usable)];
    assert_eq!(MemoryMap::new(&unroundable).summary(), Err(MemoryAccountingError::Overflow));
    let one_frame = [MemoryRegion::new(PhysAddr::new(0x1000), FRAME_SIZE, MemoryRegionKind::Usable)];
    assert_eq!(MemoryMap::new(&one_frame).summary().map(|s| s.usable_frames), Ok(1));
}

#[test]
fn aarch64_and_unknown_architectures_follow_their_kernel_half() {
    let regions = [MemoryRegion::new(PhysAddr::new(0x200000), 0x2000, MemoryRegionKind::Kernel)];
    let mut metadata = qemu_metadata(&regions);
    metadata.arch = ArchKind::Aarch64;
    metadata.kernel_image = KernelImageInfo::new(
        VirtAddr::new(0xffff_0000_8000_0000),
        VirtAddr::new(0xffff_0000_8000_2000),
        PhysAddr::new(0x200000),
    );
    assert!(BootInfo::normalize(metadata).is_ok());
    metadata.arch = ArchKind::Unknown;
    assert!(BootInfo::normalize(metadata) == Err(BootInfoError::KernelImageEmpty));
}

#[derive(Clone, Copy, Debug, Eq, PartialEq)]
struct FuzzOutcome {
    accepted: bool,
    error: Option<BootInfoError>,
}

const MAX_FUZZ_REGIONS: usize = 8;
const DEFAULT_X86_KERNEL_VIRT: u64 = 0xffff_ffff_8000_0000;
const DEFAULT_AARCH64_KERNEL_VIRT: u64 = 0xffff_0000_8000_0000;
const DEFAULT_KERNEL_LEN: u64 = 0x2000;
const DEFAULT_KERNEL_PHYS: u64 = 0x0020_0000;
const DEFAULT_HIGH_VIRT: u64 = 0xffff_8000_0000_0000;

struct ByteCursor<'a> {
    bytes: &'a [u8],
    offset: usize,
}

impl<'a> ByteCursor<'a> {
    fn new(bytes: &'a [u8]) -> Self {
        Self { bytes, offset: 0 }
    }

    fn read_u8(&mut self) -> Option<u8> {
        let value = self.bytes.get(self.offset).copied();
        if value.is_some() {
            self.offset += 1;
        }
        value
    }

    fn read_u32(&mut self) -> Option<u32> {
        let bytes = self.read_array::<4>()?;
        Some(u32::from_le_bytes(bytes))
    }

    fn read_u64(&mut self) -> Option<u64> {
        let bytes = self.read_array::<8>()?;
        Some(u64::from_le_bytes(bytes))
    }

    fn read_array<const LEN: usize>(&mut self) -> Option<[u8; LEN]> {
        let end = self.offset.checked_add(LEN)?;
        let slice = self.bytes.get(self.offset..end)?;
        let mut output = [0u8; LEN];
        output.copy_from_slice(slice);
        self.offset = end;
        Some(output)
    }
}

fn default_kernel_virt_for_arch(arch: ArchKind) -> u64 {
    match arch {
        ArchKind::Aarch64 => DEFAULT_AARCH64_KERNEL_VIRT,
        ArchKind::X86_64 | ArchKind::Unknown => DEFAULT_X86_KERNEL_VIRT,
    }
}

fn decode_arch(value: u8) -> ArchKind {
    match value % 3 {
        0 => ArchKind::X86_64,
        1 => ArchKind::Aarch64,
        _ => ArchKind::Unknown,
    }
}

fn decode_platform(value: u8) -> PlatformKind {
    match value % 3 {
        0 => PlatformKind::Qemu,
        1 => PlatformKind::Uefi,
        _ => PlatformKind::Unknown,
    }
}

fn decode_region_kind(value: u8) -> MemoryRegionKind {
    match value % 7 {
        0 => MemoryRegionKind::Usable,
        1 => MemoryRegionKind::Reserved,
        2 => MemoryRegionKind::Kernel,
        3 => MemoryRegionKind::Bootloader,
        4 => MemoryRegionKind::Framebuffer,
        5 => MemoryRegionKind::Acpi,
        _ => MemoryRegionKind::Bad,
    }
}

fn optional_virt(present: bool, cursor: &mut ByteCursor<'_>, offset: u64) -> Option<VirtAddr> {
    if present {
        Some(VirtAddr::new(
            cursor.read_u64().unwrap_or(DEFAULT_HIGH_VIRT + offset),
        ))
    } else {
        None
    }
}

fn run_bootinfo_normalize_fuzz_target(bytes: &[u8]) -> FuzzOutcome {
    let mut cursor = ByteCursor::new(bytes);
    let arch = decode_arch(cursor.read_u8().unwrap_or(0));
    let platform = decode_platform(cursor.read_u8().unwrap_or(0));
    let region_count = usize::from(cursor.read_u8().unwrap_or(0)) % (MAX_FUZZ_REGIONS + 1);
    let mut regions = [MemoryRegion::EMPTY(); MAX_FUZZ_REGIONS];

    let mut index = 0usize;
    while index < region_count {
        let default_start = ((index as u64) + 1) * 0x10_000;
        let start = cursor.read_u64().unwrap_or(default_start);
        let len = cursor.read_u64().unwrap_or(0x1000);
        let kind = decode_region_kind(cursor.read_u8().unwrap_or(index as u8));
        regions[index] = MemoryRegion::new(PhysAddr::new(start), len, kind);
        index += 1;
    }

    let metadata_flags = cursor.read_u8().unwrap_or(0);
    let kernel_virt = cursor
        .read_u64()
        .unwrap_or(default_kernel_virt_for_arch(arch));
    let kernel_len = cursor.read_u64().unwrap_or(DEFAULT_KERNEL_LEN);
    let kernel_phys = cursor.read_u64().unwrap_or(DEFAULT_KERNEL_PHYS);
    let kernel_end = kernel_virt.checked_add(kernel_len).unwrap_or(kernel_virt);
    let framebuffer = if metadata_flags & 0b0000_0001 != 0 {
        Some(FramebufferInfo::new(
            VirtAddr::new(cursor.read_u64().unwrap_or(DEFAULT_HIGH_VIRT + 0xb800)),
            cursor.read_u32().unwrap_or(80),
            cursor.read_u32().unwrap_or(25),
            cursor.read_u32().unwrap_or(80),
        ))
    } else {
        None
    };
    let rsdp = optional_virt(metadata_flags & 0b0000_0010 != 0, &mut cursor, 0x7000);
    let device_tree = optional_virt(metadata_flags & 0b0000_0100 != 0, &mut cursor, 0x8000);
    let hhdm = if metadata_flags & 0b0000_1000 != 0 {
        Some(HhdmInfo::new(VirtAddr::new(
            cursor.read_u64().unwrap_or(DEFAULT_HIGH_VIRT),
        )))
    } else {
        None
    };

    let kernel_image = KernelImageInfo::new(
        VirtAddr::new(kernel_virt),
        VirtAddr::new(kernel_end),
        PhysAddr::new(kernel_phys),
    );
    let metadata = BootMetadata {
        arch,
        platform,
        memory_regions: &regions[..region_count],
        framebuffer,
        rsdp,
        device_tree,
        cpu_topology: &[],
        kernel_image,
        hhdm,
    };

    match BootInfo::normalize(metadata) {
        Ok(info) => {
            assert!(!info.memory_map.is_empty());
            assert!(info.memory_map.summary().is_ok());
            assert!(info.kernel_image == kernel_image);
            assert!(kernel_end > kernel_virt);
            assert_ne!(kernel_phys, 0);
            FuzzOutcome {
                accepted: true,
                error: None,
            }
        }
        Err(error) => FuzzOutcome {
            accepted: false,
            error: Some(error),
        },
    }
}

#[test]
fn bootinfo_fuzz_target_runs_deterministic_mutation_sweep() {
    let mut seed = 0xace5_0161_u64;
    let mut accepted = 0usize;
    let mut rejected = 0usize;

    let mut case_index = 0usize;
    while case_index < 128 {
        let mut bytes = [0u8; 96];
        let mut index = 0usize;
        while index < bytes.len() {
            seed = seed.wrapping_mul(6364136223846793005).wrapping_add(1);
            bytes[index] = (seed >> 32) as u8;
            index += 1;
        }
        let outcome = run_bootinfo_normalize_fuzz_target(&bytes);
        assert!(outcome.accepted || outcome.error.is_some());
        if outcome.accepted {
            accepted += 1;
        } else {
            rejected += 1;
        }
        case_index += 1;
    }

    assert_eq!(accepted + rejected, 128);
    assert_ne!(rejected, 0);
}

fn push_u8(output: &mut [u8], len: &mut usize, value: u8) {
    if *len < output.len() {
        output[*len] = value;
        *len += 1;
    }
}

fn push_u64(output: &mut [u8], len: &mut usize, value: u64) {
    for byte in value.to_le_bytes() {
        push_u8(output, len, byte);
    }
}

fn encode_arch(arch: ArchKind) -> u8 {
    match arch {
        ArchKind::X86_64 => 0,
        ArchKind::Aarch64 => 1,
        ArchKind::Unknown => 2,
    }
}

fn encode_region_kind(kind: MemoryRegionKind) -> u8 {
    match kind {
        MemoryRegionKind::Usable => 0,
        MemoryRegionKind::Reserved => 1,
        MemoryRegionKind::Kernel => 2,
        MemoryRegionKind::Bootloader => 3,
        MemoryRegionKind::Framebuffer => 4,
        MemoryRegionKind::Acpi => 5,
        MemoryRegionKind::Bad => 6,
    }
}

fn encoded_region_case(
    regions: &[(u64, u64, MemoryRegionKind)],
    arch: ArchKind,
    kernel_virt: u64,
    kernel_len: u64,
    kernel_phys: u64,
    metadata_flags: u8,
) -> ([u8; 192], usize) {
    let mut output = [0u8; 192];
    let mut len = 0usize;
    push_u8(&mut output, &mut len, encode_arch(arch));
    push_u8(&mut output, &mut len, 0);
    push_u8(&mut output, &mut len, regions.len() as u8);
    for (start, region_len, kind) in regions {
        push_u64(&mut output, &mut len, *start);
        push_u64(&mut output, &mut len, *region_len);
        push_u8(&mut output, &mut len, encode_region_kind(*kind));
    }
    push_u8(&mut output, &mut len, metadata_flags);
    push_u64(&mut output, &mut len, kernel_virt);
    push_u64(&mut output, &mut len, kernel_len);
    push_u64(&mut output, &mut len, kernel_phys);
    (output, len)
}

/// The named seeds, run through `normalize`. The kernel image of the fourth
/// and the seventh seed lies outside every kernel or reserved region, so
/// normalization refuses both with a memory-map mismatch.
#[test]
fn bootinfo_fuzz_seed_corpus_follows_kernel_coverage() {
    let seeds = [
        (
            encoded_region_case(
                &[
                    (0x1000, 0x9000, MemoryRegionKind::Usable),
                    (0x20_0000, 0x2000, MemoryRegionKind::Kernel),
                ],
                ArchKind::X86_64,
                DEFAULT_X86_KERNEL_VIRT,
                DEFAULT_KERNEL_LEN,
                DEFAULT_KERNEL_PHYS,
                0b0000_1011,
            ),
            None,
        ),
        (
            encoded_region_case(
                &[],
                ArchKind::X86_64,
                DEFAULT_X86_KERNEL_VIRT,
                DEFAULT_KERNEL_LEN,
                DEFAULT_KERNEL_PHYS,
                0,
            ),
            Some(BootInfoError::EmptyMemoryMap),
        ),
        (
            encoded_region_case(
                &[
                    (0x1000, 0x4000, MemoryRegionKind::Usable),
                    (0x3000, 0x2000, MemoryRegionKind::Kernel),
                ],
                ArchKind::X86_64,
                DEFAULT_X86_KERNEL_VIRT,
                DEFAULT_KERNEL_LEN,
                DEFAULT_KERNEL_PHYS,
                0,
            ),
            Some(BootInfoError::OverlappingMemoryRegion),
        ),
        (
            encoded_region_case(
                &[
                    (0x1000, 0x4000, MemoryRegionKind::Usable),
                    (0x5000, 0x2000, MemoryRegionKind::Bootloader),
                ],
                ArchKind::X86_64,
                DEFAULT_X86_KERNEL_VIRT,
                DEFAULT_KERNEL_LEN,
                DEFAULT_KERNEL_PHYS,
                0,
            ),
            Some(BootInfoError::KernelImageMemoryMapMismatch),
        ),
        (
            encoded_region_case(
                &[(u64::MAX - 1, 2, MemoryRegionKind::Usable)],
                ArchKind::X86_64,
                DEFAULT_X86_KERNEL_VIRT,
                DEFAULT_KERNEL_LEN,
                DEFAULT_KERNEL_PHYS,
                0,
            ),
            Some(BootInfoError::InvalidMemoryRegion),
        ),
        (
            encoded_region_case(
                &[(0x1000, 0x9000, MemoryRegionKind::Usable)],
                ArchKind::X86_64,
                0x400000,
                DEFAULT_KERNEL_LEN,
                DEFAULT_KERNEL_PHYS,
                0,
            ),
            Some(BootInfoError::KernelImageEmpty),
        ),
        (
            encoded_region_case(
                &[(0x1000, 0x9000, MemoryRegionKind::Usable)],
                ArchKind::Aarch64,
                DEFAULT_AARCH64_KERNEL_VIRT,
                DEFAULT_KERNEL_LEN,
                DEFAULT_KERNEL_PHYS,
                0b0000_1000,
            ),
            Some(BootInfoError::KernelImageMemoryMapMismatch),
        ),
        (
            encoded_region_case(
                &[(0x1000, 0x9000, MemoryRegionKind::Usable)],
                ArchKind::X86_64,
                DEFAULT_X86_KERNEL_VIRT,
                u64::MAX,
                DEFAULT_KERNEL_PHYS,
                0,
            ),
            Some(BootInfoError::KernelImageEmpty),
        ),
    ];

    let mut accepted = 0usize;
    let mut rejected = 0usize;
    for ((bytes, len), expected_error) in seeds {
        let outcome = run_bootinfo_normalize_fuzz_target(&bytes[..len]);
        assert_eq!(outcome.error, expected_error);
        assert_eq!(outcome.accepted, expected_error.is_none());
        if outcome.accepted {
            accepted += 1;
        } else {
            rejected += 1;
        }
    }

    assert_eq!(accepted, 1);
    assert_eq!(rejected, 7);
}
