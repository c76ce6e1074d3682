use vstd::prelude::*;

use crate::abi::VirtAddr;
use crate::boot::types::{
    ArchKind, BootInfo, BootInfoParts, CpuInfo, CpuTopology, FramebufferInfo, HhdmInfo, KernelImageInfo,
    MAX_EARLY_MEMORY_REGIONS, MemoryAccountingError, MemoryMap, MemoryRegion, MemoryRegionKind,
    PlatformKind, summary_ok,
};

verus! {

const PAGE_SIZE: u64 = 4096;

pub const AARCH64_KERNEL_VMA_MIN: u64 = 0xffff_0000_0000_0000;

pub const X86_64_KERNEL_VMA_MIN: u64 = 0xffff_8000_0000_0000;

/// The raw handoff a bootloader gives.
#[derive(Clone, Copy, PartialEq, Eq)]
pub struct BootMetadata<'a> {
    pub arch: ArchKind,
    pub platform: PlatformKind,
    pub memory_regions: &'a [MemoryRegion],
    pub framebuffer: Option<FramebufferInfo>,
    pub rsdp: Option<VirtAddr>,
    pub device_tree: Option<VirtAddr>,
    pub cpu_topology: &'a [CpuInfo],
    pub kernel_image: KernelImageInfo,
    pub hhdm: Option<HhdmInfo>,
}

/// Why a handoff was refused.
#[derive(Clone, Copy, Debug, PartialEq, Eq, Structural)]
pub enum BootInfoError {
    EmptyMemoryMap,
    InvalidMemoryRegion,
    OverlappingMemoryRegion,
    MemoryAccounting(MemoryAccountingError),
    KernelImageEmpty,
    KernelImageMemoryMapMismatch,
}

/// The half-open ranges `[left_start, left_end)` and `[right_start,
/// right_end)` share an address.
pub open spec fn ranges_meet(left_start: int, left_end: int, right_start: int, right_end: int) -> bool {
    left_start < right_end && right_start < left_end
}

/// The region is empty or its end overflows.
pub open spec fn region_invalid(r: MemoryRegion) -> bool {
    r.spec_len() == 0 || r.spec_end() > u64::MAX
}

/// The first error that region `i` meets against a later region `j`, `j`
/// onwards: a later region whose end overflows, or one that overlaps.
pub open spec fn later_region_error(regions: Seq<MemoryRegion>, i: int, j: int) -> Option<BootInfoError>
    decreases regions.len() - j,
{
    if j < 0 || j >= regions.len() {
        None
    } else if regions[j].spec_end() > u64::MAX {
        Some(BootInfoError::InvalidMemoryRegion)
    } else if ranges_meet(
        regions[i].spec_start() as int,
        regions[i].spec_end(),
        regions[j].spec_start() as int,
        regions[j].spec_end(),
    ) {
        Some(BootInfoError::OverlappingMemoryRegion)
    } else {
        later_region_error(regions, i, j + 1)
    }
}

/// The first error among regions `i` onwards, each checked itself and then
/// against every later region.
pub open spec fn region_scan_error(regions: Seq<MemoryRegion>, i: int) -> Option<BootInfoError>
    decreases regions.len() - i,
{
    if i < 0 || i >= regions.len() {
        None
    } else if region_invalid(regions[i]) {
        Some(BootInfoError::InvalidMemoryRegion)
    } else {
        match later_region_error(regions, i, i + 1) {
            Some(error) => Some(error),
            None => region_scan_error(regions, i + 1),
        }
    }
}

/// What validating the memory regions reports: empty, too many, or the
/// first bad region or pair.
pub open spec fn memory_regions_error(regions: Seq<MemoryRegion>) -> Option<BootInfoError> {
    if regions.len() == 0 {
        Some(BootInfoError::EmptyMemoryMap)
    } else if regions.len() > MAX_EARLY_MEMORY_REGIONS {
        Some(BootInfoError::InvalidMemoryRegion)
    } else {
        region_scan_error(regions, 0)
    }
}

/// Every region is non-empty, ends within 64 bits and shares no address
/// with another.
pub open spec fn regions_well_formed(regions: Seq<MemoryRegion>) -> bool {
    &&& forall|i: int| 0 <= i < regions.len() ==> !region_invalid(#[trigger] regions[i])
    &&& forall|i: int, j: int|
        0 <= i < regions.len() && 0 <= j < regions.len() && i != j ==> !ranges_meet(
            (#[trigger] regions[i]).spec_start() as int,
            regions[i].spec_end(),
            (#[trigger] regions[j]).spec_start() as int,
            regions[j].spec_end(),
        )
}

/// The lowest virtual address a kernel image may start at on `arch`.
pub open spec fn kernel_vma_min(arch: ArchKind) -> Option<u64> {
    match arch {
        ArchKind::Aarch64 => Some(AARCH64_KERNEL_VMA_MIN),
        ArchKind::X86_64 => Some(X86_64_KERNEL_VMA_MIN),
        ArchKind::Unknown => None,
    }
}

/// The image is non-empty, page aligned, physically placed above zero and
/// in the kernel half of a known architecture.
pub open spec fn kernel_image_valid(arch: ArchKind, image: KernelImageInfo) -> bool {
    let vs = image.spec_virt_start();
    let ve = image.spec_virt_end();
    let ps = image.spec_phys_start();
    &&& vs < ve
    &&& ps != 0
    &&& ps % 4096 == 0
    &&& vs % 4096 == 0
    &&& ve % 4096 == 0
    &&& kernel_vma_min(arch) is Some
    &&& vs >= kernel_vma_min(arch).unwrap()
    &&& ve >= kernel_vma_min(arch).unwrap()
}

/// One past the image's last physical byte, as an integer.
pub open spec fn kernel_phys_end(image: KernelImageInfo) -> int {
    image.spec_phys_start() + (image.spec_virt_end() - image.spec_virt_start())
}

/// The first region, `i` onwards, whose end overflows or that is usable and
/// meets the image's physical range.
pub open spec fn usable_overlap_error(
    regions: Seq<MemoryRegion>,
    phys_start: int,
    phys_end: int,
    i: int,
) -> Option<BootInfoError>
    decreases regions.len() - i,
{
    if i < 0 || i >= regions.len() {
        None
    } else if regions[i].spec_end() > u64::MAX {
        Some(BootInfoError::InvalidMemoryRegion)
    } else if ranges_meet(phys_start, phys_end, regions[i].spec_start() as int, regions[i].spec_end())
        && regions[i].spec_kind() is Usable {
        Some(BootInfoError::KernelImageMemoryMapMismatch)
    } else {
        usable_overlap_error(regions, phys_start, phys_end, i + 1)
    }
}

/// The region holds `cursor` and is kernel or reserved memory.
pub open spec fn covers(region: MemoryRegion, cursor: int) -> bool {
    &&& region.spec_start() <= cursor < region.spec_end()
    &&& (region.spec_kind() is Kernel || region.spec_kind() is Reserved)
}

/// Some kernel or reserved region holds `addr`.
pub open spec fn address_covered(regions: Seq<MemoryRegion>, addr: int) -> bool {
    exists|i: int| 0 <= i < regions.len() && #[trigger] covers(regions[i], addr)
}

/// Every address from `start` up to `end` lies in a kernel or reserved
/// region.
pub open spec fn covered_by_kernel_or_reserved(regions: Seq<MemoryRegion>, start: int, end: int) -> bool {
    forall|addr: int| start <= addr < end ==> #[trigger] address_covered(regions, addr)
}

/// Where the walk goes from `cursor`: to the end of the first region, `i`
/// onwards, that covers it, capped at `phys_end`.
spec fn next_cursor(regions: Seq<MemoryRegion>, cursor: int, phys_end: int, i: int) -> Option<int>
    decreases regions.len() - i,
{
    if i < 0 || i >= regions.len() {
        None
    } else if covers(regions[i], cursor) {
        Some(if regions[i].spec_end() < phys_end { regions[i].spec_end() } else { phys_end })
    } else {
        next_cursor(regions, cursor, phys_end, i + 1)
    }
}

/// Walking from `cursor`, kernel and reserved regions cover every address
/// up to `phys_end`.
spec fn covered_from(regions: Seq<MemoryRegion>, cursor: int, phys_end: int) -> bool
    decreases phys_end - cursor,
{
    if cursor >= phys_end {
        true
    } else {
        match next_cursor(regions, cursor, phys_end, 0) {
            None => false,
            Some(next) => if cursor < next <= phys_end {
                covered_from(regions, next, phys_end)
            } else {
                false
            },
        }
    }
}

/// The walk from `cursor`, when it moves, moves to the end of a region
/// from `i` on that covers `cursor`, and not past `phys_end`.
proof fn lemma_next_cursor_step(regions: Seq<MemoryRegion>, cursor: int, phys_end: int, i: int) -> (j: int)
    requires
        0 <= i,
        cursor < phys_end,
    ensures
        next_cursor(regions, cursor, phys_end, i) matches Some(next) ==> {
            &&& i <= j < regions.len()
            &&& covers(regions[j], cursor)
            &&& cursor < next <= phys_end
            &&& next <= regions[j].spec_end()
        },
    decreases regions.len() - i,
{
    if i >= regions.len() || covers(regions[i], cursor) {
        i
    } else {
        lemma_next_cursor_step(regions, cursor, phys_end, i + 1)
    }
}

/// The walk from `cursor` moves whenever some region from `i` on covers it.
proof fn lemma_next_cursor_found(
    regions: Seq<MemoryRegion>,
    cursor: int,
    phys_end: int,
    i: int,
    k: int,
)
    requires
        0 <= i <= k < regions.len(),
        covers(regions[k], cursor),
    ensures
        next_cursor(regions, cursor, phys_end, i) is Some,
    decreases k - i,
{
    if i < k && !covers(regions[i], cursor) {
        lemma_next_cursor_found(regions, cursor, phys_end, i + 1, k);
    }
}

/// The walk succeeds exactly when kernel and reserved regions cover every
/// address it has left.
proof fn lemma_covered_from_direct(regions: Seq<MemoryRegion>, cursor: int, phys_end: int)
    ensures
        covered_from(regions, cursor, phys_end) == covered_by_kernel_or_reserved(
            regions,
            cursor,
            phys_end,
        ),
    decreases phys_end - cursor,
{
    if cursor < phys_end {
        match next_cursor(regions, cursor, phys_end, 0) {
            None => {
                if covered_by_kernel_or_reserved(regions, cursor, phys_end) {
                    assert(address_covered(regions, cursor));
                    let k = choose|k: int| 0 <= k < regions.len() && #[trigger] covers(regions[k], cursor);
                    lemma_next_cursor_found(regions, cursor, phys_end, 0, k);
                }
            },
            Some(next) => {
                let j = lemma_next_cursor_step(regions, cursor, phys_end, 0);
                lemma_covered_from_direct(regions, next, phys_end);
                if covered_by_kernel_or_reserved(regions, next, phys_end) {
                    assert forall|addr: int| cursor <= addr < phys_end implies #[trigger] address_covered(
                        regions,
                        addr,
                    ) by {
                        if addr < next {
                            assert(covers(regions[j], addr));
                        }
                    }
                }
            },
        }
    }
}

/// What checking the image against the memory map reports.
pub open spec fn kernel_map_error(image: KernelImageInfo, regions: Seq<MemoryRegion>) -> Option<
    BootInfoError,
> {
    let ps = image.spec_phys_start() as int;
    let pe = kernel_phys_end(image);
    if image.spec_virt_end() < image.spec_virt_start() || pe > u64::MAX {
        Some(BootInfoError::KernelImageEmpty)
    } else {
        match usable_overlap_error(regions, ps, pe, 0) {
            Some(error) => Some(error),
            None => if covered_by_kernel_or_reserved(regions, ps, pe) {
                None
            } else {
                Some(BootInfoError::KernelImageMemoryMapMismatch)
            },
        }
    }
}

/// The error that normalizing `metadata` reports, if any, in the order of
/// the checks: regions, accounting, image, image against the map.
pub open spec fn normalize_error(metadata: BootMetadata) -> Option<BootInfoError> {
    let regions = metadata.memory_regions@;
    if memory_regions_error(regions) is Some {
        memory_regions_error(regions)
    } else if !summary_ok(regions) {
        Some(BootInfoError::MemoryAccounting(MemoryAccountingError::Overflow))
    } else if !kernel_image_valid(metadata.arch, metadata.kernel_image) {
        Some(BootInfoError::KernelImageEmpty)
    } else {
        kernel_map_error(metadata.kernel_image, regions)
    }
}

/// `info` carries everything `metadata` handed over.
pub open spec fn carries(info: BootInfo, metadata: BootMetadata) -> bool {
    &&& info.spec_arch() == metadata.arch
    &&& info.spec_platform() == metadata.platform
    &&& info.spec_memory_map().spec_regions() == metadata.memory_regions@
    &&& info.spec_framebuffer() == metadata.framebuffer
    &&& info.spec_rsdp() == metadata.rsdp
    &&& info.spec_device_tree() == metadata.device_tree
    &&& info.spec_cpu_topology().spec_cpus() == metadata.cpu_topology@
    &&& info.spec_kernel_image() == metadata.kernel_image
    &&& info.spec_hhdm() == metadata.hhdm
}

impl<'a> BootInfo<'a> {
    /// Validates a bootloader handoff: the memory regions, their accounting,
    /// the kernel image, and the image against the memory map.
    pub fn normalize(metadata: BootMetadata<'a>) -> (r: Result<Self, BootInfoError>)
        ensures
            match normalize_error(metadata) {
                Some(error) => r == Err::<Self, BootInfoError>(error),
                None => r matches Ok(info) && carries(info, metadata)
                    && info.spec_memory_map().spec_regions().len() > 0 && summary_ok(
                    info.spec_memory_map().spec_regions(),
                ),
            },
    {
        match validate_memory_regions(metadata.memory_regions) {
            Ok(()) => {},
            Err(error) => return Err(error),
        }
        match MemoryMap::new(metadata.memory_regions).summary() {
            Ok(_) => {},
            Err(error) => return Err(BootInfoError::MemoryAccounting(error)),
        }
        match validate_kernel_image(metadata.arch, metadata.kernel_image) {
            Ok(()) => {},
            Err(error) => return Err(error),
        }
        match validate_kernel_image_against_memory_map(metadata.kernel_image, metadata.memory_regions) {
            Ok(()) => {},
            Err(error) => return Err(error),
        }
        Ok(
            BootInfo::new(BootInfoParts {
                arch: metadata.arch,
                platform: metadata.platform,
                memory_map: MemoryMap::new(metadata.memory_regions),
                framebuffer: metadata.framebuffer,
                rsdp: metadata.rsdp,
                device_tree: metadata.device_tree,
                cpu_topology: CpuTopology::new(metadata.cpu_topology),
                kernel_image: metadata.kernel_image,
                hhdm: metadata.hhdm,
            }),
        )
    }
}

/// Checks the memory regions: at least one, at most the early limit, each
/// non-empty and ending within 64 bits, and no two overlapping.
pub fn validate_memory_regions(regions: &[MemoryRegion]) -> (r: Result<(), BootInfoError>)
    ensures
        match memory_regions_error(regions@) {
            Some(error) => r == Err::<(), BootInfoError>(error),
            None => r is Ok,
        },
{
    if regions.len() == 0 {
        return Err(BootInfoError::EmptyMemoryMap);
    }
    if regions.len() > MAX_EARLY_MEMORY_REGIONS {
        return Err(BootInfoError::InvalidMemoryRegion);
    }
    let mut index: usize = 0;
    while index < regions.len()
        invariant
            0 < regions@.len() <= MAX_EARLY_MEMORY_REGIONS,
            index <= regions@.len(),
            region_scan_error(regions@, 0) == region_scan_error(regions@, index as int),
        decreases regions@.len() - index,
    {
        let region = regions[index];
        if region.len == 0 {
            return Err(BootInfoError::InvalidMemoryRegion);
        }
        let end = match region.end() {
            Some(end) => end,
            None => return Err(BootInfoError::InvalidMemoryRegion),
        };
        let mut other_index: usize = index + 1;
        while other_index < regions.len()
            invariant
                0 < regions@.len() <= MAX_EARLY_MEMORY_REGIONS,
                region_scan_error(regions@, 0) == region_scan_error(regions@, index as int),
                !region_invalid(regions@[index as int]),
                index < regions@.len(),
                index + 1 <= other_index <= regions@.len(),
                region == regions@[index as int],
                end.0 == region.spec_end(),
                later_region_error(regions@, index as int, index as int + 1) == later_region_error(
                    regions@,
                    index as int,
                    other_index as int,
                ),
            decreases regions@.len() - other_index,
        {
            let other = regions[other_index];
            let other_end = match other.end() {
                Some(other_end) => other_end,
                None => return Err(BootInfoError::InvalidMemoryRegion),
            };
            if region.start.get() < other_end.get() && other.start.get() < end.get() {
                return Err(BootInfoError::OverlappingMemoryRegion);
            }
            other_index += 1;
        }
        index += 1;
    }
    Ok(())
}

/// A region scan that found nothing from `i` on leaves every region from
/// `i` on well formed and disjoint from every later one.
proof fn lemma_region_scan_clean(regions: Seq<MemoryRegion>, i: int)
    requires
        0 <= i <= regions.len(),
        region_scan_error(regions, i) is None,
    ensures
        forall|k: int| i <= k < regions.len() ==> !region_invalid(#[trigger] regions[k]),
        forall|k: int, j: int|
            i <= k < j < regions.len() ==> !ranges_meet(
                (#[trigger] regions[k]).spec_start() as int,
                regions[k].spec_end(),
                (#[trigger] regions[j]).spec_start() as int,
                regions[j].spec_end(),
            ),
    decreases regions.len() - i,
{
    if i < regions.len() {
        lemma_region_scan_clean(regions, i + 1);
        assert forall|j: int| i < j < regions.len() implies !ranges_meet(
            regions[i].spec_start() as int,
            regions[i].spec_end(),
            regions[j].spec_start() as int,
            regions[j].spec_end(),
        ) by {
            lemma_later_clean(regions, i, i + 1, j);
        }
    }
}

proof fn lemma_later_clean(regions: Seq<MemoryRegion>, i: int, start: int, j: int)
    requires
        0 <= i < regions.len(),
        i < start <= j < regions.len(),
        later_region_error(regions, i, start) is None,
    ensures
        !ranges_meet(
            regions[i].spec_start() as int,
            regions[i].spec_end(),
            regions[j].spec_start() as int,
            regions[j].spec_end(),
        ),
    decreases j - start,
{
    if start < j {
        lemma_later_clean(regions, i, start + 1, j);
    }
}

/// Regions that pass validation are non-empty, end within 64 bits and are
/// pairwise disjoint.
pub proof fn lemma_validated_regions_disjoint(regions: Seq<MemoryRegion>)
    requires
        memory_regions_error(regions) is None,
    ensures
        regions_well_formed(regions),
        0 < regions.len() <= MAX_EARLY_MEMORY_REGIONS,
{
    lemma_region_scan_clean(regions, 0);
    assert forall|i: int, j: int|
        0 <= i < regions.len() && 0 <= j < regions.len() && i != j implies !ranges_meet(
        (#[trigger] regions[i]).spec_start() as int,
        regions[i].spec_end(),
        (#[trigger] regions[j]).spec_start() as int,
        regions[j].spec_end(),
    ) by {
        if j < i {
            assert(!ranges_meet(
                regions[j].spec_start() as int,
                regions[j].spec_end(),
                regions[i].spec_start() as int,
                regions[i].spec_end(),
            ));
        }
    }
}

proof fn lemma_usable_overlap_clean(regions: Seq<MemoryRegion>, ps: int, pe: int, start: int, i: int)
    requires
        0 <= start <= i < regions.len(),
        usable_overlap_error(regions, ps, pe, start) is None,
    ensures
        regions[i].spec_end() <= u64::MAX,
        regions[i].spec_kind() is Usable ==> !ranges_meet(
            ps,
            pe,
            regions[i].spec_start() as int,
            regions[i].spec_end(),
        ),
    decreases i - start,
{
    if start < i {
        lemma_usable_overlap_clean(regions, ps, pe, start + 1, i);
    }
}

/// A handoff that normalizes has at most the early limit of non-empty,
/// pairwise disjoint memory regions whose accounting fits in 64 bits, and a
/// valid kernel image whose physical range meets no usable region and is
/// covered by kernel and reserved regions.
pub proof fn lemma_normalized_handoff_sound(metadata: BootMetadata)
    requires
        normalize_error(metadata) is None,
    ensures
        0 < metadata.memory_regions@.len() <= MAX_EARLY_MEMORY_REGIONS,
        regions_well_formed(metadata.memory_regions@),
        summary_ok(metadata.memory_regions@),
        kernel_image_valid(metadata.arch, metadata.kernel_image),
        forall|i: int|
            0 <= i < metadata.memory_regions@.len() && (#[trigger] metadata.memory_regions@[i]).spec_kind() is Usable
                ==> !ranges_meet(
                metadata.kernel_image.spec_phys_start() as int,
                kernel_phys_end(metadata.kernel_image),
                metadata.memory_regions@[i].spec_start() as int,
                metadata.memory_regions@[i].spec_end(),
            ),
        covered_by_kernel_or_reserved(
            metadata.memory_regions@,
            metadata.kernel_image.spec_phys_start() as int,
            kernel_phys_end(metadata.kernel_image),
        ),
{
    let regions = metadata.memory_regions@;
    lemma_validated_regions_disjoint(regions);
    let ps = metadata.kernel_image.spec_phys_start() as int;
    let pe = kernel_phys_end(metadata.kernel_image);
    assert forall|i: int|
        0 <= i < regions.len() && (#[trigger] regions[i]).spec_kind() is Usable implies !ranges_meet(
        ps,
        pe,
        regions[i].spec_start() as int,
        regions[i].spec_end(),
    ) by {
        lemma_usable_overlap_clean(regions, ps, pe, 0, i);
    }
}

/// A handoff that normalizes places the kernel image on whole pages in the
/// kernel half: its physical start is nonzero and a multiple of 4096, its
/// virtual range is non-empty with both ends multiples of 4096, and the
/// virtual range starts in the kernel half of a known architecture.
pub proof fn lemma_normalized_kernel_on_pages(metadata: BootMetadata)
    requires
        normalize_error(metadata) is None,
    ensures
        ({
            let image = metadata.kernel_image;
            &&& image.spec_phys_start() != 0
            &&& image.spec_phys_start() % 4096 == 0
            &&& image.spec_virt_start() % 4096 == 0
            &&& image.spec_virt_end() % 4096 == 0
            &&& image.spec_virt_start() < image.spec_virt_end()
            &&& metadata.arch is X86_64 ==> image.spec_virt_start() >= 0xffff_8000_0000_0000u64
            &&& metadata.arch is Aarch64 ==> image.spec_virt_start() >= 0xffff_0000_0000_0000u64
            &&& !(metadata.arch is Unknown)
        }),
{
    lemma_normalized_handoff_sound(metadata);
}

/// Checks the kernel image on its own.
pub fn validate_kernel_image(arch: ArchKind, image: KernelImageInfo) -> (r: Result<(), BootInfoError>)
    ensures
        kernel_image_valid(arch, image) ==> r is Ok,
        !kernel_image_valid(arch, image) ==> r == Err::<(), BootInfoError>(BootInfoError::KernelImageEmpty),
{
    let virt_start = image.virt_start().get();
    let virt_end = image.virt_end().get();
    let phys_start = image.phys_start().get();
    if virt_end <= virt_start {
        return Err(BootInfoError::KernelImageEmpty);
    }
    if phys_start == 0 || phys_start % PAGE_SIZE != 0 {
        return Err(BootInfoError::KernelImageEmpty);
    }
    if virt_start % PAGE_SIZE != 0 {
        return Err(BootInfoError::KernelImageEmpty);
    }
    if virt_end % PAGE_SIZE != 0 {
        return Err(BootInfoError::KernelImageEmpty);
    }
    let min_kernel_vma = match arch {
        ArchKind::Aarch64 => AARCH64_KERNEL_VMA_MIN,
        ArchKind::X86_64 => X86_64_KERNEL_VMA_MIN,
        ArchKind::Unknown => return Err(BootInfoError::KernelImageEmpty),
    };
    if virt_start < min_kernel_vma || virt_end < min_kernel_vma {
        return Err(BootInfoError::KernelImageEmpty);
    }
    Ok(())
}

/// Checks the image against the memory map: no usable region meets its
/// physical range, and kernel or reserved regions cover all of it.
pub fn validate_kernel_image_against_memory_map(image: KernelImageInfo, regions: &[MemoryRegion]) -> (r:
    Result<(), BootInfoError>)
    ensures
        match kernel_map_error(image, regions@) {
            Some(error) => r == Err::<(), BootInfoError>(error),
            None => r is Ok,
        },
{
    let phys_start = image.phys_start().get();
    let image_size = match image.virt_end().get().checked_sub(image.virt_start().get()) {
        Some(size) => size,
        None => return Err(BootInfoError::KernelImageEmpty),
    };
    let phys_end = match phys_start.checked_add(image_size) {
        Some(end) => end,
        None => return Err(BootInfoError::KernelImageEmpty),
    };
    let ghost s = regions@;
    let mut index: usize = 0;
    while index < regions.len()
        invariant
            s == regions@,
            index <= s.len(),
            phys_end == kernel_phys_end(image),
            phys_start == image.spec_phys_start(),
            image.spec_virt_start() <= image.spec_virt_end(),
            usable_overlap_error(s, phys_start as int, phys_end as int, 0) == usable_overlap_error(
                s,
                phys_start as int,
                phys_end as int,
                index as int,
            ),
            forall|k: int| 0 <= k < index ==> (#[trigger] s[k]).spec_end() <= u64::MAX,
        decreases s.len() - index,
    {
        let region = regions[index];
        let region_end = match region.end() {
            Some(end) => end,
            None => return Err(BootInfoError::InvalidMemoryRegion),
        };
        if ranges_overlap(phys_start, phys_end, region.start().get(), region_end.get()) && matches!(
            region.kind,
            MemoryRegionKind::Usable
        ) {
            return Err(BootInfoError::KernelImageMemoryMapMismatch);
        }
        index += 1;
    }
    let mut cursor: u64 = phys_start;
    while cursor < phys_end
        invariant
            s == regions@,
            forall|k: int| 0 <= k < s.len() ==> (#[trigger] s[k]).spec_end() <= u64::MAX,
            phys_start <= cursor <= phys_end,
            phys_end == kernel_phys_end(image),
            phys_start == image.spec_phys_start(),
            image.spec_virt_start() <= image.spec_virt_end(),
            usable_overlap_error(s, phys_start as int, phys_end as int, 0) is None,
            covered_from(s, phys_start as int, phys_end as int) == covered_from(
                s,
                cursor as int,
                phys_end as int,
            ),
        decreases phys_end - cursor,
    {
        let mut found: Option<u64> = None;
        let mut region_index: usize = 0;
        while found.is_none() && region_index < regions.len()
            invariant
                s == regions@,
                forall|k: int| 0 <= k < s.len() ==> (#[trigger] s[k]).spec_end() <= u64::MAX,
                cursor < phys_end,
                region_index <= s.len(),
                found is None ==> next_cursor(s, cursor as int, phys_end as int, 0) == next_cursor(
                    s,
                    cursor as int,
                    phys_end as int,
                    region_index as int,
                ),
                found is Some ==> next_cursor(s, cursor as int, phys_end as int, 0) == Some(
                    found.unwrap() as int,
                ) && cursor < found.unwrap() <= phys_end,
            decreases s.len() - region_index + if found is None {
                1int
            } else {
                0int
            },
        {
            let region = regions[region_index];
            let region_end = match region.end() {
                Some(end) => end,
                None => return Err(BootInfoError::InvalidMemoryRegion),
            };
            let region_start = region.start().get();
            if region_start <= cursor && cursor < region_end.get() && matches!(
                region.kind,
                MemoryRegionKind::Kernel | MemoryRegionKind::Reserved
            ) {
                let next = if region_end.get() < phys_end {
                    region_end.get()
                } else {
                    phys_end
                };
                proof {
                    assert(covers(s[region_index as int], cursor as int));
                    assert(next_cursor(s, cursor as int, phys_end as int, region_index as int) == Some(
                        next as int,
                    ));
                }
                found = Some(next);
            } else {
                region_index += 1;
            }
        }
        match found {
            Some(next) => {
                cursor = next;
            },
            None => {
                proof {
                    lemma_covered_from_direct(s, phys_start as int, phys_end as int);
                }
                return Err(BootInfoError::KernelImageMemoryMapMismatch);
            },
        }
    }
    proof {
        lemma_covered_from_direct(s, phys_start as int, phys_end as int);
    }
    Ok(())
}

/// The half-open ranges share an address.
pub fn ranges_overlap(left_start: u64, left_end: u64, right_start: u64, right_end: u64) -> (r: bool)
    ensures
        r == ranges_meet(left_start as int, left_end as int, right_start as int, right_end as int),
{
    left_start < right_end && right_start < left_end
}

} // verus!
