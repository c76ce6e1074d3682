use vstd::prelude::*;

use crate::abi::{CpuHardwareId, PhysAddr, VirtAddr};

verus! {

/// Most memory regions the early boot path accepts.
pub const MAX_EARLY_MEMORY_REGIONS: usize = 64;

/// Size of a physical frame.
pub const FRAME_SIZE: u64 = 4096;

/// Architecture that handed over.
#[derive(Clone, Copy, Debug, PartialEq, Eq, Structural)]
pub enum ArchKind {
    X86_64,
    Aarch64,
    Unknown,
}

/// Platform that handed over.
#[derive(Clone, Copy, Debug, PartialEq, Eq, Structural)]
pub enum PlatformKind {
    Qemu,
    Uefi,
    Unknown,
}

/// What a physical memory region holds.
#[derive(Clone, Copy, Debug, PartialEq, Eq, Structural)]
pub enum MemoryRegionKind {
    Usable,
    Reserved,
    Kernel,
    Bootloader,
    Framebuffer,
    Acpi,
    Bad,
}

/// The only way memory accounting fails.
#[derive(Clone, Copy, Debug, PartialEq, Eq, Structural)]
pub enum MemoryAccountingError {
    Overflow,
}

/// `value` rounded down to a frame boundary.
pub open spec fn frame_floor(value: int) -> int {
    (value / 4096) * 4096
}

/// `value` rounded up to a frame boundary.
pub open spec fn frame_ceil(value: int) -> int {
    ((value + 4095) / 4096) * 4096
}

/// A physical memory region.
#[derive(Clone, Copy, PartialEq, Eq, Structural)]
pub struct MemoryRegion {
    pub start: PhysAddr,
    pub len: u64,
    pub kind: MemoryRegionKind,
}

impl MemoryRegion {
    pub open spec fn spec_start(self) -> u64 {
        self.start.0
    }

    pub open spec fn spec_len(self) -> u64 {
        self.len
    }

    pub open spec fn spec_kind(self) -> MemoryRegionKind {
        self.kind
    }

    /// One past the last byte, as an integer.
    pub open spec fn spec_end(self) -> int {
        self.spec_start() + self.spec_len()
    }

    /// Frames can be counted: rounding the start up and computing the end
    /// both stay within 64 bits.
    pub open spec fn frames_countable(self) -> bool {
        self.spec_start() + 4095 <= u64::MAX && self.spec_end() <= u64::MAX
    }

    /// Number of whole frames inside the region.
    pub open spec fn spec_full_frames(self) -> int {
        let first = frame_ceil(self.spec_start() as int);
        let last = frame_floor(self.spec_end());
        if last <= first {
            0
        } else {
            (last - first) / 4096
        }
    }

    /// The empty reserved region at address zero.
    #[allow(non_snake_case)]
    pub fn EMPTY() -> (r: Self)
        ensures
            r.spec_start() == 0,
            r.spec_len() == 0,
            r.spec_kind() is Reserved,
    {
        MemoryRegion { start: PhysAddr(0), len: 0, kind: MemoryRegionKind::Reserved }
    }

    pub fn new(start: PhysAddr, len: u64, kind: MemoryRegionKind) -> (r: Self)
        ensures
            r.spec_start() == start.0,
            r.spec_len() == len,
            r.spec_kind() == kind,
    {
        MemoryRegion { start, len, kind }
    }

    pub fn start(self) -> (r: PhysAddr)
        ensures
            r.0 == self.spec_start(),
    {
        self.start
    }

    /// Whether the start address is set at all.
    pub fn start_present(self) -> (r: bool)
        ensures
            r == (self.spec_start() != 0),
    {
        self.start.get() != 0
    }

    /// One past the last byte, unless that overflows.
    pub fn end(self) -> (r: Option<PhysAddr>)
        ensures
            self.spec_end() <= u64::MAX ==> r == Some(PhysAddr(self.spec_end() as u64)),
            self.spec_end() > u64::MAX ==> r is None,
    {
        match self.start.get().checked_add(self.len) {
            Some(end) => Some(PhysAddr::new(end)),
            None => None,
        }
    }

    /// Whole frames inside the region, or an overflow.
    pub fn full_frame_count(self) -> (r: Result<u64, MemoryAccountingError>)
        ensures
            self.frames_countable() ==> r == Ok::<u64, MemoryAccountingError>(
                self.spec_full_frames() as u64,
            ),
            !self.frames_countable() ==> r == Err::<u64, MemoryAccountingError>(
                MemoryAccountingError::Overflow,
            ),
            self.spec_full_frames() <= self.spec_len() / 4096,
    {
        proof {
            lemma_full_frames_bound(self);
        }
        let start = match align_up(self.start.get()) {
            Ok(start) => start,
            Err(error) => return Err(error),
        };
        let end = match self.end() {
            Some(end) => end,
            None => return Err(MemoryAccountingError::Overflow),
        };
        let end = align_down(end.get());
        if end <= start {
            return Ok(0);
        }
        Ok((end - start) / FRAME_SIZE)
    }
}

/// A region holds no more whole frames than its length allows.
proof fn lemma_full_frames_bound(region: MemoryRegion)
    ensures
        0 <= region.spec_full_frames() <= region.spec_len() / 4096,
{
    let s = region.spec_start() as int;
    let l = region.spec_len() as int;
    let first = frame_ceil(s);
    let last = frame_floor(s + l);
    assert(first >= s) by (nonlinear_arith)
        requires
            first == ((s + 4095) / 4096) * 4096,
    {}
    assert(last <= s + l) by (nonlinear_arith)
        requires
            last == ((s + l) / 4096) * 4096,
            s >= 0,
            l >= 0,
    {}
    if last > first {
        assert((last - first) / 4096 <= l / 4096) by (nonlinear_arith)
            requires
                last - first <= l,
                last - first >= 0,
                l >= 0,
        {}
    }
}

/// `value` rounded down to a frame boundary.
fn align_down(value: u64) -> (r: u64)
    ensures
        r == frame_floor(value as int),
{
    proof {
        lemma_mask_is_floor(value);
    }
    value & !(FRAME_SIZE - 1)
}

/// `value` rounded up to a frame boundary, unless that overflows.
fn align_up(value: u64) -> (r: Result<u64, MemoryAccountingError>)
    ensures
        value + 4095 <= u64::MAX ==> r == Ok::<u64, MemoryAccountingError>(frame_ceil(value as int) as u64),
        value + 4095 > u64::MAX ==> r == Err::<u64, MemoryAccountingError>(MemoryAccountingError::Overflow),
{
    let mask: u64 = FRAME_SIZE - 1;
    match value.checked_add(mask) {
        Some(bumped) => {
            proof {
                lemma_mask_is_floor(bumped);
            }
            Ok(bumped & !mask)
        },
        None => Err(MemoryAccountingError::Overflow),
    }
}

/// Clearing the low twelve bits rounds down to a multiple of 4096.
proof fn lemma_mask_is_floor(value: u64)
    ensures
        value & !4095u64 == frame_floor(value as int),
{
    assert(value & !4095u64 == value - value % 4096) by (bit_vector);
    assert(value - value % 4096 == (value / 4096) * 4096) by (nonlinear_arith);
}

/// Sum of `f` over the first `n` regions.
pub open spec fn sum_regions(regions: Seq<MemoryRegion>, f: spec_fn(MemoryRegion) -> int, n: int) -> int
    decreases n,
{
    if n <= 0 {
        0
    } else {
        sum_regions(regions, f, n - 1) + f(regions[n - 1])
    }
}

/// Bytes of a region when its kind satisfies `p`.
pub open spec fn bytes_if(p: spec_fn(MemoryRegionKind) -> bool) -> spec_fn(MemoryRegion) -> int {
    |r: MemoryRegion| if p(r.spec_kind()) {
        r.spec_len() as int
    } else {
        0
    }
}

/// Whole frames of a region when its kind satisfies `p`.
pub open spec fn frames_if(p: spec_fn(MemoryRegionKind) -> bool) -> spec_fn(MemoryRegion) -> int {
    |r: MemoryRegion| if p(r.spec_kind()) {
        r.spec_full_frames()
    } else {
        0
    }
}

/// One for a region whose kind satisfies `p`.
pub open spec fn one_if(p: spec_fn(MemoryRegionKind) -> bool) -> spec_fn(MemoryRegion) -> int {
    |r: MemoryRegion| if p(r.spec_kind()) {
        1
    } else {
        0
    }
}

pub open spec fn any_kind() -> spec_fn(MemoryRegionKind) -> bool {
    |k: MemoryRegionKind| true
}

pub open spec fn usable_kind() -> spec_fn(MemoryRegionKind) -> bool {
    |k: MemoryRegionKind| k is Usable
}

pub open spec fn reserved_kind() -> spec_fn(MemoryRegionKind) -> bool {
    |k: MemoryRegionKind| !(k is Usable)
}

pub open spec fn kernel_kind() -> spec_fn(MemoryRegionKind) -> bool {
    |k: MemoryRegionKind| k is Kernel
}

pub open spec fn bootloader_kind() -> spec_fn(MemoryRegionKind) -> bool {
    |k: MemoryRegionKind| k is Bootloader
}

pub open spec fn framebuffer_kind() -> spec_fn(MemoryRegionKind) -> bool {
    |k: MemoryRegionKind| k is Framebuffer
}

pub open spec fn acpi_kind() -> spec_fn(MemoryRegionKind) -> bool {
    |k: MemoryRegionKind| k is Acpi
}

pub open spec fn bad_kind() -> spec_fn(MemoryRegionKind) -> bool {
    |k: MemoryRegionKind| k is Bad
}

/// The map can be accounted: every region's frames can be counted and the
/// byte and frame totals fit in 64 bits.
pub open spec fn summary_ok(regions: Seq<MemoryRegion>) -> bool {
    let n = regions.len() as int;
    &&& forall|i: int| 0 <= i < n ==> (#[trigger] regions[i]).frames_countable()
    &&& sum_regions(regions, bytes_if(any_kind()), n) <= u64::MAX
    &&& sum_regions(regions, frames_if(any_kind()), n) <= u64::MAX
}

/// The summary of `regions`, in integers.
pub open spec fn spec_summary(regions: Seq<MemoryRegion>) -> MemorySummary {
    let n = regions.len() as int;
    MemorySummary {
        region_count: regions.len() as usize,
        total_bytes: sum_regions(regions, bytes_if(any_kind()), n) as u64,
        total_frames: sum_regions(regions, frames_if(any_kind()), n) as u64,
        usable_regions: sum_regions(regions, one_if(usable_kind()), n) as usize,
        usable_bytes: sum_regions(regions, bytes_if(usable_kind()), n) as u64,
        usable_frames: sum_regions(regions, frames_if(usable_kind()), n) as u64,
        reserved_regions: sum_regions(regions, one_if(reserved_kind()), n) as usize,
        reserved_bytes: sum_regions(regions, bytes_if(reserved_kind()), n) as u64,
        reserved_frames: sum_regions(regions, frames_if(reserved_kind()), n) as u64,
        kernel_bytes: sum_regions(regions, bytes_if(kernel_kind()), n) as u64,
        bootloader_bytes: sum_regions(regions, bytes_if(bootloader_kind()), n) as u64,
        framebuffer_bytes: sum_regions(regions, bytes_if(framebuffer_kind()), n) as u64,
        acpi_bytes: sum_regions(regions, bytes_if(acpi_kind()), n) as u64,
        bad_bytes: sum_regions(regions, bytes_if(bad_kind()), n) as u64,
    }
}

/// Sums of non-negative terms grow with the prefix, and a sum of terms
/// bounded by those of another sum is bounded by it.
pub proof fn lemma_sum_regions_le(
    regions: Seq<MemoryRegion>,
    f: spec_fn(MemoryRegion) -> int,
    g: spec_fn(MemoryRegion) -> int,
    m: int,
    n: int,
)
    requires
        0 <= m <= n <= regions.len(),
        forall|r: MemoryRegion| 0 <= #[trigger] f(r) <= g(r),
    ensures
        0 <= sum_regions(regions, f, m) <= sum_regions(regions, g, n),
    decreases n,
{
    if n > m {
        lemma_sum_regions_le(regions, f, g, m, n - 1);
        assert(f(regions[n - 1]) <= g(regions[n - 1]));
    } else if n > 0 {
        lemma_sum_regions_le(regions, f, g, n - 1, n - 1);
        assert(f(regions[n - 1]) <= g(regions[n - 1]));
    }
}

/// Usable and reserved parts add up to the whole: in regions, bytes and
/// frames.
pub proof fn lemma_usable_reserved_partition(regions: Seq<MemoryRegion>, n: int)
    requires
        0 <= n <= regions.len(),
    ensures
        sum_regions(regions, one_if(usable_kind()), n) + sum_regions(regions, one_if(reserved_kind()), n)
            == n,
        sum_regions(regions, bytes_if(usable_kind()), n) + sum_regions(
            regions,
            bytes_if(reserved_kind()),
            n,
        ) == sum_regions(regions, bytes_if(any_kind()), n),
        sum_regions(regions, frames_if(usable_kind()), n) + sum_regions(
            regions,
            frames_if(reserved_kind()),
            n,
        ) == sum_regions(regions, frames_if(any_kind()), n),
    decreases n,
{
    if n > 0 {
        lemma_usable_reserved_partition(regions, n - 1);
    }
}

/// The reserved bytes are those of reserved-kind regions plus the kernel,
/// bootloader, framebuffer, ACPI and bad bytes.
pub proof fn lemma_reserved_breakdown(regions: Seq<MemoryRegion>, n: int)
    requires
        0 <= n <= regions.len(),
    ensures
        sum_regions(regions, bytes_if(reserved_kind()), n) == sum_regions(
            regions,
            bytes_if(|k: MemoryRegionKind| k is Reserved),
            n,
        ) + sum_regions(regions, bytes_if(kernel_kind()), n) + sum_regions(
            regions,
            bytes_if(bootloader_kind()),
            n,
        ) + sum_regions(regions, bytes_if(framebuffer_kind()), n) + sum_regions(
            regions,
            bytes_if(acpi_kind()),
            n,
        ) + sum_regions(regions, bytes_if(bad_kind()), n),
    decreases n,
{
    if n > 0 {
        lemma_usable_reserved_breakdown_step(regions[n - 1]);
        lemma_reserved_breakdown(regions, n - 1);
    }
}

proof fn lemma_usable_reserved_breakdown_step(r: MemoryRegion)
    ensures
        bytes_if(reserved_kind())(r) == bytes_if(|k: MemoryRegionKind| k is Reserved)(r) + bytes_if(
            kernel_kind(),
        )(r) + bytes_if(bootloader_kind())(r) + bytes_if(framebuffer_kind())(r) + bytes_if(
            acpi_kind(),
        )(r) + bytes_if(bad_kind())(r),
{
}

/// A list of physical memory regions.
#[derive(Clone, Copy, PartialEq, Eq)]
pub struct MemoryMap<'a> {
    regions: &'a [MemoryRegion],
}

/// Totals over a memory map.
#[derive(Clone, Copy, Debug, PartialEq, Eq, Structural)]
pub struct MemorySummary {
    pub region_count: usize,
    pub total_bytes: u64,
    pub total_frames: u64,
    pub usable_regions: usize,
    pub usable_bytes: u64,
    pub usable_frames: u64,
    pub reserved_regions: usize,
    pub reserved_bytes: u64,
    pub reserved_frames: u64,
    pub kernel_bytes: u64,
    pub bootloader_bytes: u64,
    pub framebuffer_bytes: u64,
    pub acpi_bytes: u64,
    pub bad_bytes: u64,
}

impl<'a> MemoryMap<'a> {
    pub closed spec fn spec_regions(self) -> Seq<MemoryRegion> {
        self.regions@
    }

    pub fn new(regions: &'a [MemoryRegion]) -> (r: Self)
        ensures
            r.spec_regions() == regions@,
    {
        MemoryMap { regions }
    }

    pub fn regions(self) -> (r: &'a [MemoryRegion])
        ensures
            r@ == self.spec_regions(),
    {
        self.regions
    }

    pub fn len(self) -> (r: usize)
        ensures
            r == self.spec_regions().len(),
    {
        self.regions.len()
    }

    pub fn is_empty(self) -> (r: bool)
        ensures
            r == (self.spec_regions().len() == 0),
    {
        self.regions.len() == 0
    }

    /// Totals by kind, with whole frames counted per region; fails when a
    /// frame count or a total overflows. Every region is either usable or
    /// reserved, and the two parts add up to the totals.
    pub fn summary(self) -> (r: Result<MemorySummary, MemoryAccountingError>)
        ensures
            summary_ok(self.spec_regions()) ==> r == Ok::<MemorySummary, MemoryAccountingError>(
                spec_summary(self.spec_regions()),
            ),
            !summary_ok(self.spec_regions()) ==> r == Err::<MemorySummary, MemoryAccountingError>(
                MemoryAccountingError::Overflow,
            ),
            r matches Ok(s) ==> s.usable_regions + s.reserved_regions == s.region_count
                && s.usable_bytes + s.reserved_bytes == s.total_bytes && s.usable_frames
                + s.reserved_frames == s.total_frames,
    {
        let ghost rs = self.regions@;
        let ghost total = sum_regions(rs, bytes_if(any_kind()), rs.len() as int);
        let ghost total_f = sum_regions(rs, frames_if(any_kind()), rs.len() as int);
        let mut usable_regions: usize = 0;
        let mut usable_bytes: u64 = 0;
        let mut reserved_regions: usize = 0;
        let mut reserved_bytes: u64 = 0;
        let mut kernel_bytes: u64 = 0;
        let mut bootloader_bytes: u64 = 0;
        let mut framebuffer_bytes: u64 = 0;
        let mut acpi_bytes: u64 = 0;
        let mut bad_bytes: u64 = 0;
        let mut total_bytes: u64 = 0;
        let mut usable_frames: u64 = 0;
        let mut reserved_frames: u64 = 0;
        let mut total_frames: u64 = 0;
        let mut index: usize = 0;
        while index < self.regions.len()
            invariant
                rs == self.regions@,
                index <= rs.len(),
                forall|i: int| 0 <= i < index ==> (#[trigger] rs[i]).frames_countable(),
                total_bytes == sum_regions(rs, bytes_if(any_kind()), index as int),
                total_frames == sum_regions(rs, frames_if(any_kind()), index as int),
                usable_regions == sum_regions(rs, one_if(usable_kind()), index as int),
                usable_bytes == sum_regions(rs, bytes_if(usable_kind()), index as int),
                usable_frames == sum_regions(rs, frames_if(usable_kind()), index as int),
                reserved_regions == sum_regions(rs, one_if(reserved_kind()), index as int),
                reserved_bytes == sum_regions(rs, bytes_if(reserved_kind()), index as int),
                reserved_frames == sum_regions(rs, frames_if(reserved_kind()), index as int),
                kernel_bytes == sum_regions(rs, bytes_if(kernel_kind()), index as int),
                bootloader_bytes == sum_regions(rs, bytes_if(bootloader_kind()), index as int),
                framebuffer_bytes == sum_regions(rs, bytes_if(framebuffer_kind()), index as int),
                acpi_bytes == sum_regions(rs, bytes_if(acpi_kind()), index as int),
                bad_bytes == sum_regions(rs, bytes_if(bad_kind()), index as int),
            decreases rs.len() - index,
        {
            let region = self.regions[index];
            let ghost n = index as int;
            proof {
                lemma_full_frames_bound(region);
                lemma_usable_reserved_partition(rs, n + 1);
                lemma_reserved_breakdown(rs, n + 1);
                lemma_sum_regions_le(rs, one_if(usable_kind()), one_if(any_kind()), n + 1, n + 1);
                lemma_count_prefix(rs, n + 1);
                lemma_sum_regions_le(rs, bytes_if(usable_kind()), bytes_if(any_kind()), n + 1, n + 1);
                lemma_sum_regions_le(rs, bytes_if(reserved_kind()), bytes_if(any_kind()), n + 1, n + 1);
                lemma_sum_regions_le(rs, frames_if(usable_kind()), frames_if(any_kind()), n + 1, n + 1);
                lemma_sum_regions_le(rs, frames_if(reserved_kind()), frames_if(any_kind()), n + 1, n + 1);
                lemma_sum_regions_le(rs, bytes_if(kernel_kind()), bytes_if(any_kind()), n + 1, n + 1);
                lemma_sum_regions_le(rs, bytes_if(bootloader_kind()), bytes_if(any_kind()), n + 1, n + 1);
                lemma_sum_regions_le(rs, bytes_if(framebuffer_kind()), bytes_if(any_kind()), n + 1, n + 1);
                lemma_sum_regions_le(rs, bytes_if(acpi_kind()), bytes_if(any_kind()), n + 1, n + 1);
                lemma_sum_regions_le(rs, bytes_if(bad_kind()), bytes_if(any_kind()), n + 1, n + 1);
                lemma_sum_regions_le(rs, bytes_if(any_kind()), bytes_if(any_kind()), n + 1, rs.len() as int);
                lemma_sum_regions_le(rs, frames_if(any_kind()), frames_if(any_kind()), n + 1, rs.len() as int);
            }
            let frames = match region.full_frame_count() {
                Ok(frames) => frames,
                Err(error) => {
                    return Err(error);
                },
            };
            total_bytes = match total_bytes.checked_add(region.len) {
                Some(v) => v,
                None => {
                    return Err(MemoryAccountingError::Overflow);
                },
            };
            total_frames = match total_frames.checked_add(frames) {
                Some(v) => v,
                None => {
                    return Err(MemoryAccountingError::Overflow);
                },
            };
            match region.kind {
                MemoryRegionKind::Usable => {
                    usable_regions = usable_regions + 1;
                    usable_bytes = usable_bytes + region.len;
                    usable_frames = usable_frames + frames;
                },
                MemoryRegionKind::Reserved => {
                    reserved_regions = reserved_regions + 1;
                    reserved_bytes = reserved_bytes + region.len;
                    reserved_frames = reserved_frames + frames;
                },
                MemoryRegionKind::Kernel => {
                    reserved_regions = reserved_regions + 1;
                    reserved_bytes = reserved_bytes + region.len;
                    kernel_bytes = kernel_bytes + region.len;
                    reserved_frames = reserved_frames + frames;
                },
                MemoryRegionKind::Bootloader => {
                    reserved_regions = reserved_regions + 1;
                    reserved_bytes = reserved_bytes + region.len;
                    bootloader_bytes = bootloader_bytes + region.len;
                    reserved_frames = reserved_frames + frames;
                },
                MemoryRegionKind::Framebuffer => {
                    reserved_regions = reserved_regions + 1;
                    reserved_bytes = reserved_bytes + region.len;
                    framebuffer_bytes = framebuffer_bytes + region.len;
                    reserved_frames = reserved_frames + frames;
                },
                MemoryRegionKind::Acpi => {
                    reserved_regions = reserved_regions + 1;
                    reserved_bytes = reserved_bytes + region.len;
                    acpi_bytes = acpi_bytes + region.len;
                    reserved_frames = reserved_frames + frames;
                },
                MemoryRegionKind::Bad => {
                    reserved_regions = reserved_regions + 1;
                    reserved_bytes = reserved_bytes + region.len;
                    bad_bytes = bad_bytes + region.len;
                    reserved_frames = reserved_frames + frames;
                },
            }
            index += 1;
        }
        proof {
            lemma_usable_reserved_partition(rs, rs.len() as int);
        }
        Ok(
            MemorySummary {
                region_count: self.regions.len(),
                total_bytes,
                total_frames,
                usable_regions,
                usable_bytes,
                usable_frames,
                reserved_regions,
                reserved_bytes,
                reserved_frames,
                kernel_bytes,
                bootloader_bytes,
                framebuffer_bytes,
                acpi_bytes,
                bad_bytes,
            },
        )
    }
}

/// Counting regions over a prefix gives at most its length.
proof fn lemma_count_prefix(regions: Seq<MemoryRegion>, n: int)
    requires
        0 <= n <= regions.len(),
    ensures
        sum_regions(regions, one_if(any_kind()), n) == n,
    decreases n,
{
    if n > 0 {
        lemma_count_prefix(regions, n - 1);
    }
}

/// A framebuffer handed over by the bootloader.
#[derive(Clone, Copy, PartialEq, Eq, Structural)]
pub struct FramebufferInfo {
    pub(crate) base: VirtAddr,
    pub width: u32,
    pub height: u32,
    pub stride: u32,
}

impl FramebufferInfo {
    pub closed spec fn spec_base(self) -> VirtAddr {
        self.base
    }

    pub closed spec fn spec_width(self) -> u32 {
        self.width
    }

    pub closed spec fn spec_height(self) -> u32 {
        self.height
    }

    pub closed spec fn spec_stride(self) -> u32 {
        self.stride
    }

    pub fn new(base: VirtAddr, width: u32, height: u32, stride: u32) -> (r: Self)
        ensures
            r.spec_base() == base,
            r.spec_width() == width,
            r.spec_height() == height,
            r.spec_stride() == stride,
    {
        FramebufferInfo { base, width, height, stride }
    }
}

/// The higher-half direct map handed over by the bootloader.
#[derive(Clone, Copy, PartialEq, Eq, Structural)]
pub struct HhdmInfo {
    pub(crate) offset: VirtAddr,
}

impl HhdmInfo {
    pub closed spec fn spec_offset(self) -> VirtAddr {
        self.offset
    }

    pub fn new(offset: VirtAddr) -> (r: Self)
        ensures
            r.spec_offset() == offset,
    {
        HhdmInfo { offset }
    }
}

/// One processor the bootloader reported.
#[derive(Clone, Copy, Debug, PartialEq, Eq, Structural)]
pub struct CpuInfo {
    pub hardware_id: CpuHardwareId,
    pub enabled: bool,
}

/// The processors the bootloader reported.
#[derive(Clone, Copy, Debug, PartialEq, Eq)]
pub struct CpuTopology<'a> {
    cpus: &'a [CpuInfo],
}

impl<'a> CpuTopology<'a> {
    pub closed spec fn spec_cpus(self) -> Seq<CpuInfo> {
        self.cpus@
    }

    pub fn new(cpus: &'a [CpuInfo]) -> (r: Self)
        ensures
            r.spec_cpus() == cpus@,
    {
        CpuTopology { cpus }
    }

    pub fn cpus(self) -> (r: &'a [CpuInfo])
        ensures
            r@ == self.spec_cpus(),
    {
        self.cpus
    }

    pub fn len(self) -> (r: usize)
        ensures
            r == self.spec_cpus().len(),
    {
        self.cpus.len()
    }

    pub fn is_empty(self) -> (r: bool)
        ensures
            r == (self.spec_cpus().len() == 0),
    {
        self.cpus.len() == 0
    }
}

/// Where the kernel image lives, virtually and physically. The addresses
/// stay private to the crate.
#[derive(Clone, Copy, PartialEq, Eq, Structural)]
pub struct KernelImageInfo {
    virt_start: VirtAddr,
    virt_end: VirtAddr,
    phys_start: PhysAddr,
}

impl KernelImageInfo {
    pub closed spec fn spec_virt_start(self) -> u64 {
        self.virt_start.0
    }

    pub closed spec fn spec_virt_end(self) -> u64 {
        self.virt_end.0
    }

    pub closed spec fn spec_phys_start(self) -> u64 {
        self.phys_start.0
    }

    /// An image descriptor from bootloader-provided addresses.
    pub fn new(virt_start: VirtAddr, virt_end: VirtAddr, phys_start: PhysAddr) -> (r: Self)
        ensures
            r.spec_virt_start() == virt_start.0,
            r.spec_virt_end() == virt_end.0,
            r.spec_phys_start() == phys_start.0,
    {
        KernelImageInfo { virt_start, virt_end, phys_start }
    }

    /// The physical address of `virt` when it lies inside the image and the
    /// translation does not overflow.
    pub fn phys_for_virt(self, virt: VirtAddr) -> (r: Option<PhysAddr>)
        ensures
            r == (if self.spec_virt_start() <= virt.0 < self.spec_virt_end()
                && self.spec_phys_start() + (virt.0 - self.spec_virt_start()) <= u64::MAX {
                Some(PhysAddr((self.spec_phys_start() + (virt.0 - self.spec_virt_start())) as u64))
            } else {
                None::<PhysAddr>
            }),
    {
        let virt = virt.get();
        if virt < self.virt_start.get() || virt >= self.virt_end.get() {
            return None;
        }
        let offset = virt - self.virt_start.get();
        match self.phys_start.get().checked_add(offset) {
            Some(phys) => Some(PhysAddr::new(phys)),
            None => None,
        }
    }

    pub(crate) fn virt_start(self) -> (r: VirtAddr)
        ensures
            r.0 == self.spec_virt_start(),
    {
        self.virt_start
    }

    pub(crate) fn virt_end(self) -> (r: VirtAddr)
        ensures
            r.0 == self.spec_virt_end(),
    {
        self.virt_end
    }

    pub(crate) fn phys_start(self) -> (r: PhysAddr)
        ensures
            r.0 == self.spec_phys_start(),
    {
        self.phys_start
    }
}

/// The normalized boot handoff.
#[derive(Clone, Copy, PartialEq, Eq)]
pub struct BootInfo<'a> {
    pub arch: ArchKind,
    pub platform: PlatformKind,
    pub memory_map: MemoryMap<'a>,
    pub(crate) framebuffer: Option<FramebufferInfo>,
    pub(crate) rsdp: Option<VirtAddr>,
    pub(crate) device_tree: Option<VirtAddr>,
    pub cpu_topology: CpuTopology<'a>,
    pub kernel_image: KernelImageInfo,
    pub(crate) hhdm: Option<HhdmInfo>,
}

/// The parts a boot handoff is assembled from.
pub(crate) struct BootInfoParts<'a> {
    pub(crate) arch: ArchKind,
    pub(crate) platform: PlatformKind,
    pub(crate) memory_map: MemoryMap<'a>,
    pub(crate) framebuffer: Option<FramebufferInfo>,
    pub(crate) rsdp: Option<VirtAddr>,
    pub(crate) device_tree: Option<VirtAddr>,
    pub(crate) cpu_topology: CpuTopology<'a>,
    pub(crate) kernel_image: KernelImageInfo,
    pub(crate) hhdm: Option<HhdmInfo>,
}

impl<'a> BootInfo<'a> {
    /// The handoff made of `parts`.
    pub(crate) fn new(parts: BootInfoParts<'a>) -> (r: Self)
        ensures
            r.spec_arch() == parts.arch,
            r.spec_platform() == parts.platform,
            r.spec_memory_map() == parts.memory_map,
            r.spec_framebuffer() == parts.framebuffer,
            r.spec_rsdp() == parts.rsdp,
            r.spec_device_tree() == parts.device_tree,
            r.spec_cpu_topology() == parts.cpu_topology,
            r.spec_kernel_image() == parts.kernel_image,
            r.spec_hhdm() == parts.hhdm,
    {
        BootInfo {
            arch: parts.arch,
            platform: parts.platform,
            memory_map: parts.memory_map,
            framebuffer: parts.framebuffer,
            rsdp: parts.rsdp,
            device_tree: parts.device_tree,
            cpu_topology: parts.cpu_topology,
            kernel_image: parts.kernel_image,
            hhdm: parts.hhdm,
        }
    }

    /// The public field `arch`.
    pub closed spec fn spec_arch(self) -> ArchKind {
        self.arch
    }

    /// The public field `platform`.
    pub closed spec fn spec_platform(self) -> PlatformKind {
        self.platform
    }

    /// The public field `memory_map`.
    pub closed spec fn spec_memory_map(self) -> MemoryMap<'a> {
        self.memory_map
    }

    /// The public field `cpu_topology`.
    pub closed spec fn spec_cpu_topology(self) -> CpuTopology<'a> {
        self.cpu_topology
    }

    /// The public field `kernel_image`.
    pub closed spec fn spec_kernel_image(self) -> KernelImageInfo {
        self.kernel_image
    }

    pub closed spec fn spec_framebuffer(self) -> Option<FramebufferInfo> {
        self.framebuffer
    }

    pub closed spec fn spec_rsdp(self) -> Option<VirtAddr> {
        self.rsdp
    }

    pub closed spec fn spec_device_tree(self) -> Option<VirtAddr> {
        self.device_tree
    }

    pub closed spec fn spec_hhdm(self) -> Option<HhdmInfo> {
        self.hhdm
    }

    pub fn framebuffer_present(self) -> (r: bool)
        ensures
            r == self.spec_framebuffer() is Some,
    {
        self.framebuffer.is_some()
    }

    pub fn framebuffer_base(self) -> (r: Option<VirtAddr>)
        ensures
            r == (match self.spec_framebuffer() {
                Some(fb) => Some(fb.spec_base()),
                None => None::<VirtAddr>,
            }),
    {
        match self.framebuffer {
            Some(framebuffer) => Some(framebuffer.base),
            None => None,
        }
    }

    pub fn rsdp_present(self) -> (r: bool)
        ensures
            r == self.spec_rsdp() is Some,
    {
        self.rsdp.is_some()
    }

    pub fn device_tree_present(self) -> (r: bool)
        ensures
            r == self.spec_device_tree() is Some,
    {
        self.device_tree.is_some()
    }

    pub fn hhdm_present(self) -> (r: bool)
        ensures
            r == self.spec_hhdm() is Some,
    {
        self.hhdm.is_some()
    }

    pub fn hhdm_offset(self) -> (r: Option<VirtAddr>)
        ensures
            r == (match self.spec_hhdm() {
                Some(h) => Some(h.spec_offset()),
                None => None::<VirtAddr>,
            }),
    {
        match self.hhdm {
            Some(hhdm) => Some(hhdm.offset),
            None => None,
        }
    }
}

} // verus!
