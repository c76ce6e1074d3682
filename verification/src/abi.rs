use vstd::prelude::*;

verus! {

/// Identifier of a logical core.
#[derive(Clone, Copy, Debug, PartialEq, Eq, Hash, PartialOrd, Ord, Structural)]
pub struct CoreId(pub u32);

impl CoreId {
    pub fn new(value: u32) -> (r: Self)
        ensures
            r.0 == value,
    {
        CoreId(value)
    }

    pub fn get(self) -> (r: u32)
        ensures
            r == self.0,
    {
        self.0
    }
}

/// Hardware identifier of a CPU (for example an APIC id or MPIDR value).
#[derive(Clone, Copy, Debug, PartialEq, Eq, Hash, PartialOrd, Ord, Structural)]
pub struct CpuHardwareId(pub u64);

impl CpuHardwareId {
    pub fn new(value: u64) -> (r: Self)
        ensures
            r.0 == value,
    {
        CpuHardwareId(value)
    }

    pub fn get(self) -> (r: u64)
        ensures
            r == self.0,
    {
        self.0
    }
}

/// Physical address value.
///
/// This is a raw numeric address wrapper. Callers at privilege boundaries
/// must validate architecture-specific address-width and memory-map
/// constraints before using it for mapping, DMA, or device access.
#[derive(Clone, Copy, Debug, PartialEq, Eq, Hash, PartialOrd, Ord, Structural)]
pub struct PhysAddr(pub u64);

impl PhysAddr {
    pub fn new(value: u64) -> (r: Self)
        ensures
            r.0 == value,
    {
        PhysAddr(value)
    }

    pub fn get(self) -> (r: u64)
        ensures
            r == self.0,
    {
        self.0
    }
}

/// Virtual address value.
///
/// This is a raw numeric address wrapper. On x86_64, callers at privilege
/// boundaries such as syscalls or untrusted IPC must validate canonical
/// form before the value is used as a pointer or mapping address.
#[derive(Clone, Copy, Debug, PartialEq, Eq, Hash, PartialOrd, Ord, Structural)]
pub struct VirtAddr(pub u64);

impl VirtAddr {
    pub fn new(value: u64) -> (r: Self)
        ensures
            r.0 == value,
    {
        VirtAddr(value)
    }

    pub fn get(self) -> (r: u64)
        ensures
            r == self.0,
    {
        self.0
    }
}

/// Physical frame number.
#[derive(Clone, Copy, Debug, PartialEq, Eq, Hash, PartialOrd, Ord, Structural)]
pub struct PhysFrame(pub u64);

impl PhysFrame {
    pub fn new(value: u64) -> (r: Self)
        ensures
            r.0 == value,
    {
        PhysFrame(value)
    }

    pub fn get(self) -> (r: u64)
        ensures
            r == self.0,
    {
        self.0
    }
}

/// Virtual page number.
#[derive(Clone, Copy, Debug, PartialEq, Eq, Hash, PartialOrd, Ord, Structural)]
pub struct Page(pub u64);

impl Page {
    pub fn new(value: u64) -> (r: Self)
        ensures
            r.0 == value,
    {
        Page(value)
    }

    pub fn get(self) -> (r: u64)
        ensures
            r == self.0,
    {
        self.0
    }
}

/// Kernel object identifier.
#[derive(Clone, Copy, Debug, PartialEq, Eq, Hash, PartialOrd, Ord, Structural)]
pub struct ObjectId(pub u128);

impl ObjectId {
    pub fn new(value: u128) -> (r: Self)
        ensures
            r.0 == value,
    {
        ObjectId(value)
    }

    pub fn get(self) -> (r: u128)
        ensures
            r == self.0,
    {
        self.0
    }
}

/// Capability handle: a slot index and a slot generation packed together.
#[derive(Clone, Copy, Debug, PartialEq, Eq, Hash, PartialOrd, Ord, Structural)]
pub struct CapId(pub u64);

impl CapId {
    pub fn new(value: u64) -> (r: Self)
        ensures
            r.0 == value,
    {
        CapId(value)
    }

    pub fn get(self) -> (r: u64)
        ensures
            r == self.0,
    {
        self.0
    }
}

/// Identifier of an authority-holding principal.
#[derive(Clone, Copy, Debug, PartialEq, Eq, Hash, PartialOrd, Ord, Structural)]
pub struct PrincipalId(pub u64);

impl PrincipalId {
    pub fn new(value: u64) -> (r: Self)
        ensures
            r.0 == value,
    {
        PrincipalId(value)
    }

    pub fn get(self) -> (r: u64)
        ensures
            r == self.0,
    {
        self.0
    }
}

/// IPC message identifier.
#[derive(Clone, Copy, Debug, PartialEq, Eq, Hash, PartialOrd, Ord, Structural)]
pub struct MessageId(pub u64);

impl MessageId {
    pub fn new(value: u64) -> (r: Self)
        ensures
            r.0 == value,
    {
        MessageId(value)
    }

    pub fn get(self) -> (r: u64)
        ensures
            r == self.0,
    {
        self.0
    }
}

/// Device identifier.
#[derive(Clone, Copy, Debug, PartialEq, Eq, Hash, PartialOrd, Ord, Structural)]
pub struct DeviceId(pub u128);

impl DeviceId {
    pub fn new(value: u128) -> (r: Self)
        ensures
            r.0 == value,
    {
        DeviceId(value)
    }

    pub fn get(self) -> (r: u128)
        ensures
            r == self.0,
    {
        self.0
    }
}

/// Device-visible DMA address.
#[derive(Clone, Copy, Debug, PartialEq, Eq, Hash, PartialOrd, Ord, Structural)]
pub struct DmaAddr(pub u64);

impl DmaAddr {
    pub fn new(value: u64) -> (r: Self)
        ensures
            r.0 == value,
    {
        DmaAddr(value)
    }

    pub fn get(self) -> (r: u64)
        ensures
            r == self.0,
    {
        self.0
    }
}

/// DMA isolation domain identifier.
#[derive(Clone, Copy, Debug, PartialEq, Eq, Hash, PartialOrd, Ord, Structural)]
pub struct DmaDomainId(pub u64);

impl DmaDomainId {
    pub fn new(value: u64) -> (r: Self)
        ensures
            r.0 == value,
    {
        DmaDomainId(value)
    }

    pub fn get(self) -> (r: u64)
        ensures
            r == self.0,
    {
        self.0
    }
}

/// Interrupt request line.
#[derive(Clone, Copy, Debug, PartialEq, Eq, Hash, PartialOrd, Ord, Structural)]
pub struct IrqLine(pub u32);

impl IrqLine {
    pub fn new(value: u32) -> (r: Self)
        ensures
            r.0 == value,
    {
        IrqLine(value)
    }

    pub fn get(self) -> (r: u32)
        ensures
            r == self.0,
    {
        self.0
    }
}

/// Task identifier.
#[derive(Clone, Copy, Debug, PartialEq, Eq, Hash, PartialOrd, Ord, Structural)]
pub struct TaskId(pub u64);

impl TaskId {
    pub fn new(value: u64) -> (r: Self)
        ensures
            r.0 == value,
    {
        TaskId(value)
    }

    pub fn get(self) -> (r: u64)
        ensures
            r == self.0,
    {
        self.0
    }
}

/// Process identifier.
#[derive(Clone, Copy, Debug, PartialEq, Eq, Hash, PartialOrd, Ord, Structural)]
pub struct ProcessId(pub u64);

impl ProcessId {
    pub fn new(value: u64) -> (r: Self)
        ensures
            r.0 == value,
    {
        ProcessId(value)
    }

    pub fn get(self) -> (r: u64)
        ensures
            r == self.0,
    {
        self.0
    }
}

/// Policy identifier.
#[derive(Clone, Copy, Debug, PartialEq, Eq, Hash, PartialOrd, Ord, Structural)]
pub struct PolicyId(pub u64);

impl PolicyId {
    pub fn new(value: u64) -> (r: Self)
        ensures
            r.0 == value,
    {
        PolicyId(value)
    }

    pub fn get(self) -> (r: u64)
        ensures
            r == self.0,
    {
        self.0
    }
}

/// Policy model identifier.
#[derive(Clone, Copy, Debug, PartialEq, Eq, Hash, PartialOrd, Ord, Structural)]
pub struct ModelId(pub u128);

impl ModelId {
    pub fn new(value: u128) -> (r: Self)
        ensures
            r.0 == value,
    {
        ModelId(value)
    }

    pub fn get(self) -> (r: u128)
        ensures
            r == self.0,
    {
        self.0
    }
}

/// Lowest address of the upper (kernel) canonical half on x86_64.
pub const X86_64_UPPER_HALF_START: u64 = 0xffff_8000_0000_0000;

/// Highest address of the lower canonical half on x86_64.
pub const X86_64_LOWER_HALF_END: u64 = 0x0000_7fff_ffff_ffff;

/// A 64-bit value is canonical under the x86_64 48-bit rule when bits 63..47
/// are all equal, i.e. it lies in the lower or the upper canonical half.
pub open spec fn is_x86_64_canonical(value: u64) -> bool {
    value <= X86_64_LOWER_HALF_END || value >= X86_64_UPPER_HALF_START
}

impl VirtAddr {
    /// Returns `Some` only when `value` is canonical under the x86_64 48-bit
    /// virtual-address rule.
    ///
    /// This helper is intended for privilege-boundary validation. `new` remains
    /// available for raw numeric values that have already been checked by an
    /// architecture-specific layer.
    pub fn new_x86_64_canonical(value: u64) -> (r: Option<Self>)
        ensures
            r == (if is_x86_64_canonical(value) { Some(VirtAddr(value)) } else { None::<VirtAddr> }),
    {
        if value <= X86_64_LOWER_HALF_END || value >= X86_64_UPPER_HALF_START {
            Some(VirtAddr(value))
        } else {
            None
        }
    }
}

/// Index of the bootstrap core.
pub const ROOT_CORE_INDEX: u32 = 0;

/// The bootstrap core.
#[allow(non_snake_case)]
pub fn ROOT_CORE() -> (r: CoreId)
    ensures
        r.0 == ROOT_CORE_INDEX,
{
    CoreId(ROOT_CORE_INDEX)
}

} // verus!
