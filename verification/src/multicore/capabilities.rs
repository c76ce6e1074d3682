use vstd::prelude::*;

verus! {

/// Instruction-set architecture of a core.
#[derive(Clone, Copy, Debug, PartialEq, Eq, Structural)]
pub enum CoreIsa {
    X86_64,
    Aarch64,
    Riscv64,
    DeviceFabric,
    Unknown,
}

impl CoreIsa {
    pub fn label(self) -> (r: &'static str)
        ensures
            self is X86_64 ==> r@ == "x86_64"@,
            self is Aarch64 ==> r@ == "aarch64"@,
            self is Riscv64 ==> r@ == "riscv64"@,
            self is DeviceFabric ==> r@ == "device-fabric"@,
            self is Unknown ==> r@ == "unknown"@,
    {
        match self {
            CoreIsa::X86_64 => "x86_64",
            CoreIsa::Aarch64 => "aarch64",
            CoreIsa::Riscv64 => "riscv64",
            CoreIsa::DeviceFabric => "device-fabric",
            CoreIsa::Unknown => "unknown",
        }
    }
}

/// Performance class of a core.
#[derive(Clone, Copy, Debug, PartialEq, Eq, Structural)]
pub enum CorePerformanceClass {
    Control,
    Performance,
    Efficiency,
    Device,
    Unknown,
}

impl CorePerformanceClass {
    pub fn label(self) -> (r: &'static str)
        ensures
            self is Control ==> r@ == "control"@,
            self is Performance ==> r@ == "performance"@,
            self is Efficiency ==> r@ == "efficiency"@,
            self is Device ==> r@ == "device"@,
            self is Unknown ==> r@ == "unknown"@,
    {
        match self {
            CorePerformanceClass::Control => "control",
            CorePerformanceClass::Performance => "performance",
            CorePerformanceClass::Efficiency => "efficiency",
            CorePerformanceClass::Device => "device",
            CorePerformanceClass::Unknown => "unknown",
        }
    }
}

/// Static description of what a core can do.
#[derive(Clone, Copy, Debug, PartialEq, Eq, Structural)]
pub struct CoreCapabilitySet {
    pub isa: CoreIsa,
    pub performance_class: CorePerformanceClass,
    pub local_timer: bool,
    pub ipi: bool,
    pub directed_irq: bool,
    pub shared_memory_atomics: bool,
}

impl CoreCapabilitySet {
    /// A core of the given kind with no optional features.
    pub fn new(isa: CoreIsa, performance_class: CorePerformanceClass) -> (r: Self)
        ensures
            r == (CoreCapabilitySet {
                isa,
                performance_class,
                local_timer: false,
                ipi: false,
                directed_irq: false,
                shared_memory_atomics: false,
            }),
    {
        CoreCapabilitySet {
            isa,
            performance_class,
            local_timer: false,
            ipi: false,
            directed_irq: false,
            shared_memory_atomics: false,
        }
    }

    pub fn with_local_timer(self, enabled: bool) -> (r: Self)
        ensures
            r == (CoreCapabilitySet { local_timer: enabled, ..self }),
    {
        let mut next = self;
        next.local_timer = enabled;
        next
    }

    pub fn with_ipi(self, enabled: bool) -> (r: Self)
        ensures
            r == (CoreCapabilitySet { ipi: enabled, ..self }),
    {
        let mut next = self;
        next.ipi = enabled;
        next
    }

    pub fn with_directed_irq(self, enabled: bool) -> (r: Self)
        ensures
            r == (CoreCapabilitySet { directed_irq: enabled, ..self }),
    {
        let mut next = self;
        next.directed_irq = enabled;
        next
    }

    pub fn with_shared_memory_atomics(self, enabled: bool) -> (r: Self)
        ensures
            r == (CoreCapabilitySet { shared_memory_atomics: enabled, ..self }),
    {
        let mut next = self;
        next.shared_memory_atomics = enabled;
        next
    }

    pub fn isa(self) -> (r: CoreIsa)
        ensures
            r == self.isa,
    {
        self.isa
    }

    pub fn performance_class(self) -> (r: CorePerformanceClass)
        ensures
            r == self.performance_class,
    {
        self.performance_class
    }

    pub fn has_local_timer(self) -> (r: bool)
        ensures
            r == self.local_timer,
    {
        self.local_timer
    }

    pub fn supports_ipi(self) -> (r: bool)
        ensures
            r == self.ipi,
    {
        self.ipi
    }

    pub fn supports_directed_irq(self) -> (r: bool)
        ensures
            r == self.directed_irq,
    {
        self.directed_irq
    }

    pub fn supports_shared_memory_atomics(self) -> (r: bool)
        ensures
            r == self.shared_memory_atomics,
    {
        self.shared_memory_atomics
    }
}

} // verus!
