use vstd::prelude::*;

verus! {

/// The I/O ports the early boot path may touch: the COM1 UART, the two
/// 8259 interrupt controllers and the interval timer.
#[derive(Clone, Copy, Debug, PartialEq, Eq, Structural)]
pub enum AdmittedPort {
    Data,
    InterruptEnable,
    FifoControl,
    LineControl,
    ModemControl,
    LineStatus,
    PicMasterCommand,
    PicMasterData,
    PicSlaveCommand,
    PicSlaveData,
    PitChannel0,
    PitCommand,
}

/// The port number of `port`.
pub open spec fn port_address(port: AdmittedPort) -> u16 {
    match port {
        AdmittedPort::Data => 0x3f8,
        AdmittedPort::InterruptEnable => 0x3f9,
        AdmittedPort::FifoControl => 0x3fa,
        AdmittedPort::LineControl => 0x3fb,
        AdmittedPort::ModemControl => 0x3fc,
        AdmittedPort::LineStatus => 0x3fd,
        AdmittedPort::PicMasterCommand => 0x20,
        AdmittedPort::PicMasterData => 0x21,
        AdmittedPort::PicSlaveCommand => 0xa0,
        AdmittedPort::PicSlaveData => 0xa1,
        AdmittedPort::PitChannel0 => 0x40,
        AdmittedPort::PitCommand => 0x43,
    }
}

impl AdmittedPort {
    pub fn address(self) -> (r: u16)
        ensures
            r == port_address(self),
    {
        match self {
            AdmittedPort::Data => 0x3f8,
            AdmittedPort::InterruptEnable => 0x3f9,
            AdmittedPort::FifoControl => 0x3fa,
            AdmittedPort::LineControl => 0x3fb,
            AdmittedPort::ModemControl => 0x3fc,
            AdmittedPort::LineStatus => 0x3fd,
            AdmittedPort::PicMasterCommand => 0x20,
            AdmittedPort::PicMasterData => 0x21,
            AdmittedPort::PicSlaveCommand => 0xa0,
            AdmittedPort::PicSlaveData => 0xa1,
            AdmittedPort::PitChannel0 => 0x40,
            AdmittedPort::PitCommand => 0x43,
        }
    }
}

/// A handle on one admitted port; only admitted ports can be named.
#[derive(Clone, Copy, Debug, PartialEq, Eq, Structural)]
pub struct Port {
    admitted: AdmittedPort,
}

impl Port {
    pub closed spec fn spec_admitted(self) -> AdmittedPort {
        self.admitted
    }

    pub fn new(admitted: AdmittedPort) -> (r: Self)
        ensures
            r.spec_admitted() == admitted,
    {
        Port { admitted }
    }

    pub fn admitted(self) -> (r: AdmittedPort)
        ensures
            r == self.spec_admitted(),
    {
        self.admitted
    }

    /// The port number this handle reads and writes.
    pub fn address(self) -> (r: u16)
        ensures
            r == port_address(self.spec_admitted()),
    {
        self.admitted.address()
    }
}

/// Every admitted port is a UART register of COM1, a register of one of the
/// two interrupt controllers or a timer register.
pub proof fn lemma_admitted_ports_are_early_boot_devices(port: AdmittedPort)
    ensures
        0x3f8 <= port_address(port) <= 0x3fd || port_address(port) == 0x20 || port_address(port) == 0x21
            || port_address(port) == 0xa0 || port_address(port) == 0xa1 || port_address(port) == 0x40
            || port_address(port) == 0x43,
{
}

} // verus!
