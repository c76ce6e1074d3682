use vstd::prelude::*;

use crate::x86_64::port::AdmittedPort;

verus! {

/// Line control: divisor latch access.
pub const DLAB: u8 = 0x80;

/// Line control: eight data bits, no parity, one stop bit.
pub const EIGHT_BITS_NO_PARITY_ONE_STOP: u8 = 0x03;

/// FIFO control: enable and clear, 14-byte threshold.
pub const FIFO_ENABLE_CLEAR: u8 = 0xc7;

/// Modem control: DTR, RTS and OUT2.
pub const MODEM_READY: u8 = 0x0b;

/// Line status: transmit holding register empty.
pub const TRANSMIT_EMPTY: u8 = 0x20;

/// Divisor low byte for 38400 baud.
pub const DIVISOR_LOW_38400_BAUD: u8 = 0x03;

/// Divisor high byte for 38400 baud.
pub const DIVISOR_HIGH_38400_BAUD: u8 = 0x00;

/// Status polls before a byte is given up.
pub const MAX_TRANSMIT_POLLS: u32 = 1_000_000;

/// The COM1 UART of the boot core.
#[derive(Clone, Copy, Debug, PartialEq, Eq, Structural)]
pub struct Com1;

impl Com1 {
    pub fn new() -> (r: Self)
        ensures
            r == Com1,
    {
        Com1
    }
}

impl Default for Com1 {
    fn default() -> (r: Self)
        ensures
            r == Com1,
    {
        Com1
    }
}

/// Why a write did not complete.
#[derive(Clone, Copy, Debug, PartialEq, Eq, Structural)]
pub enum SerialError {
    TransmitTimeout,
}

/// The register writes that set COM1 to 38400 baud, 8N1, FIFOs on,
/// interrupts off.
pub fn init_writes() -> (r: Vec<(AdmittedPort, u8)>)
    ensures
        r@ == seq![
            (AdmittedPort::InterruptEnable, 0u8),
            (AdmittedPort::LineControl, DLAB),
            (AdmittedPort::Data, DIVISOR_LOW_38400_BAUD),
            (AdmittedPort::InterruptEnable, DIVISOR_HIGH_38400_BAUD),
            (AdmittedPort::LineControl, EIGHT_BITS_NO_PARITY_ONE_STOP),
            (AdmittedPort::FifoControl, FIFO_ENABLE_CLEAR),
            (AdmittedPort::ModemControl, MODEM_READY),
        ],
{
    let mut writes: Vec<(AdmittedPort, u8)> = Vec::new();
    writes.push((AdmittedPort::InterruptEnable, 0u8));
    writes.push((AdmittedPort::LineControl, DLAB));
    writes.push((AdmittedPort::Data, DIVISOR_LOW_38400_BAUD));
    writes.push((AdmittedPort::InterruptEnable, DIVISOR_HIGH_38400_BAUD));
    writes.push((AdmittedPort::LineControl, EIGHT_BITS_NO_PARITY_ONE_STOP));
    writes.push((AdmittedPort::FifoControl, FIFO_ENABLE_CLEAR));
    writes.push((AdmittedPort::ModemControl, MODEM_READY));
    writes
}

/// One step of waiting to send a byte.
#[derive(Clone, Copy, Debug, PartialEq, Eq, Structural)]
pub enum TransmitPoll {
    /// The transmitter is empty: send the byte.
    Send,
    /// Poll again; this many polls have been made.
    Wait(u32),
    /// The poll bound is reached.
    TimedOut,
}

/// What to do after reading `line_status` with `polls` polls made.
pub fn transmit_poll(line_status: u8, polls: u32) -> (r: TransmitPoll)
    ensures
        line_status & TRANSMIT_EMPTY != 0 ==> r is Send,
        line_status & TRANSMIT_EMPTY == 0 && polls >= MAX_TRANSMIT_POLLS ==> r is TimedOut,
        line_status & TRANSMIT_EMPTY == 0 && polls < MAX_TRANSMIT_POLLS ==> r == TransmitPoll::Wait(
            (polls + 1) as u32,
        ),
{
    if line_status & TRANSMIT_EMPTY != 0 {
        TransmitPoll::Send
    } else if polls >= MAX_TRANSMIT_POLLS {
        TransmitPoll::TimedOut
    } else {
        TransmitPoll::Wait(polls + 1)
    }
}

/// The bytes put on the wire for `text`: each line feed is preceded by a
/// carriage return.
pub open spec fn wire_bytes(text: Seq<u8>) -> Seq<u8>
    decreases text.len(),
{
    if text.len() == 0 {
        seq![]
    } else {
        let rest = wire_bytes(text.drop_last());
        if text.last() == 10u8 {
            rest.push(13u8).push(10u8)
        } else {
            rest.push(text.last())
        }
    }
}

/// The bytes to send for `text`.
pub fn ascii_wire_bytes(text: &[u8]) -> (r: Vec<u8>)
    ensures
        r@ == wire_bytes(text@),
{
    let mut out: Vec<u8> = Vec::new();
    let mut index: usize = 0;
    while index < text.len()
        invariant
            index <= text@.len(),
            out@ == wire_bytes(text@.take(index as int)),
        decreases text@.len() - index,
    {
        let byte = text[index];
        proof {
            assert(text@.take(index as int + 1).drop_last() == text@.take(index as int));
        }
        if byte == 10u8 {
            out.push(13u8);
        }
        out.push(byte);
        index += 1;
    }
    proof {
        assert(text@.take(text@.len() as int) == text@);
    }
    out
}

} // verus!
