use vstd::prelude::*;

use crate::abi::IrqLine;
use crate::arch::InterruptError;
use crate::x86_64::port::AdmittedPort;

verus! {

/// Legacy line of the interval timer.
pub const TIMER_IRQ: u32 = 0;

/// Vector the timer line is remapped to.
pub const TIMER_VECTOR: u8 = 0x20;

/// PIT command: channel 0, low then high byte, mode 2 (rate generator).
pub const PIT_COMMAND_CHANNEL0_LO_HI_MODE2: u8 = 0x34;

/// PIT divisor for a 100 Hz tick.
pub const PIT_DIVISOR_100HZ: u16 = 11932;

/// Ticks the timer smoke test waits for.
pub const TIMER_SMOKE_TARGET_TICKS: u64 = 3;

/// Vector, line, target and observed ticks of the smoke timer.
#[derive(Clone, Copy, Debug, PartialEq, Eq, Structural)]
pub struct TimerStatus {
    pub vector: u8,
    pub irq: IrqLine,
    pub target_ticks: u64,
    pub ticks: u64,
}

/// Why the smoke timer could not start.
#[derive(Clone, Copy, Debug, PartialEq, Eq, Structural)]
pub enum TimerError {
    IdtInstallFailed,
    InterruptController(InterruptError),
}

/// The timer status with `ticks` observed ticks.
pub fn status(ticks: u64) -> (r: TimerStatus)
    ensures
        r.vector == TIMER_VECTOR,
        r.irq.0 == TIMER_IRQ,
        r.target_ticks == TIMER_SMOKE_TARGET_TICKS,
        r.ticks == ticks,
{
    TimerStatus {
        vector: TIMER_VECTOR,
        irq: IrqLine::new(TIMER_IRQ),
        target_ticks: TIMER_SMOKE_TARGET_TICKS,
        ticks,
    }
}

pub fn target_ticks() -> (r: u64)
    ensures
        r == TIMER_SMOKE_TARGET_TICKS,
{
    TIMER_SMOKE_TARGET_TICKS
}

/// The port writes that program channel 0 as a 100 Hz rate generator: the
/// command, then the divisor's low and high bytes.
pub fn pit_channel0_writes() -> (r: Vec<(AdmittedPort, u8)>)
    ensures
        r@ == seq![
            (AdmittedPort::PitCommand, PIT_COMMAND_CHANNEL0_LO_HI_MODE2),
            (AdmittedPort::PitChannel0, (PIT_DIVISOR_100HZ % 256) as u8),
            (AdmittedPort::PitChannel0, (PIT_DIVISOR_100HZ / 256) as u8),
        ],
{
    let low: u8 = (PIT_DIVISOR_100HZ % 256) as u8;
    let high: u8 = (PIT_DIVISOR_100HZ / 256) as u8;
    let mut writes: Vec<(AdmittedPort, u8)> = Vec::new();
    writes.push((AdmittedPort::PitCommand, PIT_COMMAND_CHANNEL0_LO_HI_MODE2));
    writes.push((AdmittedPort::PitChannel0, low));
    writes.push((AdmittedPort::PitChannel0, high));
    writes
}

/// What a timer interrupt does at tick `tick` (counting from one).
#[derive(Clone, Copy, Debug, PartialEq, Eq, Structural)]
pub struct TimerTickAction {
    /// Report the tick.
    pub log_tick: bool,
    /// Mask the timer line and report the smoke test passed.
    pub finish_smoke: bool,
}

/// Ticks up to the target are reported; the target tick ends the smoke
/// test. Every tick is acknowledged either way.
pub fn tick_action(tick: u64) -> (r: TimerTickAction)
    ensures
        r.log_tick == (tick <= TIMER_SMOKE_TARGET_TICKS),
        r.finish_smoke == (tick == TIMER_SMOKE_TARGET_TICKS),
{
    TimerTickAction {
        log_tick: tick <= TIMER_SMOKE_TARGET_TICKS,
        finish_smoke: tick == TIMER_SMOKE_TARGET_TICKS,
    }
}

} // verus!
