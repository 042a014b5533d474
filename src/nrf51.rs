use vstd::prelude::*;

use crate::clock::{PeripheralClock, ClockInterface};
use crate::mmio::MMIOInterface;

verus! {

/// Base address of the RTC1 register block.
pub const RTC1_BASE: usize = 0x40011000;

/// Base address of the GPIO register block.
pub const GPIO_BASE: usize = 0x50000000;

/// Registers of the real-time counter RTC1.
#[derive(Clone, Copy)]
pub struct RTC1 {
    pub tasks_start: u32,
    pub tasks_stop: u32,
    pub tasks_clear: u32,
    pub tasks_trigovrflw: u32,
    pub events_tick: u32,
    pub events_ovrflw: u32,
    pub events_compare: [u32; 4],
    pub intenset: u32,
    pub intenclr: u32,
    pub evten: u32,
    pub evtenset: u32,
    pub evtenclr: u32,
    pub counter: u32,
    pub prescaler: u32,
    pub cc: [u32; 4],
    pub power: u32,
}

/// Registers of the GPIO port.
#[derive(Clone, Copy)]
pub struct GPIO {
    pub out: u32,
    pub outset: u32,
    pub outclr: u32,
    pub in_: u32,
    pub dir: u32,
    pub dirset: u32,
    pub dirclr: u32,
    pub pin_cnf: [u32; 32],
}

/// The RTC1 peripheral: its register block and the clock that feeds
/// it. Its clock may stop only while no RTC interrupt is armed, since a
/// stopped counter would never raise it.
pub struct Rtc {
    pub registers: RTC1,
    pub clock: PeripheralClock,
}

impl MMIOInterface for Rtc {
    type MMIORegisterType = RTC1;
    type MMIOClockType = PeripheralClock;

    open spec fn registers_spec(&self) -> RTC1 {
        self.registers
    }

    open spec fn clock_spec(&self) -> PeripheralClock {
        self.clock
    }

    open spec fn clock_may_stop(regs: RTC1) -> bool {
        regs.intenset == 0
    }

    fn get_hardware_address(&mut self) -> (r: &mut RTC1) {
        &mut self.registers
    }

    fn registers(&self) -> (r: &RTC1) {
        &self.registers
    }

    fn get_clock(&mut self) -> (r: &mut PeripheralClock) {
        &mut self.clock
    }

    fn can_disable_clock(&self, regs: &RTC1) -> (r: bool) {
        regs.intenset == 0
    }
}

} // verus!
