use platform::clock::{PeripheralClock, ClockInterface};
use platform::mmio::MMIOManager;
use platform::nrf51::{Rtc, RTC1};

fn quiet_rtc() -> RTC1 {
    RTC1 {
        tasks_start: 0,
        tasks_stop: 0,
        tasks_clear: 0,
        tasks_trigovrflw: 0,
        events_tick: 0,
        events_ovrflw: 0,
        events_compare: [0; 4],
        intenset: 0,
        intenclr: 0,
        evten: 0,
        evtenset: 0,
        evtenclr: 0,
        counter: 0,
        prescaler: 0,
        cc: [0; 4],
        power: 1,
    }
}

#[test]
fn clock_enable_disable() {
    let mut c = PeripheralClock::new(7, false);
    assert!(!c.is_enabled());
    c.enable();
    assert!(c.is_enabled());
    assert_eq!(c.id, 7);
    c.disable();
    assert!(!c.is_enabled());
}

#[test]
fn clock_enable_twice_same_as_once() {
    let mut once = PeripheralClock::new(3, false);
    once.enable();
    let mut twice = PeripheralClock::new(3, false);
    twice.enable();
    twice.enable();
    assert!(once == twice);
    once.disable();
    twice.disable();
    twice.disable();
    assert!(once == twice);
}

#[test]
fn view_turns_clock_on_and_back_off() {
    let mut rtc = Rtc { registers: quiet_rtc(), clock: PeripheralClock::new(1, false) };
    for round in 0..3u32 {
        let mut view = MMIOManager::new(&mut rtc);
        assert!(view.periphal_hardware.clock.enabled);
        view.registers().prescaler = round;
        view.release();
        assert!(!rtc.clock.enabled);
        assert_eq!(rtc.registers.prescaler, round);
    }
}

#[test]
fn armed_interrupt_keeps_clock_on() {
    let mut rtc = Rtc { registers: quiet_rtc(), clock: PeripheralClock::new(1, false) };
    let mut view = MMIOManager::new(&mut rtc);
    view.registers().intenset = 0x2;
    view.release();
    assert!(rtc.clock.enabled);
    assert_eq!(rtc.registers.intenset, 0x2);
}

#[test]
fn armed_interrupt_keeps_running_clock_on() {
    let mut regs = quiet_rtc();
    regs.intenset = 0x1;
    let mut rtc = Rtc { registers: regs, clock: PeripheralClock::new(1, true) };
    let view = MMIOManager::new(&mut rtc);
    view.release();
    assert!(rtc.clock.enabled);
}

#[test]
fn running_clock_stops_when_registers_allow() {
    let mut rtc = Rtc { registers: quiet_rtc(), clock: PeripheralClock::new(1, true) };
    let view = MMIOManager::new(&mut rtc);
    view.release();
    assert!(!rtc.clock.enabled);
}
