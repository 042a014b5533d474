use platform::chip::{Sam4l, MPU_BASE, SYSTICK_BASE};
use platform::platform::{Chip, Platform};
use platform::storm::init;

#[test]
fn with_driver_finds_bound_driver() {
    let board = init("console", "gpio", "tmp006");
    let got = board.with_driver(1, |d: Option<&&str>| d.copied());
    assert_eq!(got, Some("gpio"));
    assert_eq!(board.with_driver(0, |d: Option<&&str>| d.copied()), Some("console"));
    assert_eq!(board.with_driver(2, |d: Option<&&str>| d.copied()), Some("tmp006"));
}

#[test]
fn with_driver_unknown_number_gives_none() {
    let board = init(10u32, 11u32, 12u32);
    let got = board.with_driver(99, |d: Option<&u32>| d.is_none());
    assert!(got);
    let got = Platform::with_driver(&board, 3, |d: Option<&u32>| d.copied());
    assert_eq!(got, None);
}

#[test]
fn servicing_drains_pending_interrupts() {
    let mut board = init(0u8, 1u8, 2u8);
    assert!(!board.has_pending_interrupts());
    board.raise_interrupt(5);
    board.raise_interrupt(79);
    assert!(board.has_pending_interrupts());
    board.service_pending_interrupts();
    assert!(!board.has_pending_interrupts());
    board.service_pending_interrupts();
    assert!(!board.has_pending_interrupts());
}

#[test]
fn interrupt_on_missing_line_is_ignored() {
    let mut chip = Sam4l::new();
    chip.raise_interrupt(80);
    assert!(!chip.has_pending_interrupts());
    chip.raise_interrupt(0);
    assert!(chip.has_pending_interrupts());
    chip.prepare_for_sleep();
    chip.service_pending_interrupts();
    assert!(!chip.has_pending_interrupts());
    assert_eq!(chip.mpu().base, MPU_BASE);
    assert_eq!(chip.systick().base, SYSTICK_BASE);
}
