use platform::dma::{
    DMAChannel, DMAChannelNum, DMAController, DMAPeripheral, DMAPowerDomain, DMA_BASE_ADDR,
    DMA_CHANNEL_SIZE, DMA_CONTROL_DISABLE, DMA_CONTROL_ENABLE, DMA_NUM_CHANNELS,
};
use platform::process::AppSlice;

fn num(i: usize) -> DMAChannelNum {
    DMAChannelNum::from_index(i).unwrap()
}

fn enabled_count(p: &DMAController) -> usize {
    (0..DMA_NUM_CHANNELS).filter(|&i| p.channel(num(i)).is_enabled()).count()
}

#[test]
fn channel_numbers_and_addresses() {
    for i in 0..DMA_NUM_CHANNELS {
        let n = num(i);
        assert_eq!(n.index(), i);
        assert_eq!(DMAChannel::new(n).address(), DMA_BASE_ADDR + i * DMA_CHANNEL_SIZE);
    }
    assert!(DMAChannelNum::from_index(16).is_none());
    assert_eq!(DMAChannel::new(DMAChannelNum::DMAChannel15).address(), 0x400A23C0);
}

#[test]
fn peripheral_ids() {
    assert_eq!(DMAPeripheral::USART0_RX.id(), 0);
    assert_eq!(DMAPeripheral::CATB_RX.id(), 12);
    assert_eq!(DMAPeripheral::IISC_CH0_RX.id(), 14);
    assert_eq!(DMAPeripheral::USART3_TX.id(), 21);
    assert_eq!(DMAPeripheral::LCDCA_ABMDR_TX.id(), 38);
}

#[test]
fn first_enable_powers_domain_last_disable_unpowers() {
    let mut d = DMAPowerDomain::new();
    let mut a = DMAChannel::new(DMAChannelNum::DMAChannel00);
    let mut b = DMAChannel::new(DMAChannelNum::DMAChannel01);
    assert!(!d.is_powered());
    a.enable(&mut d);
    assert!(d.is_powered());
    assert_eq!(d.num_enabled(), 1);
    b.enable(&mut d);
    assert_eq!(d.num_enabled(), 2);
    a.disable(&mut d);
    assert!(d.is_powered());
    assert_eq!(d.num_enabled(), 1);
    assert_eq!(a.registers().control, DMA_CONTROL_DISABLE);
    b.disable(&mut d);
    assert!(!d.is_powered());
    assert_eq!(d.num_enabled(), 0);
}

#[test]
fn channel_enable_disable_idempotent() {
    let mut d = DMAPowerDomain::new();
    let mut a = DMAChannel::new(DMAChannelNum::DMAChannel04);
    a.enable(&mut d);
    a.enable(&mut d);
    assert!(a.is_enabled());
    assert_eq!(d.num_enabled(), 1);
    a.disable(&mut d);
    a.disable(&mut d);
    assert!(!a.is_enabled());
    assert_eq!(d.num_enabled(), 0);
    assert!(!d.is_powered());
}

#[test]
fn counter_tracks_enabled_channels_over_a_sequence() {
    let mut p = DMAController::new();
    let steps: [(usize, bool); 12] = [
        (0, true), (5, true), (5, true), (15, true), (0, false), (7, false),
        (15, false), (3, true), (5, false), (3, false), (9, true), (9, false),
    ];
    for &(i, on) in steps.iter() {
        if on {
            p.enable(num(i));
        } else {
            p.disable(num(i));
        }
        let count = enabled_count(&p);
        assert_eq!(p.power_domain().num_enabled(), count);
        assert_eq!(p.power_domain().is_powered(), count > 0);
    }
    assert!(!p.power_domain().is_powered());
}

#[test]
fn all_sixteen_channels_enabled() {
    let mut p = DMAController::new();
    for i in 0..DMA_NUM_CHANNELS {
        p.enable(num(i));
    }
    assert_eq!(p.power_domain().num_enabled(), 16);
    for i in 0..DMA_NUM_CHANNELS {
        p.disable(num(i));
        assert_eq!(p.power_domain().is_powered(), i < 15);
    }
}

fn check_xfer(base: usize, len: usize) {
    let mut p = DMAController::new();
    let n = DMAChannelNum::DMAChannel06;
    p.enable(n);
    let s = AppSlice::new(base, len).unwrap();
    let pid = DMAPeripheral::SPI_TX.id();
    p.do_xfer(n, pid, &s);
    let ch = p.channel(n);
    assert_eq!(ch.registers().transfer_counter, len);
    assert_eq!(ch.registers().memory_address, base);
    assert_eq!(ch.registers().peripheral_select, 22);
    assert_eq!(ch.registers().control, DMA_CONTROL_ENABLE);
    assert_eq!(ch.client(), Some(22));
    assert!(ch.is_enabled());
}

#[test]
fn transfer_of_empty_region() {
    check_xfer(0x2000_0000, 0);
}

#[test]
fn transfer_of_one_byte() {
    check_xfer(0x2000_0400, 1);
}

#[test]
fn transfer_of_large_region() {
    check_xfer(0x2000_1000, 65536);
}

#[test]
fn app_slice_must_fit_address_space() {
    assert!(AppSlice::new(usize::MAX, 1).is_some());
    assert!(AppSlice::new(usize::MAX, 2).is_none());
    assert!(AppSlice::new(usize::MAX, 0).is_some());
    let s = AppSlice::new(16, 32).unwrap();
    assert_eq!(s.base(), 16);
    assert_eq!(s.len(), 32);
}
