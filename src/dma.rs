use vstd::prelude::*;

use crate::clock::{PeripheralClock, ClockInterface};
use crate::process::AppSlice;

verus! {

/// Base address of the DMA controller's register space.
pub const DMA_BASE_ADDR: usize = 0x400A2000;

/// Number of bytes between the register blocks of two consecutive channels.
pub const DMA_CHANNEL_SIZE: usize = 0x40;

/// Number of hardware DMA channels.
pub const DMA_NUM_CHANNELS: usize = 16;

/// Control register value that arms a transfer.
pub const DMA_CONTROL_ENABLE: usize = 0x1;

/// Control register value that stops the channel.
pub const DMA_CONTROL_DISABLE: usize = 0x2;

/// Number of the DMA controller's clock on the high-speed bus.
pub const HSB_PDCA_CLOCK: usize = 1;

/// Number of the DMA controller's clock on the peripheral bus.
pub const PBB_PDCA_CLOCK: usize = 2;

/// A hardware DMA channel. Each channel moves data between memory and one
/// peripheral function at a time.
#[derive(Clone, Copy, PartialEq, Eq, Structural)]
pub enum DMAChannelNum {
    DMAChannel00,
    DMAChannel01,
    DMAChannel02,
    DMAChannel03,
    DMAChannel04,
    DMAChannel05,
    DMAChannel06,
    DMAChannel07,
    DMAChannel08,
    DMAChannel09,
    DMAChannel10,
    DMAChannel11,
    DMAChannel12,
    DMAChannel13,
    DMAChannel14,
    DMAChannel15,
}

impl DMAChannelNum {
    /// The hardware number of the channel.
    pub open spec fn spec_index(self) -> nat {
        match self {
            DMAChannelNum::DMAChannel00 => 0,
            DMAChannelNum::DMAChannel01 => 1,
            DMAChannelNum::DMAChannel02 => 2,
            DMAChannelNum::DMAChannel03 => 3,
            DMAChannelNum::DMAChannel04 => 4,
            DMAChannelNum::DMAChannel05 => 5,
            DMAChannelNum::DMAChannel06 => 6,
            DMAChannelNum::DMAChannel07 => 7,
            DMAChannelNum::DMAChannel08 => 8,
            DMAChannelNum::DMAChannel09 => 9,
            DMAChannelNum::DMAChannel10 => 10,
            DMAChannelNum::DMAChannel11 => 11,
            DMAChannelNum::DMAChannel12 => 12,
            DMAChannelNum::DMAChannel13 => 13,
            DMAChannelNum::DMAChannel14 => 14,
            DMAChannelNum::DMAChannel15 => 15,
        }
    }

    pub fn index(self) -> (r: usize)
        ensures
            r == self.spec_index(),
            r < DMA_NUM_CHANNELS,
    {
        match self {
            DMAChannelNum::DMAChannel00 => 0,
            DMAChannelNum::DMAChannel01 => 1,
            DMAChannelNum::DMAChannel02 => 2,
            DMAChannelNum::DMAChannel03 => 3,
            DMAChannelNum::DMAChannel04 => 4,
            DMAChannelNum::DMAChannel05 => 5,
            DMAChannelNum::DMAChannel06 => 6,
            DMAChannelNum::DMAChannel07 => 7,
            DMAChannelNum::DMAChannel08 => 8,
            DMAChannelNum::DMAChannel09 => 9,
            DMAChannelNum::DMAChannel10 => 10,
            DMAChannelNum::DMAChannel11 => 11,
            DMAChannelNum::DMAChannel12 => 12,
            DMAChannelNum::DMAChannel13 => 13,
            DMAChannelNum::DMAChannel14 => 14,
            DMAChannelNum::DMAChannel15 => 15,
        }
    }

    /// The channel with hardware number `i`, if there is one.
    pub fn from_index(i: usize) -> (r: Option<DMAChannelNum>)
        ensures
            r is Some <==> i < DMA_NUM_CHANNELS,
            r matches Some(n) ==> n.spec_index() == i,
    {
        match i {
            0 => Some(DMAChannelNum::DMAChannel00),
            1 => Some(DMAChannelNum::DMAChannel01),
            2 => Some(DMAChannelNum::DMAChannel02),
            3 => Some(DMAChannelNum::DMAChannel03),
            4 => Some(DMAChannelNum::DMAChannel04),
            5 => Some(DMAChannelNum::DMAChannel05),
            6 => Some(DMAChannelNum::DMAChannel06),
            7 => Some(DMAChannelNum::DMAChannel07),
            8 => Some(DMAChannelNum::DMAChannel08),
            9 => Some(DMAChannelNum::DMAChannel09),
            10 => Some(DMAChannelNum::DMAChannel10),
            11 => Some(DMAChannelNum::DMAChannel11),
            12 => Some(DMAChannelNum::DMAChannel12),
            13 => Some(DMAChannelNum::DMAChannel13),
            14 => Some(DMAChannelNum::DMAChannel14),
            15 => Some(DMAChannelNum::DMAChannel15),
            _ => None,
        }
    }
}

/// The peripheral function a channel serves. `_RX` moves data from the
/// peripheral to memory, `_TX` from memory to the peripheral.
#[allow(non_camel_case_types)]
#[derive(Clone, Copy, PartialEq, Eq, Structural)]
pub enum DMAPeripheral {
    USART0_RX,
    USART1_RX,
    USART2_RX,
    USART3_RX,
    SPI_RX,
    TWIM0_RX,
    TWIM1_RX,
    TWIM2_RX,
    TWIM3_RX,
    TWIS0_RX,
    TWIS1_RX,
    ADCIFE_RX,
    CATB_RX,
    IISC_CH0_RX,
    IISC_CH1_RX,
    PARC_RX,
    AESA_RX,
    USART0_TX,
    USART1_TX,
    USART2_TX,
    USART3_TX,
    SPI_TX,
    TWIM0_TX,
    TWIM1_TX,
    TWIM2_TX,
    TWIM3_TX,
    TWIS0_TX,
    TWIS1_TX,
    ADCIFE_TX,
    CATB_TX,
    ABDACB_SDR0_TX,
    ABDACB_SDR1_TX,
    IISC_CH0_TX,
    IISC_CH1_TX,
    DACC_TX,
    AESA_TX,
    LCDCA_ACMDR_TX,
    LCDCA_ABMDR_TX,
}

impl DMAPeripheral {
    /// The value that selects this function in a channel's
    /// `peripheral_select` register.
    pub open spec fn spec_id(self) -> nat {
        match self {
            DMAPeripheral::USART0_RX => 0,
            DMAPeripheral::USART1_RX => 1,
            DMAPeripheral::USART2_RX => 2,
            DMAPeripheral::USART3_RX => 3,
            DMAPeripheral::SPI_RX => 4,
            DMAPeripheral::TWIM0_RX => 5,
            DMAPeripheral::TWIM1_RX => 6,
            DMAPeripheral::TWIM2_RX => 7,
            DMAPeripheral::TWIM3_RX => 8,
            DMAPeripheral::TWIS0_RX => 9,
            DMAPeripheral::TWIS1_RX => 10,
            DMAPeripheral::ADCIFE_RX => 11,
            DMAPeripheral::CATB_RX => 12,
            DMAPeripheral::IISC_CH0_RX => 14,
            DMAPeripheral::IISC_CH1_RX => 15,
            DMAPeripheral::PARC_RX => 16,
            DMAPeripheral::AESA_RX => 17,
            DMAPeripheral::USART0_TX => 18,
            DMAPeripheral::USART1_TX => 19,
            DMAPeripheral::USART2_TX => 20,
            DMAPeripheral::USART3_TX => 21,
            DMAPeripheral::SPI_TX => 22,
            DMAPeripheral::TWIM0_TX => 23,
            DMAPeripheral::TWIM1_TX => 24,
            DMAPeripheral::TWIM2_TX => 25,
            DMAPeripheral::TWIM3_TX => 26,
            DMAPeripheral::TWIS0_TX => 27,
            DMAPeripheral::TWIS1_TX => 28,
            DMAPeripheral::ADCIFE_TX => 29,
            DMAPeripheral::CATB_TX => 30,
            DMAPeripheral::ABDACB_SDR0_TX => 31,
            DMAPeripheral::ABDACB_SDR1_TX => 32,
            DMAPeripheral::IISC_CH0_TX => 33,
            DMAPeripheral::IISC_CH1_TX => 34,
            DMAPeripheral::DACC_TX => 35,
            DMAPeripheral::AESA_TX => 36,
            DMAPeripheral::LCDCA_ACMDR_TX => 37,
            DMAPeripheral::LCDCA_ABMDR_TX => 38,
        }
    }

    pub fn id(self) -> (r: usize)
        ensures
            r == self.spec_id(),
    {
        match self {
            DMAPeripheral::USART0_RX => 0,
            DMAPeripheral::USART1_RX => 1,
            DMAPeripheral::USART2_RX => 2,
            DMAPeripheral::USART3_RX => 3,
            DMAPeripheral::SPI_RX => 4,
            DMAPeripheral::TWIM0_RX => 5,
            DMAPeripheral::TWIM1_RX => 6,
            DMAPeripheral::TWIM2_RX => 7,
            DMAPeripheral::TWIM3_RX => 8,
            DMAPeripheral::TWIS0_RX => 9,
            DMAPeripheral::TWIS1_RX => 10,
            DMAPeripheral::ADCIFE_RX => 11,
            DMAPeripheral::CATB_RX => 12,
            DMAPeripheral::IISC_CH0_RX => 14,
            DMAPeripheral::IISC_CH1_RX => 15,
            DMAPeripheral::PARC_RX => 16,
            DMAPeripheral::AESA_RX => 17,
            DMAPeripheral::USART0_TX => 18,
            DMAPeripheral::USART1_TX => 19,
            DMAPeripheral::USART2_TX => 20,
            DMAPeripheral::USART3_TX => 21,
            DMAPeripheral::SPI_TX => 22,
            DMAPeripheral::TWIM0_TX => 23,
            DMAPeripheral::TWIM1_TX => 24,
            DMAPeripheral::TWIM2_TX => 25,
            DMAPeripheral::TWIM3_TX => 26,
            DMAPeripheral::TWIS0_TX => 27,
            DMAPeripheral::TWIS1_TX => 28,
            DMAPeripheral::ADCIFE_TX => 29,
            DMAPeripheral::CATB_TX => 30,
            DMAPeripheral::ABDACB_SDR0_TX => 31,
            DMAPeripheral::ABDACB_SDR1_TX => 32,
            DMAPeripheral::IISC_CH0_TX => 33,
            DMAPeripheral::IISC_CH1_TX => 34,
            DMAPeripheral::DACC_TX => 35,
            DMAPeripheral::AESA_TX => 36,
            DMAPeripheral::LCDCA_ACMDR_TX => 37,
            DMAPeripheral::LCDCA_ABMDR_TX => 38,
        }
    }
}

/// The register block of one DMA channel.
#[derive(Clone, Copy, PartialEq, Eq, Structural)]
pub struct DMARegisters {
    pub memory_address: usize,
    pub peripheral_select: usize,
    pub transfer_counter: usize,
    pub memory_address_reload: usize,
    pub transfer_counter_reload: usize,
    pub control: usize,
    pub mode: usize,
    pub status: usize,
    pub interrupt_enable: usize,
    pub interrupt_disable: usize,
    pub interrupt_mask: usize,
    pub interrupt_status: usize,
    pub version: usize,
}

impl DMARegisters {
    /// A register block in its reset state, all registers cleared.
    pub open spec fn reset_spec() -> DMARegisters {
        DMARegisters {
            memory_address: 0,
            peripheral_select: 0,
            transfer_counter: 0,
            memory_address_reload: 0,
            transfer_counter_reload: 0,
            control: 0,
            mode: 0,
            status: 0,
            interrupt_enable: 0,
            interrupt_disable: 0,
            interrupt_mask: 0,
            interrupt_status: 0,
            version: 0,
        }
    }
}

/// What a DMA channel holds: its register block, its hardware number, the
/// peripheral function it serves, and whether it is enabled.
pub struct DMAChannelView {
    pub registers: DMARegisters,
    pub num: DMAChannelNum,
    pub client: Option<usize>,
    pub enabled: bool,
}

/// The state shared by all channels: how many are enabled, and the two
/// clocks that power the DMA controller.
pub struct DMAPowerDomainView {
    pub num_enabled: nat,
    pub hsb: PeripheralClock,
    pub pbb: PeripheralClock,
}

impl DMAPowerDomainView {
    /// Both clocks of the controller run.
    pub open spec fn powered(self) -> bool {
        self.hsb.enabled && self.pbb.enabled
    }

    /// Neither clock of the controller runs.
    pub open spec fn unpowered(self) -> bool {
        !self.hsb.enabled && !self.pbb.enabled
    }
}

/// The effect of `enable` on a channel and the shared domain. An enabled
/// channel is left alone; otherwise the counter goes up by one, the first
/// channel to come up switches the domain on, and the channel is enabled.
pub open spec fn enable_step(c: DMAChannelView, d: DMAPowerDomainView) -> (DMAChannelView, DMAPowerDomainView) {
    if c.enabled {
        (c, d)
    } else {
        (
            DMAChannelView { enabled: true, ..c },
            DMAPowerDomainView {
                num_enabled: d.num_enabled + 1,
                hsb: if d.num_enabled == 0 { d.hsb.enabled_spec() } else { d.hsb },
                pbb: if d.num_enabled == 0 { d.pbb.enabled_spec() } else { d.pbb },
            },
        )
    }
}

/// The effect of `disable` on a channel and the shared domain. A disabled
/// channel is left alone; otherwise the channel's transfer is stopped, the
/// counter goes down by one, the last channel to go down switches the domain
/// off, and the channel is disabled.
pub open spec fn disable_step(c: DMAChannelView, d: DMAPowerDomainView) -> (DMAChannelView, DMAPowerDomainView) {
    if !c.enabled {
        (c, d)
    } else {
        (
            DMAChannelView {
                enabled: false,
                registers: DMARegisters { control: DMA_CONTROL_DISABLE, ..c.registers },
                ..c
            },
            DMAPowerDomainView {
                num_enabled: (d.num_enabled - 1) as nat,
                hsb: if d.num_enabled == 1 { d.hsb.disabled_spec() } else { d.hsb },
                pbb: if d.num_enabled == 1 { d.pbb.disabled_spec() } else { d.pbb },
            },
        )
    }
}

/// The effect of `do_xfer`: the channel is bound to peripheral function
/// `pid`, pointed at the region's first byte, given the region's length as
/// its transfer count, and armed.
pub open spec fn xfer_step(c: DMAChannelView, pid: usize, slice: AppSlice) -> DMAChannelView {
    DMAChannelView {
        registers: DMARegisters {
            peripheral_select: pid,
            memory_address: slice.base_spec() as usize,
            transfer_counter: slice.len_spec() as usize,
            control: DMA_CONTROL_ENABLE,
            ..c.registers
        },
        client: Some(pid),
        ..c
    }
}

/// The counter and clocks that all DMA channels share. It starts at zero
/// with the domain off and changes only through the channels' `enable` and
/// `disable`.
pub struct DMAPowerDomain {
    num_enabled: usize,
    hsb: PeripheralClock,
    pbb: PeripheralClock,
}

impl View for DMAPowerDomain {
    type V = DMAPowerDomainView;

    closed spec fn view(&self) -> DMAPowerDomainView {
        DMAPowerDomainView { num_enabled: self.num_enabled as nat, hsb: self.hsb, pbb: self.pbb }
    }
}

impl DMAPowerDomain {
    /// The domain at boot: no channel enabled, both clocks off.
    pub fn new() -> (r: DMAPowerDomain)
        ensures
            r@.num_enabled == 0,
            r@.hsb == (PeripheralClock { id: HSB_PDCA_CLOCK, enabled: false }),
            r@.pbb == (PeripheralClock { id: PBB_PDCA_CLOCK, enabled: false }),
    {
        DMAPowerDomain {
            num_enabled: 0,
            hsb: PeripheralClock::new(HSB_PDCA_CLOCK, false),
            pbb: PeripheralClock::new(PBB_PDCA_CLOCK, false),
        }
    }

    /// How many channels are enabled.
    pub fn num_enabled(&self) -> (r: usize)
        ensures
            r == self@.num_enabled,
    {
        self.num_enabled
    }

    /// Whether both clocks of the controller run.
    pub fn is_powered(&self) -> (r: bool)
        ensures
            r == self@.powered(),
    {
        self.hsb.is_enabled() && self.pbb.is_enabled()
    }
}

/// One DMA channel, owning its register block.
pub struct DMAChannel {
    registers: DMARegisters,
    num: DMAChannelNum,
    client: Option<usize>,
    enabled: bool,
}

impl View for DMAChannel {
    type V = DMAChannelView;

    closed spec fn view(&self) -> DMAChannelView {
        DMAChannelView {
            registers: self.registers,
            num: self.num,
            client: self.client,
            enabled: self.enabled,
        }
    }
}

impl DMAChannel {
    /// Address of the register block of the channel numbered `num`.
    pub open spec fn address_spec(num: DMAChannelNum) -> nat {
        (DMA_BASE_ADDR + num.spec_index() * DMA_CHANNEL_SIZE) as nat
    }

    /// The channel `channel`, disabled, with no client, its registers in
    /// their reset state.
    pub fn new(channel: DMAChannelNum) -> (r: DMAChannel)
        ensures
            r@ == (DMAChannelView {
                registers: DMARegisters::reset_spec(),
                num: channel,
                client: None,
                enabled: false,
            }),
    {
        DMAChannel {
            registers: DMARegisters {
                memory_address: 0,
                peripheral_select: 0,
                transfer_counter: 0,
                memory_address_reload: 0,
                transfer_counter_reload: 0,
                control: 0,
                mode: 0,
                status: 0,
                interrupt_enable: 0,
                interrupt_disable: 0,
                interrupt_mask: 0,
                interrupt_status: 0,
                version: 0,
            },
            num: channel,
            client: None,
            enabled: false,
        }
    }

    /// Address of this channel's register block.
    pub fn address(&self) -> (r: usize)
        ensures
            r == Self::address_spec(self@.num),
    {
        DMA_BASE_ADDR + self.num.index() * DMA_CHANNEL_SIZE
    }

    /// Enables the channel; the first channel to come up powers the shared
    /// domain. Enabling an enabled channel changes nothing. A disabled
    /// channel is not among those the domain counts, so at most fifteen are.
    pub fn enable(&mut self, domain: &mut DMAPowerDomain)
        requires
            old(self)@.enabled || old(domain)@.num_enabled < DMA_NUM_CHANNELS,
        ensures
            (final(self)@, final(domain)@) == enable_step(old(self)@, old(domain)@),
    {
        if !self.enabled {
            let num_enabled = domain.num_enabled;
            domain.num_enabled = num_enabled + 1;
            if num_enabled == 0 {
                domain.hsb.enable();
                domain.pbb.enable();
            }
            self.enabled = true;
        }
    }

    /// Disables the channel and stops its transfer; the last channel to go
    /// down powers the shared domain off. Disabling a disabled channel
    /// changes nothing. An enabled channel is among those the domain counts.
    pub fn disable(&mut self, domain: &mut DMAPowerDomain)
        requires
            !old(self)@.enabled || old(domain)@.num_enabled > 0,
        ensures
            (final(self)@, final(domain)@) == disable_step(old(self)@, old(domain)@),
    {
        if self.enabled {
            let num_enabled = domain.num_enabled;
            domain.num_enabled = num_enabled - 1;
            if num_enabled == 1 {
                domain.hsb.disable();
                domain.pbb.disable();
            }
            self.registers.control = DMA_CONTROL_DISABLE;
            self.enabled = false;
        }
    }

    /// Starts a transfer between peripheral function `pid` and the process
    /// memory `slice`: the hardware moves exactly `slice.len()` bytes from or
    /// to `slice.base()`.
    pub fn do_xfer(&mut self, pid: usize, slice: &AppSlice)
        ensures
            final(self)@ == xfer_step(old(self)@, pid, *slice),
    {
        self.registers.peripheral_select = pid;
        self.registers.memory_address = slice.base();
        self.registers.transfer_counter = slice.len();
        self.registers.control = DMA_CONTROL_ENABLE;
        self.client = Some(pid);
    }

    /// The channel's register block.
    pub fn registers(&self) -> (r: &DMARegisters)
        ensures
            *r == self@.registers,
    {
        &self.registers
    }

    /// Whether the channel is enabled.
    pub fn is_enabled(&self) -> (r: bool)
        ensures
            r == self@.enabled,
    {
        self.enabled
    }

    /// The peripheral function the channel last transferred for.
    pub fn client(&self) -> (r: Option<usize>)
        ensures
            r == self@.client,
    {
        self.client
    }
}

/// Enabling a channel twice leaves the channel and the shared domain as
/// enabling it once does; the same holds for disabling it.
pub proof fn lemma_channel_idempotent(c: DMAChannelView, d: DMAPowerDomainView)
    ensures
        enable_step(enable_step(c, d).0, enable_step(c, d).1) == enable_step(c, d),
        disable_step(disable_step(c, d).0, disable_step(c, d).1) == disable_step(c, d),
{
}

/// Number of enabled channels in `s`.
pub open spec fn count_enabled(s: Seq<DMAChannelView>) -> nat
    decreases s.len(),
{
    if s.len() == 0 {
        0
    } else {
        count_enabled(s.drop_last()) + if s.last().enabled { 1nat } else { 0nat }
    }
}

proof fn lemma_count_bounds(s: Seq<DMAChannelView>)
    ensures
        count_enabled(s) <= s.len(),
        count_enabled(s) > 0 <==> exists|i: int| 0 <= i < s.len() && (#[trigger] s[i]).enabled,
    decreases s.len(),
{
    if s.len() > 0 {
        lemma_count_bounds(s.drop_last());
        if count_enabled(s) > 0 && !s.last().enabled {
            let i = choose|i: int| 0 <= i < s.len() - 1 && (#[trigger] s.drop_last()[i]).enabled;
            assert(s[i].enabled);
        }
        if exists|i: int| 0 <= i < s.len() && (#[trigger] s[i]).enabled {
            let i = choose|i: int| 0 <= i < s.len() && (#[trigger] s[i]).enabled;
            if i < s.len() - 1 {
                assert(s.drop_last()[i].enabled);
            }
        }
    }
}

proof fn lemma_count_update(s: Seq<DMAChannelView>, i: int, c: DMAChannelView)
    requires
        0 <= i < s.len(),
    ensures
        count_enabled(s.update(i, c)) + (if s[i].enabled { 1int } else { 0int })
            == count_enabled(s) + (if c.enabled { 1int } else { 0int }),
    decreases s.len(),
{
    if i < s.len() - 1 {
        lemma_count_update(s.drop_last(), i, c);
        assert(s.update(i, c).drop_last() =~= s.drop_last().update(i, c));
    } else {
        assert(s.update(i, c).drop_last() =~= s.drop_last());
    }
}

/// The pool of all DMA channels together with the domain they share.
pub struct DMAController {
    channels: Vec<DMAChannel>,
    domain: DMAPowerDomain,
}

impl DMAController {
    /// The channels, position `i` holding channel number `i`.
    pub closed spec fn channels_spec(&self) -> Seq<DMAChannelView> {
        self.channels@.map_values(|c: DMAChannel| c@)
    }

    pub closed spec fn domain_spec(&self) -> DMAPowerDomainView {
        self.domain@
    }

    /// Every channel sits at its own number, the counter equals the number
    /// of enabled channels, and the domain is on exactly while the counter
    /// is not zero.
    pub open spec fn wf(&self) -> bool {
        let chs = self.channels_spec();
        let d = self.domain_spec();
        &&& chs.len() == DMA_NUM_CHANNELS
        &&& forall|i: int| 0 <= i < chs.len() ==> (#[trigger] chs[i]).num.spec_index() == i
        &&& d.num_enabled == count_enabled(chs)
        &&& d.hsb.enabled == (d.num_enabled > 0)
        &&& d.pbb.enabled == (d.num_enabled > 0)
    }

    /// All sixteen channels, disabled and reset, and the domain off.
    pub fn new() -> (r: DMAController)
        ensures
            r.wf(),
            r.domain_spec().num_enabled == 0,
            forall|i: int|
                0 <= i < DMA_NUM_CHANNELS ==> #[trigger] r.channels_spec()[i] == (DMAChannelView {
                    registers: DMARegisters::reset_spec(),
                    num: r.channels_spec()[i].num,
                    client: None,
                    enabled: false,
                }),
    {
        let mut channels: Vec<DMAChannel> = Vec::new();
        let mut i: usize = 0;
        while i < DMA_NUM_CHANNELS
            invariant
                i <= DMA_NUM_CHANNELS,
                channels@.len() == i,
                forall|j: int|
                    0 <= j < i ==> #[trigger] channels@[j]@ == (DMAChannelView {
                        registers: DMARegisters::reset_spec(),
                        num: channels@[j]@.num,
                        client: None,
                        enabled: false,
                    }) && channels@[j]@.num.spec_index() == j,
            decreases DMA_NUM_CHANNELS - i,
        {
            match DMAChannelNum::from_index(i) {
                Some(n) => channels.push(DMAChannel::new(n)),
                None => {},
            }
            i = i + 1;
        }
        let r = DMAController { channels, domain: DMAPowerDomain::new() };
        proof {
            let chs = r.channels_spec();
            assert forall|j: int| 0 <= j < chs.len() implies !(#[trigger] chs[j]).enabled by {}
            lemma_count_bounds(chs);
        }
        r
    }

    /// Enables channel `n` as `DMAChannel::enable` does.
    pub fn enable(&mut self, n: DMAChannelNum)
        requires
            old(self).wf(),
        ensures
            final(self).wf(),
            ({
                let (c, d) = enable_step(old(self).channels_spec()[n.spec_index() as int], old(self).domain_spec());
                &&& final(self).channels_spec() == old(self).channels_spec().update(n.spec_index() as int, c)
                &&& final(self).domain_spec() == d
            }),
    {
        let i = n.index();
        proof {
            let chs = self.channels_spec();
            let c = enable_step(chs[i as int], self.domain_spec()).0;
            lemma_count_update(chs, i as int, c);
            lemma_count_bounds(chs.update(i as int, c));
        }
        let ghost before = self.channels@;
        self.channels[i].enable(&mut self.domain);
        proof {
            assert(self.channels@ =~= before.update(i as int, self.channels@[i as int]));
            assert(self.channels_spec() =~= old(self).channels_spec().update(
                i as int,
                self.channels_spec()[i as int],
            ));
        }
    }

    /// Disables channel `n` as `DMAChannel::disable` does.
    pub fn disable(&mut self, n: DMAChannelNum)
        requires
            old(self).wf(),
        ensures
            final(self).wf(),
            ({
                let (c, d) = disable_step(old(self).channels_spec()[n.spec_index() as int], old(self).domain_spec());
                &&& final(self).channels_spec() == old(self).channels_spec().update(n.spec_index() as int, c)
                &&& final(self).domain_spec() == d
            }),
    {
        let i = n.index();
        proof {
            let chs = self.channels_spec();
            let c = disable_step(chs[i as int], self.domain_spec()).0;
            lemma_count_update(chs, i as int, c);
        }
        let ghost before = self.channels@;
        self.channels[i].disable(&mut self.domain);
        proof {
            assert(self.channels@ =~= before.update(i as int, self.channels@[i as int]));
            assert(self.channels_spec() =~= old(self).channels_spec().update(
                i as int,
                self.channels_spec()[i as int],
            ));
        }
    }

    /// Starts a transfer on channel `n` as `DMAChannel::do_xfer` does.
    pub fn do_xfer(&mut self, n: DMAChannelNum, pid: usize, slice: &AppSlice)
        requires
            old(self).wf(),
        ensures
            final(self).wf(),
            final(self).channels_spec() == old(self).channels_spec().update(
                n.spec_index() as int,
                xfer_step(old(self).channels_spec()[n.spec_index() as int], pid, *slice),
            ),
            final(self).domain_spec() == old(self).domain_spec(),
    {
        let i = n.index();
        proof {
            let chs = self.channels_spec();
            lemma_count_update(chs, i as int, xfer_step(chs[i as int], pid, *slice));
        }
        let ghost before = self.channels@;
        self.channels[i].do_xfer(pid, slice);
        proof {
            assert(self.channels@ =~= before.update(i as int, self.channels@[i as int]));
            assert(self.channels_spec() =~= old(self).channels_spec().update(
                i as int,
                self.channels_spec()[i as int],
            ));
        }
    }

    /// The channel numbered `n`.
    pub fn channel(&self, n: DMAChannelNum) -> (r: &DMAChannel)
        requires
            self.wf(),
        ensures
            r@ == self.channels_spec()[n.spec_index() as int],
    {
        &self.channels[n.index()]
    }

    /// The domain the channels share.
    pub fn power_domain(&self) -> (r: &DMAPowerDomain)
        ensures
            r@ == self.domain_spec(),
    {
        &self.domain
    }
}

/// In a well-formed pool the counter is the number of enabled channels, and
/// the shared domain is powered exactly when some channel is enabled and
/// unpowered otherwise. Together with `enable`, `disable` and `do_xfer`
/// keeping the pool well formed, this holds after every sequence of calls.
pub proof fn lemma_domain_tracks_channels(p: DMAController)
    requires
        p.wf(),
    ensures
        p.domain_spec().num_enabled == count_enabled(p.channels_spec()),
        p.domain_spec().powered() <==> exists|i: int|
            0 <= i < DMA_NUM_CHANNELS && (#[trigger] p.channels_spec()[i]).enabled,
        p.domain_spec().unpowered() <==> forall|i: int|
            0 <= i < DMA_NUM_CHANNELS ==> !(#[trigger] p.channels_spec()[i]).enabled,
{
    lemma_count_bounds(p.channels_spec());
}

} // verus!
