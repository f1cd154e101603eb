//! UART (16C550-compatible with FIFO) for UART0/1/2.
//!
//! Baud rate: `div = (div_h << 8 | div_l) + div_fra / 64`, with
//! `div = pclk / (16 * baud)` computed in 6-bit fixed point. The baud base is
//! the 160 MHz PLL-derived UART clock, or the flashboot console clock before
//! clock init ([`UartClock::Boot`]).
use vstd::prelude::*;
use crate::soc::{UART_BOOT_CLOCK_HZ, UART_CLOCK_HZ};
use crate::dma::{
    config_bits, control_bits, request_id_spec, Dma0, DmaChannel, DmaChannelConfig, DmaChannelSetup,
    DmaDriver, DmaFrame, DmaPeripheral, DmaTransferSize, CHN_ENABLE, CHN_HALT, MAX_BEATS,
};
use crate::poll::{access_trace, all_calls, bounded_poll, lemma_trace_append, poll_bus, poll_met};

verus! {

/// UART port identity for the three UART instances.
#[derive(Debug, Clone, Copy, PartialEq, Eq, Structural)]
pub enum UartPort {
    /// UART0.
    Uart0,
    /// UART1.
    Uart1,
    /// UART2.
    Uart2,
}

/// The index of a UART port.
pub open spec fn port_index(p: UartPort) -> usize {
    match p {
        UartPort::Uart0 => 0usize,
        UartPort::Uart1 => 1usize,
        UartPort::Uart2 => 2usize,
    }
}

impl UartPort {
    /// The port with index `index`, or `None` outside `0..=2`.
    pub fn from_index(index: u8) -> (r: Option<Self>)
        ensures
            index <= 2 <==> r.is_some(),
            r matches Some(p) ==> port_index(p) == index,
    {
        match index {
            0 => Some(UartPort::Uart0),
            1 => Some(UartPort::Uart1),
            2 => Some(UartPort::Uart2),
            _ => None,
        }
    }

    /// The UART port index (0-2).
    pub fn index(self) -> (r: usize)
        ensures
            r == port_index(self),
    {
        match self {
            UartPort::Uart0 => 0,
            UartPort::Uart1 => 1,
            UartPort::Uart2 => 2,
        }
    }
}

/// Number of data bits per frame (bits 3:2 of `UART_CTL`).
#[derive(Debug, Clone, Copy, PartialEq, Eq, Structural)]
pub enum DataBits {
    /// 5 data bits (field code 0).
    Five,
    /// 6 data bits (field code 1).
    Six,
    /// 7 data bits (field code 2).
    Seven,
    /// 8 data bits (field code 3).
    Eight,
}

/// Parity mode (parity enable bit 5, even select bit 4 of `UART_CTL`).
#[derive(Debug, Clone, Copy, PartialEq, Eq, Structural)]
pub enum Parity {
    /// No parity bit.
    Disabled,
    /// Even parity (enable and even select set).
    Even,
    /// Odd parity (enable set, even select clear).
    Odd,
}

/// Number of stop bits (bit 7 of `UART_CTL`).
#[derive(Debug, Clone, Copy, PartialEq, Eq, Structural)]
pub enum StopBits {
    /// One stop bit.
    One,
    /// Two stop bits.
    Two,
}

/// The data-length code of `d` (0 for five bits .. 3 for eight).
pub open spec fn data_bits_code(d: DataBits) -> nat {
    match d {
        DataBits::Five => 0,
        DataBits::Six => 1,
        DataBits::Seven => 2,
        DataBits::Eight => 3,
    }
}

/// The `UART_CTL` bits that `d` sets.
pub open spec fn data_bits_spec(d: DataBits) -> u16 {
    (data_bits_code(d) * 4) as u16
}

/// The `UART_CTL` bits that `p` sets.
pub open spec fn parity_spec(p: Parity) -> u16 {
    match p {
        Parity::Disabled => 0u16,
        Parity::Odd => 0x20u16,
        Parity::Even => 0x30u16,
    }
}

/// The `UART_CTL` bits that `s` sets.
pub open spec fn stop_bits_spec(s: StopBits) -> u16 {
    match s {
        StopBits::One => 0u16,
        StopBits::Two => 0x80u16,
    }
}

impl DataBits {
    /// The `UART_CTL` data-length field: the code in bits 3:2.
    pub fn field(self) -> (r: u16)
        ensures
            r == data_bits_spec(self),
    {
        match self {
            DataBits::Five => 0,
            DataBits::Six => 0x4,
            DataBits::Seven => 0x8,
            DataBits::Eight => 0xC,
        }
    }
}

impl Parity {
    /// The `UART_CTL` parity field: enable (bit 5) and even select (bit 4).
    pub fn field(self) -> (r: u16)
        ensures
            r == parity_spec(self),
    {
        match self {
            Parity::Disabled => 0,
            Parity::Odd => 0x20,
            Parity::Even => 0x30,
        }
    }
}

impl StopBits {
    /// The `UART_CTL` stop-bit field (bit 7).
    pub fn field(self) -> (r: u16)
        ensures
            r == stop_bits_spec(self),
    {
        match self {
            StopBits::One => 0,
            StopBits::Two => 0x80,
        }
    }
}

/// The fixed-point divider `pclk / (16 * baud)` in sixty-fourths.
pub open spec fn div64_spec(pclk: nat, baud: nat) -> nat {
    pclk * 4 / baud
}

/// Whether `baud` has a 16-bit divider in `[1, 0xFFFF]` against the 160 MHz
/// PLL base.
pub open spec fn baud_valid(baud: u32) -> bool {
    &&& baud > 0
    &&& 1 <= div64_spec(UART_CLOCK_HZ as nat, baud as nat) / 64
    &&& div64_spec(UART_CLOCK_HZ as nat, baud as nat) / 64 <= 0xFFFF
}

/// A validated baud rate: its 16-bit integer divider against the 160 MHz PLL
/// base lies in `[1, 0xFFFF]`.
#[derive(Debug, Clone, Copy, PartialEq, Eq, Structural)]
pub struct BaudRate(u32);

impl BaudRate {
    /// The baud rate in Hz, in specifications.
    pub closed spec fn value(self) -> u32 {
        self.0
    }

    /// The invariant: the rate is realisable.
    #[verifier::type_invariant]
    closed spec fn inv(self) -> bool {
        baud_valid(self.0)
    }

    /// 115 200 baud (the default).
    pub fn baud_115200() -> (r: Self)
        ensures
            r.value() == 115_200,
    {
        BaudRate(115_200)
    }

    /// The rate `baud`, or `None` when its divider against the 160 MHz base
    /// falls outside `[1, 0xFFFF]` (too high, too low, or zero).
    pub fn try_new(baud: u32) -> (r: Option<Self>)
        ensures
            r.is_some() <==> baud_valid(baud),
            r matches Some(b) ==> b.value() == baud,
    {
        if baud == 0 {
            return None;
        }
        let div: u64 = (UART_CLOCK_HZ as u64) * 4 / (baud as u64) / 64;
        if div < 1 || div > 0xFFFF {
            return None;
        }
        Some(BaudRate(baud))
    }

    /// The baud rate in Hz.
    pub fn baud(self) -> (r: u32)
        ensures
            r == self.value(),
            baud_valid(r),
    {
        proof { use_type_invariant(self); }
        self.0
    }
}

/// UART baud-base clock selection.
#[derive(Debug, Clone, Copy, PartialEq, Eq, Structural)]
pub enum UartClock {
    /// Normal post-clock-init PLL-derived UART clock.
    Pll,
    /// Boot-console clock inherited from flashboot before clock init.
    Boot,
}

/// The frequency of a baud-base clock.
pub open spec fn clock_hz(c: UartClock) -> u32 {
    match c {
        UartClock::Pll => UART_CLOCK_HZ,
        UartClock::Boot => UART_BOOT_CLOCK_HZ,
    }
}

impl UartClock {
    /// The frequency of this clock in Hz.
    pub fn hz(self) -> (r: u32)
        ensures
            r == clock_hz(self),
    {
        match self {
            UartClock::Pll => UART_CLOCK_HZ,
            UartClock::Boot => UART_BOOT_CLOCK_HZ,
        }
    }
}

/// UART frame and clock configuration.
#[derive(Debug, Clone, Copy)]
pub struct Config {
    /// Validated baud rate.
    pub baudrate: BaudRate,
    /// Number of data bits per frame.
    pub data_bits: DataBits,
    /// Parity mode.
    pub parity: Parity,
    /// Number of stop bits per frame.
    pub stop_bits: StopBits,
    /// Baud-base clock source.
    pub clock: UartClock,
}

impl Default for Config {
    /// 115200 baud, 8 data bits, no parity, one stop bit, PLL clock.
    fn default() -> (c: Self)
        ensures
            c.baudrate.value() == 115_200,
            c.data_bits == DataBits::Eight,
            c.parity == Parity::Disabled,
            c.stop_bits == StopBits::One,
            c.clock == UartClock::Pll,
    {
        Config {
            baudrate: BaudRate::baud_115200(),
            data_bits: DataBits::Eight,
            parity: Parity::Disabled,
            stop_bits: StopBits::One,
            clock: UartClock::Pll,
        }
    }
}

/// The `UART_CTL` frame word of a configuration (divisor access off).
pub open spec fn line_control_spec(d: DataBits, p: Parity, s: StopBits) -> u16 {
    (data_bits_spec(d) + parity_spec(p) + stop_bits_spec(s)) as u16
}

/// The frame word of `config`: data length, parity and stop bits in their
/// `UART_CTL` fields.
pub fn line_control(config: &Config) -> (r: u16)
    ensures
        r == line_control_spec(config.data_bits, config.parity, config.stop_bits),
{
    config.data_bits.field() + config.parity.field() + config.stop_bits.field()
}

/// The divider registers of a baud rate.
#[derive(Debug, Clone, Copy, PartialEq, Eq, Structural)]
pub struct UartDivisor {
    /// Low byte of the integer divider (`DIV_L`).
    pub div_l: u16,
    /// High byte of the integer divider (`DIV_H`).
    pub div_h: u16,
    /// Fraction of the divider in sixty-fourths (`DIV_FRA`).
    pub div_fra: u16,
}

/// The divider of `baud` against `pclk`: the integer part `div64 / 64` split
/// into its low and high byte, and the fraction `div64 % 64`.
pub open spec fn divisor_spec(pclk: nat, baud: nat) -> UartDivisor {
    let d64 = div64_spec(pclk, baud);
    let div = d64 / 64;
    UartDivisor {
        div_l: (div % 256) as u16,
        div_h: ((div / 256) % 256) as u16,
        div_fra: (d64 % 64) as u16,
    }
}

/// The divider registers for `baud` against the baud base `pclk`.
pub fn baud_divisor(pclk: u32, baud: u32) -> (r: UartDivisor)
    requires
        baud > 0,
    ensures
        r == divisor_spec(pclk as nat, baud as nat),
{
    let div64: u64 = (pclk as u64) * 4 / (baud as u64);
    let div = div64 / 64;
    UartDivisor {
        div_l: (div % 256) as u16,
        div_h: ((div / 256) % 256) as u16,
        div_fra: (div64 % 64) as u16,
    }
}

/// `UART_CTL` word that opens divisor-latch access.
pub const UART_CTL_DIV_EN: u16 = 0x1;
/// `FIFO_CTL` word that enables the FIFO and resets both directions.
pub const FIFO_CTL_RESET: u32 = 0x70;
/// `FIFO_CTL` word with the trigger levels used for DMA pacing: FIFO on,
/// TX at two characters, RX at a quarter.
pub const FIFO_CTL_DMA_LEVELS: u32 = 0x15;
/// `FIFO_CTL` word with the blocking trigger levels: FIFO on, TX at empty,
/// RX at one character.
pub const FIFO_CTL_BLOCKING_LEVELS: u32 = 0x10;
/// `FIFO_STATUS` bit: TX FIFO full.
pub const FIFO_STATUS_TX_FULL: u32 = 0x1;
/// `FIFO_STATUS` bit: TX FIFO empty.
pub const FIFO_STATUS_TX_EMPTY: u32 = 0x2;

/// The register writes that configure a UART, in order: `UART_CTL` =
/// `ctl_div_access`, the three divider registers, `UART_CTL` = `ctl`,
/// `FIFO_CTL` = `fifo_reset`, then `FIFO_CTL` = `fifo_levels`.
#[derive(Debug, Clone, Copy, PartialEq, Eq, Structural)]
pub struct UartSetup {
    /// `UART_CTL` while programming the divider (divisor access on).
    pub ctl_div_access: u16,
    /// The divider registers.
    pub divisor: UartDivisor,
    /// `UART_CTL` frame word (divisor access off).
    pub ctl: u16,
    /// `FIFO_CTL` enable-and-reset word.
    pub fifo_reset: u32,
    /// `FIFO_CTL` trigger-level word.
    pub fifo_levels: u32,
}

/// The setup words of a configuration.
pub open spec fn setup_spec(config: Config) -> UartSetup {
    UartSetup {
        ctl_div_access: UART_CTL_DIV_EN,
        divisor: divisor_spec(clock_hz(config.clock) as nat, config.baudrate.value() as nat),
        ctl: line_control_spec(config.data_bits, config.parity, config.stop_bits),
        fifo_reset: FIFO_CTL_RESET,
        fifo_levels: FIFO_CTL_DMA_LEVELS,
    }
}

/// The register words that configure a UART with `config`.
pub fn configure_uart(config: &Config) -> (s: UartSetup)
    ensures
        s == setup_spec(*config),
{
    let pclk = config.clock.hz();
    let baud = config.baudrate.baud();
    UartSetup {
        ctl_div_access: UART_CTL_DIV_EN,
        divisor: baud_divisor(pclk, baud),
        ctl: line_control(config),
        fifo_reset: FIFO_CTL_RESET,
        fifo_levels: FIFO_CTL_DMA_LEVELS,
    }
}

/// Seals [`UartInstance`] to the three instances of this crate.
pub trait UartInstanceSealed {
}

/// A UART instance, selected at the type level.
pub trait UartInstance: UartInstanceSealed {
    /// The instance's port.
    spec fn port_spec() -> UartPort;

    /// The instance's port.
    fn port() -> (r: UartPort)
        ensures
            r == Self::port_spec(),
    ;
}

/// The UART0 instance.
pub struct Uart0;

/// The UART1 instance.
pub struct Uart1;

/// The UART2 instance.
pub struct Uart2;

impl UartInstanceSealed for Uart0 {
}

impl UartInstanceSealed for Uart1 {
}

impl UartInstanceSealed for Uart2 {
}

impl UartInstance for Uart0 {
    open spec fn port_spec() -> UartPort {
        UartPort::Uart0
    }

    fn port() -> (r: UartPort) {
        UartPort::Uart0
    }
}

impl UartInstance for Uart1 {
    open spec fn port_spec() -> UartPort {
        UartPort::Uart1
    }

    fn port() -> (r: UartPort) {
        UartPort::Uart1
    }
}

impl UartInstance for Uart2 {
    open spec fn port_spec() -> UartPort {
        UartPort::Uart2
    }

    fn port() -> (r: UartPort) {
        UartPort::Uart2
    }
}

/// A configured UART.
pub struct Uart {
    /// The port.
    pub port: UartPort,
    /// The register words its constructor computed; the driver writes them
    /// once, in the order [`UartSetup`] gives.
    pub setup: UartSetup,
}

impl Uart {
    /// A UART on `port` configured with `config`.
    pub fn new(port: UartPort, config: Config) -> (u: Self)
        ensures
            u.port == port,
            u.setup == setup_spec(config),
    {
        Uart { port, setup: configure_uart(&config) }
    }

    /// The UART of instance `T` configured with `config`.
    pub fn new_instance<T: UartInstance>(config: Config) -> (u: Self)
        ensures
            u.port == T::port_spec(),
            u.setup == setup_spec(config),
    {
        Uart::new(T::port(), config)
    }

    /// UART0 configured with `config`.
    pub fn new_uart0(config: Config) -> (u: Self)
        ensures
            u.port == UartPort::Uart0,
            u.setup == setup_spec(config),
    {
        Uart::new(UartPort::Uart0, config)
    }

    /// UART1 configured with `config`.
    pub fn new_uart1(config: Config) -> (u: Self)
        ensures
            u.port == UartPort::Uart1,
            u.setup == setup_spec(config),
    {
        Uart::new(UartPort::Uart1, config)
    }

    /// UART2 configured with `config`.
    pub fn new_uart2(config: Config) -> (u: Self)
        ensures
            u.port == UartPort::Uart2,
            u.setup == setup_spec(config),
    {
        Uart::new(UartPort::Uart2, config)
    }

    /// One step of a blocking byte write: `None` while the TX FIFO is full
    /// (`fifo_status` bit 0; look again), else the `DATA` word to write.
    pub fn write_byte(&self, fifo_status: u32, byte: u8) -> (r: Option<u16>)
        ensures
            fifo_status & FIFO_STATUS_TX_FULL != 0 ==> r is None,
            fifo_status & FIFO_STATUS_TX_FULL == 0 ==> r == Some(byte as u16),
    {
        if fifo_status & FIFO_STATUS_TX_FULL != 0 {
            None
        } else {
            Some(byte as u16)
        }
    }

    /// Read one byte: `None` when the RX FIFO count is zero (and `read_data`,
    /// which pops the FIFO, is not called), else the low byte of what
    /// `read_data` returns.
    pub fn read_byte<F: FnOnce() -> u16>(&self, rx_fifo_cnt: u32, read_data: F) -> (r: Option<u8>)
        requires
            rx_fifo_cnt != 0 ==> call_requires(read_data, ()),
        ensures
            rx_fifo_cnt == 0 ==> r is None,
            rx_fifo_cnt != 0 ==> exists|d: u16| call_ensures(read_data, (), d) && r == Some(d as u8),
    {
        if rx_fifo_cnt == 0 {
            None
        } else {
            let d = read_data();
            Some(d as u8)
        }
    }

    /// Whether the TX FIFO is fully drained (`fifo_status` bit 1).
    pub fn tx_flushed(&self, fifo_status: u32) -> (r: bool)
        ensures
            r == (fifo_status & FIFO_STATUS_TX_EMPTY != 0),
    {
        fifo_status & FIFO_STATUS_TX_EMPTY != 0
    }

    /// The `DATA` words that write `data`, one per byte, in order.
    pub fn write(&self, data: &[u8]) -> (r: Vec<u16>)
        ensures
            r@.len() == data@.len(),
            forall|i: int| 0 <= i < data@.len() ==> r@[i] == data@[i] as u16,
    {
        let mut out: Vec<u16> = Vec::new();
        let mut i: usize = 0;
        while i < data.len()
            invariant
                i <= data@.len(),
                out@.len() == i,
                forall|j: int| 0 <= j < i ==> out@[j] == data@[j] as u16,
            decreases data@.len() - i,
        {
            out.push(data[i] as u16);
            i += 1;
        }
        out
    }
}

impl Uart {
    /// This UART made DMA-capable with the primary DMA driver.
    pub fn with_dma(self, dma: DmaDriver<Dma0>) -> (d: UartDma)
        ensures
            d.port == self.port,
    {
        UartDma { port: self.port, dma }
    }
}

/// Errors from a UART DMA transfer.
#[derive(Debug, Clone, Copy, PartialEq, Eq, Structural)]
pub enum UartDmaError {
    /// The buffer exceeds 4095 beats (the 12-bit `trans_size` field).
    BufferTooLong,
    /// The channel did not complete within the bounded wait.
    Timeout,
}

/// Bound on the polls of a UART DMA channel's completion.
pub const UART_DMA_WAIT_LOOPS: u32 = 1_000_000;

/// The transmit handshaking peripheral of a port.
pub open spec fn tx_peri_spec(p: UartPort) -> DmaPeripheral {
    match p {
        UartPort::Uart0 => DmaPeripheral::Uart0Tx,
        UartPort::Uart1 => DmaPeripheral::Uart1Tx,
        UartPort::Uart2 => DmaPeripheral::Uart2Tx,
    }
}

/// The receive handshaking peripheral of a port.
pub open spec fn rx_peri_spec(p: UartPort) -> DmaPeripheral {
    match p {
        UartPort::Uart0 => DmaPeripheral::Uart0Rx,
        UartPort::Uart1 => DmaPeripheral::Uart1Rx,
        UartPort::Uart2 => DmaPeripheral::Uart2Rx,
    }
}

/// A DMA-capable UART: owns the primary DMA driver and remembers its port.
pub struct UartDma {
    /// The port.
    pub port: UartPort,
    /// The DMA driver.
    pub dma: DmaDriver<Dma0>,
}

/// A register access of a UART DMA completion wait.
#[derive(Debug, Clone, Copy, PartialEq, Eq, Structural)]
pub enum UartDmaAccess {
    /// Read `dmac_en_chns`.
    EnChns,
    /// Write the UART's `FIFO_CTL`.
    WriteFifoCtl(u32),
    /// Read the channel's `config`.
    ReadConfig,
    /// Write the channel's `config`.
    WriteConfig(u32),
}

/// The accesses and result of waiting for a UART DMA transfer on channel
/// `ch`: a bounded poll of `en_chns` for the channel's bit clear, of at most
/// [`UART_DMA_WAIT_LOOPS`] reads, then `FIFO_CTL` written with the blocking
/// trigger levels; `Ok` exactly when the poll ended with the bit clear, and
/// then that is all. Otherwise `Timeout`, after the channel's `config` was
/// read and written back with the halt bit set, then read and written back
/// with the enable bit clear.
pub open spec fn uart_dma_wait_run(ch: u8, calls: Seq<UartDmaAccess>, answers: Seq<u32>, r: Result<
    (),
    UartDmaError,
>) -> bool {
    let mask = 1u32 << ch as u32;
    let k = calls.len();
    match r {
        Ok(_) => {
            &&& k >= 2
            &&& all_calls(calls.subrange(0, k - 1), UartDmaAccess::EnChns)
            &&& bounded_poll(answers.subrange(0, k - 1), mask, false, UART_DMA_WAIT_LOOPS as nat)
            &&& poll_met(answers.subrange(0, k - 1), mask, false)
            &&& calls[k - 1] == UartDmaAccess::WriteFifoCtl(FIFO_CTL_BLOCKING_LEVELS)
        },
        Err(e) => {
            let l = UART_DMA_WAIT_LOOPS as int;
            &&& e == UartDmaError::Timeout
            &&& k == l + 5
            &&& all_calls(calls.subrange(0, l), UartDmaAccess::EnChns)
            &&& bounded_poll(answers.subrange(0, l), mask, false, UART_DMA_WAIT_LOOPS as nat)
            &&& !poll_met(answers.subrange(0, l), mask, false)
            &&& calls[l] == UartDmaAccess::WriteFifoCtl(FIFO_CTL_BLOCKING_LEVELS)
            &&& calls[l + 1] == UartDmaAccess::ReadConfig
            &&& calls[l + 2] == UartDmaAccess::WriteConfig(answers[l + 1] | CHN_HALT)
            &&& calls[l + 3] == UartDmaAccess::ReadConfig
            &&& calls[l + 4] == UartDmaAccess::WriteConfig(answers[l + 3] & !CHN_ENABLE)
        },
    }
}

impl UartDma {
    /// Wait for a DMA transfer on `ch` started by [`UartDma::write_dma`] or
    /// [`UartDma::read_dma`] to complete, through `bus`: `en_chns` is read
    /// until the channel's bit is clear, at most [`UART_DMA_WAIT_LOOPS`]
    /// times; then `FIFO_CTL` gets the blocking trigger levels back; on a
    /// timeout the channel is then halted and disabled, and the result is
    /// `Timeout`.
    pub fn wait_dma<B: FnMut(UartDmaAccess) -> u32>(&mut self, ch: &DmaChannel, bus: &mut B) -> (r: Result<
        (),
        UartDmaError,
    >)
        requires
            forall|a: UartDmaAccess| call_requires(*old(bus), (a,)),
        ensures
            final(self).port == old(self).port,
            exists|calls: Seq<UartDmaAccess>, states: Seq<B>, answers: Seq<u32>|
                #[trigger] access_trace(*old(bus), calls, states, answers) && uart_dma_wait_run(
                    ch.number(),
                    calls,
                    answers,
                    r,
                ),
    {
        let ghost start = *bus;
        let mask = 1u32 << ch.logical() as u32;
        let done = poll_bus(bus, UartDmaAccess::EnChns, mask, false, UART_DMA_WAIT_LOOPS);
        let ghost (c1, s1, a1) = choose|c: Seq<UartDmaAccess>, st: Seq<B>, an: Seq<u32>|
            #[trigger] access_trace(start, c, st, an) && all_calls(c, UartDmaAccess::EnChns) && bounded_poll(
                an,
                mask,
                false,
                UART_DMA_WAIT_LOOPS as nat,
            ) && an.len() > 0 && done == poll_met(an, mask, false);
        let ghost p1 = *bus;
        let x1 = bus(UartDmaAccess::WriteFifoCtl(FIFO_CTL_BLOCKING_LEVELS));
        proof {
            lemma_trace_append(
                start,
                c1,
                s1,
                a1,
                p1,
                seq![UartDmaAccess::WriteFifoCtl(FIFO_CTL_BLOCKING_LEVELS)],
                seq![p1],
                seq![x1],
            );
        }
        let ghost c2 = c1 + seq![UartDmaAccess::WriteFifoCtl(FIFO_CTL_BLOCKING_LEVELS)];
        let ghost s2 = s1 + seq![p1];
        let ghost a2 = a1 + seq![x1];
        if done {
            proof {
                let k = c2.len() as int;
                assert(c2.subrange(0, k - 1) =~= c1);
                assert(a2.subrange(0, k - 1) =~= a1);
            }
            return Ok(());
        }
        let ghost p2 = *bus;
        let c = bus(UartDmaAccess::ReadConfig);
        let ghost p3 = *bus;
        let x3 = bus(UartDmaAccess::WriteConfig(c | CHN_HALT));
        let ghost p4 = *bus;
        let c4 = bus(UartDmaAccess::ReadConfig);
        let ghost p5 = *bus;
        let x5 = bus(UartDmaAccess::WriteConfig(c4 & !CHN_ENABLE));
        proof {
            let c3 = seq![
                UartDmaAccess::ReadConfig,
                UartDmaAccess::WriteConfig(c | CHN_HALT),
                UartDmaAccess::ReadConfig,
                UartDmaAccess::WriteConfig(c4 & !CHN_ENABLE),
            ];
            let a3 = seq![c, x3, c4, x5];
            lemma_trace_append(start, c2, s2, a2, p2, c3, seq![p2, p3, p4, p5], a3);
            let l = UART_DMA_WAIT_LOOPS as int;
            assert(c1.len() == l);
            assert((c2 + c3).subrange(0, l) =~= c1);
            assert((a2 + a3).subrange(0, l) =~= a1);
        }
        Err(UartDmaError::Timeout)
    }

    /// The transmit handshaking peripheral of this port.
    pub fn tx_peri(&self) -> (r: DmaPeripheral)
        ensures
            r == tx_peri_spec(self.port),
    {
        match self.port {
            UartPort::Uart0 => DmaPeripheral::Uart0Tx,
            UartPort::Uart1 => DmaPeripheral::Uart1Tx,
            UartPort::Uart2 => DmaPeripheral::Uart2Tx,
        }
    }

    /// The receive handshaking peripheral of this port.
    pub fn rx_peri(&self) -> (r: DmaPeripheral)
        ensures
            r == rx_peri_spec(self.port),
    {
        match self.port {
            UartPort::Uart0 => DmaPeripheral::Uart0Rx,
            UartPort::Uart1 => DmaPeripheral::Uart1Rx,
            UartPort::Uart2 => DmaPeripheral::Uart2Rx,
        }
    }

    /// Start a DMA write of `beats` bytes at `src_addr` to the UART's `DATA`
    /// register at `data_addr` on `ch`: after `FIFO_CTL` =
    /// [`FIFO_CTL_DMA_LEVELS`], the channel setup (byte frames, transmit
    /// handshaking, no interrupt). `BufferTooLong` above 4095 beats.
    pub fn write_dma(&mut self, ch: &DmaChannel, src_addr: u32, beats: usize, data_addr: u32, en_chns: u32) -> (r:
        Result<DmaChannelSetup, UartDmaError>)
        ensures
            final(self).port == old(self).port,
            r.is_ok() <==> beats <= MAX_BEATS,
            r matches Err(e) ==> e == UartDmaError::BufferTooLong,
            r matches Ok(s) ==> {
                &&& s.physical == ch.number()
                &&& s.src_addr == src_addr
                &&& s.dst_addr == data_addr
                &&& s.control == control_bits(beats as u32, 0, 0, 0, 0, true, false, false)
                &&& s.config == config_bits(0, request_id_spec(tx_peri_spec(old(self).port)) as u32, 1, false, false, false)
                &&& s.en_chns == en_chns | (1u32 << s.physical)
            },
    {
        if beats > 0xFFF {
            return Err(UartDmaError::BufferTooLong);
        }
        let size = match DmaTransferSize::from_beats(beats) {
            Some(s) => s,
            None => return Err(UartDmaError::BufferTooLong),
        };
        let cfg = DmaChannelConfig::mem_to_mem().mem_to_peripheral(self.tx_peri()).with_width(DmaFrame::Byte);
        let n = ch.logical();
        Ok(self.dma.configure_channel_raw(n, src_addr, data_addr, size, &cfg, en_chns))
    }

    /// Start a fixed-length DMA read of `beats` bytes from the UART's `DATA`
    /// register at `data_addr` to `dst_addr` on `ch` (after `FIFO_CTL` =
    /// [`FIFO_CTL_DMA_LEVELS`]). `BufferTooLong` above 4095 beats.
    pub fn read_dma(&mut self, ch: &DmaChannel, dst_addr: u32, beats: usize, data_addr: u32, en_chns: u32) -> (r:
        Result<DmaChannelSetup, UartDmaError>)
        ensures
            final(self).port == old(self).port,
            r.is_ok() <==> beats <= MAX_BEATS,
            r matches Err(e) ==> e == UartDmaError::BufferTooLong,
            r matches Ok(s) ==> {
                &&& s.physical == ch.number()
                &&& s.src_addr == data_addr
                &&& s.dst_addr == dst_addr
                &&& s.control == control_bits(beats as u32, 0, 0, 0, 0, false, true, false)
                &&& s.config == config_bits(request_id_spec(rx_peri_spec(old(self).port)) as u32, 0, 2, false, false, false)
                &&& s.en_chns == en_chns | (1u32 << s.physical)
            },
    {
        if beats > 0xFFF {
            return Err(UartDmaError::BufferTooLong);
        }
        let size = match DmaTransferSize::from_beats(beats) {
            Some(s) => s,
            None => return Err(UartDmaError::BufferTooLong),
        };
        let cfg = DmaChannelConfig::mem_to_mem().peripheral_to_mem(self.rx_peri()).with_width(DmaFrame::Byte);
        let n = ch.logical();
        Ok(self.dma.configure_channel_raw(n, data_addr, dst_addr, size, &cfg, en_chns))
    }

    /// Give back the blocking UART and the DMA driver; the driver restores
    /// `FIFO_CTL` = [`FIFO_CTL_BLOCKING_LEVELS`].
    pub fn release(self, setup: UartSetup) -> (r: (Uart, DmaDriver<Dma0>, u32))
        ensures
            r.0.port == self.port,
            r.0.setup == setup,
            r.2 == FIFO_CTL_BLOCKING_LEVELS,
    {
        (Uart { port: self.port, setup }, self.dma, FIFO_CTL_BLOCKING_LEVELS)
    }
}

/// The 160 MHz base realises every baud rate that `try_new` accepts without
/// truncation: the divider registers reassemble to `div64 / 64` exactly, the
/// fraction is six bits, and each divider byte is eight bits.
pub proof fn law_divider_fits(baud: u32)
    requires
        baud_valid(baud),
    ensures
        ({
            let d = divisor_spec(UART_CLOCK_HZ as nat, baud as nat);
            &&& d.div_h * 256 + d.div_l == div64_spec(UART_CLOCK_HZ as nat, baud as nat) / 64
            &&& d.div_l <= 0xFF
            &&& d.div_h <= 0xFF
            &&& d.div_fra <= 0x3F
            &&& 1 <= d.div_h * 256 + d.div_l <= 0xFFFF
        }),
{
}

/// A higher baud rate never has a larger divider.
pub proof fn law_divisor_monotonic(pclk: u32, b1: u32, b2: u32)
    requires
        0 < b1 <= b2,
    ensures
        div64_spec(pclk as nat, b2 as nat) <= div64_spec(pclk as nat, b1 as nat),
        div64_spec(pclk as nat, b2 as nat) / 64 <= div64_spec(pclk as nat, b1 as nat) / 64,
{
    vstd::arithmetic::div_mod::lemma_div_is_ordered_by_denominator(pclk as int * 4, b1 as int, b2 as int);
    vstd::arithmetic::div_mod::lemma_div_is_ordered(
        div64_spec(pclk as nat, b2 as nat) as int,
        div64_spec(pclk as nat, b1 as nat) as int,
        64,
    );
}

/// The frame fields occupy disjoint bits: data length in bits 3:2, parity in
/// bits 5:4, stop bits in bit 7, and divisor access (bit 0) stays clear.
pub proof fn law_line_control_fields(d: DataBits, p: Parity, s: StopBits)
    ensures
        ({
            let w = line_control_spec(d, p, s) as nat;
            &&& (w / 4) % 4 == data_bits_code(d)
            &&& (w / 16) % 4 == parity_spec(p) / 16
            &&& w / 128 == stop_bits_spec(s) / 128
            &&& w % 2 == 0
        }),
{
}

/// The number of data bits in a frame.
pub open spec fn data_bits_len(d: DataBits) -> nat {
    match d {
        DataBits::Five => 5,
        DataBits::Six => 6,
        DataBits::Seven => 7,
        DataBits::Eight => 8,
    }
}

/// What the frame word says: its data-length field is the number of data
/// bits minus five, the parity-enable bit (5) is set exactly when parity is
/// used, the even-select bit (4) exactly for even parity, and the stop bit
/// (7) exactly for two stop bits.
pub proof fn law_line_control_meaning(d: DataBits, p: Parity, s: StopBits)
    ensures
        ({
            let w = line_control_spec(d, p, s) as nat;
            &&& (w / 4) % 4 + 5 == data_bits_len(d)
            &&& ((w / 32) % 2 == 1) <==> p != Parity::Disabled
            &&& ((w / 16) % 2 == 1) <==> p == Parity::Even
            &&& (w / 128 == 1) <==> s == StopBits::Two
        }),
{
}

} // verus!
