//! DMA controllers (DesignWare v151): the primary MDMA (logical channels 0-3)
//! and the secure SDMA (logical channels 8-11), each with four physical
//! channels.
//!
//! The channel `control` and `config` words, the channel-register
//! read-modify-write words, the interrupt-status decode, the channel claim
//! set and the decisions of the bounded completion and quiesce waits are
//! computed here. The driver performs the register accesses and the cache
//! maintenance.
use vstd::prelude::*;
use core::marker::PhantomData;
use crate::poll::{PollBudget, PollStep};

verus! {

/// Seals [`DmaInstance`] to the two controllers of this crate.
pub trait DmaInstanceSealed {
}

/// A DMA controller instance, selected at the type level.
pub trait DmaInstance: DmaInstanceSealed {
    /// The logical number of the controller's first physical channel.
    spec fn base_spec() -> u8;

    /// The logical number of the controller's first physical channel: the
    /// controller owns logical channels `base..base + 4`.
    fn channel_base() -> (r: u8)
        ensures
            r == Self::base_spec(),
            r <= 8,
    ;

    /// The `ip_auto_cg_bypass` word that keeps the controller's clock running
    /// across a transfer, from the current word; `None` when the controller
    /// needs no bypass.
    spec fn clock_bypass_spec(current: u32) -> Option<u32>;

    /// The `ip_auto_cg_bypass` word that keeps the controller's clock
    /// running, or `None` when no write is needed.
    fn bypass_auto_clock_gate(current: u32) -> (r: Option<u32>)
        ensures
            r == Self::clock_bypass_spec(current),
    ;
}

/// `dma_clk_on` (bit 19) of `ip_auto_cg_bypass`.
pub const DMA_CLK_ON: u32 = 0x8_0000;

/// Marker type for the primary DMA controller (logical channels 0-3).
pub struct Dma0;

/// Marker type for the secure DMA controller (logical channels 8-11).
pub struct Sdma0;

impl DmaInstanceSealed for Dma0 {
}

impl DmaInstance for Dma0 {
    open spec fn base_spec() -> u8 {
        0
    }

    fn channel_base() -> (r: u8) {
        0
    }

    /// The primary controller's clock must keep running: `dma_clk_on` set.
    open spec fn clock_bypass_spec(current: u32) -> Option<u32> {
        Some(current | DMA_CLK_ON)
    }

    fn bypass_auto_clock_gate(current: u32) -> (r: Option<u32>) {
        Some(current | DMA_CLK_ON)
    }
}

impl DmaInstanceSealed for Sdma0 {
}

impl DmaInstance for Sdma0 {
    open spec fn base_spec() -> u8 {
        8
    }

    fn channel_base() -> (r: u8) {
        8
    }

    /// The secure controller needs no bypass.
    open spec fn clock_bypass_spec(current: u32) -> Option<u32> {
        None
    }

    fn bypass_auto_clock_gate(current: u32) -> (r: Option<u32>) {
        None
    }
}

/// Translate a logical channel number to the controller-local physical
/// channel (0-3). The channel must lie in `base..base + 4`.
pub fn physical_channel_index(base: u8, channel: u8) -> (r: usize)
    requires
        base <= channel,
        channel < base + 4,
    ensures
        r == channel - base,
        r < 4,
{
    (channel - base) as usize
}

/// Maximum number of beats in one single-block transfer (the 12-bit
/// `trans_size` field).
pub const MAX_BEATS: usize = 0x0fff;

/// A transfer length in source-width beats, at most [`MAX_BEATS`].
#[derive(Debug, Clone, Copy, PartialEq, Eq, Structural)]
pub struct DmaTransferSize(u16);

impl DmaTransferSize {
    /// The number of beats, in specifications.
    pub closed spec fn beats(self) -> nat {
        self.0 as nat
    }

    #[verifier::type_invariant]
    closed spec fn inv(self) -> bool {
        self.0 <= 0x0fff
    }

    /// The size of `beats` beats, or `None` above [`MAX_BEATS`].
    pub fn from_beats(beats: usize) -> (r: Option<Self>)
        ensures
            r.is_some() <==> beats <= MAX_BEATS,
            r matches Some(s) ==> s.beats() == beats,
    {
        if beats <= MAX_BEATS {
            Some(DmaTransferSize(beats as u16))
        } else {
            None
        }
    }

    /// The number of beats.
    pub fn get(self) -> (r: u16)
        ensures
            r == self.beats(),
            r <= 0x0fff,
    {
        proof { use_type_invariant(self); }
        self.0
    }
}

/// The per-channel sync-bypass mask of one controller (bits 0-3).
#[derive(Debug, Clone, Copy, PartialEq, Eq, Structural)]
pub struct DmaSyncMask(u8);

impl DmaSyncMask {
    /// The mask bits, in specifications.
    pub closed spec fn mask(self) -> u8 {
        self.0
    }

    #[verifier::type_invariant]
    closed spec fn inv(self) -> bool {
        self.0 <= 0x0f
    }

    /// The mask `bits`, or `None` when a bit above bit 3 is set.
    pub fn from_bits(bits: u16) -> (r: Option<Self>)
        ensures
            r.is_some() <==> bits & !0x000fu16 == 0,
            r matches Some(m) ==> m.mask() == bits,
    {
        if bits & !0x000fu16 == 0 {
            assert(bits & !0x000fu16 == 0 ==> bits <= 0x0f) by (bit_vector);
            Some(DmaSyncMask(bits as u8))
        } else {
            None
        }
    }

    /// No channel bypasses its sync logic.
    pub fn none() -> (r: Self)
        ensures
            r.mask() == 0,
    {
        DmaSyncMask(0)
    }

    /// Every channel bypasses its sync logic.
    pub fn all() -> (r: Self)
        ensures
            r.mask() == 0x0f,
    {
        DmaSyncMask(0x0f)
    }

    /// The mask as the `dmac_sync` register value.
    pub fn bits(self) -> (r: u16)
        ensures
            r == self.mask(),
            r <= 0x0f,
    {
        proof { use_type_invariant(self); }
        self.0 as u16
    }
}

/// Transfer width (data size per beat).
#[derive(Debug, Clone, Copy, PartialEq, Eq, Structural)]
pub enum TransferWidth {
    /// 8 bits (code 0).
    Width8,
    /// 16 bits (code 1).
    Width16,
    /// 32 bits (code 2).
    Width32,
}

/// Burst size (beats per burst).
#[derive(Debug, Clone, Copy, PartialEq, Eq, Structural)]
pub enum BurstSize {
    /// 1 beat (code 0).
    Beats1,
    /// 4 beats (code 1).
    Beats4,
    /// 8 beats (code 2).
    Beats8,
    /// 16 beats (code 3).
    Beats16,
    /// 32 beats (code 4).
    Beats32,
    /// 64 beats (code 5).
    Beats64,
    /// 128 beats (code 6).
    Beats128,
    /// 256 beats (code 7).
    Beats256,
}

/// Transfer direction / flow control.
#[derive(Debug, Clone, Copy, PartialEq, Eq, Structural)]
pub enum FlowControl {
    /// Memory to memory (code 0).
    MemToMem,
    /// Memory to peripheral (code 1).
    MemToPeripheral,
    /// Peripheral to memory (code 2).
    PeripheralToMem,
    /// Peripheral to peripheral (code 3).
    PeripheralToPeripheral,
}

/// The field code of a transfer width.
pub open spec fn width_code(w: TransferWidth) -> u32 {
    match w {
        TransferWidth::Width8 => 0u32,
        TransferWidth::Width16 => 1u32,
        TransferWidth::Width32 => 2u32,
    }
}

/// The field code of a burst size.
pub open spec fn burst_code(b: BurstSize) -> u32 {
    match b {
        BurstSize::Beats1 => 0u32,
        BurstSize::Beats4 => 1u32,
        BurstSize::Beats8 => 2u32,
        BurstSize::Beats16 => 3u32,
        BurstSize::Beats32 => 4u32,
        BurstSize::Beats64 => 5u32,
        BurstSize::Beats128 => 6u32,
        BurstSize::Beats256 => 7u32,
    }
}

/// The field code of a flow-control mode.
pub open spec fn flow_code(f: FlowControl) -> u32 {
    match f {
        FlowControl::MemToMem => 0u32,
        FlowControl::MemToPeripheral => 1u32,
        FlowControl::PeripheralToMem => 2u32,
        FlowControl::PeripheralToPeripheral => 3u32,
    }
}

impl TransferWidth {
    /// The field code (0-2).
    pub fn code(self) -> (r: u32)
        ensures
            r == width_code(self),
    {
        match self {
            TransferWidth::Width8 => 0,
            TransferWidth::Width16 => 1,
            TransferWidth::Width32 => 2,
        }
    }
}

impl BurstSize {
    /// The field code (0-7).
    pub fn code(self) -> (r: u32)
        ensures
            r == burst_code(self),
    {
        match self {
            BurstSize::Beats1 => 0,
            BurstSize::Beats4 => 1,
            BurstSize::Beats8 => 2,
            BurstSize::Beats16 => 3,
            BurstSize::Beats32 => 4,
            BurstSize::Beats64 => 5,
            BurstSize::Beats128 => 6,
            BurstSize::Beats256 => 7,
        }
    }
}

impl FlowControl {
    /// The field code (0-3).
    pub fn code(self) -> (r: u32)
        ensures
            r == flow_code(self),
    {
        match self {
            FlowControl::MemToMem => 0,
            FlowControl::MemToPeripheral => 1,
            FlowControl::PeripheralToMem => 2,
            FlowControl::PeripheralToPeripheral => 3,
        }
    }
}

/// The channel `control` word: `trans_size` [11:0], source burst [14:12],
/// destination burst [17:15], source width [20:18], destination width
/// [23:21], source increment bit 26, destination increment bit 27 and the
/// transfer-complete interrupt bit 31.
pub open spec fn control_bits(
    ts: u32,
    sb: u32,
    db: u32,
    sw: u32,
    dw: u32,
    si: bool,
    di: bool,
    ti: bool,
) -> u32 {
    (ts & 0xFFF) | ((sb & 7) << 12u32) | ((db & 7) << 15u32) | ((sw & 7) << 18u32) | ((dw & 7)
        << 21u32) | (if si { 0x0400_0000u32 } else { 0u32 }) | (if di { 0x0800_0000u32 } else { 0u32 })
        | (if ti { 0x8000_0000u32 } else { 0u32 })
}

/// The channel `config` word: channel enable bit 0, source peripheral [4:1],
/// destination peripheral [8:5], flow control [11:9], error interrupt bit
/// 12, transfer interrupt bit 13 and bus lock bit 14.
pub open spec fn config_bits(sp: u32, dp: u32, fc: u32, ei: bool, ti: bool, bl: bool) -> u32 {
    1u32 | ((sp & 0xF) << 1u32) | ((dp & 0xF) << 5u32) | ((fc & 7) << 9u32) | (if ei {
        0x1000u32
    } else {
        0u32
    }) | (if ti { 0x2000u32 } else { 0u32 }) | (if bl { 0x4000u32 } else { 0u32 })
}

/// DMA channel configuration.
#[derive(Debug, Clone, Copy, PartialEq, Eq, Structural)]
pub struct DmaChannelConfig {
    /// Source peripheral handshaking select (4-bit field).
    pub src_peripheral: u8,
    /// Destination peripheral handshaking select (4-bit field).
    pub dst_peripheral: u8,
    /// Flow control mode.
    pub flow_control: FlowControl,
    /// Source transfer width.
    pub src_width: TransferWidth,
    /// Destination transfer width.
    pub dst_width: TransferWidth,
    /// Source burst size.
    pub src_burst: BurstSize,
    /// Destination burst size.
    pub dst_burst: BurstSize,
    /// Increment the source address after each beat.
    pub src_inc: bool,
    /// Increment the destination address after each beat.
    pub dst_inc: bool,
    /// Transfer-complete interrupt enable.
    pub transfer_int: bool,
    /// Error interrupt enable.
    pub error_int: bool,
    /// Bus lock during the transfer.
    pub bus_lock: bool,
}

/// The memory-to-memory configuration: 32-bit beats, single-beat bursts,
/// both addresses incrementing, no interrupts, no lock.
pub open spec fn mem_to_mem_spec() -> DmaChannelConfig {
    DmaChannelConfig {
        src_peripheral: 0,
        dst_peripheral: 0,
        flow_control: FlowControl::MemToMem,
        src_width: TransferWidth::Width32,
        dst_width: TransferWidth::Width32,
        src_burst: BurstSize::Beats1,
        dst_burst: BurstSize::Beats1,
        src_inc: true,
        dst_inc: true,
        transfer_int: false,
        error_int: false,
        bus_lock: false,
    }
}

impl Default for DmaChannelConfig {
    /// The memory-to-memory configuration.
    fn default() -> (c: Self)
        ensures
            c == mem_to_mem_spec(),
    {
        DmaChannelConfig::mem_to_mem()
    }
}

impl DmaChannelConfig {
    /// Memory to memory, 32-bit beats, incrementing on both sides.
    pub fn mem_to_mem() -> (c: Self)
        ensures
            c == mem_to_mem_spec(),
    {
        DmaChannelConfig {
            src_peripheral: 0,
            dst_peripheral: 0,
            flow_control: FlowControl::MemToMem,
            src_width: TransferWidth::Width32,
            dst_width: TransferWidth::Width32,
            src_burst: BurstSize::Beats1,
            dst_burst: BurstSize::Beats1,
            src_inc: true,
            dst_inc: true,
            transfer_int: false,
            error_int: false,
            bus_lock: false,
        }
    }

    /// The `control` word of this configuration for `transfer_size` beats.
    pub fn control_word(self, transfer_size: DmaTransferSize) -> (r: u32)
        ensures
            r == control_bits(
                transfer_size.beats() as u32,
                burst_code(self.src_burst),
                burst_code(self.dst_burst),
                width_code(self.src_width),
                width_code(self.dst_width),
                self.src_inc,
                self.dst_inc,
                self.transfer_int,
            ),
    {
        let ts = transfer_size.get() as u32;
        let sb = self.src_burst.code();
        let db = self.dst_burst.code();
        let sw = self.src_width.code();
        let dw = self.dst_width.code();
        (ts & 0xFFF) | ((sb & 7) << 12u32) | ((db & 7) << 15u32) | ((sw & 7) << 18u32) | ((dw & 7)
            << 21u32) | (if self.src_inc { 0x0400_0000u32 } else { 0u32 }) | (if self.dst_inc {
            0x0800_0000u32
        } else {
            0u32
        }) | (if self.transfer_int { 0x8000_0000u32 } else { 0u32 })
    }

    /// The channel `config` word of this configuration (channel enabled).
    pub fn channel_config_word(self) -> (r: u32)
        ensures
            r == config_bits(
                self.src_peripheral as u32,
                self.dst_peripheral as u32,
                flow_code(self.flow_control),
                self.error_int,
                self.transfer_int,
                self.bus_lock,
            ),
    {
        let sp = self.src_peripheral as u32;
        let dp = self.dst_peripheral as u32;
        let fc = self.flow_control.code();
        1u32 | ((sp & 0xF) << 1u32) | ((dp & 0xF) << 5u32) | ((fc & 7) << 9u32) | (if self.error_int {
            0x1000u32
        } else {
            0u32
        }) | (if self.transfer_int { 0x2000u32 } else { 0u32 }) | (if self.bus_lock {
            0x4000u32
        } else {
            0u32
        })
    }

    /// This configuration for a memory-to-peripheral transfer to `peri`:
    /// flow control, destination handshaking ID, destination address fixed.
    pub fn mem_to_peripheral(self, peri: DmaPeripheral) -> (c: Self)
        ensures
            c == (DmaChannelConfig {
                flow_control: FlowControl::MemToPeripheral,
                dst_peripheral: request_id_spec(peri),
                dst_inc: false,
                ..self
            }),
    {
        let mut c = self;
        c.flow_control = FlowControl::MemToPeripheral;
        c.dst_peripheral = peri.request_id();
        c.dst_inc = false;
        c
    }

    /// This configuration for a peripheral-to-memory transfer from `peri`:
    /// flow control, source handshaking ID, source address fixed.
    pub fn peripheral_to_mem(self, peri: DmaPeripheral) -> (c: Self)
        ensures
            c == (DmaChannelConfig {
                flow_control: FlowControl::PeripheralToMem,
                src_peripheral: request_id_spec(peri),
                src_inc: false,
                ..self
            }),
    {
        let mut c = self;
        c.flow_control = FlowControl::PeripheralToMem;
        c.src_peripheral = peri.request_id();
        c.src_inc = false;
        c
    }

    /// This configuration with both widths set to the frame width.
    pub fn with_width(self, frame: DmaFrame) -> (c: Self)
        ensures
            c == (DmaChannelConfig {
                src_width: frame_width_spec(frame),
                dst_width: frame_width_spec(frame),
                ..self
            }),
    {
        let w = frame.width();
        let mut c = self;
        c.src_width = w;
        c.dst_width = w;
        c
    }

    /// This configuration with the transfer-complete interrupt set to `on`.
    pub fn with_transfer_int(self, on: bool) -> (c: Self)
        ensures
            c == (DmaChannelConfig { transfer_int: on, ..self }),
    {
        let mut c = self;
        c.transfer_int = on;
        c
    }
}

/// Peripheral hardware-handshaking request IDs (WS63 `dma_porting.h`).
#[derive(Debug, Clone, Copy, PartialEq, Eq, Structural)]
pub enum DmaPeripheral {
    /// No handshaking (memory to memory), ID 0.
    Tie0,
    /// UART0 transmit, ID 1.
    Uart0Tx,
    /// UART0 receive, ID 2.
    Uart0Rx,
    /// UART1 transmit, ID 3.
    Uart1Tx,
    /// UART1 receive, ID 4.
    Uart1Rx,
    /// UART2 transmit, ID 5.
    Uart2Tx,
    /// UART2 receive, ID 6.
    Uart2Rx,
    /// SPI0 transmit, ID 7.
    Spi0Tx,
    /// SPI0 receive, ID 8.
    Spi0Rx,
    /// I2S transmit, ID 11.
    I2sTx,
    /// I2S receive, ID 12.
    I2sRx,
    /// SPI1 transmit, ID 13.
    Spi1Tx,
    /// SPI1 receive, ID 14.
    Spi1Rx,
}

/// The handshaking request ID of a peripheral.
pub open spec fn request_id_spec(p: DmaPeripheral) -> u8 {
    match p {
        DmaPeripheral::Tie0 => 0u8,
        DmaPeripheral::Uart0Tx => 1u8,
        DmaPeripheral::Uart0Rx => 2u8,
        DmaPeripheral::Uart1Tx => 3u8,
        DmaPeripheral::Uart1Rx => 4u8,
        DmaPeripheral::Uart2Tx => 5u8,
        DmaPeripheral::Uart2Rx => 6u8,
        DmaPeripheral::Spi0Tx => 7u8,
        DmaPeripheral::Spi0Rx => 8u8,
        DmaPeripheral::I2sTx => 11u8,
        DmaPeripheral::I2sRx => 12u8,
        DmaPeripheral::Spi1Tx => 13u8,
        DmaPeripheral::Spi1Rx => 14u8,
    }
}

impl DmaPeripheral {
    /// The hardware handshaking request ID, as programmed into a channel's
    /// peripheral-select field.
    pub fn request_id(self) -> (r: u8)
        ensures
            r == request_id_spec(self),
            r <= 0x0F,
    {
        match self {
            DmaPeripheral::Tie0 => 0,
            DmaPeripheral::Uart0Tx => 1,
            DmaPeripheral::Uart0Rx => 2,
            DmaPeripheral::Uart1Tx => 3,
            DmaPeripheral::Uart1Rx => 4,
            DmaPeripheral::Uart2Tx => 5,
            DmaPeripheral::Uart2Rx => 6,
            DmaPeripheral::Spi0Tx => 7,
            DmaPeripheral::Spi0Rx => 8,
            DmaPeripheral::I2sTx => 11,
            DmaPeripheral::I2sRx => 12,
            DmaPeripheral::Spi1Tx => 13,
            DmaPeripheral::Spi1Rx => 14,
        }
    }
}

/// Transfer direction.
#[derive(Debug, Clone, Copy, PartialEq, Eq, Structural)]
pub enum DmaDirection {
    /// Transmit (memory to peripheral).
    Tx,
    /// Receive (peripheral to memory).
    Rx,
}

/// The beat width of a peripheral transfer.
#[derive(Debug, Clone, Copy, PartialEq, Eq, Structural)]
pub enum DmaFrame {
    /// 8-bit beat.
    Byte,
    /// 16-bit beat.
    HalfWord,
}

/// The transfer width of a frame size.
pub open spec fn frame_width_spec(f: DmaFrame) -> TransferWidth {
    match f {
        DmaFrame::Byte => TransferWidth::Width8,
        DmaFrame::HalfWord => TransferWidth::Width16,
    }
}

impl DmaFrame {
    /// The transfer width for this frame size.
    pub fn width(self) -> (r: TransferWidth)
        ensures
            r == frame_width_spec(self),
    {
        match self {
            DmaFrame::Byte => TransferWidth::Width8,
            DmaFrame::HalfWord => TransferWidth::Width16,
        }
    }
}

/// Errors from DMA transfer setup or completion.
#[derive(Debug, Clone, Copy, PartialEq, Eq, Structural)]
pub enum DmaError {
    /// The buffer exceeds the 4095-beat single-block limit.
    TransferTooLarge,
    /// The channel did not complete within the bounded wait; it was
    /// quiesced before the buffers were handed back.
    Timeout,
}

/// Which kind of peripheral a [`PeriDmaCtl`] controls.
#[derive(Debug, Clone, Copy, PartialEq, Eq, Structural)]
pub enum PeriKind {
    /// SPI: `spi_dcr` with `tdmae` (bit 0) and `rdmae` (bit 1).
    Spi,
    /// UART: paced by the FIFO trigger levels, no DMA-enable bit.
    Uart,
}

/// SPI0 register-block base.
pub const SPI0_BASE: usize = 0x4402_0000;
/// SPI1 register-block base.
pub const SPI1_BASE: usize = 0x4402_1000;

/// How to clear a peripheral's DMA enable on teardown.
#[derive(Debug, Clone, Copy, PartialEq, Eq, Structural)]
pub struct PeriDmaCtl {
    /// The peripheral's register-block base.
    pub base: usize,
    /// The kind of peripheral.
    pub kind: PeriKind,
    /// The transfer direction.
    pub dir: DmaDirection,
}

impl PeriDmaCtl {
    /// A teardown handle for the peripheral at `base`.
    pub fn new(base: usize, kind: PeriKind, dir: DmaDirection) -> (r: Self)
        ensures
            r == (PeriDmaCtl { base, kind, dir }),
    {
        PeriDmaCtl { base, kind, dir }
    }

    /// The `spi_dcr` value that stops the peripheral requesting DMA, from its
    /// current value `dcr`: the direction's enable bit cleared. `None` when
    /// The `DCR` word that clears this peripheral's DMA enable, from `dcr`:
    /// only the SPI blocks have one (`tdmae` for transmit, `rdmae` for
    /// receive); none for a UART or another base.
    pub open spec fn disable_spec(&self, dcr: u32) -> Option<u32> {
        if self.kind == PeriKind::Spi && (self.base == SPI0_BASE || self.base == SPI1_BASE) {
            Some(if self.dir == DmaDirection::Tx { dcr & !1u32 } else { dcr & !2u32 })
        } else {
            None
        }
    }

    /// there is nothing to write (a UART, or a base that is no SPI block).
    pub fn disable(&self, dcr: u32) -> (r: Option<u32>)
        ensures
            r == self.disable_spec(dcr),
    {
        match self.kind {
            PeriKind::Uart => None,
            PeriKind::Spi => {
                if self.base != SPI0_BASE && self.base != SPI1_BASE {
                    None
                } else {
                    match self.dir {
                        DmaDirection::Tx => Some(dcr & !1u32),
                        DmaDirection::Rx => Some(dcr & !2u32),
                    }
                }
            },
        }
    }
}

/// A claimed MDMA channel: a token for logical channel 0-3.
pub struct DmaChannel {
    logical: u8,
}

impl DmaChannel {
    /// The logical channel number, in specifications.
    pub closed spec fn number(self) -> u8 {
        self.logical
    }

    #[verifier::type_invariant]
    closed spec fn inv(self) -> bool {
        self.logical < 4
    }

    /// The logical channel number (0-3).
    pub fn logical(&self) -> (r: u8)
        ensures
            r == self.number(),
            r < 4,
    {
        proof { use_type_invariant(self); }
        self.logical
    }
}

/// The four MDMA channel tokens.
pub struct DmaChannels {
    /// Logical channel 0.
    pub ch0: DmaChannel,
    /// Logical channel 1.
    pub ch1: DmaChannel,
    /// Logical channel 2.
    pub ch2: DmaChannel,
    /// Logical channel 3.
    pub ch3: DmaChannel,
}

/// The set of claimed MDMA channels (bit `n` = logical channel `n`).
#[derive(Debug, PartialEq, Eq, Structural)]
pub struct ChannelClaims {
    bits: u8,
}

impl ChannelClaims {
    /// The claimed bits, in specifications.
    pub closed spec fn claimed(self) -> u8 {
        self.bits
    }

    /// The claimed bits.
    pub fn bits(&self) -> (r: u8)
        ensures
            r == self.claimed(),
    {
        self.bits
    }

    /// No channel claimed.
    pub fn new() -> (r: Self)
        ensures
            r.claimed() == 0,
    {
        ChannelClaims { bits: 0 }
    }

    /// Claim all four channels at once: succeeds, setting all four bits,
    /// only when none is claimed; otherwise changes nothing.
    pub fn try_claim_all(&mut self) -> (r: bool)
        ensures
            r == (old(self).claimed() == 0),
            r ==> final(self).claimed() == 0x0f,
            !r ==> final(self).claimed() == old(self).claimed(),
    {
        if self.bits == 0 {
            self.bits = 0x0f;
            true
        } else {
            false
        }
    }

    /// Release a channel's claim.
    pub fn release(&mut self, channel: DmaChannel)
        ensures
            final(self).claimed() == old(self).claimed() & !(1u8 << channel.number()),
    {
        let n = channel.logical();
        self.bits = self.bits & !(1u8 << n);
    }
}

/// A DMA controller driver for the controller `T`.
pub struct DmaDriver<T: DmaInstance> {
    instance: PhantomData<T>,
}

/// The register writes that configure and start one channel, in order:
/// `chn_config` = 0 (disable), `s_addr`, `d_addr`, `lli` = 0, `chn_control`,
/// `chn_config`; `en_chns` is the channel-enable status the controller then
/// reports.
#[derive(Debug, Clone, Copy, PartialEq, Eq, Structural)]
pub struct DmaChannelSetup {
    /// The physical channel (0-3) whose registers are written.
    pub physical: usize,
    /// Source address.
    pub src_addr: u32,
    /// Destination address.
    pub dst_addr: u32,
    /// Linked-list pointer (cleared).
    pub lli: u32,
    /// The channel `control` word.
    pub control: u32,
    /// The channel `config` word (channel enabled).
    pub config: u32,
    /// The `en_chns` status once started: the one read, with the channel's
    /// bit set.
    pub en_chns: u32,
}

/// `dmac_config` word that enables a controller.
pub const DMAC_ENABLE: u32 = 0x1;
/// Channel `config` enable bit.
pub const CHN_ENABLE: u32 = 0x1;
/// Channel `config` active bit (data in the FIFO or bus pipeline).
pub const CHN_ACTIVE: u32 = 0x8000;
/// Channel `config` halt bit.
pub const CHN_HALT: u32 = 0x1_0000;
/// Bound on the polls of a transfer's completion and of a channel's drain.
pub const DMA_WAIT_LOOPS: u32 = 5_000_000;
/// Cache-maintenance granularity of DMA buffers (the 32-byte line).
pub const DMA_ALIGN: usize = 32;

impl<T: DmaInstance> DmaDriver<T> {
    /// The physical channel of logical `channel`.
    pub fn physical_channel(channel: u8) -> (r: usize)
        requires
            T::base_spec() <= channel < T::base_spec() + 4,
        ensures
            r == channel - T::base_spec(),
    {
        physical_channel_index(T::channel_base(), channel)
    }

    /// The `dmac_burst_req` word that raises a software burst request on
    /// logical `channel`: its physical channel's bit.
    pub fn burst_request_raw(&mut self, channel: u8) -> (r: u32)
        requires
            T::base_spec() <= channel < T::base_spec() + 4,
        ensures
            *final(self) == *old(self),
            r == 1u32 << (channel - T::base_spec()) as u32,
    {
        let ch = Self::physical_channel(channel);
        1u32 << ch as u32
    }

    /// The `dmac_single_req` word that raises a software single request on
    /// logical `channel`: its physical channel's bit.
    pub fn single_request_raw(&mut self, channel: u8) -> (r: u32)
        requires
            T::base_spec() <= channel < T::base_spec() + 4,
        ensures
            *final(self) == *old(self),
            r == 1u32 << (channel - T::base_spec()) as u32,
    {
        let ch = Self::physical_channel(channel);
        1u32 << ch as u32
    }

    /// The `dmac_config` word that enables the controller.
    pub fn enable_controller(&mut self) -> (r: u32)
        ensures
            *final(self) == *old(self),
            r == DMAC_ENABLE,
    {
        DMAC_ENABLE
    }

    /// The `dmac_config` word that disables the controller.
    pub fn disable_controller(&mut self) -> (r: u32)
        ensures
            *final(self) == *old(self),
            r == 0,
    {
        0
    }

    /// The register writes that configure logical `channel` for a transfer
    /// of `transfer_size` beats from `src_addr` to `dst_addr` with `config`
    /// and start it; `en_chns` is the current channel-enable register.
    pub fn configure_channel_raw(
        &mut self,
        channel: u8,
        src_addr: u32,
        dst_addr: u32,
        transfer_size: DmaTransferSize,
        config: &DmaChannelConfig,
        en_chns: u32,
    ) -> (s: DmaChannelSetup)
        requires
            T::base_spec() <= channel < T::base_spec() + 4,
        ensures
            s.physical == channel - T::base_spec(),
            s.src_addr == src_addr,
            s.dst_addr == dst_addr,
            s.lli == 0,
            s.control == control_bits(
                transfer_size.beats() as u32,
                burst_code(config.src_burst),
                burst_code(config.dst_burst),
                width_code(config.src_width),
                width_code(config.dst_width),
                config.src_inc,
                config.dst_inc,
                config.transfer_int,
            ),
            s.config == config_bits(
                config.src_peripheral as u32,
                config.dst_peripheral as u32,
                flow_code(config.flow_control),
                config.error_int,
                config.transfer_int,
                config.bus_lock,
            ),
            s.en_chns == en_chns | (1u32 << s.physical),
    {
        let ch = Self::physical_channel(channel);
        DmaChannelSetup {
            physical: ch,
            src_addr,
            dst_addr,
            lli: 0,
            control: config.control_word(transfer_size),
            config: config.channel_config_word(),
            en_chns: en_chns | (1u32 << ch),
        }
    }

    /// The channel `config` word with the enable bit set.
    pub fn enable_channel_raw(&mut self, cfg: u32) -> (r: u32)
        ensures
            *final(self) == *old(self),
            r == cfg | CHN_ENABLE,
    {
        cfg | CHN_ENABLE
    }

    /// The channel `config` word with the enable bit cleared.
    pub fn disable_channel_raw(&mut self, cfg: u32) -> (r: u32)
        ensures
            *final(self) == *old(self),
            r == cfg & !CHN_ENABLE,
    {
        cfg & !CHN_ENABLE
    }

    /// Whether logical `channel` is enabled in `en_chns` (the hardware
    /// clears the bit when a single-block transfer completes).
    pub fn channel_enabled_raw(&self, channel: u8, en_chns: u32) -> (r: bool)
        requires
            T::base_spec() <= channel < T::base_spec() + 4,
        ensures
            r == (en_chns & (1u32 << (channel - T::base_spec()) as u32) != 0),
    {
        let ch = Self::physical_channel(channel);
        en_chns & (1u32 << ch as u32) != 0
    }

    /// Whether the channel has data in its FIFO or bus pipeline, from its
    /// `config` word.
    pub fn channel_active_raw(&self, cfg: u32) -> (r: bool)
        ensures
            r == (cfg & CHN_ACTIVE != 0),
    {
        cfg & CHN_ACTIVE != 0
    }

    /// The channel `config` word with the halt bit set.
    pub fn halt_channel_raw(&mut self, cfg: u32) -> (r: u32)
        ensures
            *final(self) == *old(self),
            r == cfg | CHN_HALT,
    {
        cfg | CHN_HALT
    }

    /// The channel `config` word with the halt bit cleared.
    pub fn resume_channel_raw(&mut self, cfg: u32) -> (r: u32)
        ensures
            *final(self) == *old(self),
            r == cfg & !CHN_HALT,
    {
        cfg & !CHN_HALT
    }

    /// The `burst_req` (or `single_req`) word for logical `channel`.
    pub fn request_word_raw(&self, channel: u8) -> (r: u32)
        requires
            T::base_spec() <= channel < T::base_spec() + 4,
        ensures
            r == 1u32 << (channel - T::base_spec()) as u32,
    {
        let ch = Self::physical_channel(channel);
        1u32 << ch as u32
    }

    /// The raw interrupt status from `dmac_ori_int_st`: `(transfer-done mask,
    /// error mask)`, bit `n` for physical channel `n`.
    pub fn raw_interrupt_status(&self, ori_int_st: u32) -> (r: (u8, u8))
        ensures
            r.0 == ori_int_st & 0xFF,
            r.1 == (ori_int_st >> 8u32) & 0xFF,
    {
        proof {
            crate::bits::lemma_and_le(ori_int_st, 0xFF);
            crate::bits::lemma_and_le(ori_int_st >> 8u32, 0xFF);
        }
        ((ori_int_st & 0xFF) as u8, ((ori_int_st >> 8u32) & 0xFF) as u8)
    }

    /// The masked interrupt status from `dmac_int_st`: `(transfer-done mask,
    /// error mask)`, bit `n` for physical channel `n`.
    pub fn interrupt_status(&self, int_st: u32) -> (r: (u8, u8))
        ensures
            r.0 == int_st & 0xFF,
            r.1 == (int_st >> 16u32) & 0xFF,
    {
        proof {
            crate::bits::lemma_and_le(int_st, 0xFF);
            crate::bits::lemma_and_le(int_st >> 16u32, 0xFF);
        }
        ((int_st & 0xFF) as u8, ((int_st >> 16u32) & 0xFF) as u8)
    }

    /// The `dmac_int_clr` word that clears logical `channel`'s
    /// transfer-complete interrupt.
    pub fn clear_transfer_interrupt_raw(&mut self, channel: u8) -> (r: u32)
        requires
            T::base_spec() <= channel < T::base_spec() + 4,
        ensures
            *final(self) == *old(self),
            r == 1u32 << (channel - T::base_spec()) as u32,
    {
        let ch = Self::physical_channel(channel);
        1u32 << ch as u32
    }

    /// The `dmac_int_clr` word that clears logical `channel`'s error
    /// interrupt.
    pub fn clear_error_interrupt_raw(&mut self, channel: u8) -> (r: u32)
        requires
            T::base_spec() <= channel < T::base_spec() + 4,
        ensures
            *final(self) == *old(self),
            r == 1u32 << (channel - T::base_spec() + 8) as u32,
    {
        let ch = Self::physical_channel(channel);
        1u32 << (ch + 8) as u32
    }

    /// The `dmac_sync` word for `sync_mask`.
    pub fn set_sync(&mut self, sync_mask: DmaSyncMask) -> (r: u32)
        ensures
            *final(self) == *old(self),
            r == sync_mask.mask(),
    {
        sync_mask.bits() as u32
    }
}

impl DmaDriver<Dma0> {
    /// The primary DMA driver.
    pub fn new_dma() -> (d: Self) {
        DmaDriver { instance: PhantomData }
    }

    /// Claim all four MDMA channels, or `None` while any is outstanding.
    pub fn split_channels(&self, claims: &mut ChannelClaims) -> (r: Option<DmaChannels>)
        ensures
            r.is_some() == (old(claims).claimed() == 0),
            r.is_some() ==> final(claims).claimed() == 0x0f,
            r is None ==> final(claims).claimed() == old(claims).claimed(),
            r matches Some(c) ==> c.ch0.number() == 0 && c.ch1.number() == 1 && c.ch2.number() == 2
                && c.ch3.number() == 3,
    {
        if claims.try_claim_all() {
            Some(
                DmaChannels {
                    ch0: DmaChannel { logical: 0 },
                    ch1: DmaChannel { logical: 1 },
                    ch2: DmaChannel { logical: 2 },
                    ch3: DmaChannel { logical: 3 },
                },
            )
        } else {
            None
        }
    }

    /// The channel `config` word that enables a claimed channel.
    pub fn enable_channel(&mut self, channel: &DmaChannel, cfg: u32) -> (r: u32)
        ensures
            *final(self) == *old(self),
            r == cfg | CHN_ENABLE,
    {
        self.enable_channel_raw(cfg)
    }

    /// The channel `config` word that disables a claimed channel.
    pub fn disable_channel(&mut self, channel: &DmaChannel, cfg: u32) -> (r: u32)
        ensures
            *final(self) == *old(self),
            r == cfg & !CHN_ENABLE,
    {
        self.disable_channel_raw(cfg)
    }

    /// Whether a claimed channel is enabled in `en_chns`.
    pub fn channel_enabled(&self, channel: &DmaChannel, en_chns: u32) -> (r: bool)
        ensures
            r == (en_chns & (1u32 << channel.number() as u32) != 0),
    {
        let n = channel.logical();
        self.channel_enabled_raw(n, en_chns)
    }

    /// Whether a claimed channel has data in flight, from its `config` word.
    pub fn channel_active(&self, channel: &DmaChannel, cfg: u32) -> (r: bool)
        ensures
            r == (cfg & CHN_ACTIVE != 0),
    {
        self.channel_active_raw(cfg)
    }

    /// The channel `config` word that halts a claimed channel.
    pub fn halt_channel(&mut self, channel: &DmaChannel, cfg: u32) -> (r: u32)
        ensures
            *final(self) == *old(self),
            r == cfg | CHN_HALT,
    {
        self.halt_channel_raw(cfg)
    }

    /// The channel `config` word that resumes a halted claimed channel.
    pub fn resume_channel(&mut self, channel: &DmaChannel, cfg: u32) -> (r: u32)
        ensures
            *final(self) == *old(self),
            r == cfg & !CHN_HALT,
    {
        self.resume_channel_raw(cfg)
    }

    /// The `burst_req` word for a claimed channel.
    pub fn burst_request(&mut self, channel: &DmaChannel) -> (r: u32)
        ensures
            *final(self) == *old(self),
            r == 1u32 << channel.number() as u32,
    {
        let n = channel.logical();
        self.request_word_raw(n)
    }

    /// The `single_req` word for a claimed channel.
    pub fn single_request(&mut self, channel: &DmaChannel) -> (r: u32)
        ensures
            *final(self) == *old(self),
            r == 1u32 << channel.number() as u32,
    {
        let n = channel.logical();
        self.request_word_raw(n)
    }

    /// The `dmac_int_clr` word that clears a claimed channel's
    /// transfer-complete interrupt.
    pub fn clear_transfer_interrupt(&mut self, channel: &DmaChannel) -> (r: u32)
        ensures
            *final(self) == *old(self),
            r == 1u32 << channel.number() as u32,
    {
        let n = channel.logical();
        self.clear_transfer_interrupt_raw(n)
    }

    /// The `dmac_int_clr` word that clears a claimed channel's error
    /// interrupt.
    pub fn clear_error_interrupt(&mut self, channel: &DmaChannel) -> (r: u32)
        ensures
            *final(self) == *old(self),
            r == 1u32 << (channel.number() + 8) as u32,
    {
        let n = channel.logical();
        self.clear_error_interrupt_raw(n)
    }

    /// Start a memory-to-memory transfer of `min(src_len, dst_len)` 32-bit
    /// words on `channel`: the controller enable word and the channel setup
    /// with the default configuration, or `TransferTooLarge` above 4095
    /// words (nothing is written then).
    pub fn start_mem_to_mem(
        self,
        channel: DmaChannel,
        src_addr: u32,
        src_len: usize,
        dst_addr: u32,
        dst_len: usize,
        en_chns: u32,
    ) -> (r: Result<(Transfer, DmaChannelSetup), DmaStartError>)
        ensures
            ({
                let words = if src_len <= dst_len { src_len } else { dst_len };
                &&& (r.is_ok() <==> words <= MAX_BEATS)
                &&& (r matches Err(e) ==> e.error == DmaError::TransferTooLarge
                    && e.channel.number() == channel.number())
                &&& (r matches Ok((t, s)) ==> {
                    &&& t.channel.number() == channel.number()
                    &&& t.dst_addr == dst_addr
                    &&& t.bytes == words * 4
                    &&& s.physical == channel.number()
                    &&& s.src_addr == src_addr
                    &&& s.dst_addr == dst_addr
                    &&& s.lli == 0
                    &&& s.control == control_bits(words as u32, 0, 0, 2, 2, true, true, false)
                    &&& s.config == config_bits(0, 0, 0, false, false, false)
                    &&& s.en_chns == en_chns | (1u32 << s.physical)
                })
            }),
    {
        let words = if src_len <= dst_len { src_len } else { dst_len };
        let transfer_size = match DmaTransferSize::from_beats(words) {
            Some(size) => size,
            None => return Err(DmaStartError { error: DmaError::TransferTooLarge, channel }),
        };
        let bytes = words * 4;
        let mut driver = self;
        let cfg = DmaChannelConfig::mem_to_mem();
        let n = channel.logical();
        let setup = driver.configure_channel_raw(n, src_addr, dst_addr, transfer_size, &cfg, en_chns);
        Ok((Transfer { channel, dst_addr: dst_addr as usize, bytes }, setup))
    }

    /// Start a memory-to-peripheral transfer of `beats` frames from
    /// `src_addr` to the peripheral data register `peri_data_addr`:
    /// handshaking ID of `peri`, frame width, transfer interrupt on. Fails
    /// with `TransferTooLarge` above 4095 beats.
    pub fn start_mem_to_peripheral(
        self,
        channel: DmaChannel,
        src_addr: u32,
        beats: usize,
        peri_data_addr: u32,
        peri: DmaPeripheral,
        frame: DmaFrame,
        peri_dis: PeriDmaCtl,
        en_chns: u32,
        claims: &mut ChannelClaims,
    ) -> (r: Result<(PeripheralTransfer, DmaChannelSetup), DmaError>)
        ensures
            r.is_ok() <==> beats <= MAX_BEATS,
            r matches Err(e) ==> e == DmaError::TransferTooLarge,
            r is Err ==> final(claims).claimed() == old(claims).claimed() & !(1u8 << channel.number()),
            r is Ok ==> final(claims).claimed() == old(claims).claimed(),
            r matches Ok((t, s)) ==> {
                &&& t.channel.number() == channel.number()
                &&& t.dir == DmaDirection::Tx
                &&& t.mem_addr == src_addr
                &&& t.bytes == beats
                &&& t.peri_dis == peri_dis
                &&& s.physical == channel.number()
                &&& s.src_addr == src_addr
                &&& s.dst_addr == peri_data_addr
                &&& s.control == control_bits(
                    beats as u32,
                    0,
                    0,
                    width_code(frame_width_spec(frame)),
                    width_code(frame_width_spec(frame)),
                    true,
                    false,
                    true,
                )
                &&& s.config == config_bits(0, request_id_spec(peri) as u32, 1, false, true, false)
                &&& s.en_chns == en_chns | (1u32 << s.physical)
            },
    {
        let size = match DmaTransferSize::from_beats(beats) {
            Some(s) => s,
            None => {
                claims.release(channel);
                return Err(DmaError::TransferTooLarge);
            },
        };
        let cfg = DmaChannelConfig::mem_to_mem().mem_to_peripheral(peri).with_width(frame).with_transfer_int(
            true,
        );
        let mut driver = self;
        let n = channel.logical();
        let setup = driver.configure_channel_raw(n, src_addr, peri_data_addr, size, &cfg, en_chns);
        Ok(
            (
                PeripheralTransfer {
                    channel,
                    dir: DmaDirection::Tx,
                    mem_addr: src_addr as usize,
                    bytes: beats,
                    peri_dis,
                },
                setup,
            ),
        )
    }

    /// Start a peripheral-to-memory transfer of `beats` frames from the
    /// peripheral data register `peri_data_addr` to `dst_addr`. Fails with
    /// `TransferTooLarge` above 4095 beats.
    pub fn start_peripheral_to_mem(
        self,
        channel: DmaChannel,
        dst_addr: u32,
        beats: usize,
        peri_data_addr: u32,
        peri: DmaPeripheral,
        frame: DmaFrame,
        peri_dis: PeriDmaCtl,
        en_chns: u32,
        claims: &mut ChannelClaims,
    ) -> (r: Result<(PeripheralTransfer, DmaChannelSetup), DmaError>)
        ensures
            r.is_ok() <==> beats <= MAX_BEATS,
            r matches Err(e) ==> e == DmaError::TransferTooLarge,
            r is Err ==> final(claims).claimed() == old(claims).claimed() & !(1u8 << channel.number()),
            r is Ok ==> final(claims).claimed() == old(claims).claimed(),
            r matches Ok((t, s)) ==> {
                &&& t.channel.number() == channel.number()
                &&& t.dir == DmaDirection::Rx
                &&& t.mem_addr == dst_addr
                &&& t.bytes == beats
                &&& t.peri_dis == peri_dis
                &&& s.physical == channel.number()
                &&& s.src_addr == peri_data_addr
                &&& s.dst_addr == dst_addr
                &&& s.control == control_bits(
                    beats as u32,
                    0,
                    0,
                    width_code(frame_width_spec(frame)),
                    width_code(frame_width_spec(frame)),
                    false,
                    true,
                    true,
                )
                &&& s.config == config_bits(request_id_spec(peri) as u32, 0, 2, false, true, false)
                &&& s.en_chns == en_chns | (1u32 << s.physical)
            },
    {
        let size = match DmaTransferSize::from_beats(beats) {
            Some(s) => s,
            None => {
                claims.release(channel);
                return Err(DmaError::TransferTooLarge);
            },
        };
        let cfg = DmaChannelConfig::mem_to_mem().peripheral_to_mem(peri).with_width(frame).with_transfer_int(
            true,
        );
        let mut driver = self;
        let n = channel.logical();
        let setup = driver.configure_channel_raw(n, peri_data_addr, dst_addr, size, &cfg, en_chns);
        Ok(
            (
                PeripheralTransfer {
                    channel,
                    dir: DmaDirection::Rx,
                    mem_addr: dst_addr as usize,
                    bytes: beats,
                    peri_dis,
                },
                setup,
            ),
        )
    }
}

impl DmaDriver<Sdma0> {
    /// The secure DMA driver.
    pub fn new_sdma() -> (d: Self) {
        DmaDriver { instance: PhantomData }
    }
}

/// An in-flight memory-to-memory transfer.
pub struct Transfer {
    /// The channel it runs on.
    pub channel: DmaChannel,
    /// The destination address (for the cache invalidate on completion).
    pub dst_addr: usize,
    /// The number of bytes transferred.
    pub bytes: usize,
}

impl Transfer {
    /// True once the channel has cleared its bit in `en_chns`.
    pub fn is_done(&self, en_chns: u32) -> (r: bool)
        ensures
            r == (en_chns & (1u32 << self.channel.number() as u32) == 0),
    {
        let n = self.channel.logical();
        en_chns & (1u32 << n as u32) == 0
    }

    /// Begin tearing down a transfer that timed out: the quiesce of its
    /// channel, whose `config` word is `cfg`, and the word that halts it.
    pub fn cancel(&self, cfg: u32) -> (r: (Quiesce, u32))
        ensures
            r.0.wf(),
            r.0.channel_spec() == self.channel.number(),
            !r.0.after_peri_spec(),
            !r.0.ended_spec(),
            r.1 == cfg | CHN_HALT,
    {
        Quiesce::begin(&self.channel, cfg)
    }

    /// Complete the transfer once its completion wait has settled: `Ok`
    /// with the channel when the deciding read of `en_chns` found it done,
    /// else `Timeout` with the channel, which must have been quiesced first
    /// (`quiesced`, from [`Transfer::cancel`]).
    pub fn wait(self, settled: WaitSettled, quiesced: Option<Quiesced>) -> (r: Result<DmaChannel, DmaWaitError>)
        requires
            settled.channel_spec() == self.channel.number(),
            settled.timed_out_spec() ==> (quiesced matches Some(q) && q.channel_spec() == self.channel.number()),
        ensures
            !settled.timed_out_spec() <==> r.is_ok(),
            r matches Ok(c) ==> c.number() == self.channel.number(),
            r matches Err(e) ==> e.error == DmaError::Timeout && e.channel.number()
                == self.channel.number(),
    {
        if self.is_done(settled.en_chns) {
            Ok(self.channel)
        } else {
            Err(DmaWaitError { error: DmaError::Timeout, channel: self.channel })
        }
    }
}

/// A transfer that could not be started, with its channel.
pub struct DmaStartError {
    /// The reason.
    pub error: DmaError,
    /// The claimed channel, handed back.
    pub channel: DmaChannel,
}

impl DmaStartError {
    /// The reason the transfer could not be started.
    pub fn error(&self) -> (r: DmaError)
        ensures
            r == self.error,
    {
        self.error
    }

    /// The reason and the channel.
    pub fn into_parts(self) -> (r: (DmaError, DmaChannel))
        ensures
            r.0 == self.error,
            r.1 == self.channel,
    {
        (self.error, self.channel)
    }
}

/// A transfer that timed out, with its (quiesced) channel.
pub struct DmaWaitError {
    /// The reason.
    pub error: DmaError,
    /// The claimed channel, handed back.
    pub channel: DmaChannel,
}

impl DmaWaitError {
    /// The reason waiting failed.
    pub fn error(&self) -> (r: DmaError)
        ensures
            r == self.error,
    {
        self.error
    }

    /// The reason and the channel.
    pub fn into_parts(self) -> (r: (DmaError, DmaChannel))
        ensures
            r.0 == self.error,
            r.1 == self.channel,
    {
        (self.error, self.channel)
    }
}

/// An in-flight peripheral-paced transfer.
pub struct PeripheralTransfer {
    /// The channel it runs on.
    pub channel: DmaChannel,
    /// Its direction.
    pub dir: DmaDirection,
    /// The memory-side address.
    pub mem_addr: usize,
    /// The number of bytes.
    pub bytes: usize,
    /// The peripheral's teardown handle.
    pub peri_dis: PeriDmaCtl,
}

/// How a peripheral transfer ended.
#[derive(Debug, Clone, Copy, PartialEq, Eq, Structural)]
pub struct PeripheralWaitOutcome {
    /// The channel timed out and must be torn down (peripheral DMA enable
    /// cleared first, then the channel quiesced).
    pub timed_out: bool,
    /// The memory buffer's cache lines must be invalidated (a receive).
    pub invalidate: bool,
}

impl PeripheralTransfer {
    /// True once the channel has cleared its bit in `en_chns`.
    pub fn is_done(&self, en_chns: u32) -> (r: bool)
        ensures
            r == (en_chns & (1u32 << self.channel.number() as u32) == 0),
    {
        let n = self.channel.logical();
        en_chns & (1u32 << n as u32) == 0
    }

    /// What to do once the completion wait has settled: a channel the
    /// deciding read found still enabled timed out; a receive invalidates
    /// its buffer either way.
    pub fn wait(&self, settled: &WaitSettled) -> (r: PeripheralWaitOutcome)
        requires
            settled.channel_spec() == self.channel.number(),
        ensures
            r.timed_out == settled.timed_out_spec(),
            r.invalidate == (self.dir == DmaDirection::Rx),
    {
        let done = self.is_done(settled.en_chns);
        PeripheralWaitOutcome { timed_out: !done, invalidate: self.dir == DmaDirection::Rx }
    }
}

impl PeripheralTransfer {
    /// Begin tearing down a transfer that timed out, in order: the
    /// peripheral's DMA enable is cleared first (the `dcr` word from
    /// `PeriDmaCtl::disable`, when the peripheral has one), then the channel,
    /// whose `config` word is `cfg`, is halted and its quiesce begins.
    pub fn cancel(&self, dcr: u32, cfg: u32) -> (r: (Option<u32>, Quiesce, u32))
        ensures
            r.0 == self.peri_dis.disable_spec(dcr),
            r.1.wf(),
            r.1.channel_spec() == self.channel.number(),
            r.1.after_peri_spec(),
            !r.1.ended_spec(),
            r.2 == cfg | CHN_HALT,
    {
        let peri = self.peri_dis.disable(dcr);
        let n = self.channel.logical();
        (peri, Quiesce { budget: PollBudget::new(DMA_DRAIN_READS), channel: n, after_peri: true, ended: false }, cfg
            | CHN_HALT)
    }

    /// End the transfer once its completion wait has settled:
    /// a finished transfer hands its channel back with its claim still held;
    /// a timed-out one, which must have been torn down first (`quiesced`,
    /// from [`PeripheralTransfer::cancel`]: peripheral disabled, then the
    /// channel halted, drained and disabled), releases the channel's claim
    /// and fails with `Timeout`.
    pub fn finish(self, settled: WaitSettled, claims: &mut ChannelClaims, quiesced: Option<Quiesced>) -> (r:
        Result<DmaChannel, DmaError>)
        requires
            settled.channel_spec() == self.channel.number(),
            settled.timed_out_spec() ==> (quiesced matches Some(q) && q.channel_spec() == self.channel.number()
                && q.after_peri_spec()),
        ensures
            !settled.timed_out_spec() <==> r is Ok,
            r matches Ok(c) ==> c.number() == self.channel.number() && final(claims).claimed() == old(
                claims,
            ).claimed(),
            r matches Err(e) ==> e == DmaError::Timeout && final(claims).claimed() == old(claims).claimed()
                & !(1u8 << self.channel.number()),
    {
        if self.is_done(settled.en_chns) {
            Ok(self.channel)
        } else {
            claims.release(self.channel);
            Err(DmaError::Timeout)
        }
    }
}

/// The bounded completion wait shared by both transfer kinds: `en_chns` is
/// read while the channel's bit is set, at most [`DMA_WAIT_LOOPS`] times,
/// and then read once more; that last read decides.
pub struct CompletionWait {
    budget: PollBudget,
    channel: u8,
    ended: bool,
}

/// A finished completion wait: the channel and the deciding `en_chns`
/// value. Made only by [`CompletionWait::settle`].
pub struct WaitSettled {
    channel: u8,
    en_chns: u32,
}

impl WaitSettled {
    /// The channel waited for.
    pub closed spec fn channel_spec(&self) -> u8 {
        self.channel
    }

    /// The deciding `en_chns` value.
    pub closed spec fn en_chns_spec(&self) -> u32 {
        self.en_chns
    }

    /// Whether the deciding read found the channel still enabled.
    pub open spec fn timed_out_spec(&self) -> bool {
        self.en_chns_spec() & (1u32 << self.channel_spec() as u32) != 0
    }

    /// Whether the deciding read found the channel still enabled.
    pub fn timed_out(&self) -> (r: bool)
        requires
            self.channel_spec() < 32,
        ensures
            r == self.timed_out_spec(),
    {
        self.en_chns & (1u32 << self.channel as u32) != 0
    }
}

impl CompletionWait {
    /// Well-formedness.
    pub open spec fn wf(&self) -> bool {
        &&& self.budget_spec().wf()
        &&& self.budget_spec().limit_spec() == DMA_WAIT_LOOPS
        &&& !self.ended_spec() ==> self.budget_spec().used_spec() < DMA_WAIT_LOOPS
        &&& self.channel_spec() < 4
    }

    /// The poll budget.
    pub closed spec fn budget_spec(&self) -> PollBudget {
        self.budget
    }

    /// The channel waited for.
    pub closed spec fn channel_spec(&self) -> u8 {
        self.channel
    }

    /// Whether the polling reads have ended.
    pub closed spec fn ended_spec(&self) -> bool {
        self.ended
    }

    /// A fresh wait for `channel`.
    pub fn new(channel: &DmaChannel) -> (w: Self)
        ensures
            w.wf(),
            w.budget_spec().used_spec() == 0,
            w.channel_spec() == channel.number(),
            !w.ended_spec(),
    {
        CompletionWait { budget: PollBudget::new(DMA_WAIT_LOOPS), channel: channel.logical(), ended: false }
    }

    /// One polling read of `en_chns`: `true` to read again, `false` when
    /// the channel's bit is clear or [`DMA_WAIT_LOOPS`] reads found it set.
    pub fn observe(&mut self, en_chns: u32) -> (again: bool)
        requires
            old(self).wf(),
            !old(self).ended_spec(),
        ensures
            final(self).wf(),
            final(self).channel_spec() == old(self).channel_spec(),
            final(self).ended_spec() == !again,
            en_chns & (1u32 << old(self).channel_spec() as u32) == 0 ==> !again
                && final(self).budget_spec().used_spec() == old(self).budget_spec().used_spec(),
            en_chns & (1u32 << old(self).channel_spec() as u32) != 0 ==> final(self).budget_spec().used_spec()
                == old(self).budget_spec().used_spec() + 1 && (again <==> final(self).budget_spec().used_spec()
                < DMA_WAIT_LOOPS),
    {
        let still = en_chns & (1u32 << self.channel as u32) != 0;
        let again = match self.budget.observe(!still) {
            PollStep::Ready => false,
            PollStep::Retry => true,
            PollStep::Exhausted => false,
        };
        self.ended = !again;
        again
    }

    /// Once the polling reads have ended: the deciding read of `en_chns`.
    pub fn settle(self, en_chns: u32) -> (r: WaitSettled)
        requires
            self.ended_spec(),
        ensures
            r.channel_spec() == self.channel_spec(),
            r.en_chns_spec() == en_chns,
    {
        WaitSettled { channel: self.channel, en_chns }
    }
}

/// Bound on the reads of a channel's `active` bit while it drains.
pub const DMA_DRAIN_READS: u32 = 5_000_001;

/// The quiesce sequence of a channel: halt, wait (bounded) for the `active`
/// bit to drain, then disable. The only way to a [`Quiesced`] token.
pub struct Quiesce {
    budget: PollBudget,
    channel: u8,
    after_peri: bool,
    ended: bool,
}

/// Proof that a channel was quiesced: halted, its drain wait ended, and the
/// disabling word computed; for a peripheral-paced transfer, only after the
/// peripheral's DMA enable was cleared. Made only by [`Quiesce::finish`].
pub struct Quiesced {
    channel: u8,
    after_peri: bool,
}

impl Quiesced {
    /// The quiesced logical channel.
    pub closed spec fn channel_spec(&self) -> u8 {
        self.channel
    }

    /// Whether the peripheral's DMA enable was cleared before the halt.
    pub closed spec fn after_peri_spec(&self) -> bool {
        self.after_peri
    }
}

impl Quiesce {
    /// Well-formedness: the budget of drain reads, not spent while the wait
    /// goes on.
    pub open spec fn wf(&self) -> bool {
        &&& self.budget_spec().wf()
        &&& self.budget_spec().limit_spec() == DMA_DRAIN_READS
        &&& !self.ended_spec() ==> self.budget_spec().used_spec() < DMA_DRAIN_READS
    }

    /// The poll budget.
    pub closed spec fn budget_spec(&self) -> PollBudget {
        self.budget
    }

    /// The channel being quiesced.
    pub closed spec fn channel_spec(&self) -> u8 {
        self.channel
    }

    /// Whether the peripheral's DMA enable was cleared before the halt.
    pub closed spec fn after_peri_spec(&self) -> bool {
        self.after_peri
    }

    /// Whether the drain wait has ended.
    pub closed spec fn ended_spec(&self) -> bool {
        self.ended
    }

    /// Begin quiescing `channel`, whose `config` word is `cfg`: the word
    /// that halts it.
    pub fn begin(channel: &DmaChannel, cfg: u32) -> (r: (Self, u32))
        ensures
            r.0.wf(),
            r.0.channel_spec() == channel.number(),
            !r.0.after_peri_spec(),
            !r.0.ended_spec(),
            r.0.budget_spec().used_spec() == 0,
            r.1 == cfg | CHN_HALT,
    {
        let n = channel.logical();
        (Quiesce { budget: PollBudget::new(DMA_DRAIN_READS), channel: n, after_peri: false, ended: false }, cfg
            | CHN_HALT)
    }

    /// One read of the channel's `config` word during the drain: `true` to
    /// read again while data is still in flight and reads remain; `false`
    /// ends the wait.
    pub fn observe(&mut self, cfg: u32) -> (again: bool)
        requires
            old(self).wf(),
            !old(self).ended_spec(),
        ensures
            final(self).wf(),
            final(self).channel_spec() == old(self).channel_spec(),
            final(self).after_peri_spec() == old(self).after_peri_spec(),
            final(self).ended_spec() == !again,
            cfg & CHN_ACTIVE == 0 ==> !again && final(self).budget_spec().used_spec() == old(
                self,
            ).budget_spec().used_spec(),
            cfg & CHN_ACTIVE != 0 ==> final(self).budget_spec().used_spec() == old(self).budget_spec().used_spec()
                + 1 && (again <==> final(self).budget_spec().used_spec() < DMA_DRAIN_READS),
    {
        let again = match self.budget.observe(cfg & CHN_ACTIVE == 0) {
            PollStep::Ready => false,
            PollStep::Retry => true,
            PollStep::Exhausted => false,
        };
        self.ended = !again;
        again
    }

    /// Once the drain wait has ended: the word that disables the channel,
    /// from its `config` word, and the token that it is quiesced.
    pub fn finish(self, cfg: u32) -> (r: (u32, Quiesced))
        requires
            self.ended_spec(),
        ensures
            r.0 == cfg & !CHN_ENABLE,
            r.1.channel_spec() == self.channel_spec(),
            r.1.after_peri_spec() == self.after_peri_spec(),
    {
        (cfg & !CHN_ENABLE, Quiesced { channel: self.channel, after_peri: self.after_peri })
    }
}

/// The `dmac_int_clr` word the DMA interrupt handler writes for the raw
/// status `ori_int_st`: the done bits of the four MDMA channels, each of
/// whose waiters is woken.
pub fn on_interrupt(ori_int_st: u32) -> (r: u32)
    ensures
        r == ori_int_st & 0x0F,
{
    ori_int_st & 0x0F
}

/// The number of beats in one burst of a burst size.
pub open spec fn burst_beats(b: BurstSize) -> nat {
    match b {
        BurstSize::Beats1 => 1,
        BurstSize::Beats4 => 4,
        BurstSize::Beats8 => 8,
        BurstSize::Beats16 => 16,
        BurstSize::Beats32 => 32,
        BurstSize::Beats64 => 64,
        BurstSize::Beats128 => 128,
        BurstSize::Beats256 => 256,
    }
}

/// The burst-size field code of a burst of `n` beats: 0 for a single beat,
/// otherwise the code `c` with `n == 2^(c + 1)`; every code is a 3-bit
/// value.
pub proof fn law_burst_code_of_beats(b: BurstSize)
    ensures
        burst_code(b) <= 7,
        burst_beats(b) == if burst_code(b) == 0 {
            1nat
        } else {
            vstd::arithmetic::power2::pow2((burst_code(b) + 1) as nat)
        },
{
    vstd::arithmetic::power2::lemma2_to64();
}

/// Larger bursts have larger codes: the code orders burst sizes as their
/// beat counts do, and distinct sizes have distinct codes.
pub proof fn law_burst_code_monotonic(a: BurstSize, b: BurstSize)
    ensures
        burst_beats(a) < burst_beats(b) <==> burst_code(a) < burst_code(b),
        burst_beats(a) == burst_beats(b) <==> burst_code(a) == burst_code(b),
{
}

/// The number of bits of one transfer of a transfer width.
pub open spec fn transfer_width_bits(w: TransferWidth) -> nat {
    match w {
        TransferWidth::Width8 => 8,
        TransferWidth::Width16 => 16,
        TransferWidth::Width32 => 32,
    }
}

/// The transfer-width field code is the base-2 logarithm of the number of
/// bytes moved per transfer, so a wider transfer has a larger code.
pub proof fn law_width_code_is_log2_bytes(a: TransferWidth, b: TransferWidth)
    ensures
        width_code(a) <= 2,
        vstd::arithmetic::power2::pow2(width_code(a) as nat) * 8 == transfer_width_bits(a),
        transfer_width_bits(a) < transfer_width_bits(b) <==> width_code(a) < width_code(b),
{
    vstd::arithmetic::power2::lemma2_to64();
}

/// The flow-control field code has bit 0 set exactly when the destination
/// is a peripheral and bit 1 set exactly when the source is one.
pub proof fn law_flow_code_ends(f: FlowControl)
    ensures
        flow_code(f) <= 3,
        (flow_code(f) % 2 == 1) <==> (f == FlowControl::MemToPeripheral || f
            == FlowControl::PeripheralToPeripheral),
        (flow_code(f) / 2 == 1) <==> (f == FlowControl::PeripheralToMem || f
            == FlowControl::PeripheralToPeripheral),
{
}

/// The control word holds each field exactly where documented: the fields
/// read back, and no reserved bit (24-25, 28-30) is ever set.
pub proof fn law_control_word_fields(
    ts: u32,
    sb: u32,
    db: u32,
    sw: u32,
    dw: u32,
    si: bool,
    di: bool,
    ti: bool,
)
    by (bit_vector)
    requires
        ts <= 0xFFF,
        sb < 8,
        db < 8,
        sw < 8,
        dw < 8,
    ensures
        control_bits(ts, sb, db, sw, dw, si, di, ti) & 0xFFF == ts,
        (control_bits(ts, sb, db, sw, dw, si, di, ti) >> 12u32) & 7 == sb,
        (control_bits(ts, sb, db, sw, dw, si, di, ti) >> 15u32) & 7 == db,
        (control_bits(ts, sb, db, sw, dw, si, di, ti) >> 18u32) & 7 == sw,
        (control_bits(ts, sb, db, sw, dw, si, di, ti) >> 21u32) & 7 == dw,
        ((control_bits(ts, sb, db, sw, dw, si, di, ti) >> 26u32) & 1 == 1) == si,
        ((control_bits(ts, sb, db, sw, dw, si, di, ti) >> 27u32) & 1 == 1) == di,
        ((control_bits(ts, sb, db, sw, dw, si, di, ti) >> 31u32) & 1 == 1) == ti,
        control_bits(ts, sb, db, sw, dw, si, di, ti) & 0x7300_0000 == 0,
{
}

/// The channel config word always enables the channel, sets nothing above
/// the lock bit (14), and holds each field exactly where documented.
pub proof fn law_config_word_fields(sp: u32, dp: u32, fc: u32, ei: bool, ti: bool, bl: bool)
    by (bit_vector)
    requires
        fc < 8,
    ensures
        config_bits(sp, dp, fc, ei, ti, bl) & 1 == 1,
        config_bits(sp, dp, fc, ei, ti, bl) & !0x7FFFu32 == 0,
        (config_bits(sp, dp, fc, ei, ti, bl) >> 1u32) & 0xF == sp & 0xF,
        (config_bits(sp, dp, fc, ei, ti, bl) >> 5u32) & 0xF == dp & 0xF,
        (config_bits(sp, dp, fc, ei, ti, bl) >> 9u32) & 7 == fc,
        ((config_bits(sp, dp, fc, ei, ti, bl) >> 12u32) & 1 == 1) == ei,
        ((config_bits(sp, dp, fc, ei, ti, bl) >> 13u32) & 1 == 1) == ti,
        ((config_bits(sp, dp, fc, ei, ti, bl) >> 14u32) & 1 == 1) == bl,
{
}

/// The logical-to-physical translation is a bijection of a controller's four
/// logical channels onto the physical channels 0-3, in order.
pub proof fn law_physical_channel_bijective(base: u8, a: u8, b: u8)
    requires
        base <= a < base + 4,
        base <= b < base + 4,
    ensures
        a - base < 4,
        (a - base == b - base) <==> a == b,
        a < b ==> a - base < b - base,
{
}

/// The channel claim is all-or-nothing: a second claim while the first
/// set is outstanding fails; once all four are released a claim succeeds.
pub proof fn law_claims_all_or_nothing(bits: u8)
    ensures
        bits == 0x0f ==> bits != 0,
        ((((bits & !(1u8 << 0u8)) & !(1u8 << 1u8)) & !(1u8 << 2u8)) & !(1u8 << 3u8)) == 0 <==> bits
            & 0xf0 == 0,
{
    assert(((((bits & !(1u8 << 0u8)) & !(1u8 << 1u8)) & !(1u8 << 2u8)) & !(1u8 << 3u8)) == 0
        <==> bits & 0xf0 == 0) by (bit_vector);
}

} // verus!
