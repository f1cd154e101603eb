//! I2S / PCM audio interface (SIO v151).
//!
//! The clock role is a type ([`Master`] / [`Slave`]). A master's BCLK and FS
//! dividers are derived from `(data_width, channels)`:
//! `FS_DIV_NUM = dw * ch`, `FS_DIV_RATIO = dw * ch / 2`,
//! `BCLK_DIV_NUM = round(12288 / (32 * dw * ch))` (round half up), so a
//! zero or out-of-range divider is unrepresentable.
use vstd::prelude::*;
use core::marker::PhantomData;

verus! {

/// Framing mode (`mode` bit 0).
#[derive(Debug, Clone, Copy, PartialEq, Eq, Structural)]
pub enum I2sMode {
    /// I2S (Philips) framing.
    I2s,
    /// PCM framing.
    Pcm,
}

/// Sampling clock edge (`mode` bit 6).
#[derive(Debug, Clone, Copy, PartialEq, Eq, Structural)]
pub enum ClockEdge {
    /// Rising edge.
    Rising,
    /// Falling edge.
    Falling,
}

/// Number of channels (`mode.chn_num`, bits 5:4: codes 0-3 for 2/4/8/16).
#[derive(Debug, Clone, Copy, PartialEq, Eq, Structural)]
pub enum ChannelCount {
    /// 2 channels (code 0).
    Two,
    /// 4 channels (code 1).
    Four,
    /// 8 channels (code 2).
    Eight,
    /// 16 channels (code 3).
    Sixteen,
}

/// The field code of a channel count.
pub open spec fn channel_code(c: ChannelCount) -> u32 {
    match c {
        ChannelCount::Two => 0u32,
        ChannelCount::Four => 1u32,
        ChannelCount::Eight => 2u32,
        ChannelCount::Sixteen => 3u32,
    }
}

/// The number of channels.
pub open spec fn channel_count(c: ChannelCount) -> u32 {
    match c {
        ChannelCount::Two => 2u32,
        ChannelCount::Four => 4u32,
        ChannelCount::Eight => 8u32,
        ChannelCount::Sixteen => 16u32,
    }
}

impl ChannelCount {
    /// The field code (0-3).
    pub fn code(self) -> (r: u32)
        ensures
            r == channel_code(self),
    {
        match self {
            ChannelCount::Two => 0,
            ChannelCount::Four => 1,
            ChannelCount::Eight => 2,
            ChannelCount::Sixteen => 3,
        }
    }

    /// The number of channels (2/4/8/16).
    pub fn count(self) -> (r: u32)
        ensures
            r == channel_count(self),
    {
        match self {
            ChannelCount::Two => 2,
            ChannelCount::Four => 4,
            ChannelCount::Eight => 8,
            ChannelCount::Sixteen => 16,
        }
    }
}

/// Sample width (`data_width_set` codes 1-5 for 16/18/20/24/32 bits).
#[derive(Debug, Clone, Copy, PartialEq, Eq, Structural)]
pub enum DataWidth {
    /// 16-bit samples (code 1).
    Bits16,
    /// 18-bit samples (code 2).
    Bits18,
    /// 20-bit samples (code 3).
    Bits20,
    /// 24-bit samples (code 4).
    Bits24,
    /// 32-bit samples (code 5).
    Bits32,
}

/// The field code of a width.
pub open spec fn width_code(w: DataWidth) -> u32 {
    match w {
        DataWidth::Bits16 => 1u32,
        DataWidth::Bits18 => 2u32,
        DataWidth::Bits20 => 3u32,
        DataWidth::Bits24 => 4u32,
        DataWidth::Bits32 => 5u32,
    }
}

/// The number of bits of a width.
pub open spec fn width_bits(w: DataWidth) -> u32 {
    match w {
        DataWidth::Bits16 => 16u32,
        DataWidth::Bits18 => 18u32,
        DataWidth::Bits20 => 20u32,
        DataWidth::Bits24 => 24u32,
        DataWidth::Bits32 => 32u32,
    }
}

impl DataWidth {
    /// The field code (1-5).
    pub fn code(self) -> (r: u32)
        ensures
            r == width_code(self),
    {
        match self {
            DataWidth::Bits16 => 1,
            DataWidth::Bits18 => 2,
            DataWidth::Bits20 => 3,
            DataWidth::Bits24 => 4,
            DataWidth::Bits32 => 5,
        }
    }

    /// The sample width in bits.
    pub fn bits(self) -> (r: u32)
        ensures
            r == width_bits(self),
    {
        match self {
            DataWidth::Bits16 => 16,
            DataWidth::Bits18 => 18,
            DataWidth::Bits20 => 20,
            DataWidth::Bits24 => 24,
            DataWidth::Bits32 => 32,
        }
    }
}

/// The sample width follows the hardware width code: codes 1 to 5 stand
/// for 16, 18, 20, 24 and 32 bits, so a larger code always means wider
/// samples.
pub proof fn law_width_bits_follow_code(a: DataWidth, b: DataWidth)
    ensures
        1 <= width_code(a) <= 5,
        width_bits(a) == seq![16u32, 18u32, 20u32, 24u32, 32u32][width_code(a) - 1],
        width_code(a) < width_code(b) <==> width_bits(a) < width_bits(b),
{
}

/// A master's frame divider counts the bits of one frame: the sample
/// width times the channel count, so it grows with the width and is a
/// whole number of samples.
pub proof fn law_frame_bits(a: DataWidth, b: DataWidth, ch: ChannelCount)
    ensures
        ((width_bits(a) as nat) * (channel_count(ch) as nat)) % (channel_count(ch) as nat) == 0,
        ((width_bits(a) as nat) * (channel_count(ch) as nat)) / (channel_count(ch) as nat) == width_bits(a),
        width_code(a) < width_code(b) ==> (width_bits(a) as nat) * (channel_count(ch) as nat) < (width_bits(
            b,
        ) as nat) * (channel_count(ch) as nat),
{
    let c = channel_count(ch) as nat;
    assert(c > 0);
    let wa = width_bits(a) as nat;
    let wb = width_bits(b) as nat;
    assert((wa * c) % c == 0 && (wa * c) / c == wa) by (nonlinear_arith)
        requires
            c > 0,
    ;
    assert(wa < wb ==> wa * c < wb * c) by (nonlinear_arith)
        requires
            c > 0,
    ;
}

/// The channel-count field code is one less than the base-2 logarithm of
/// the channel count (2, 4, 8 or 16 channels for codes 0 to 3).
pub proof fn law_channel_code_is_log2(a: ChannelCount, b: ChannelCount)
    ensures
        channel_code(a) <= 3,
        vstd::arithmetic::power2::pow2((channel_code(a) + 1) as nat) == channel_count(a),
        channel_count(a) < channel_count(b) <==> channel_code(a) < channel_code(b),
{
    vstd::arithmetic::power2::lemma2_to64();
}

/// The `mode` word reads back its settings from their fields: PCM in bit 0,
/// the channel code in bits 5:4, the falling edge in bit 6 and the master
/// role in bit 7, and nothing else is set.
pub proof fn law_mode_word_fields(mode: I2sMode, channels: ChannelCount, edge: ClockEdge, master: bool)
    ensures
        ({
            let w = mode_spec(mode, channels, edge, master) as nat;
            &&& (w % 2 == 1) <==> mode == I2sMode::Pcm
            &&& (w / 16) % 4 == channel_code(channels)
            &&& ((w / 64) % 2 == 1) <==> edge == ClockEdge::Falling
            &&& (w / 128 == 1) <==> master
            &&& (w / 2) % 8 == 0
            &&& w < 256
        }),
{
}

/// The `data_width_set` word programs the same width code into the transmit
/// field (bits 2:0) and the receive field (bits 5:3), nothing above.
pub proof fn law_data_width_set_fields(dw: DataWidth)
    ensures
        (width_code(dw) * 9) % 8 == width_code(dw),
        ((width_code(dw) * 9) / 8) % 8 == width_code(dw),
        width_code(dw) * 9 < 64,
{
}

/// The master clock rate in the units of the BCLK derivation.
pub const I2S_MCLK: u32 = 12288;
/// The per-sample reference factor of the BCLK derivation.
pub const FREQ_OF_NEED: u32 = 32;

/// The BCLK divider: `round(MCLK / (32 * prod))`, at least 1.
pub open spec fn bclk_spec(prod: nat) -> nat {
    let b = (2 * I2S_MCLK + FREQ_OF_NEED * prod) / (2 * (FREQ_OF_NEED * prod));
    if b == 0 {
        1
    } else {
        b as nat
    }
}

/// The derived master dividers `(bclk_div_num, fs_div_num,
/// fs_div_ratio_num)` of a width and channel count.
pub fn derive_dividers(dw: DataWidth, ch: ChannelCount) -> (r: (u32, u32, u32))
    ensures
        ({
            let prod = width_bits(dw) as nat * channel_count(ch) as nat;
            &&& r.0 == bclk_spec(prod)
            &&& r.1 == prod
            &&& r.2 == prod / 2
        }),
        1 <= r.0 <= 0x7F,
        1 <= r.1 <= 0x3FF,
        1 <= r.2 <= 0x7FF,
{
    let b = dw.bits();
    let c = ch.count();
    assert(32 <= b * c <= 512) by (nonlinear_arith)
        requires
            16 <= b <= 32,
            2 <= c <= 16,
    ;
    let prod = b * c;
    let d = FREQ_OF_NEED * prod;
    let bclk = (2 * I2S_MCLK + d) / (2 * d);
    assert(bclk <= 0x7F) by (nonlinear_arith)
        requires
            1024 <= d,
            bclk == (2 * 12288 + d) / (2 * d),
    ;
    let bclk = if bclk == 0 { 1 } else { bclk };
    (bclk, prod, prod / 2)
}

/// Role marker trait of the I2S type state.
pub trait Role {}

/// The block generates BCLK and FS.
#[derive(Debug)]
pub struct Master;

/// The block receives BCLK and FS.
#[derive(Debug)]
pub struct Slave;

impl Role for Master {}

impl Role for Slave {}

/// Master configuration (no dividers: they are derived).
#[derive(Debug, Clone, Copy)]
pub struct MasterConfig {
    /// Framing.
    pub mode: I2sMode,
    /// Channels.
    pub channels: ChannelCount,
    /// Sample width (transmit and receive).
    pub data_width: DataWidth,
    /// TX FIFO threshold.
    pub tx_fifo_threshold: u8,
    /// RX FIFO threshold.
    pub rx_fifo_threshold: u8,
    /// Internal TX-to-RX loopback.
    pub loopback: bool,
}

impl Default for MasterConfig {
    /// I2S, stereo, 16-bit, thresholds 8, no loopback.
    fn default() -> (c: Self)
        ensures
            c.mode == I2sMode::I2s,
            c.channels == ChannelCount::Two,
            c.data_width == DataWidth::Bits16,
            c.tx_fifo_threshold == 8,
            c.rx_fifo_threshold == 8,
            !c.loopback,
    {
        MasterConfig {
            mode: I2sMode::I2s,
            channels: ChannelCount::Two,
            data_width: DataWidth::Bits16,
            tx_fifo_threshold: 8,
            rx_fifo_threshold: 8,
            loopback: false,
        }
    }
}

/// Slave configuration (the sampling edge is selectable).
#[derive(Debug, Clone, Copy)]
pub struct SlaveConfig {
    /// Framing.
    pub mode: I2sMode,
    /// Channels.
    pub channels: ChannelCount,
    /// Sample width.
    pub data_width: DataWidth,
    /// Sampling edge.
    pub clock_edge: ClockEdge,
    /// TX FIFO threshold.
    pub tx_fifo_threshold: u8,
    /// RX FIFO threshold.
    pub rx_fifo_threshold: u8,
    /// Internal TX-to-RX loopback.
    pub loopback: bool,
}

impl Default for SlaveConfig {
    /// I2S, stereo, 16-bit, rising edge, thresholds 8, no loopback.
    fn default() -> (c: Self)
        ensures
            c.mode == I2sMode::I2s,
            c.channels == ChannelCount::Two,
            c.data_width == DataWidth::Bits16,
            c.clock_edge == ClockEdge::Rising,
            c.tx_fifo_threshold == 8,
            c.rx_fifo_threshold == 8,
            !c.loopback,
    {
        SlaveConfig {
            mode: I2sMode::I2s,
            channels: ChannelCount::Two,
            data_width: DataWidth::Bits16,
            clock_edge: ClockEdge::Rising,
            tx_fifo_threshold: 8,
            rx_fifo_threshold: 8,
            loopback: false,
        }
    }
}

/// The `mode` word: PCM bit 0, channel code bits 5:4, falling edge bit 6,
/// master bit 7.
pub open spec fn mode_spec(mode: I2sMode, channels: ChannelCount, edge: ClockEdge, master: bool) -> u32 {
    ((if mode == I2sMode::Pcm { 1nat } else { 0 }) + channel_code(channels) as nat * 16 + (if edge
        == ClockEdge::Falling {
        64nat
    } else {
        0
    }) + (if master { 128nat } else { 0 })) as u32
}

/// The `mode` word.
pub fn mode_bits(mode: I2sMode, channels: ChannelCount, edge: ClockEdge, master: bool) -> (r: u32)
    ensures
        r == mode_spec(mode, channels, edge, master),
{
    (if mode == I2sMode::Pcm { 1u32 } else { 0 }) + channels.code() * 16 + (if edge == ClockEdge::Falling {
        64u32
    } else {
        0
    }) + (if master { 128u32 } else { 0 })
}

/// The `data_width_set` word: the width code in `tx_mode` (bits 2:0) and
/// `rx_mode` (bits 5:3).
pub fn data_width_bits(dw: DataWidth) -> (r: u32)
    ensures
        r == width_code(dw) * 9,
{
    let code = dw.code();
    code + code * 8
}

/// The FIFO threshold word: TX threshold in the low byte, RX in the next.
pub fn fifo_threshold_word(tx: u8, rx: u8) -> (r: u32)
    ensures
        r == tx as nat + rx as nat * 256,
{
    (tx as u32) + (rx as u32) * 256
}

/// The clock-tree words: `CMU_NEW_CFG0` with the divider reset-sync
/// released (bit 0), `CKEN_CTL0` with the I2S bus (bit 11) and clock (bit
/// 12) gates open.
pub fn enable_i2s_clock(cmu_cfg0: u32, cken_ctl0: u32) -> (r: (u32, u32))
    ensures
        r.0 == cmu_cfg0 | 1u32,
        r.1 == cken_ctl0 | 0x1800u32,
{
    (cmu_cfg0 | 1u32, cken_ctl0 | 0x1800u32)
}

/// The three master dividers.
#[derive(Debug, Clone, Copy, PartialEq, Eq, Structural)]
pub struct I2sDividers {
    /// `i2s_bclk_div_num`.
    pub bclk: u32,
    /// `i2s_fs_div_num`.
    pub fs_num: u32,
    /// `i2s_fs_div_ratio_num`.
    pub fs_ratio: u32,
}

/// The register writes of a configured I2S block, in order: the clock
/// tree, `mode`, for a master the three dividers, `i2s_crg`, then
/// `data_width_set`, `fifo_threshold`, `version` (loopback bit 8),
/// `signed_ext` = 1 and `ct_set` = 0x0C (both FIFOs reset).
#[derive(Debug, Clone, Copy, PartialEq, Eq, Structural)]
pub struct I2sSetup {
    /// `mode`.
    pub mode: u32,
    /// The dividers of a master.
    pub dividers: Option<I2sDividers>,
    /// `i2s_crg`: divider and clock enables of a master, 0 for a slave.
    pub crg: u32,
    /// `data_width_set`.
    pub data_width_set: u32,
    /// `fifo_threshold`.
    pub fifo_threshold: u32,
    /// `version` (loopback).
    pub version: u32,
    /// `signed_ext`.
    pub signed_ext: u32,
    /// `ct_set` (FIFO reset).
    pub ct_set: u32,
}

/// An I2S block in role `R`.
pub struct I2sDriver<R: Role> {
    /// The clock role.
    pub role: PhantomData<R>,
    /// The configuration words its constructor computed.
    pub setup: I2sSetup,
}

impl I2sDriver<Master> {
    /// An I2S master configured with `config`: falling edge, derived
    /// dividers, divider and clock enables on.
    pub fn new_master(config: &MasterConfig) -> (d: Self)
        ensures
            d.setup.mode == mode_spec(config.mode, config.channels, ClockEdge::Falling, true),
            d.setup.dividers matches Some(v) && v.fs_num == width_bits(config.data_width) as nat * channel_count(
                config.channels,
            ) as nat && v.bclk == bclk_spec(v.fs_num as nat) && v.fs_ratio == v.fs_num / 2,
            d.setup.crg == 3,
            d.setup.data_width_set == width_code(config.data_width) * 9,
            d.setup.fifo_threshold == config.tx_fifo_threshold as nat + config.rx_fifo_threshold as nat * 256,
            d.setup.version == if config.loopback { 0x100u32 } else { 0u32 },
            d.setup.signed_ext == 1,
            d.setup.ct_set == 0x0C,
    {
        let mode = mode_bits(config.mode, config.channels, ClockEdge::Falling, true);
        let (bclk, fs_num, fs_ratio) = derive_dividers(config.data_width, config.channels);
        let dividers = I2sDividers { bclk, fs_num, fs_ratio };
        I2sDriver {
            role: PhantomData,
            setup: I2sSetup {
                mode,
                dividers: Some(dividers),
                crg: 3,
                data_width_set: data_width_bits(config.data_width),
                fifo_threshold: fifo_threshold_word(config.tx_fifo_threshold, config.rx_fifo_threshold),
                version: if config.loopback { 0x100 } else { 0 },
                signed_ext: 1,
                ct_set: 0x0C,
            },
        }
    }
}

impl I2sDriver<Slave> {
    /// An I2S slave configured with `config`: no dividers, clock generation
    /// off.
    pub fn new_slave(config: &SlaveConfig) -> (d: Self)
        ensures
            d.setup.mode == mode_spec(config.mode, config.channels, config.clock_edge, false),
            d.setup.dividers is None,
            d.setup.crg == 0,
            d.setup.data_width_set == width_code(config.data_width) * 9,
            d.setup.fifo_threshold == config.tx_fifo_threshold as nat + config.rx_fifo_threshold as nat * 256,
            d.setup.version == if config.loopback { 0x100u32 } else { 0u32 },
            d.setup.signed_ext == 1,
            d.setup.ct_set == 0x0C,
    {
        let mode = mode_bits(config.mode, config.channels, config.clock_edge, false);
        I2sDriver {
            role: PhantomData,
            setup: I2sSetup {
                mode,
                dividers: None,
                crg: 0,
                data_width_set: data_width_bits(config.data_width),
                fifo_threshold: fifo_threshold_word(config.tx_fifo_threshold, config.rx_fifo_threshold),
                version: if config.loopback { 0x100 } else { 0 },
                signed_ext: 1,
                ct_set: 0x0C,
            },
        }
    }
}

impl<R: Role> I2sDriver<R> {
    /// The `ct_set` word that enables TX.
    pub fn enable_tx(&mut self) -> (r: u32)
        ensures
            *final(self) == *old(self),
            r == 0x01,
    {
        0x01
    }

    /// The `ct_set` word that enables RX.
    pub fn enable_rx(&mut self) -> (r: u32)
        ensures
            *final(self) == *old(self),
            r == 0x02,
    {
        0x02
    }

    /// The `ct_clr` word that disables TX.
    pub fn disable_tx(&mut self) -> (r: u32)
        ensures
            *final(self) == *old(self),
            r == 0x01,
    {
        0x01
    }

    /// The `ct_clr` word that disables RX.
    pub fn disable_rx(&mut self) -> (r: u32)
        ensures
            *final(self) == *old(self),
            r == 0x02,
    {
        0x02
    }

    /// The `ct_set` word that resets the TX FIFO.
    pub fn reset_tx(&mut self) -> (r: u32)
        ensures
            *final(self) == *old(self),
            r == 0x04,
    {
        0x04
    }

    /// The `ct_set` word that resets the RX FIFO.
    pub fn reset_rx(&mut self) -> (r: u32)
        ensures
            *final(self) == *old(self),
            r == 0x08,
    {
        0x08
    }

    /// The `ct_set` word that enables the TX interrupt.
    pub fn enable_tx_interrupt(&mut self) -> (r: u32)
        ensures
            *final(self) == *old(self),
            r == 0x10,
    {
        0x10
    }

    /// The `ct_set` word that enables the RX interrupt.
    pub fn enable_rx_interrupt(&mut self) -> (r: u32)
        ensures
            *final(self) == *old(self),
            r == 0x20,
    {
        0x20
    }

    /// The `left_tx` word for a sample.
    pub fn write_left(&mut self, data: u32) -> (r: u32)
        ensures
            *final(self) == *old(self),
            r == data,
    {
        data
    }

    /// The `right_tx` word for a sample.
    pub fn write_right(&mut self, data: u32) -> (r: u32)
        ensures
            *final(self) == *old(self),
            r == data,
    {
        data
    }

    /// A left-channel sample, from `left_rx`.
    pub fn read_left(&self, left_rx: u32) -> (r: u32)
        ensures
            r == left_rx,
    {
        left_rx
    }

    /// A right-channel sample, from `right_rx`.
    pub fn read_right(&self, right_rx: u32) -> (r: u32)
        ensures
            r == right_rx,
    {
        right_rx
    }

    /// The left TX FIFO depth, from `tx_sta` (low byte).
    pub fn tx_fifo_left_depth(&self, tx_sta: u32) -> (r: u8)
        ensures
            r == tx_sta % 256,
    {
        (tx_sta % 256) as u8
    }

    /// The right TX FIFO depth, from `tx_sta` (second byte).
    pub fn tx_fifo_right_depth(&self, tx_sta: u32) -> (r: u8)
        ensures
            r == (tx_sta / 256) % 256,
    {
        ((tx_sta / 256) % 256) as u8
    }

    /// The left RX FIFO depth, from `rx_sta` (low byte).
    pub fn rx_fifo_left_depth(&self, rx_sta: u32) -> (r: u8)
        ensures
            r == rx_sta % 256,
    {
        (rx_sta % 256) as u8
    }

    /// The right RX FIFO depth, from `rx_sta` (second byte).
    pub fn rx_fifo_right_depth(&self, rx_sta: u32) -> (r: u8)
        ensures
            r == (rx_sta / 256) % 256,
    {
        ((rx_sta / 256) % 256) as u8
    }

    /// `(rx, tx, rx overflow, tx underflow)` from `intstatus` bits 0-3.
    pub fn interrupt_status(&self, sts: u32) -> (r: (bool, bool, bool, bool))
        ensures
            r == (sts & 0x01 != 0, sts & 0x02 != 0, sts & 0x04 != 0, sts & 0x08 != 0),
    {
        (sts & 0x01 != 0, sts & 0x02 != 0, sts & 0x04 != 0, sts & 0x08 != 0)
    }

    /// The `intclr` word that clears all interrupts.
    pub fn clear_interrupts(&mut self) -> (r: u32)
        ensures
            *final(self) == *old(self),
            r == 0x0F,
    {
        0x0F
    }

    /// The `intmask` word: bit 0 RX, bit 1 TX, bit 2 RX overflow, bit 3 TX
    /// underflow.
    pub fn set_interrupt_mask(
        &mut self,
        rx_int_mask: bool,
        tx_int_mask: bool,
        rx_overflow_mask: bool,
        tx_underflow_mask: bool,
    ) -> (r: u32)
        ensures
            r == (if rx_int_mask { 1nat } else { 0 }) + (if tx_int_mask { 2nat } else { 0 }) + (if rx_overflow_mask {
                4nat
            } else {
                0
            }) + (if tx_underflow_mask { 8nat } else { 0 }),
    {
        (if rx_int_mask { 1u32 } else { 0 }) + (if tx_int_mask { 2u32 } else { 0 }) + (if rx_overflow_mask {
            4u32
        } else {
            0
        }) + (if tx_underflow_mask { 8u32 } else { 0 })
    }

    /// The IP version: the low byte of `version`.
    pub fn version(&self, version_reg: u32) -> (r: u8)
        ensures
            r == version_reg % 256,
    {
        (version_reg % 256) as u8
    }
}

/// For every width and channel count the derived dividers are non-zero and
/// fit their fields (BCLK 7 bits, FS 10 bits, ratio 11 bits), the FS
/// divider is the frame's bit count and the ratio gives a 50 % duty.
pub proof fn law_dividers_in_range(dw: DataWidth, ch: ChannelCount)
    ensures
        ({
            let prod = width_bits(dw) as nat * channel_count(ch) as nat;
            &&& 32 <= prod <= 512
            &&& prod % 2 == 0
            &&& 1 <= bclk_spec(prod) <= 12
            &&& 2 * (prod / 2) == prod
        }),
{
    let prod = width_bits(dw) as nat * channel_count(ch) as nat;
    assert(32 <= prod <= 512 && prod % 2 == 0) by (nonlinear_arith)
        requires
            16 <= width_bits(dw) <= 32,
            width_bits(dw) % 2 == 0,
            2 <= channel_count(ch) <= 16,
            channel_count(ch) % 2 == 0,
            prod == width_bits(dw) as nat * channel_count(ch) as nat,
    ;
    let d = 32 * prod;
    assert((2 * 12288 + d) / (2 * d) <= 12) by (nonlinear_arith)
        requires
            d >= 1024,
    ;
}

/// An interrupt status read back through the mask encoding gives the same
/// four bits.
pub proof fn law_int_status_mask_round_trip(sts: u32)
    requires
        sts < 16,
    ensures
        (if sts & 0x01 != 0 { 1nat } else { 0 }) + (if sts & 0x02 != 0 { 2nat } else { 0 }) + (if sts & 0x04
            != 0 {
            4nat
        } else {
            0
        }) + (if sts & 0x08 != 0 { 8nat } else { 0 }) == sts,
{
    assert(sts < 16 ==> (if sts & 0x01 != 0 { 1u32 } else { 0 }) + (if sts & 0x02 != 0 { 2u32 } else { 0 })
        + (if sts & 0x04 != 0 { 4u32 } else { 0 }) + (if sts & 0x08 != 0 { 8u32 } else { 0 }) == sts)
        by (bit_vector);
}

} // verus!
