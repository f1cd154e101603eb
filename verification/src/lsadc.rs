//! Low-speed ADC (LSADC v154): scan configuration words, FIFO sample
//! decode, analog enable / reset, CIC filter and correction words.
//!
//! `LSADC_CTRL_0`: channel enables [5:0], averaging [7:6], sample count
//! [12:8], start count [20:13], cast count [27:21]. `LSADC_CTRL_9` FIFO
//! word: data [13:0], channel [16:14].
use vstd::prelude::*;

verus! {

/// LSADC channel (0-5).
#[derive(Debug, Clone, Copy, PartialEq, Eq, Structural)]
pub enum AdcChannel {
    /// Channel 0.
    Channel0,
    /// Channel 1.
    Channel1,
    /// Channel 2.
    Channel2,
    /// Channel 3.
    Channel3,
    /// Channel 4.
    Channel4,
    /// Channel 5.
    Channel5,
}

/// The index of a channel.
pub open spec fn adc_channel_index(c: AdcChannel) -> u32 {
    match c {
        AdcChannel::Channel0 => 0u32,
        AdcChannel::Channel1 => 1u32,
        AdcChannel::Channel2 => 2u32,
        AdcChannel::Channel3 => 3u32,
        AdcChannel::Channel4 => 4u32,
        AdcChannel::Channel5 => 5u32,
    }
}

impl AdcChannel {
    /// The channel with index `idx`, or `None` above 5.
    pub fn from_index(idx: u8) -> (r: Option<Self>)
        ensures
            r.is_some() <==> idx <= 5,
            r matches Some(c) ==> adc_channel_index(c) == idx,
    {
        match idx {
            0 => Some(AdcChannel::Channel0),
            1 => Some(AdcChannel::Channel1),
            2 => Some(AdcChannel::Channel2),
            3 => Some(AdcChannel::Channel3),
            4 => Some(AdcChannel::Channel4),
            5 => Some(AdcChannel::Channel5),
            _ => None,
        }
    }

    /// The channel index (0-5).
    pub fn index(self) -> (r: u32)
        ensures
            r == adc_channel_index(self),
            r <= 5,
    {
        match self {
            AdcChannel::Channel0 => 0,
            AdcChannel::Channel1 => 1,
            AdcChannel::Channel2 => 2,
            AdcChannel::Channel3 => 3,
            AdcChannel::Channel4 => 4,
            AdcChannel::Channel5 => 5,
        }
    }
}

/// Averaging mode (`equ_model_sel`).
#[derive(Debug, Clone, Copy, PartialEq, Eq, Structural)]
pub enum Averaging {
    /// One sample (code 0).
    One,
    /// Two samples (code 1).
    Two,
    /// Four samples (code 2).
    Four,
    /// Eight samples (code 3).
    Eight,
}

/// The field code of an averaging mode.
pub open spec fn averaging_code(a: Averaging) -> u32 {
    match a {
        Averaging::One => 0u32,
        Averaging::Two => 1u32,
        Averaging::Four => 2u32,
        Averaging::Eight => 3u32,
    }
}

impl Averaging {
    /// The field code (0-3).
    pub fn code(self) -> (r: u32)
        ensures
            r == averaging_code(self),
    {
        match self {
            Averaging::One => 0,
            Averaging::Two => 1,
            Averaging::Four => 2,
            Averaging::Eight => 3,
        }
    }
}

/// A sample count, at most 31 (5-bit field).
#[derive(Debug, Clone, Copy, PartialEq, Eq, Structural)]
pub struct SampleCount(u8);

impl SampleCount {
    /// The count, in specifications.
    pub closed spec fn value(self) -> u8 {
        self.0
    }

    #[verifier::type_invariant]
    closed spec fn inv(self) -> bool {
        self.0 <= 0x1F
    }

    /// The count `n`, or `None` above 31.
    pub fn new(n: u8) -> (r: Option<Self>)
        ensures
            r.is_some() <==> n <= 0x1F,
            r matches Some(c) ==> c.value() == n,
    {
        if n <= 0x1F {
            Some(SampleCount(n))
        } else {
            None
        }
    }

    /// The count (0-31).
    pub fn bits(self) -> (r: u8)
        ensures
            r == self.value(),
            r <= 0x1F,
    {
        proof { use_type_invariant(self); }
        self.0
    }
}

/// A cast count, at most 127 (7-bit field).
#[derive(Debug, Clone, Copy, PartialEq, Eq, Structural)]
pub struct CastCount(u8);

impl CastCount {
    /// The count, in specifications.
    pub closed spec fn value(self) -> u8 {
        self.0
    }

    #[verifier::type_invariant]
    closed spec fn inv(self) -> bool {
        self.0 <= 0x7F
    }

    /// The count `n`, or `None` above 127.
    pub fn new(n: u8) -> (r: Option<Self>)
        ensures
            r.is_some() <==> n <= 0x7F,
            r matches Some(c) ==> c.value() == n,
    {
        if n <= 0x7F {
            Some(CastCount(n))
        } else {
            None
        }
    }

    /// The count (0-127).
    pub fn bits(self) -> (r: u8)
        ensures
            r == self.value(),
            r <= 0x7F,
    {
        proof { use_type_invariant(self); }
        self.0
    }
}

/// An RX-FIFO interrupt waterline, at most 7 (3-bit field).
#[derive(Debug, Clone, Copy, PartialEq, Eq, Structural)]
pub struct FifoWaterline(u8);

impl FifoWaterline {
    /// The level, in specifications.
    pub closed spec fn value(self) -> u8 {
        self.0
    }

    #[verifier::type_invariant]
    closed spec fn inv(self) -> bool {
        self.0 <= 0x07
    }

    /// The level `level`, or `None` above 7.
    pub fn new(level: u8) -> (r: Option<Self>)
        ensures
            r.is_some() <==> level <= 0x07,
            r matches Some(c) ==> c.value() == level,
    {
        if level <= 0x07 {
            Some(FifoWaterline(level))
        } else {
            None
        }
    }

    /// The level (0-7).
    pub fn bits(self) -> (r: u8)
        ensures
            r == self.value(),
            r <= 0x07,
    {
        proof { use_type_invariant(self); }
        self.0
    }
}

/// Scan timing.
#[derive(Debug, Clone, Copy)]
pub struct AdcConfig {
    /// Averaging mode.
    pub averaging: Averaging,
    /// Sample count.
    pub sample_count: SampleCount,
    /// Start count (8-bit).
    pub start_count: u8,
    /// Cast count.
    pub cast_count: CastCount,
}

impl Default for AdcConfig {
    /// Eight-sample averaging, sample count 8, start count 0x18, cast 0.
    fn default() -> (c: Self)
        ensures
            c.averaging == Averaging::Eight,
            c.sample_count.value() == 8,
            c.start_count == 0x18,
            c.cast_count.value() == 0,
    {
        AdcConfig {
            averaging: Averaging::Eight,
            sample_count: SampleCount(8),
            start_count: 0x18,
            cast_count: CastCount(0),
        }
    }
}

/// A conversion result.
#[derive(Debug, Clone, Copy, PartialEq, Eq, Structural)]
pub struct AdcSample {
    /// The 14-bit conversion code.
    pub data: u16,
    /// The channel that produced it.
    pub channel: u8,
}

/// Decode a FIFO word: data [13:0], channel [16:14].
pub fn parse_sample(raw: u32) -> (s: AdcSample)
    ensures
        s.data == raw & 0x3FFF,
        s.channel == (raw >> 14u32) & 0x07,
        s.data <= 0x3FFF,
        s.channel <= 0x07,
{
    proof {
        crate::bits::lemma_and_le(raw, 0x3FFF);
        crate::bits::lemma_and_le(raw >> 14u32, 0x07);
    }
    AdcSample { data: (raw & 0x3FFF) as u16, channel: ((raw >> 14u32) & 0x07) as u8 }
}

/// The `LSADC_CTRL_0` word that enables channel `ch` (keeping the enabled
/// ones) and programs the scan timing; bits 31:28 are kept.
pub open spec fn scan_word(ctrl0: u32, ch: u32, avg: u32, sample: u32, start: u32, cast: u32) -> u32 {
    (ctrl0 & 0xF000_0000) | ((ctrl0 & 0x3F) | (1u32 << ch)) | (avg << 6u32) | (sample << 8u32) | (start
        << 13u32) | (cast << 21u32)
}

/// `LSADC_CTRL_11` analog reset release bit.
pub const LSADC_RSTN: u32 = 0x1_0000;

/// The LSADC driver.
pub struct LsAdc;

impl LsAdc {
    /// The LSADC driver.
    pub fn new() -> (d: Self) {
        LsAdc
    }

    /// The `LSADC_CTRL_11` word that releases the analog reset.
    pub fn enable(&mut self, ctrl11: u32) -> (r: u32)
        ensures
            *final(self) == *old(self),
            r == ctrl11 | LSADC_RSTN,
    {
        ctrl11 | LSADC_RSTN
    }

    /// The `LSADC_CTRL_11` word that asserts the analog reset.
    pub fn disable(&mut self, ctrl11: u32) -> (r: u32)
        ensures
            *final(self) == *old(self),
            r == ctrl11 & !LSADC_RSTN,
    {
        ctrl11 & !LSADC_RSTN
    }

    /// The `LSADC_CTRL_11` word with the 16-bit analog enable field set to
    /// `bits`.
    pub fn set_analog_enable(&mut self, ctrl11: u32, bits: u16) -> (r: u32)
        ensures
            *final(self) == *old(self),
            r == (ctrl11 & 0xFFFF_0000) | bits as u32,
    {
        (ctrl11 & 0xFFFF_0000) | bits as u32
    }

    /// The `LSADC_CTRL_0` word that enables `channel` and programs
    /// `config`'s timing.
    pub fn configure_scan(&mut self, ctrl0: u32, channel: AdcChannel, config: &AdcConfig) -> (r: u32)
        ensures
            *final(self) == *old(self),
            r == scan_word(
                ctrl0,
                adc_channel_index(channel),
                averaging_code(config.averaging),
                config.sample_count.value() as u32,
                config.start_count as u32,
                config.cast_count.value() as u32,
            ),
    {
        let ch = channel.index();
        let avg = config.averaging.code();
        let sample = config.sample_count.bits() as u32;
        let start = config.start_count as u32;
        let cast = config.cast_count.bits() as u32;
        (ctrl0 & 0xF000_0000) | ((ctrl0 & 0x3F) | (1u32 << ch)) | (avg << 6u32) | (sample << 8u32) | (start
            << 13u32) | (cast << 21u32)
    }

    /// The `LSADC_CTRL_8` word that starts a scan.
    pub fn start_scan(&mut self) -> (r: u32)
        ensures
            *final(self) == *old(self),
            r == 0x1,
    {
        0x1
    }

    /// The `LSADC_CTRL_8` word that stops a scan.
    pub fn stop_scan(&mut self) -> (r: u32)
        ensures
            *final(self) == *old(self),
            r == 0x2,
    {
        0x2
    }

    /// The `LSADC_CTRL_1` word with the waterline field set to `level`.
    pub fn set_fifo_waterline(&mut self, ctrl1: u32, level: FifoWaterline) -> (r: u32)
        ensures
            *final(self) == *old(self),
            r == (ctrl1 & !0x7u32) | level.value() as u32,
    {
        (ctrl1 & !0x7u32) | level.bits() as u32
    }

    /// Whether the RX FIFO holds a sample (`LSADC_CTRL_1` bit 3).
    pub fn data_ready(&self, ctrl1: u32) -> (r: bool)
        ensures
            r == (ctrl1 & 0x8 != 0),
    {
        ctrl1 & 0x8 != 0
    }

    /// One sample: `None` when `LSADC_CTRL_1` says the FIFO is empty (and
    /// `read_fifo`, which pops it, is not called), else the decoded word.
    pub fn read_sample<F: FnOnce() -> u32>(&self, ctrl1: u32, read_fifo: F) -> (r: Option<AdcSample>)
        requires
            ctrl1 & 0x8 != 0 ==> call_requires(read_fifo, ()),
        ensures
            ctrl1 & 0x8 == 0 ==> r is None,
            ctrl1 & 0x8 != 0 ==> exists|raw: u32| call_ensures(read_fifo, (), raw) && r == Some(
                AdcSample { data: (raw & 0x3FFF) as u16, channel: ((raw >> 14u32) & 0x07) as u8 },
            ),
    {
        if !self.data_ready(ctrl1) {
            return None;
        }
        let raw = read_fifo();
        Some(parse_sample(raw))
    }

    /// The `(CFG_CIC_OSR, CFG_CIC_FILTER_EN)` words that enable the CIC
    /// filter with the given oversampling ratio.
    pub fn enable_cic_filter(&mut self, oversampling_ratio: u8) -> (r: (u32, u32))
        ensures
            *final(self) == *old(self),
            r == (oversampling_ratio as u32, 1u32),
    {
        (oversampling_ratio as u32, 1)
    }

    /// The `CFG_CIC_FILTER_EN` word that disables the CIC filter.
    pub fn disable_cic_filter(&mut self) -> (r: u32)
        ensures
            *final(self) == *old(self),
            r == 0,
    {
        0
    }

    /// The `CFG_OFFSET` word.
    pub fn set_offset(&mut self, offset: u16) -> (r: u32)
        ensures
            *final(self) == *old(self),
            r == offset,
    {
        offset as u32
    }

    /// The `CFG_GAIN` word.
    pub fn set_gain(&mut self, gain: u16) -> (r: u32)
        ensures
            *final(self) == *old(self),
            r == gain,
    {
        gain as u32
    }

    /// The `CFG_DATA_SEL` word: 1 for post-processed data, 0 for raw codes.
    pub fn set_data_select(&mut self, processed: bool) -> (r: u32)
        ensures
            r == if processed { 1u32 } else { 0u32 },
    {
        if processed {
            1
        } else {
            0
        }
    }
}

/// The number of conversions an averaging mode averages.
pub open spec fn averaging_samples(a: Averaging) -> nat {
    match a {
        Averaging::One => 1,
        Averaging::Two => 2,
        Averaging::Four => 4,
        Averaging::Eight => 8,
    }
}

/// The averaging field code is the base-2 logarithm of the number of
/// conversions averaged (a 2-bit value), so more averaging never gets a
/// smaller code.
pub proof fn law_averaging_code_is_log2(a: Averaging, b: Averaging)
    ensures
        averaging_code(a) <= 3,
        vstd::arithmetic::power2::pow2(averaging_code(a) as nat) == averaging_samples(a),
        averaging_samples(a) < averaging_samples(b) <==> averaging_code(a) < averaging_code(b),
{
    vstd::arithmetic::power2::lemma2_to64();
}

/// The scan word enables the requested channel, keeps the other enabled
/// channels and the bits above the timing fields, and holds each timing
/// field where documented.
pub proof fn law_scan_word_fields(ctrl0: u32, ch: u32, avg: u32, sample: u32, start: u32, cast: u32)
    by (bit_vector)
    requires
        ch <= 5,
        avg <= 3,
        sample <= 0x1F,
        start <= 0xFF,
        cast <= 0x7F,
    ensures
        (scan_word(ctrl0, ch, avg, sample, start, cast) >> ch) & 1 == 1,
        scan_word(ctrl0, ch, avg, sample, start, cast) & 0x3F & ctrl0 == ctrl0 & 0x3F,
        (scan_word(ctrl0, ch, avg, sample, start, cast) >> 6u32) & 0x3 == avg,
        (scan_word(ctrl0, ch, avg, sample, start, cast) >> 8u32) & 0x1F == sample,
        (scan_word(ctrl0, ch, avg, sample, start, cast) >> 13u32) & 0xFF == start,
        (scan_word(ctrl0, ch, avg, sample, start, cast) >> 21u32) & 0x7F == cast,
        scan_word(ctrl0, ch, avg, sample, start, cast) & 0xF000_0000 == ctrl0 & 0xF000_0000,
{
}

} // verus!
