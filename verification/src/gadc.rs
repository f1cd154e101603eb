//! BS2X GADC: 13-bit general-purpose ADC (v153), 18-bit signed accumulated
//! samples.
//!
//! A conversion spans the GADC digital block, its ANA/LDO sub-block and the
//! PMU AFE. The power-up script, the channel-select word, the bounded
//! conversion-done poll, the sign extension and the discarded first sample
//! after power-up are decided here; the writes themselves are MMIO.
use vstd::prelude::*;
use crate::poll::{access_trace, all_calls, bounded_poll, lemma_trace_append, poll_bus, poll_met};

verus! {

/// GADC input channels (single-ended; the n-side is tied to VSSAFE1).
#[derive(Clone, Copy, Debug, PartialEq, Eq, Structural)]
pub enum AdcChannel {
    /// Analog input 0.
    Ain0,
    /// Analog input 1.
    Ain1,
    /// Analog input 2.
    Ain2,
    /// Analog input 3.
    Ain3,
    /// Analog input 4.
    Ain4,
    /// Analog input 5.
    Ain5,
    /// Analog input 6.
    Ain6,
    /// Analog input 7.
    Ain7,
}

impl AdcChannel {
    /// The AIN index.
    pub open spec fn index_spec(&self) -> u32 {
        match self {
            AdcChannel::Ain0 => 0,
            AdcChannel::Ain1 => 1,
            AdcChannel::Ain2 => 2,
            AdcChannel::Ain3 => 3,
            AdcChannel::Ain4 => 4,
            AdcChannel::Ain5 => 5,
            AdcChannel::Ain6 => 6,
            AdcChannel::Ain7 => 7,
        }
    }

    /// The AIN index.
    pub fn index(&self) -> (r: u32)
        ensures
            r == self.index_spec(),
            r < 8,
    {
        match self {
            AdcChannel::Ain0 => 0,
            AdcChannel::Ain1 => 1,
            AdcChannel::Ain2 => 2,
            AdcChannel::Ain3 => 3,
            AdcChannel::Ain4 => 4,
            AdcChannel::Ain5 => 5,
            AdcChannel::Ain6 => 6,
            AdcChannel::Ain7 => 7,
        }
    }
}

/// The n-side reference input (VSSAFE1) of the analog mux.
pub const VSSAFE1_BIT: u32 = 9;

/// Bound on the polls of the conversion-done flag.
pub const GADC_DONE_POLL_LIMIT: u32 = 1_000_000;

/// GADC conversion error.
#[derive(Debug, Clone, Copy, PartialEq, Eq, Structural)]
pub enum GadcError {
    /// The conversion-done flag did not rise within the bounded poll.
    ConversionTimeout,
}

/// The `cfg_amux_1` word for `channel`: n-side one-hot `BIT(VSSAFE1)` in bits
/// 10:0, n divide-disable bit 11, p-side one-hot `BIT(channel)` in bits 22:12,
/// p divide-disable bit 23.
pub open spec fn amux_1_spec(channel: AdcChannel) -> u32 {
    0x0080_0A00u32 | (1u32 << (12 + channel.index_spec()) as u32)
}

/// The `cfg_amux_1` channel-select word.
pub fn amux_1(channel: AdcChannel) -> (r: u32)
    ensures
        r == amux_1_spec(channel),
{
    0x0080_0A00u32 | (1u32 << (12 + channel.index()))
}

/// The fields of the channel-select word: the n-side is always VSSAFE1,
/// both divide-disable bits are set, and the p-side is the channel's one-hot.
pub proof fn law_amux_fields(channel: AdcChannel)
    ensures
        amux_1_spec(channel) & 0x7FF == 1u32 << VSSAFE1_BIT,
        amux_1_spec(channel) & (1u32 << 11) != 0,
        amux_1_spec(channel) & (1u32 << 23) != 0,
        (amux_1_spec(channel) >> 12) & 0x7FF == 1u32 << channel.index_spec(),
{
    let c = channel.index_spec();
    assert(c < 8 ==> {
        let w = 0x0080_0A00u32 | (1u32 << (12 + c) as u32);
        &&& w & 0x7FF == 1u32 << 9u32
        &&& w & (1u32 << 11) != 0
        &&& w & (1u32 << 23) != 0
        &&& (w >> 12) & 0x7FF == 1u32 << c
    }) by (bit_vector);
}

/// The 18-bit two's-complement value of the low 18 bits of `raw`.
pub open spec fn sext18(raw: u32) -> int {
    let v = raw % 0x4_0000;
    if v >= 0x2_0000 {
        v - 0x4_0000
    } else {
        v as int
    }
}

/// Sign-extend an 18-bit sample (sign bit 17); bits above 17 are ignored.
pub fn sign_extend18(raw: u32) -> (r: i32)
    ensures
        r == sext18(raw),
        -0x2_0000 <= r < 0x2_0000,
{
    let v = raw & 0x3FFFF;
    assert(raw & 0x3FFFF == raw % 0x4_0000) by (bit_vector);
    if v & (1 << 17) != 0 {
        assert(v == raw & 0x3FFFF && v & (1u32 << 17) != 0 ==> v >= 0x2_0000) by (bit_vector);
        (v as i32) - 0x4_0000
    } else {
        assert(v == raw & 0x3FFFF && v & (1u32 << 17) == 0 ==> v < 0x2_0000) by (bit_vector);
        v as i32
    }
}

/// A sample depends only on the low 18 bits of the raw value, lies in the
/// signed 18-bit range, and re-encodes to those 18 bits.
pub proof fn law_sign_extend(raw: u32)
    ensures
        sext18(raw) == sext18((raw % 0x4_0000) as u32),
        -0x2_0000 <= sext18(raw) < 0x2_0000,
        (sext18(raw) + 0x4_0000) % 0x4_0000 == raw % 0x4_0000,
{
}

/// Busy-wait cycles for `us` microseconds at 64 MHz, saturating at
/// `u32::MAX`.
pub fn delay_cycles(us: u32) -> (r: u32)
    ensures
        r == if us * 64 > u32::MAX { u32::MAX as int } else { us * 64 },
{
    if us > u32::MAX / 64 {
        u32::MAX
    } else {
        us * 64
    }
}

/// One step of the power-up script, in the order of
/// [`Gadc::power_up_sequence`].
#[derive(Debug, Clone, Copy, PartialEq, Eq, Structural)]
pub enum GadcPowerStep {
    /// Set `afe_iso_en` in the AON `afe_iso` register.
    AonAfeIsoEnable,
    /// Write the PMU `afe_iso_cfg` register (releases the XO32M isolation).
    PmuIsoCfg(u32),
    /// Settle for this many microseconds.
    DelayUs(u32),
    /// Write the PMU MTCMOS register `afe_dig_pwr_en`.
    PmuDigPower { pwr_en: bool, iso_en: bool },
    /// Clear `afe_iso_en` in `afe_dig_pwr_en`, keeping the power bit.
    PmuDigIsoRelease,
    /// Release the analog reset `afe_adc_rst_n`.
    PmuAdcResetRelease,
    /// Enable the digital clock `afe_clk_en`.
    PmuClockEnable,
    /// Release the digital APB reset `afe_soft_rst`.
    PmuSoftResetRelease,
    /// Reset `cfg_clken` to its reset value.
    ClockEnableReset,
    /// Reset `cfg_rstn` to its reset value.
    ResetControlReset,
    /// Turn on the tst/bc/fc/byp/prechg/ctrl clocks in `cfg_clken`.
    ClockEnableAll,
    /// `cfg_afe_afeldo_en` in `cfg_ana_6`.
    AfeLdoEnable,
    /// `cfg_afe_afeldo_en_dly` in `cfg_ana_7`.
    AfeLdoEnableDelayed,
    /// `cfg_afe_adcldo_en` in `cfg_ana_4`.
    AdcLdoEnable,
    /// `cfg_afe_adcldo_en_dly` in `cfg_ana_5`.
    AdcLdoEnableDelayed,
    /// `cfg_vrefldo_en` in `cfg_ana_0`.
    VrefLdoEnable,
    /// The analog clock divider threshold `cfg_adc_ana_div_th`.
    ClockDivider(u32),
    /// `cfg_bufp_en` and `cfg_bufn_en` in `cfg_ana_1`.
    BufferEnable,
    /// Reset `cfg_freg_5` to its reset value.
    Freg5Reset,
    /// Write `cfg_freg_9`.
    Freg9(u32),
    /// The diagnostic node of `cfg_tst_1`.
    DiagNode(u32),
    /// Release every GADC reset in `cfg_rstn`.
    ResetReleaseAll,
    /// Write `cfg_iso`.
    Isolation(u32),
    /// Write the PMU `afe_gadc_cfg` handshake register.
    GadcConfig { en: bool, mux_en: bool, iso_en: bool },
    /// Read-modify-write `afe_gadc_cfg`: set each field given, keep the
    /// others.
    GadcConfigModify { en: Option<bool>, mux_en: Option<bool>, iso_en: Option<bool> },
}

/// The conversion trigger: un-isolate and enable the AFE so it scans.
pub open spec fn trigger_spec() -> Seq<GadcPowerStep> {
    seq![
        GadcPowerStep::DelayUs(5),
        GadcPowerStep::GadcConfigModify { en: None, mux_en: Some(true), iso_en: None },
        GadcPowerStep::GadcConfigModify { en: None, mux_en: None, iso_en: Some(false) },
        GadcPowerStep::DelayUs(5),
        GadcPowerStep::GadcConfigModify { en: Some(true), mux_en: None, iso_en: None },
    ]
}

/// The conversion stop: disable, then clear the mux enable and isolate the
/// AFE again (`en` 0, `mux_en` 0, `iso_en` 1).
pub open spec fn stop_spec() -> Seq<GadcPowerStep> {
    seq![
        GadcPowerStep::GadcConfigModify { en: Some(false), mux_en: None, iso_en: None },
        GadcPowerStep::DelayUs(5),
        GadcPowerStep::GadcConfigModify { en: None, mux_en: Some(false), iso_en: Some(true) },
    ]
}

/// The power-up script: block bring-up, LDO power-on, common and GADC
/// analog enable, then the `afe_gadc_cfg` enable handshake.
pub open spec fn power_up_spec() -> Seq<GadcPowerStep> {
    seq![
        GadcPowerStep::AonAfeIsoEnable,
        GadcPowerStep::PmuIsoCfg(0),
        GadcPowerStep::DelayUs(30),
        GadcPowerStep::PmuDigPower { pwr_en: true, iso_en: true },
        GadcPowerStep::DelayUs(50),
        GadcPowerStep::PmuDigIsoRelease,
        GadcPowerStep::PmuAdcResetRelease,
        GadcPowerStep::PmuClockEnable,
        GadcPowerStep::PmuSoftResetRelease,
        GadcPowerStep::ClockEnableReset,
        GadcPowerStep::ResetControlReset,
        GadcPowerStep::ClockEnableAll,
        GadcPowerStep::AfeLdoEnable,
        GadcPowerStep::DelayUs(150),
        GadcPowerStep::AfeLdoEnableDelayed,
        GadcPowerStep::AdcLdoEnable,
        GadcPowerStep::DelayUs(150),
        GadcPowerStep::AdcLdoEnableDelayed,
        GadcPowerStep::VrefLdoEnable,
        GadcPowerStep::DelayUs(150),
        GadcPowerStep::ClockDivider(0x27),
        GadcPowerStep::BufferEnable,
        GadcPowerStep::Freg5Reset,
        GadcPowerStep::Freg9(2),
        GadcPowerStep::DiagNode(2),
        GadcPowerStep::ResetReleaseAll,
        GadcPowerStep::Isolation(0),
        GadcPowerStep::GadcConfig { en: false, mux_en: true, iso_en: true },
        GadcPowerStep::DelayUs(30),
        GadcPowerStep::GadcConfig { en: false, mux_en: true, iso_en: false },
        GadcPowerStep::DelayUs(30),
        GadcPowerStep::GadcConfig { en: true, mux_en: true, iso_en: false },
    ]
}

/// The BS2X GADC driver: whether the next conversion is the first after
/// power-up, which is discarded.
pub struct Gadc {
    first_sample: bool,
}

/// An access of a channel read.
#[derive(Debug, Clone, Copy, PartialEq, Eq, Structural)]
pub enum GadcAccess {
    /// Write this channel-select word to `cfg_amux_1`.
    Select(u32),
    /// Run one conversion ([`Gadc::convert_once`]).
    Convert,
}

impl Gadc {
    /// Whether the next successful conversion is discarded.
    pub closed spec fn first_sample_spec(&self) -> bool {
        self.first_sample
    }

    /// A powered-up GADC (after [`Gadc::power_up_sequence`] has been
    /// replayed); its first sample will be discarded.
    pub fn new() -> (g: Self)
        ensures
            g.first_sample_spec(),
    {
        Gadc { first_sample: true }
    }

    /// The power-up script, in order.
    pub fn power_up_sequence() -> (r: Vec<GadcPowerStep>)
        ensures
            r@ == power_up_spec(),
    {
        let r = vec![
            GadcPowerStep::AonAfeIsoEnable,
            GadcPowerStep::PmuIsoCfg(0),
            GadcPowerStep::DelayUs(30),
            GadcPowerStep::PmuDigPower { pwr_en: true, iso_en: true },
            GadcPowerStep::DelayUs(50),
            GadcPowerStep::PmuDigIsoRelease,
            GadcPowerStep::PmuAdcResetRelease,
            GadcPowerStep::PmuClockEnable,
            GadcPowerStep::PmuSoftResetRelease,
            GadcPowerStep::ClockEnableReset,
            GadcPowerStep::ResetControlReset,
            GadcPowerStep::ClockEnableAll,
            GadcPowerStep::AfeLdoEnable,
            GadcPowerStep::DelayUs(150),
            GadcPowerStep::AfeLdoEnableDelayed,
            GadcPowerStep::AdcLdoEnable,
            GadcPowerStep::DelayUs(150),
            GadcPowerStep::AdcLdoEnableDelayed,
            GadcPowerStep::VrefLdoEnable,
            GadcPowerStep::DelayUs(150),
            GadcPowerStep::ClockDivider(0x27),
            GadcPowerStep::BufferEnable,
            GadcPowerStep::Freg5Reset,
            GadcPowerStep::Freg9(2),
            GadcPowerStep::DiagNode(2),
            GadcPowerStep::ResetReleaseAll,
            GadcPowerStep::Isolation(0),
            GadcPowerStep::GadcConfig { en: false, mux_en: true, iso_en: true },
            GadcPowerStep::DelayUs(30),
            GadcPowerStep::GadcConfig { en: false, mux_en: true, iso_en: false },
            GadcPowerStep::DelayUs(30),
            GadcPowerStep::GadcConfig { en: true, mux_en: true, iso_en: false },
        ];
        assert(r@ =~= power_up_spec());
        r
    }

    /// Read `channel`, through `bus`: first the channel-select word is
    /// written to `cfg_amux_1`, then conversions run. Right after power-up
    /// the first conversion is discarded: if it fails, that error is the
    /// result and the discard stays pending; otherwise a second conversion
    /// is the result. Afterwards one conversion is the result.
    pub fn read<B: FnMut(GadcAccess) -> Result<i32, GadcError>>(&mut self, channel: AdcChannel, bus: &mut B) -> (r:
        Result<i32, GadcError>)
        requires
            forall|a: GadcAccess| call_requires(*old(bus), (a,)),
        ensures
            exists|calls: Seq<GadcAccess>, states: Seq<B>, answers: Seq<Result<i32, GadcError>>|
                #[trigger] access_trace(*old(bus), calls, states, answers) && calls.len() >= 1 && calls[0]
                    == GadcAccess::Select(amux_1_spec(channel)) && all_calls(
                    calls.subrange(1, calls.len() as int),
                    GadcAccess::Convert,
                ) && read_shape(old(self).first_sample_spec(), answers.subrange(1, answers.len() as int))
                    && r == read_result(
                    old(self).first_sample_spec(),
                    answers.subrange(1, answers.len() as int),
                ) && final(self).first_sample_spec() == read_pending_after(
                    old(self).first_sample_spec(),
                    answers.subrange(1, answers.len() as int),
                ),
    {
        let ghost start = *bus;
        let x = bus(GadcAccess::Select(amux_1(channel)));
        let ghost mut calls: Seq<GadcAccess> = seq![GadcAccess::Select(amux_1_spec(channel))];
        let ghost mut states: Seq<B> = seq![start];
        let ghost mut answers: Seq<Result<i32, GadcError>> = seq![x];
        assert(access_trace(start, calls, states, answers));
        if self.first_sample {
            let ghost pre = *bus;
            let r1 = bus(GadcAccess::Convert);
            proof {
                calls = calls.push(GadcAccess::Convert);
                states = states.push(pre);
                answers = answers.push(r1);
                assert(access_trace(start, calls, states, answers));
                assert(calls.subrange(1, calls.len() as int) =~= seq![GadcAccess::Convert]);
                assert(answers.subrange(1, answers.len() as int) =~= seq![r1]);
            }
            if r1.is_err() {
                return r1;
            }
            self.first_sample = false;
        }
        let ghost pre2 = *bus;
        let r2 = bus(GadcAccess::Convert);
        proof {
            let old_answers = answers;
            calls = calls.push(GadcAccess::Convert);
            states = states.push(pre2);
            answers = answers.push(r2);
            assert(access_trace(start, calls, states, answers));
            assert(answers.subrange(1, answers.len() as int) =~= old_answers.subrange(
                1,
                old_answers.len() as int,
            ).push(r2));
            assert(forall|i: int|
                1 <= i < calls.len() ==> #[trigger] calls[i] == GadcAccess::Convert);
        }
        r2
    }

    /// Whether the next conversion will be discarded.
    pub fn discard_pending(&self) -> (r: bool)
        ensures
            r == self.first_sample_spec(),
    {
        self.first_sample
    }

    /// Account for one conversion of a read: `None` when it was the
    /// discarded first sample (convert again), else the read's result. A
    /// failed conversion ends the read and leaves a pending discard pending.
    pub fn after_conversion(&mut self, outcome: Result<i32, GadcError>) -> (r: Option<Result<i32, GadcError>>)
        ensures
            outcome is Err ==> r == Some(outcome) && final(self).first_sample_spec()
                == old(self).first_sample_spec(),
            outcome is Ok && old(self).first_sample_spec() ==> r is None
                && !final(self).first_sample_spec(),
            outcome is Ok && !old(self).first_sample_spec() ==> r == Some(outcome)
                && !final(self).first_sample_spec(),
    {
        match outcome {
            Err(_) => Some(outcome),
            Ok(_) => {
                if self.first_sample {
                    self.first_sample = false;
                    None
                } else {
                    Some(outcome)
                }
            },
        }
    }

    /// The writes that trigger a conversion.
    pub fn trigger_sequence() -> (r: Vec<GadcPowerStep>)
        ensures
            r@ == trigger_spec(),
    {
        let r = vec![
            GadcPowerStep::DelayUs(5),
            GadcPowerStep::GadcConfigModify { en: None, mux_en: Some(true), iso_en: None },
            GadcPowerStep::GadcConfigModify { en: None, mux_en: None, iso_en: Some(false) },
            GadcPowerStep::DelayUs(5),
            GadcPowerStep::GadcConfigModify { en: Some(true), mux_en: None, iso_en: None },
        ];
        assert(r@ =~= trigger_spec());
        r
    }

    /// The writes that stop a conversion and re-isolate the AFE.
    pub fn stop_sequence() -> (r: Vec<GadcPowerStep>)
        ensures
            r@ == stop_spec(),
    {
        let r = vec![
            GadcPowerStep::GadcConfigModify { en: Some(false), mux_en: None, iso_en: None },
            GadcPowerStep::DelayUs(5),
            GadcPowerStep::GadcConfigModify { en: None, mux_en: Some(false), iso_en: Some(true) },
        ];
        assert(r@ =~= stop_spec());
        r
    }

    /// One conversion, through `bus`: the writes of
    /// [`Gadc::trigger_sequence`] in order; then `single_sample_done` is
    /// read until it is set, at most [`GADC_DONE_POLL_LIMIT`] times; then
    /// the writes of [`Gadc::stop_sequence`] in order, whatever the poll saw;
    /// then, only on completion, the sample register is read and its value
    /// sign-extended, else `ConversionTimeout`.
    pub fn convert_once<B: FnMut(GadcConvAccess) -> u32>(&self, bus: &mut B) -> (r: Result<i32, GadcError>)
        requires
            forall|a: GadcConvAccess| call_requires(*old(bus), (a,)),
        ensures
            exists|calls: Seq<GadcConvAccess>, states: Seq<B>, answers: Seq<u32>|
                #[trigger] access_trace(*old(bus), calls, states, answers) && conversion_run(calls, answers, r),
    {
        let ghost start = *bus;
        let tv = Self::trigger_sequence();
        run_power_steps(bus, &tv);
        let ghost (c1, s1, a1) = choose|c: Seq<GadcConvAccess>, st: Seq<B>, an: Seq<u32>|
            #[trigger] access_trace(start, c, st, an) && c == steps_accesses(trigger_spec());
        let ghost m1 = *bus;
        let finished = poll_bus(bus, GadcConvAccess::PollDone, 1, true, GADC_DONE_POLL_LIMIT);
        let ghost (c2, s2, a2) = choose|c: Seq<GadcConvAccess>, st: Seq<B>, an: Seq<u32>|
            #[trigger] access_trace(m1, c, st, an) && all_calls(c, GadcConvAccess::PollDone) && bounded_poll(
                an,
                1,
                true,
                GADC_DONE_POLL_LIMIT as nat,
            ) && an.len() > 0 && finished == poll_met(an, 1, true);
        let ghost m2 = *bus;
        let sv = Self::stop_sequence();
        run_power_steps(bus, &sv);
        let ghost (c3, s3, a3) = choose|c: Seq<GadcConvAccess>, st: Seq<B>, an: Seq<u32>|
            #[trigger] access_trace(m2, c, st, an) && c == steps_accesses(stop_spec());
        proof {
            lemma_trace_append(start, c1, s1, a1, m1, c2, s2, a2);
            lemma_trace_append(start, c1 + c2, s1 + s2, a1 + a2, m2, c3, s3, a3);
        }
        let ghost calls = c1 + c2 + c3;
        let ghost answers = a1 + a2 + a3;
        let ghost t = trigger_spec().len() as int;
        let ghost k = c2.len() as int;
        proof {
            assert(calls.subrange(0, t) =~= c1);
            assert(calls.subrange(t, t + k) =~= c2);
            assert(answers.subrange(t, t + k) =~= a2);
            assert(calls.subrange(t + k, t + k + stop_spec().len()) =~= c3);
        }
        if !finished {
            assert(conversion_run(calls, answers, Err(GadcError::ConversionTimeout)));
            return Err(GadcError::ConversionTimeout);
        }
        let ghost m3 = *bus;
        let raw = bus(GadcConvAccess::ReadData);
        proof {
            lemma_trace_append(start, calls, s1 + s2 + s3, answers, m3, seq![GadcConvAccess::ReadData], seq![m3], seq![raw]);
            let calls2 = calls + seq![GadcConvAccess::ReadData];
            let answers2 = answers + seq![raw];
            assert(calls2.subrange(0, t) =~= c1);
            assert(calls2.subrange(t, t + k) =~= c2);
            assert(answers2.subrange(t, t + k) =~= a2);
            assert(calls2.subrange(t + k, t + k + stop_spec().len()) =~= c3);
        }
        let v = sign_extend18(raw);
        proof {
            assert(conversion_run(calls + seq![GadcConvAccess::ReadData], answers + seq![raw], Ok(v)));
        }
        Ok(v)
    }
}

/// An access of one conversion. The done read answers 1 when
/// `single_sample_done` is set, else 0.
#[derive(Debug, Clone, Copy, PartialEq, Eq, Structural)]
pub enum GadcConvAccess {
    /// Make one write of a trigger or stop sequence.
    Step(GadcPowerStep),
    /// Read `single_sample_done`.
    PollDone,
    /// Read the sample register.
    ReadData,
}

/// The accesses that make the writes of `steps`, in order.
pub open spec fn steps_accesses(steps: Seq<GadcPowerStep>) -> Seq<GadcConvAccess> {
    steps.map_values(|s: GadcPowerStep| GadcConvAccess::Step(s))
}

/// The accesses and result of one conversion, in order: the trigger
/// writes; a bounded poll of `single_sample_done` of at most
/// [`GADC_DONE_POLL_LIMIT`] reads; the stop writes; and, when the poll
/// ended on the bit set, one read of the sample register, whose value
/// sign-extended is the result; otherwise `ConversionTimeout`.
pub open spec fn conversion_run(calls: Seq<GadcConvAccess>, answers: Seq<u32>, r: Result<i32, GadcError>) -> bool {
    let t = trigger_spec().len() as int;
    let s = stop_spec().len() as int;
    let k = calls.len() - t - s - if r is Ok { 1int } else { 0int };
    &&& k >= 1
    &&& answers.len() == calls.len()
    &&& calls.subrange(0, t) == steps_accesses(trigger_spec())
    &&& all_calls(calls.subrange(t, t + k), GadcConvAccess::PollDone)
    &&& bounded_poll(answers.subrange(t, t + k), 1, true, GADC_DONE_POLL_LIMIT as nat)
    &&& calls.subrange(t + k, t + k + s) == steps_accesses(stop_spec())
    &&& (r is Ok <==> poll_met(answers.subrange(t, t + k), 1, true))
    &&& r matches Ok(v) ==> calls.last() == GadcConvAccess::ReadData && v == sext18(answers.last())
    &&& r matches Err(e) ==> e == GadcError::ConversionTimeout
}

/// Make the writes of `steps` through `bus`, in order.
fn run_power_steps<B: FnMut(GadcConvAccess) -> u32>(bus: &mut B, steps: &Vec<GadcPowerStep>)
    requires
        forall|a: GadcConvAccess| call_requires(*old(bus), (a,)),
        steps@.len() > 0,
    ensures
        forall|a: GadcConvAccess| call_requires(*final(bus), (a,)),
        exists|calls: Seq<GadcConvAccess>, states: Seq<B>, answers: Seq<u32>|
            #[trigger] access_trace(*old(bus), calls, states, answers) && calls == steps_accesses(steps@),
{
    let ghost start = *bus;
    let ghost mut calls: Seq<GadcConvAccess> = Seq::empty();
    let ghost mut states: Seq<B> = Seq::empty();
    let ghost mut answers: Seq<u32> = Seq::empty();
    let mut i: usize = 0;
    while i < steps.len()
        invariant
            i <= steps@.len(),
            forall|a: GadcConvAccess| call_requires(*bus, (a,)),
            start == *old(bus),
            i == 0 ==> *bus == start,
            access_trace(start, calls, states, answers),
            calls == steps_accesses(steps@.subrange(0, i as int)),
        decreases steps@.len() - i,
    {
        let ghost pre = *bus;
        let a = GadcConvAccess::Step(steps[i]);
        let v = bus(a);
        proof {
            calls = calls.push(a);
            states = states.push(pre);
            answers = answers.push(v);
            assert(steps_accesses(steps@.subrange(0, i + 1)) =~= steps_accesses(steps@.subrange(0, i as int)).push(a));
        }
        assert(access_trace(start, calls, states, answers));
        i += 1;
    }
    assert(steps@.subrange(0, steps@.len() as int) =~= steps@);
}

/// The conversions of one read: with a discard pending, one that failed or
/// two whose first succeeded; otherwise exactly one.
pub open spec fn read_shape(first: bool, results: Seq<Result<i32, GadcError>>) -> bool {
    if first {
        (results.len() == 1 && results[0] is Err) || (results.len() == 2 && results[0] is Ok)
    } else {
        results.len() == 1
    }
}

/// The result of a read: its last conversion.
pub open spec fn read_result(first: bool, results: Seq<Result<i32, GadcError>>) -> Result<i32, GadcError> {
    results.last()
}

/// Whether a discard is still pending after a read: only when one was and
/// the discarded conversion failed.
pub open spec fn read_pending_after(first: bool, results: Seq<Result<i32, GadcError>>) -> bool {
    first && results[0] is Err
}

/// Two reads in a row, from any state: a pending discard swallows one
/// successful conversion and returns the next, after which the discard is
/// gone and the following read returns its single conversion; a failed
/// discarded conversion is the result and keeps the discard pending; with no
/// discard pending, a read returns its one conversion. A discard is never
/// left pending by a read that succeeded.
pub proof fn law_successive_reads(
    first: bool,
    a: Seq<Result<i32, GadcError>>,
    b: Seq<Result<i32, GadcError>>,
)
    requires
        read_shape(first, a),
        read_shape(read_pending_after(first, a), b),
    ensures
        first && a[0] is Ok ==> a.len() == 2 && read_result(first, a) == a[1] && !read_pending_after(
            first,
            a,
        ) && b.len() == 1 && read_result(false, b) == b[0] && !read_pending_after(false, b),
        first && a[0] is Err ==> a.len() == 1 && read_result(first, a) == a[0] && read_pending_after(
            first,
            a,
        ) && read_shape(true, b),
        !first ==> a.len() == 1 && read_result(first, a) == a[0] && !read_pending_after(first, a)
            && b.len() == 1 && read_result(false, b) == b[0],
        read_pending_after(first, a) ==> read_result(first, a) is Err,
{
}

} // verus!
