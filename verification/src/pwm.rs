//! PWM (8 channels, usable period 16-bit on silicon).
//!
//! The configuration is typed so that an unrunnable waveform is
//! unrepresentable: a [`Duty`] is at most 100 %, a [`PwmPeriod`] is a
//! non-zero 16-bit count of [`PWM_CLOCK_HZ`] ticks. The channel methods
//! compute the clock-tree, period, duty, enable and polarity words.
use vstd::prelude::*;
use crate::soc::SYSTEM_CLOCK_HZ;

verus! {

/// PWM counter clock: the high-frequency source divided by 6 (40 MHz).
pub const PWM_CLOCK_HZ: u32 = SYSTEM_CLOCK_HZ / 6;

/// A duty cycle in percent, at most 100.
#[derive(Debug, Clone, Copy, PartialEq, Eq, Structural)]
pub struct Duty(u8);

impl Duty {
    /// The percentage, in specifications.
    pub closed spec fn pct(self) -> u8 {
        self.0
    }

    #[verifier::type_invariant]
    closed spec fn inv(self) -> bool {
        self.0 <= 100
    }

    /// 0 %: output held inactive.
    pub fn zero() -> (d: Self)
        ensures
            d.pct() == 0,
    {
        Duty(0)
    }

    /// 50 %.
    pub fn half() -> (d: Self)
        ensures
            d.pct() == 50,
    {
        Duty(50)
    }

    /// 100 %: output held active.
    pub fn full() -> (d: Self)
        ensures
            d.pct() == 100,
    {
        Duty(100)
    }

    /// The duty `percent`, or `None` above 100.
    pub fn from_percent(percent: u8) -> (r: Option<Self>)
        ensures
            r.is_some() <==> percent <= 100,
            r matches Some(d) ==> d.pct() == percent,
    {
        if percent <= 100 {
            Some(Duty(percent))
        } else {
            None
        }
    }

    /// The percentage (0-100).
    pub fn percent(self) -> (r: u8)
        ensures
            r == self.pct(),
            r <= 100,
    {
        proof { use_type_invariant(self); }
        self.0
    }
}

/// A PWM period: a non-zero 16-bit count of [`PWM_CLOCK_HZ`] ticks.
#[derive(Debug, Clone, Copy, PartialEq, Eq, Structural)]
pub struct PwmPeriod(u16);

/// The on-time count of `pct` percent of a `count`-tick period.
pub open spec fn duty_count_spec(count: nat, pct: nat) -> nat {
    count * pct / 100
}

impl PwmPeriod {
    /// The tick count, in specifications.
    pub closed spec fn ticks(self) -> u16 {
        self.0
    }

    #[verifier::type_invariant]
    closed spec fn inv(self) -> bool {
        self.0 >= 1
    }

    /// The period of `count` ticks, or `None` for 0.
    pub fn from_count(count: u16) -> (r: Option<Self>)
        ensures
            r.is_some() <==> count != 0,
            r matches Some(p) ==> p.ticks() == count,
    {
        if count == 0 {
            None
        } else {
            Some(PwmPeriod(count))
        }
    }

    /// The period of an output at `hz`: `PWM_CLOCK_HZ / hz` ticks, or `None`
    /// when `hz` is 0 or the count is 0 or above 16 bits.
    pub fn try_from_hz(hz: u32) -> (r: Option<Self>)
        ensures
            r.is_some() <==> hz != 0 && 1 <= PWM_CLOCK_HZ / hz <= 0xFFFF,
            r matches Some(p) ==> p.ticks() == PWM_CLOCK_HZ / hz,
    {
        if hz == 0 {
            return None;
        }
        let count = PWM_CLOCK_HZ / hz;
        if count == 0 || count > 0xFFFF {
            return None;
        }
        Some(PwmPeriod(count as u16))
    }

    /// The tick count (at least 1).
    pub fn count(self) -> (r: u16)
        ensures
            r == self.ticks(),
            r >= 1,
    {
        proof { use_type_invariant(self); }
        self.0
    }

    /// The on-time count for `duty`: `count * percent / 100`, never above the
    /// period.
    pub fn duty_count(self, duty: Duty) -> (r: u16)
        ensures
            r == duty_count_spec(self.ticks() as nat, duty.pct() as nat),
            r <= self.ticks(),
    {
        let c = self.count() as u32;
        let p = duty.percent() as u32;
        proof {
            assert(c * p <= c * 100) by (nonlinear_arith)
                requires
                    p <= 100,
            ;
        }
        ((c * p) / 100) as u16
    }
}

/// One of the eight PWM channels.
#[derive(Debug, Clone, Copy, PartialEq, Eq, Structural)]
pub enum PwmChannelId {
    /// Channel 0.
    Ch0,
    /// Channel 1.
    Ch1,
    /// Channel 2.
    Ch2,
    /// Channel 3.
    Ch3,
    /// Channel 4.
    Ch4,
    /// Channel 5.
    Ch5,
    /// Channel 6.
    Ch6,
    /// Channel 7.
    Ch7,
}

/// The index of a channel.
pub open spec fn channel_index(c: PwmChannelId) -> u8 {
    match c {
        PwmChannelId::Ch0 => 0u8,
        PwmChannelId::Ch1 => 1u8,
        PwmChannelId::Ch2 => 2u8,
        PwmChannelId::Ch3 => 3u8,
        PwmChannelId::Ch4 => 4u8,
        PwmChannelId::Ch5 => 5u8,
        PwmChannelId::Ch6 => 6u8,
        PwmChannelId::Ch7 => 7u8,
    }
}

impl PwmChannelId {
    /// The channel with index `index`, or `None` outside `0..=7`.
    pub fn from_index(index: u8) -> (r: Option<Self>)
        ensures
            index <= 7 <==> r.is_some(),
            r matches Some(c) ==> channel_index(c) == index,
    {
        match index {
            0 => Some(PwmChannelId::Ch0),
            1 => Some(PwmChannelId::Ch1),
            2 => Some(PwmChannelId::Ch2),
            3 => Some(PwmChannelId::Ch3),
            4 => Some(PwmChannelId::Ch4),
            5 => Some(PwmChannelId::Ch5),
            6 => Some(PwmChannelId::Ch6),
            7 => Some(PwmChannelId::Ch7),
            _ => None,
        }
    }

    /// The channel index (0-7).
    pub fn index(self) -> (r: u8)
        ensures
            r == channel_index(self),
            r <= 7,
    {
        match self {
            PwmChannelId::Ch0 => 0,
            PwmChannelId::Ch1 => 1,
            PwmChannelId::Ch2 => 2,
            PwmChannelId::Ch3 => 3,
            PwmChannelId::Ch4 => 4,
            PwmChannelId::Ch5 => 5,
            PwmChannelId::Ch6 => 6,
            PwmChannelId::Ch7 => 7,
        }
    }
}

/// `CLK_SEL` bit selecting the PLL source for the PWM clock.
pub const CLK_SEL_PWM_PLL: u32 = 0x80;
/// `CKEN_CTL0` field of the nine PWM clock gates (bits 10:2).
pub const CKEN_PWM_ALL: u32 = 0x7FC;
/// `DIV_CTL3` bit that latches the PWM0 divider.
pub const DIV_PWM0_LOAD: u32 = 0x10_0000;
/// `DIV_CTL3` field of the PWM0 divider (bits 19:16).
pub const DIV_PWM0_MASK: u32 = 0xF_0000;
/// `DIV_CTL3` PWM0 divider field set to 6.
pub const DIV_PWM0_BY6: u32 = 0x6_0000;

/// The clock-tree writes that bring up the PWM counter clock, in order:
/// `CLK_SEL`, `CKEN_CTL0`, then the three `DIV_CTL3` writes (load enable
/// cleared, divider 6, load enable set: the rising edge latches it).
#[derive(Debug, Clone, Copy, PartialEq, Eq, Structural)]
pub struct PwmClockSetup {
    /// `CLK_SEL` with the PWM source on the PLL.
    pub clk_sel: u32,
    /// `CKEN_CTL0` with all nine PWM gates open.
    pub cken_ctl0: u32,
    /// `DIV_CTL3` with the load enable cleared.
    pub div_unload: u32,
    /// `DIV_CTL3` with the divider set to 6.
    pub div_set: u32,
    /// `DIV_CTL3` with the load enable set again.
    pub div_load: u32,
}

/// The clock-tree words from the current `CLK_SEL`, `CKEN_CTL0` and
/// `DIV_CTL3` values.
pub fn enable_pwm_clock(clk_sel: u32, cken_ctl0: u32, div_ctl3: u32) -> (s: PwmClockSetup)
    ensures
        s.clk_sel == clk_sel | CLK_SEL_PWM_PLL,
        s.cken_ctl0 == (cken_ctl0 & !CKEN_PWM_ALL) | CKEN_PWM_ALL,
        s.div_unload == div_ctl3 & !DIV_PWM0_LOAD,
        s.div_set == (s.div_unload & !DIV_PWM0_MASK) | DIV_PWM0_BY6,
        s.div_load == s.div_set | DIV_PWM0_LOAD,
{
    let div_unload = div_ctl3 & !DIV_PWM0_LOAD;
    let div_set = (div_unload & !DIV_PWM0_MASK) | DIV_PWM0_BY6;
    PwmClockSetup {
        clk_sel: clk_sel | CLK_SEL_PWM_PLL,
        cken_ctl0: (cken_ctl0 & !CKEN_PWM_ALL) | CKEN_PWM_ALL,
        div_unload,
        div_set,
        div_load: div_set | DIV_PWM0_LOAD,
    }
}

/// The words that configure a channel's waveform, in order: the clock tree,
/// then `pwm_freq_l`, `pwm_freq_h`, `pwm_duty_l`, `pwm_duty_h` of the
/// channel.
#[derive(Debug, Clone, Copy, PartialEq, Eq, Structural)]
pub struct PwmSetup {
    /// The clock-tree words.
    pub clock: PwmClockSetup,
    /// Low half of the period.
    pub freq_l: u32,
    /// High half of the period (0: the period is 16-bit).
    pub freq_h: u32,
    /// Low half of the duty count.
    pub duty_l: u32,
    /// High half of the duty count (0).
    pub duty_h: u32,
}

/// PWM operation error.
#[derive(Debug, Clone, Copy, PartialEq, Eq, Structural)]
pub enum PwmError {
    /// The requested duty exceeds the configured period.
    DutyOutOfRange,
}

/// Marker that a channel was left running past its handle.
#[derive(Debug)]
pub struct PwmRunning;

/// A handle to one PWM channel.
pub struct PwmChannel {
    /// The channel.
    pub channel: PwmChannelId,
}

impl PwmChannel {
    /// A handle for `channel`.
    pub fn new(channel: PwmChannelId) -> (c: Self)
        ensures
            c.channel == channel,
    {
        PwmChannel { channel }
    }

    /// The channel index.
    pub fn channel_index(&self) -> (r: u8)
        ensures
            r == channel_index(self.channel),
    {
        self.channel.index()
    }

    /// The configured period count, reassembled from the channel's
    /// `pwm_freq_l` / `pwm_freq_h` halves (0 if never configured).
    pub fn period_count(&self, freq_l: u32, freq_h: u32) -> (r: u32)
        ensures
            r == (freq_l & 0xFFFF) | ((freq_h & 0xFFFF) << 16u32),
    {
        (freq_l & 0xFFFF) | ((freq_h & 0xFFFF) << 16u32)
    }

    /// The words that configure this channel's period and duty: the clock
    /// tree first, then both halves of the period and of the duty count
    /// (`count * percent / 100`).
    pub fn configure(&mut self, period_cfg: PwmPeriod, duty_cfg: Duty, clk_sel: u32, cken_ctl0: u32, div_ctl3: u32) -> (s:
        PwmSetup)
        ensures
            *final(self) == *old(self),
            s.clock == enable_pwm_clock_spec(clk_sel, cken_ctl0, div_ctl3),
            s.freq_l == period_cfg.ticks(),
            s.freq_h == 0,
            s.duty_l == duty_count_spec(period_cfg.ticks() as nat, duty_cfg.pct() as nat),
            s.duty_h == 0,
            s.duty_l <= s.freq_l,
    {
        let clock = enable_pwm_clock(clk_sel, cken_ctl0, div_ctl3);
        let period = period_cfg.count() as u32;
        let duty = period_cfg.duty_count(duty_cfg) as u32;
        proof {
            crate::bits::lemma_u16_halves(period);
            crate::bits::lemma_u16_halves(duty);
        }
        PwmSetup {
            clock,
            freq_l: period & 0xFFFF,
            freq_h: (period >> 16u32) & 0xFFFF,
            duty_l: duty & 0xFFFF,
            duty_h: (duty >> 16u32) & 0xFFFF,
        }
    }

    /// The `pwm_en` word that starts the output.
    pub fn enable(&mut self) -> (r: u32)
        ensures
            *final(self) == *old(self),
            r == 1,
    {
        1
    }

    /// The `pwm_en` word that stops the output.
    pub fn disable(&mut self) -> (r: u32)
        ensures
            *final(self) == *old(self),
            r == 0,
    {
        0
    }

    /// The `pwm_portity` word: 1 for active-high, 0 for active-low.
    pub fn set_polarity(&mut self, active_high: bool) -> (r: u32)
        ensures
            r == if active_high { 1u32 } else { 0u32 },
    {
        if active_high {
            1
        } else {
            0
        }
    }

    /// The shared `pwm_start0` word that triggers this channel.
    pub fn start(&mut self) -> (r: u32)
        ensures
            *final(self) == *old(self),
            r == 1u32 << channel_index(old(self).channel) as u32,
    {
        let ch = self.channel.index();
        1u32 << ch as u32
    }

    /// The `pwm_period_val` word for a burst of `count` pulses.
    pub fn set_pulse_count(&mut self, count: u32) -> (r: u32)
        ensures
            *final(self) == *old(self),
            r == count,
    {
        count
    }

    /// Keep the channel running past this handle.
    pub fn into_running(self) -> (r: PwmRunning) {
        PwmRunning
    }

    /// Release the handle, stopping its output: the `pwm_en` word 0.
    pub fn release(self) -> (r: u32)
        ensures
            r == 0,
    {
        0
    }

    /// Full-scale duty: the configured period count saturated to 16 bits.
    pub fn max_duty_cycle(&self, period_count: u32) -> (r: u16)
        ensures
            r == if period_count <= 0xFFFF { period_count } else { 0xFFFF },
    {
        if period_count <= 0xFFFF {
            period_count as u16
        } else {
            0xFFFF
        }
    }

    /// The `(pwm_duty_l, pwm_duty_h)` words for an on-time of `duty` counts,
    /// or `DutyOutOfRange` when `duty` exceeds the full scale of the
    /// configured `period_count`.
    pub fn set_duty_cycle(&mut self, duty: u16, period_count: u32) -> (r: Result<(u32, u32), PwmError>)
        ensures
            *final(self) == *old(self),
            r.is_ok() <==> duty as u32 <= period_count,
            r matches Ok(w) ==> w.0 == duty && w.1 == 0,
            r matches Err(e) ==> e == PwmError::DutyOutOfRange,
    {
        let max = self.max_duty_cycle(period_count);
        if duty > max {
            return Err(PwmError::DutyOutOfRange);
        }
        let duty_val = duty as u32;
        proof {
            crate::bits::lemma_u16_halves(duty_val);
        }
        Ok((duty_val & 0xFFFF, (duty_val >> 16u32) & 0xFFFF))
    }
}

/// The clock-tree words of [`enable_pwm_clock`].
pub open spec fn enable_pwm_clock_spec(clk_sel: u32, cken_ctl0: u32, div_ctl3: u32) -> PwmClockSetup {
    let div_unload = div_ctl3 & !DIV_PWM0_LOAD;
    let div_set = (div_unload & !DIV_PWM0_MASK) | DIV_PWM0_BY6;
    PwmClockSetup {
        clk_sel: clk_sel | CLK_SEL_PWM_PLL,
        cken_ctl0: (cken_ctl0 & !CKEN_PWM_ALL) | CKEN_PWM_ALL,
        div_unload,
        div_set,
        div_load: div_set | DIV_PWM0_LOAD,
    }
}

/// The on-time never exceeds the period and grows with the duty: for any
/// period, a larger percentage never gives a smaller count; 0 % gives 0 and
/// 100 % the whole period.
pub proof fn law_duty_count_monotonic_bounded(count: nat, p1: nat, p2: nat)
    requires
        p1 <= p2 <= 100,
    ensures
        duty_count_spec(count, p1) <= duty_count_spec(count, p2),
        duty_count_spec(count, p2) <= count,
        duty_count_spec(count, 0) == 0,
        duty_count_spec(count, 100) == count,
{
    assert(count * p1 <= count * p2) by (nonlinear_arith)
        requires
            p1 <= p2,
    ;
    assert(count * p2 <= count * 100) by (nonlinear_arith)
        requires
            p2 <= 100,
    ;
    vstd::arithmetic::div_mod::lemma_div_is_ordered((count * p1) as int, (count * p2) as int, 100);
    vstd::arithmetic::div_mod::lemma_div_is_ordered((count * p2) as int, (count * 100) as int, 100);
    assert(count * 100 / 100 == count) by (nonlinear_arith);
}

/// Every frequency `try_from_hz` accepts lies in `(PWM_CLOCK_HZ / 65536,
/// PWM_CLOCK_HZ]`, and every frequency in `[611, PWM_CLOCK_HZ]` is accepted.
pub proof fn law_frequency_band(hz: u32)
    ensures
        (hz != 0 && 1 <= PWM_CLOCK_HZ / hz <= 0xFFFF) ==> 611 <= hz <= PWM_CLOCK_HZ,
        611 <= hz <= PWM_CLOCK_HZ ==> 1 <= PWM_CLOCK_HZ / hz <= 0xFFFF,
{
    if hz >= 611 {
        vstd::arithmetic::div_mod::lemma_div_is_ordered_by_denominator(40_000_000, 611, hz as int);
        if hz <= PWM_CLOCK_HZ {
            vstd::arithmetic::div_mod::lemma_div_is_ordered_by_denominator(40_000_000, hz as int, 40_000_000);
        } else {
            vstd::arithmetic::div_mod::lemma_basic_div(40_000_000, hz as int);
        }
    } else if hz >= 1 {
        vstd::arithmetic::div_mod::lemma_div_is_ordered_by_denominator(40_000_000, hz as int, 610);
    }
}

/// The start mask of every channel is a single distinct bit.
pub proof fn law_start_mask_distinct(a: u8, b: u8)
    requires
        a < 8,
        b < 8,
        a != b,
    ensures
        (1u32 << a as u32) & (1u32 << b as u32) == 0,
        (1u32 << a as u32) != 0,
{
    let x = a as u32;
    let y = b as u32;
    assert((1u32 << x) & (1u32 << y) == 0 && (1u32 << x) != 0) by (bit_vector)
        requires
            x < 8,
            y < 8,
            x != y,
    ;
}

} // verus!
