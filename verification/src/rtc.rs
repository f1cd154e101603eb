//! Real-time clock: a 48-bit counter at 32.768 kHz, free-running or
//! periodic, with a match interrupt.
//!
//! Control word: enable bit 0, periodic mode bit 1, interrupt mask bit 2.
use vstd::prelude::*;

verus! {

/// RTC operating mode.
#[derive(Debug, Clone, Copy, PartialEq, Eq, Structural)]
pub enum RtcMode {
    /// The counter runs continuously.
    FreeRunning,
    /// The counter resets when it reaches the load value.
    Periodic,
}

/// RTC clock frequency.
pub const RTC_CLOCK_HZ: u32 = 32_768;
/// Control bit: enable.
pub const CTRL_ENABLE: u32 = 0x01;
/// Control bit: periodic mode.
pub const CTRL_PERIODIC: u32 = 0x02;
/// Control bit: interrupt masked.
pub const CTRL_INT_MASK: u32 = 0x04;

/// The initial control word of a mode: enabled, interrupt masked, periodic
/// bit per the mode.
pub open spec fn control_spec(mode: RtcMode) -> u32 {
    if mode == RtcMode::Periodic {
        0x07
    } else {
        0x05
    }
}

/// The initial control word of `mode`.
pub fn control_bits(mode: RtcMode) -> (r: u32)
    ensures
        r == control_spec(mode),
{
    let mut ctrl = CTRL_ENABLE;
    if mode == RtcMode::Periodic {
        ctrl = ctrl + CTRL_PERIODIC;
    }
    ctrl + CTRL_INT_MASK
}

/// The words that configure the RTC: `rtc_load_count`, then
/// `rtc_control`.
#[derive(Debug, Clone, Copy, PartialEq, Eq, Structural)]
pub struct RtcSetup {
    /// `rtc_load_count`.
    pub load_count: u32,
    /// `rtc_control`.
    pub control: u32,
}

/// The RTC driver.
pub struct RtcDriver;

impl RtcDriver {
    /// The RTC driver (a populated 32.768 kHz crystal is the board's
    /// precondition).
    pub fn new() -> (d: Self) {
        RtcDriver
    }

    /// The words that configure `mode` with `load_value`.
    pub fn configure(&mut self, mode: RtcMode, load_value: u32) -> (s: RtcSetup)
        ensures
            *final(self) == *old(self),
            s.load_count == load_value,
            s.control == control_spec(mode),
    {
        RtcSetup { load_count: load_value, control: control_bits(mode) }
    }

    /// The control word that enables the counter.
    pub fn enable(&mut self, ctrl: u32) -> (r: u32)
        ensures
            *final(self) == *old(self),
            r == ctrl | CTRL_ENABLE,
    {
        ctrl | CTRL_ENABLE
    }

    /// The control word that disables the counter.
    pub fn disable(&mut self, ctrl: u32) -> (r: u32)
        ensures
            *final(self) == *old(self),
            r == ctrl & !CTRL_ENABLE,
    {
        ctrl & !CTRL_ENABLE
    }

    /// The `rtc_load_count` word.
    pub fn set_load(&mut self, load_value: u32) -> (r: u32)
        ensures
            *final(self) == *old(self),
            r == load_value,
    {
        load_value
    }

    /// The counter's low 32 bits, from `rtc_current_value`.
    pub fn current_value(&self, value: u32) -> (r: u32)
        ensures
            r == value,
    {
        value
    }

    /// The control word that unmasks the interrupt.
    pub fn enable_interrupt(&mut self, ctrl: u32) -> (r: u32)
        ensures
            *final(self) == *old(self),
            r == ctrl & !CTRL_INT_MASK,
    {
        ctrl & !CTRL_INT_MASK
    }

    /// The control word that masks the interrupt.
    pub fn disable_interrupt(&mut self, ctrl: u32) -> (r: u32)
        ensures
            *final(self) == *old(self),
            r == ctrl | CTRL_INT_MASK,
    {
        ctrl | CTRL_INT_MASK
    }

    /// Whether the interrupt is pending (`rtc_int_status` bit 0).
    pub fn interrupt_pending(&self, int_status: u32) -> (r: bool)
        ensures
            r == (int_status & 0x01 != 0),
    {
        int_status & 0x01 != 0
    }
}

/// Both modes start enabled with the interrupt masked; the mode flips only
/// the periodic bit; no bit above the three flags is set.
pub proof fn law_control_word()
    ensures
        control_spec(RtcMode::FreeRunning) == CTRL_ENABLE | CTRL_INT_MASK,
        control_spec(RtcMode::Periodic) == CTRL_ENABLE | CTRL_PERIODIC | CTRL_INT_MASK,
        control_spec(RtcMode::FreeRunning) ^ control_spec(RtcMode::Periodic) == CTRL_PERIODIC,
        forall|m: RtcMode| #[trigger] control_spec(m) & !0x7u32 == 0,
{
    assert(0x05u32 == 0x01u32 | 0x04u32 && 0x07u32 == 0x01u32 | 0x02u32 | 0x04u32 && 0x05u32 ^ 0x07u32
        == 0x02u32 && 0x05u32 & !0x7u32 == 0 && 0x07u32 & !0x7u32 == 0) by (bit_vector);
}

/// Clearing then setting a control flag restores a word that had it, and
/// setting then clearing restores a word that lacked it.
pub proof fn law_flag_round_trip(ctrl: u32, flag: u32)
    requires
        flag == CTRL_ENABLE || flag == CTRL_PERIODIC || flag == CTRL_INT_MASK,
    ensures
        ctrl & flag != 0 ==> (ctrl & !flag) | flag == ctrl,
        ctrl & flag == 0 ==> (ctrl | flag) & !flag == ctrl,
        (ctrl | flag) | flag == ctrl | flag,
        (ctrl & !flag) & !flag == ctrl & !flag,
{
    crate::bits::lemma_mask_set_clear(ctrl, flag);
    assert(ctrl & flag != 0 ==> ctrl & flag == flag) by (bit_vector)
        requires
            flag == 1u32 || flag == 2u32 || flag == 4u32,
    ;
}

} // verus!
