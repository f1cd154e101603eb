//! System control: the reset-reason record, the chip reset trigger and the
//! configured clocks.
//!
//! `SYS_RST_RECORD_0` holds reset-history bits: watchdog (bit 0), software
//! (bit 1), power-on (bit 3). The first set in that order of precedence is
//! the reason, and that bit is written to `SYS_DIAG_CLR_1` to clear it. The
//! chip reset is bit 2 of `GLB_CTL_M + 0x110`.
use vstd::prelude::*;
use crate::soc::SYSTEM_CLOCK_HZ;

verus! {

/// Watchdog reset history bit.
pub const SYS_WDT_RST_HIS: u32 = 0x1;

/// Software reset history bit.
pub const SYS_SOFT_RST_HIS: u32 = 0x2;

/// Power-on reset history bit.
pub const POR_RST_FILTER_HIS: u32 = 0x8;

/// Chip reset enable bit in the chip-reset register.
pub const CHIP_RESET_EN: u32 = 0x4;

/// The system control block.
pub struct System;

/// Reason for the last reset.
#[derive(Debug, Clone, Copy, PartialEq, Eq, Structural)]
pub enum ResetReason {
    /// Power-on reset.
    PowerOn,
    /// External reset pin.
    ExternalPin,
    /// Watchdog reset.
    Watchdog,
    /// Software reset.
    Software,
    /// Brown-out reset.
    BrownOut,
    /// Unknown reason (empty record).
    Unknown,
}

/// The reason a reset record reports, and the bit to clear (0: none).
pub open spec fn reset_reason_spec(record: u32) -> (ResetReason, u32) {
    if record & SYS_WDT_RST_HIS != 0 {
        (ResetReason::Watchdog, SYS_WDT_RST_HIS)
    } else if record & SYS_SOFT_RST_HIS != 0 {
        (ResetReason::Software, SYS_SOFT_RST_HIS)
    } else if record & POR_RST_FILTER_HIS != 0 {
        (ResetReason::PowerOn, POR_RST_FILTER_HIS)
    } else {
        (ResetReason::Unknown, 0)
    }
}

impl System {
    /// The system control handle.
    pub fn new() -> (s: Self) {
        System
    }

    /// Decode `SYS_RST_RECORD_0`: the reason (watchdog before software
    /// before power-on; `Unknown` for an empty record) and the bit to write
    /// to `SYS_DIAG_CLR_1`, 0 when there is none to write. `ExternalPin` and
    /// `BrownOut` are never reported by this record.
    pub fn reset_reason(&self, record: u32) -> (r: (ResetReason, u32))
        ensures
            r == reset_reason_spec(record),
    {
        if record & SYS_WDT_RST_HIS != 0 {
            (ResetReason::Watchdog, SYS_WDT_RST_HIS)
        } else if record & SYS_SOFT_RST_HIS != 0 {
            (ResetReason::Software, SYS_SOFT_RST_HIS)
        } else if record & POR_RST_FILTER_HIS != 0 {
            (ResetReason::PowerOn, POR_RST_FILTER_HIS)
        } else {
            (ResetReason::Unknown, 0)
        }
    }

    /// The chip-reset register word that resets the whole chip: `current`
    /// with the enable bit set.
    pub fn software_reset_word(&self, current: u32) -> (r: u32)
        ensures
            r == current | CHIP_RESET_EN,
    {
        current | CHIP_RESET_EN
    }
}

/// A clear word only ever names the bit of the reason it reports, and that
/// bit is set in the record.
pub proof fn law_reset_clear_matches_reason(record: u32)
    ensures
        reset_reason_spec(record).1 != 0 ==> record & reset_reason_spec(record).1 != 0,
        reset_reason_spec(record).0 == ResetReason::Unknown <==> reset_reason_spec(record).1 == 0,
        reset_reason_spec(record).0 != ResetReason::ExternalPin,
        reset_reason_spec(record).0 != ResetReason::BrownOut,
{
}

/// Clocks after configuration.
#[derive(Debug, Clone, Copy)]
pub struct Clocks {
    /// System (CPU) clock in Hz.
    pub sysclk: u32,
    /// Peripheral bus clock in Hz.
    pub pclk: u32,
}

impl Default for Clocks {
    /// Both at the system clock.
    fn default() -> (r: Self)
        ensures
            r.sysclk == SYSTEM_CLOCK_HZ,
            r.pclk == SYSTEM_CLOCK_HZ,
    {
        Clocks { sysclk: SYSTEM_CLOCK_HZ, pclk: SYSTEM_CLOCK_HZ }
    }
}

} // verus!
