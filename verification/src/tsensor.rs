//! Temperature sensor: a 10-bit temperature code (about 114 to 896 for
//! -40 to +125 degrees C) in bits 11:2 of the status word, thresholds, and
//! conversion-done / out-of-threshold / over-temperature interrupts.
use vstd::prelude::*;

verus! {

/// Lowest valid temperature code.
pub const TEMP_CODE_MIN: u16 = 114;
/// Highest valid temperature code.
pub const TEMP_CODE_MAX: u16 = 896;

/// The temperature code of a status word: bits 11:2.
pub open spec fn code_of(sts: u32) -> u16 {
    ((sts >> 2u32) & 0x3FF) as u16
}

/// The interrupt word of three flags: done bit 0, out-of-threshold bit 1,
/// over-temperature bit 2.
pub open spec fn int_word(done: bool, out_thresh: bool, overtemp: bool) -> u32 {
    ((if done { 1nat } else { 0 }) + (if out_thresh { 2nat } else { 0 }) + (if overtemp { 4nat } else { 0 })) as u32
}

/// The temperature sensor driver.
pub struct TempSensor;

impl TempSensor {
    /// The temperature sensor driver.
    pub fn new() -> (d: Self) {
        TempSensor
    }

    /// The `tsensor_ctrl` word that enables the sensor.
    pub fn enable(&mut self, ctrl: u32) -> (r: u32)
        ensures
            *final(self) == *old(self),
            r == ctrl | 0x01,
    {
        ctrl | 0x01
    }

    /// The `tsensor_ctrl` word that disables the sensor.
    pub fn disable(&mut self, ctrl: u32) -> (r: u32)
        ensures
            *final(self) == *old(self),
            r == ctrl & !0x01u32,
    {
        ctrl & !0x01u32
    }

    /// The `tsensor_ctrl` word with the mode (2 bits) in bits 2:1.
    pub fn set_mode(&mut self, ctrl: u32, mode: u8) -> (r: u32)
        ensures
            *final(self) == *old(self),
            r == (ctrl & !0x06u32) | (((mode as u32) & 0x03) << 1u32),
    {
        (ctrl & !0x06u32) | (((mode as u32) & 0x03) << 1u32)
    }

    /// The `tsensor_start` word that starts a conversion.
    pub fn start_conversion(&mut self) -> (r: u32)
        ensures
            *final(self) == *old(self),
            r == 0x01,
    {
        0x01
    }

    /// Whether a reading is ready (`tsensor_sts` bit 1).
    pub fn data_ready(&self, sts: u32) -> (r: bool)
        ensures
            r == (sts & 0x02 != 0),
    {
        sts & 0x02 != 0
    }

    /// The temperature code: `None` when `sts` says no reading is ready (and
    /// `read_sts` is not called), else bits 11:2 of a fresh `read_sts`.
    pub fn read_raw<F: FnOnce() -> u32>(&self, sts: u32, read_sts: F) -> (r: Option<u16>)
        requires
            sts & 0x02 != 0 ==> call_requires(read_sts, ()),
        ensures
            sts & 0x02 == 0 ==> r is None,
            sts & 0x02 != 0 ==> exists|s: u32| call_ensures(read_sts, (), s) && r == Some(code_of(s)),
    {
        if !self.data_ready(sts) {
            return None;
        }
        let s = read_sts();
        Some(self.code(s))
    }

    /// The temperature code of a status word (bits 11:2).
    pub fn code(&self, sts: u32) -> (r: u16)
        ensures
            r == code_of(sts),
            r <= 0x3FF,
    {
        proof {
            crate::bits::lemma_and_le(sts >> 2u32, 0x3FF);
        }
        ((sts >> 2u32) & 0x3FF) as u16
    }

    /// The `tsensor_sts` word that clears the status (bit 0 set).
    pub fn clear_status(&mut self, sts: u32) -> (r: u32)
        ensures
            *final(self) == *old(self),
            r == sts | 0x01,
    {
        sts | 0x01
    }

    /// The high-limit word: the code masked to 10 bits.
    pub fn set_high_limit(&mut self, code: u16) -> (r: u32)
        ensures
            *final(self) == *old(self),
            r == code % 0x400,
    {
        (code % 0x400) as u32
    }

    /// The low-limit word: the code masked to 10 bits.
    pub fn set_low_limit(&mut self, code: u16) -> (r: u32)
        ensures
            *final(self) == *old(self),
            r == code % 0x400,
    {
        (code % 0x400) as u32
    }

    /// The over-temperature word: the code masked to 10 bits, enable in
    /// bit 10.
    pub fn set_over_temp_threshold(&mut self, code: u16, enable_interrupt: bool) -> (r: u32)
        ensures
            r == code % 0x400 + (if enable_interrupt { 0x400nat } else { 0 }),
    {
        (code % 0x400) as u32 + (if enable_interrupt { 0x400u32 } else { 0 })
    }

    /// The interrupt-enable word.
    pub fn enable_interrupts(&mut self, done_int: bool, out_thresh_int: bool, overtemp_int: bool) -> (r: u32)
        ensures
            *final(self) == *old(self),
            r == int_word(done_int, out_thresh_int, overtemp_int),
    {
        (if done_int { 1u32 } else { 0 }) + (if out_thresh_int { 2u32 } else { 0 }) + (if overtemp_int {
            4u32
        } else {
            0
        })
    }

    /// The interrupt-enable word that disables all interrupts.
    pub fn disable_all_interrupts(&mut self) -> (r: u32)
        ensures
            *final(self) == *old(self),
            r == 0,
    {
        0
    }

    /// `(done, out of threshold, over temperature)` from the status word.
    pub fn interrupt_status(&self, sts: u32) -> (r: (bool, bool, bool))
        ensures
            r == (sts & 0x01 != 0, sts & 0x02 != 0, sts & 0x04 != 0),
    {
        (sts & 0x01 != 0, sts & 0x02 != 0, sts & 0x04 != 0)
    }

    /// The interrupt-clear word.
    pub fn clear_interrupts(&mut self, done: bool, out_thresh: bool, overtemp: bool) -> (r: u32)
        ensures
            *final(self) == *old(self),
            r == int_word(done, out_thresh, overtemp),
    {
        (if done { 1u32 } else { 0 }) + (if out_thresh { 2u32 } else { 0 }) + (if overtemp { 4u32 } else { 0 })
    }

    /// The `(auto_refresh_period, auto_refresh_cfg)` words.
    pub fn configure_auto_refresh(&mut self, period: u16, enable: bool) -> (r: (u32, u32))
        ensures
            r == (period as u32, if enable { 1u32 } else { 0u32 }),
    {
        (period as u32, if enable { 1 } else { 0 })
    }

    /// The `tsensor_ctrl1` word that enables calibration.
    pub fn enable_calibration(&mut self, ctrl1: u32) -> (r: u32)
        ensures
            *final(self) == *old(self),
            r == ctrl1 | 0x01,
    {
        ctrl1 | 0x01
    }

    /// The `tsensor_ctrl1` word that disables calibration.
    pub fn disable_calibration(&mut self, ctrl1: u32) -> (r: u32)
        ensures
            *final(self) == *old(self),
            r == ctrl1 & !0x01u32,
    {
        ctrl1 & !0x01u32
    }
}

/// An interrupt word read back gives the flags it was packed from, and it
/// never sets a bit above bit 2.
pub proof fn law_int_pack_unpack(done: bool, out_thresh: bool, overtemp: bool)
    ensures
        int_word(done, out_thresh, overtemp) <= 7,
        (int_word(done, out_thresh, overtemp) & 0x01 != 0) == done,
        (int_word(done, out_thresh, overtemp) & 0x02 != 0) == out_thresh,
        (int_word(done, out_thresh, overtemp) & 0x04 != 0) == overtemp,
{
    let w = int_word(done, out_thresh, overtemp);
    assert(w == (if done { 1u32 } else { 0 }) + (if out_thresh { 2u32 } else { 0 }) + (if overtemp {
        4u32
    } else {
        0
    }));
    assert((w & 0x01 != 0) == done && (w & 0x02 != 0) == out_thresh && (w & 0x04 != 0) == overtemp)
        by (bit_vector)
        requires
            w == (if done { 1u32 } else { 0 }) + (if out_thresh { 2u32 } else { 0 }) + (if overtemp {
                4u32
            } else {
                0
            }),
    ;
}

/// The documented code range fits the 10-bit field.
pub proof fn law_code_range()
    ensures
        TEMP_CODE_MIN < TEMP_CODE_MAX <= 0x3FF,
{
}

} // verus!
