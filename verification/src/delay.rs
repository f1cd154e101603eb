//! Busy-wait delays timed by the CPU clock.
use vstd::prelude::*;
use crate::soc::SYSTEM_CLOCK_HZ;

verus! {

/// One busy-wait iteration hint to the CPU (`core::hint::spin_loop`).
#[verifier::external_body]
fn spin_hint() {
    core::hint::spin_loop();
}

/// Busy-wait iterations for `us` microseconds: about three CPU cycles per
/// iteration, with the cycle count taken modulo 2^32 as the hardware
/// counter arithmetic does.
pub open spec fn micros_loops(us: u32) -> u32 {
    (((SYSTEM_CLOCK_HZ as nat * us as nat) / 1_000_000) as u32) / 3
}

/// Busy-wait delay driver.
pub struct Delay;

impl Delay {
    /// Create a delay driver.
    pub fn new() -> (d: Self) {
        Delay
    }

    /// The number of busy-wait iterations [`Delay::delay_micros`] spins.
    pub fn micros_loops(us: u32) -> (r: u32)
        ensures
            r == micros_loops(us),
    {
        let cycles = (SYSTEM_CLOCK_HZ as u64 * us as u64 / 1_000_000) as u32;
        cycles / 3
    }

    /// Busy-wait for about `us` microseconds.
    pub fn delay_micros(&self, us: u32) {
        let loops = Self::micros_loops(us);
        let mut i: u32 = 0;
        while i < loops
            invariant
                i <= loops,
            decreases loops - i,
        {
            spin_hint();
            i = i + 1;
        }
    }

    /// Busy-wait for about `ms` milliseconds (`ms` one-millisecond waits).
    pub fn delay_millis(&self, ms: u32) {
        let mut i: u32 = 0;
        while i < ms
            invariant
                i <= ms,
            decreases ms - i,
        {
            self.delay_micros(1_000);
            i = i + 1;
        }
    }

    /// Whole microseconds covering `ns` nanoseconds (rounded up), the
    /// granularity of a nanosecond delay.
    pub fn ns_to_micros(ns: u32) -> (r: u32)
        ensures
            r == (ns as nat + 999) / 1000,
    {
        ns / 1_000 + if ns % 1_000 != 0 { 1 } else { 0 }
    }
}

} // verus!
