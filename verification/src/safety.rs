//! Bounds-checked index types and the limits that timer arithmetic relies on.
//!
//! The timers count at the TCXO crystal, a whole number of MHz, so a period
//! in microseconds converts to ticks exactly; [`MAX_SAFE_TIMER_US`] is the
//! longest period whose tick count still fits in 32 bits.
use vstd::prelude::*;
use crate::clock::PERIPHERAL_COUNT;
use crate::soc::{GPIO_COUNT, SYSTEM_CLOCK_HZ, TIMER_CLOCK_HZ};

verus! {

/// The longest timer period in microseconds whose tick count at
/// `TIMER_CLOCK_HZ` fits in a `u32`: `u32::MAX / (TIMER_CLOCK_HZ / 1 MHz)`.
pub const MAX_SAFE_TIMER_US: u64 = 178_956_970;

/// Ticks of the timer clock in `us` microseconds.
pub open spec fn timer_ticks(us: int) -> int {
    TIMER_CLOCK_HZ * us / 1_000_000
}

/// The system clock is 240 MHz; the timer clock is a whole number of MHz;
/// `MAX_SAFE_TIMER_US` is `u32::MAX` divided by the timer ticks per
/// microsecond and covers more than 17 seconds; every period up to it
/// converts without leaving 32 bits, and the next one does not.
pub proof fn law_timer_limits(us: int)
    requires
        0 <= us <= MAX_SAFE_TIMER_US,
    ensures
        SYSTEM_CLOCK_HZ == 240_000_000,
        TIMER_CLOCK_HZ % 1_000_000 == 0 && TIMER_CLOCK_HZ >= 1_000_000,
        MAX_SAFE_TIMER_US as int == (u32::MAX as int) / ((TIMER_CLOCK_HZ / 1_000_000) as int),
        MAX_SAFE_TIMER_US > 17_000_000,
        timer_ticks(us) <= u32::MAX,
        timer_ticks(MAX_SAFE_TIMER_US + 1) > u32::MAX,
{
    assert(TIMER_CLOCK_HZ / 1_000_000 == 24);
    assert(4_294_967_295int / 24 == 178_956_970) by (nonlinear_arith);
    assert(timer_ticks(us) == 24 * us) by (nonlinear_arith)
        requires
            TIMER_CLOCK_HZ == 24_000_000,
    ;
}

/// A peripheral index below `PERIPHERAL_COUNT` (17).
#[derive(Debug, Clone, Copy)]
pub struct PeripheralIndex(u8);

impl PeripheralIndex {
    #[verifier::type_invariant]
    closed spec fn inv(self) -> bool {
        self.0 < PERIPHERAL_COUNT
    }

    /// The index.
    pub closed spec fn index_spec(&self) -> nat {
        self.0 as nat
    }

    /// The index `idx`, which the caller guarantees to be in range.
    pub fn new_unchecked(idx: u8) -> (r: Self)
        requires
            idx < PERIPHERAL_COUNT,
        ensures
            r.index_spec() == idx,
    {
        PeripheralIndex(idx)
    }

    /// The index as a `usize`.
    pub fn get(&self) -> (r: usize)
        ensures
            r == self.index_spec(),
            r < PERIPHERAL_COUNT,
    {
        proof { use_type_invariant(self); }
        self.0 as usize
    }

    /// `idx` as an index, or `Err(())` unless `idx < PERIPHERAL_COUNT`.
    pub fn try_from(idx: usize) -> (r: Result<Self, ()>)
        ensures
            r is Ok <==> idx < PERIPHERAL_COUNT,
            r matches Ok(p) ==> p.index_spec() == idx,
    {
        if idx < PERIPHERAL_COUNT {
            Ok(PeripheralIndex(idx as u8))
        } else {
            Err(())
        }
    }
}

/// A GPIO pin number below `GPIO_COUNT` (19).
#[derive(Debug, Clone, Copy)]
pub struct GpioPinIndex(u8);

impl GpioPinIndex {
    #[verifier::type_invariant]
    closed spec fn inv(self) -> bool {
        self.0 < GPIO_COUNT
    }

    /// The pin number.
    pub closed spec fn pin_spec(&self) -> nat {
        self.0 as nat
    }

    /// `pin` as a pin index, or `None` unless `pin < GPIO_COUNT`.
    pub fn new(pin: u8) -> (r: Option<Self>)
        ensures
            r is Some <==> pin < GPIO_COUNT,
            r matches Some(p) ==> p.pin_spec() == pin,
    {
        if pin < 19 {
            Some(GpioPinIndex(pin))
        } else {
            None
        }
    }

    /// The pin number.
    pub fn get(&self) -> (r: u8)
        ensures
            r == self.pin_spec(),
            r < GPIO_COUNT,
    {
        proof { use_type_invariant(self); }
        self.0
    }
}

} // verus!
