//! Timekeeping types: `Instant`, `Duration` and `Rate`.
//!
//! An [`Instant`] is a latched value of the 64-bit TCXO counter; a
//! [`Duration`] counts microseconds; a [`Rate`] counts hertz.
use vstd::prelude::*;

verus! {

/// Microseconds in `ms` milliseconds.
pub open spec fn millis_to_micros(ms: int) -> int {
    ms * 1000
}

/// Microseconds in `s` seconds.
pub open spec fn secs_to_micros(s: int) -> int {
    s * 1_000_000
}

/// Assemble the 64-bit TCXO counter from its four 16-bit count registers
/// (`count3:count2:count1:count0`).
pub open spec fn counter64(c0: u32, c1: u32, c2: u32, c3: u32) -> u64 {
    ((c3 as u64) << 48u64) | ((c2 as u64) << 32u64) | ((c1 as u64) << 16u64) | (c0 as u64)
}

/// Assemble the 64-bit counter from the four 16-bit count registers.
pub fn tcxo_counter64(c0: u32, c1: u32, c2: u32, c3: u32) -> (r: u64)
    ensures
        r == counter64(c0, c1, c2, c3),
{
    ((c3 as u64) << 48u64) | ((c2 as u64) << 32u64) | ((c1 as u64) << 16u64) | (c0 as u64)
}

/// A measurement of the monotonically non-decreasing TCXO counter.
#[derive(Debug, Clone, Copy, PartialEq, Eq, Structural, PartialOrd, Ord)]
pub struct Instant(u64);

impl View for Instant {
    type V = u64;

    closed spec fn view(&self) -> u64 {
        self.0
    }
}

impl Instant {
    /// The instant the TCXO counter registers `count0..count3` were latched at.
    pub fn now(c0: u32, c1: u32, c2: u32, c3: u32) -> (i: Instant)
        ensures
            i@ == counter64(c0, c1, c2, c3),
    {
        Instant(tcxo_counter64(c0, c1, c2, c3))
    }

    /// Time elapsed from this instant to `now` (zero if `now` is earlier).
    pub fn elapsed(&self, now: Instant) -> (d: Duration)
        ensures
            d@ == if now@ >= self@ { (now@ - self@) as u64 } else { 0 },
    {
        now.duration_since(*self)
    }

    /// Time elapsed from `earlier` to this instant, or zero if `earlier` is later.
    pub fn duration_since(&self, earlier: Instant) -> (d: Duration)
        ensures
            d@ == if self@ >= earlier@ { (self@ - earlier@) as u64 } else { 0 },
    {
        match self.checked_duration_since(earlier) {
            Some(d) => d,
            None => Duration::from_micros(0),
        }
    }

    /// `Some` of the time elapsed from `earlier` to this instant, `None` if
    /// `earlier` is later than this instant.
    pub fn checked_duration_since(&self, earlier: Instant) -> (r: Option<Duration>)
        ensures
            self@ >= earlier@ <==> r.is_some(),
            r matches Some(d) ==> d@ == self@ - earlier@,
    {
        if self.0 >= earlier.0 {
            Some(Duration::from_micros(self.0 - earlier.0))
        } else {
            None
        }
    }

    /// The raw counter value.
    pub fn raw(&self) -> (r: u64)
        ensures
            r == self@,
    {
        self.0
    }
}

/// A span of time in microseconds.
#[derive(Debug, Clone, Copy, PartialEq, Eq, Structural, PartialOrd, Ord)]
pub struct Duration(u64);

impl View for Duration {
    type V = u64;

    closed spec fn view(&self) -> u64 {
        self.0
    }
}

impl Default for Duration {
    fn default() -> (d: Self)
        ensures
            d@ == 0,
    {
        Duration(0)
    }
}

impl Duration {
    /// A duration of `micros` microseconds.
    pub fn from_micros(micros: u64) -> (d: Self)
        ensures
            d@ == micros,
    {
        Duration(micros)
    }

    /// A duration of `millis` milliseconds.
    pub fn from_millis(millis: u64) -> (d: Self)
        requires
            millis_to_micros(millis as int) <= u64::MAX,
        ensures
            d@ == millis_to_micros(millis as int),
    {
        Duration(millis * 1_000)
    }

    /// A duration of `secs` seconds.
    pub fn from_secs(secs: u64) -> (d: Self)
        requires
            secs_to_micros(secs as int) <= u64::MAX,
        ensures
            d@ == secs_to_micros(secs as int),
    {
        Duration(secs * 1_000_000)
    }

    /// The total number of microseconds.
    pub fn as_micros(&self) -> (r: u64)
        ensures
            r == self@,
    {
        self.0
    }

    /// The whole number of milliseconds (rounded down).
    pub fn as_millis(&self) -> (r: u64)
        ensures
            r == self@ / 1000,
    {
        self.0 / 1_000
    }

    /// The whole number of seconds (rounded down).
    pub fn as_secs(&self) -> (r: u64)
        ensures
            r == self@ / 1_000_000,
    {
        self.0 / 1_000_000
    }
}

impl core::ops::Add for Duration {
    type Output = Self;

    fn add(self, rhs: Self) -> (r: Self)
        ensures
            r@ == self@ + rhs@,
    {
        Duration(self.0 + rhs.0)
    }
}

impl vstd::std_specs::ops::AddSpecImpl for Duration {
    open spec fn obeys_add_spec() -> bool {
        false
    }

    open spec fn add_req(self, rhs: Self) -> bool {
        self@ + rhs@ <= u64::MAX
    }

    open spec fn add_spec(self, rhs: Self) -> Self {
        self
    }
}

impl core::ops::Sub for Duration {
    type Output = Self;

    /// Saturating subtraction: never below zero.
    fn sub(self, rhs: Self) -> (r: Self)
        ensures
            r@ == if self@ >= rhs@ { (self@ - rhs@) as u64 } else { 0 },
    {
        if self.0 >= rhs.0 {
            Duration(self.0 - rhs.0)
        } else {
            Duration(0)
        }
    }
}

impl vstd::std_specs::ops::SubSpecImpl for Duration {
    open spec fn obeys_sub_spec() -> bool {
        false
    }

    open spec fn sub_req(self, rhs: Self) -> bool {
        true
    }

    open spec fn sub_spec(self, rhs: Self) -> Self {
        self
    }
}

/// A frequency in hertz.
#[derive(Debug, Clone, Copy, PartialEq, Eq, Structural)]
pub struct Rate(u32);

impl View for Rate {
    type V = u32;

    closed spec fn view(&self) -> u32 {
        self.0
    }
}

impl Rate {
    /// A rate of `hz` hertz.
    pub fn from_hz(hz: u32) -> (r: Self)
        ensures
            r@ == hz,
    {
        Rate(hz)
    }

    /// A rate of `khz` kilohertz.
    pub fn from_khz(khz: u32) -> (r: Self)
        requires
            khz * 1000 <= u32::MAX,
        ensures
            r@ == khz * 1000,
    {
        Rate(khz * 1_000)
    }

    /// A rate of `mhz` megahertz.
    pub fn from_mhz(mhz: u32) -> (r: Self)
        requires
            mhz * 1_000_000 <= u32::MAX,
        ensures
            r@ == mhz * 1_000_000,
    {
        Rate(mhz * 1_000_000)
    }

    /// The rate in hertz.
    pub fn to_hz(&self) -> (r: u32)
        ensures
            r == self@,
    {
        self.0
    }

    /// The whole number of kilohertz (rounded down).
    pub fn to_khz(&self) -> (r: u32)
        ensures
            r == self@ / 1000,
    {
        self.0 / 1_000
    }
}

/// Milliseconds survive the round trip through microseconds.
pub proof fn law_millis_round_trip(ms: nat)
    ensures
        millis_to_micros(ms as int) / 1000 == ms,
{
}

/// Seconds survive the round trip through microseconds.
pub proof fn law_secs_round_trip(s: nat)
    ensures
        secs_to_micros(s as int) / 1_000_000 == s,
{
}

/// The whole milliseconds and seconds of a duration never exceed it and lose
/// less than one unit.
pub proof fn law_duration_floor(us: nat)
    ensures
        millis_to_micros((us / 1000) as int) <= us < millis_to_micros((us / 1000) as int) + 1000,
        secs_to_micros((us / 1_000_000) as int) <= us < secs_to_micros((us / 1_000_000) as int)
            + 1_000_000,
{
}

/// The four 16-bit count registers occupy disjoint lanes of the 64-bit
/// counter: each lane reads back unchanged.
pub proof fn law_counter64_lanes(c0: u16, c1: u16, c2: u16, c3: u16)
    ensures
        counter64(c0 as u32, c1 as u32, c2 as u32, c3 as u32) & 0xFFFF == c0,
        (counter64(c0 as u32, c1 as u32, c2 as u32, c3 as u32) >> 16u64) & 0xFFFF == c1,
        (counter64(c0 as u32, c1 as u32, c2 as u32, c3 as u32) >> 32u64) & 0xFFFF == c2,
        (counter64(c0 as u32, c1 as u32, c2 as u32, c3 as u32) >> 48u64) & 0xFFFF == c3,
{
    lemma_counter64_lanes(c0 as u64, c1 as u64, c2 as u64, c3 as u64);
}

proof fn lemma_counter64_lanes(c0: u64, c1: u64, c2: u64, c3: u64)
    by (bit_vector)
    requires
        c0 < 0x10000,
        c1 < 0x10000,
        c2 < 0x10000,
        c3 < 0x10000,
    ensures
        ((c3 << 48u64) | (c2 << 32u64) | (c1 << 16u64) | c0) & 0xFFFF == c0,
        (((c3 << 48u64) | (c2 << 32u64) | (c1 << 16u64) | c0) >> 16u64) & 0xFFFF == c1,
        (((c3 << 48u64) | (c2 << 32u64) | (c1 << 16u64) | c0) >> 32u64) & 0xFFFF == c2,
        (((c3 << 48u64) | (c2 << 32u64) | (c1 << 16u64) | c0) >> 48u64) & 0xFFFF == c3,
{
}

} // verus!
