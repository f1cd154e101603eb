//! Time-driver arithmetic for an async executor: the TCXO counter as
//! microsecond ticks, and the one-shot TIMER alarm for a deadline.
//!
//! `now` is the 24 MHz TCXO counter scaled to 1 MHz ticks. An alarm always
//! stops and acknowledges the alarm channel first; for a deadline (not
//! `u64::MAX`) it then loads the channel with the time left, at least one
//! tick, in counts of the system clock, clamped to 1..=`u32::MAX`.
use vstd::prelude::*;
use crate::soc::SYSTEM_CLOCK_HZ;

verus! {

/// Tick rate of the executor's clock (1 MHz).
pub const TICK_HZ: u64 = 1_000_000;

/// TCXO counter rate.
pub const TCXO_COUNT_HZ: u64 = 24_000_000;

/// The TIMER channel reserved for alarms.
pub const ALARM_CH: usize = 0;

/// Ticks of a TCXO count.
pub open spec fn ticks_spec(count: u64) -> int {
    count * TICK_HZ / TCXO_COUNT_HZ as int
}

/// The TIMER load count for a deadline `at` seen at `now` (deadline not
/// `u64::MAX`).
pub open spec fn alarm_counts_spec(at: u64, now: u64) -> int {
    let delta: int = if at > now { at - now } else { 1 };
    let counts = delta * SYSTEM_CLOCK_HZ / TICK_HZ as int;
    if counts == 0 {
        1
    } else if counts > u32::MAX {
        u32::MAX as int
    } else {
        counts
    }
}

/// The TCXO counter as executor ticks.
pub fn now_ticks(count: u64) -> (r: u64)
    requires
        count * TICK_HZ <= u64::MAX,
    ensures
        r == ticks_spec(count),
{
    count * TICK_HZ / TCXO_COUNT_HZ
}

/// The alarm's load count for deadline `at` at time `now`; `None` for
/// `u64::MAX` (no deadline: the channel is only stopped).
pub fn alarm_counts(at: u64, now: u64) -> (r: Option<u32>)
    requires
        at != u64::MAX && at > now ==> (at - now) * SYSTEM_CLOCK_HZ <= u64::MAX,
    ensures
        at == u64::MAX ==> r is None,
        at != u64::MAX ==> r == Some(alarm_counts_spec(at, now) as u32),
{
    if at == u64::MAX {
        return None;
    }
    let delta: u64 = if at > now { at - now } else { 1 };
    let mut counts: u64 = delta * (SYSTEM_CLOCK_HZ as u64) / TICK_HZ;
    if counts == 0 {
        counts = 1;
    }
    if counts > u32::MAX as u64 {
        counts = u32::MAX as u64;
    }
    Some(counts as u32)
}

/// An alarm never loads 0 and covers the time left: one tick or more at
/// `SYSTEM_CLOCK_HZ / TICK_HZ` counts each, up to the 32-bit limit.
pub proof fn law_alarm_bounds(at: u64, now: u64)
    requires
        at != u64::MAX,
    ensures
        1 <= alarm_counts_spec(at, now) <= u32::MAX,
        at > now && (at - now) * 240 <= u32::MAX ==> alarm_counts_spec(at, now) == (at - now) * 240,
        at <= now ==> alarm_counts_spec(at, now) == 240,
{
}

} // verus!
