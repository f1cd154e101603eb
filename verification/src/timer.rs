//! General-purpose timer (three 32-bit down-counting channels clocked by the
//! TCXO crystal).
//!
//! Register words are computed here; the driver writes them. A channel's
//! `control` register holds `enable` (bit 0), `mode` (bits 2:1), `cnt_req`
//! (bit 5) and `cnt_lock` (bit 6).
use vstd::prelude::*;
use crate::soc::TIMER_CLOCK_HZ;
use crate::poll::{access_trace, all_calls, bounded_poll, lemma_trace_append, poll_bus};

verus! {

/// Timer operating mode.
#[derive(Debug, Clone, Copy, PartialEq, Eq, Structural)]
pub enum TimerMode {
    /// Counts once and stops (mode field 0).
    OneShot,
    /// Reloads and repeats (mode field 1).
    Periodic,
}

/// The mode field value of a timer mode.
pub open spec fn mode_code(m: TimerMode) -> u32 {
    match m {
        TimerMode::OneShot => 0u32,
        TimerMode::Periodic => 1u32,
    }
}

/// One of the three timer channels.
#[derive(Debug, Clone, Copy, PartialEq, Eq, Structural)]
pub enum TimerChannel {
    /// Timer channel 0.
    Channel0,
    /// Timer channel 1.
    Channel1,
    /// Timer channel 2.
    Channel2,
}

/// The index of a timer channel.
pub open spec fn channel_index(c: TimerChannel) -> usize {
    match c {
        TimerChannel::Channel0 => 0usize,
        TimerChannel::Channel1 => 1usize,
        TimerChannel::Channel2 => 2usize,
    }
}

impl TimerChannel {
    /// The channel with index `index`, or `None` outside `0..=2`.
    pub fn from_index(index: u8) -> (r: Option<Self>)
        ensures
            index <= 2 <==> r.is_some(),
            r matches Some(c) ==> channel_index(c) == index,
    {
        match index {
            0 => Some(TimerChannel::Channel0),
            1 => Some(TimerChannel::Channel1),
            2 => Some(TimerChannel::Channel2),
            _ => None,
        }
    }

    /// The channel index (0-2).
    pub fn index(self) -> (r: usize)
        ensures
            r == channel_index(self),
    {
        match self {
            TimerChannel::Channel0 => 0,
            TimerChannel::Channel1 => 1,
            TimerChannel::Channel2 => 2,
        }
    }
}

/// Timer configuration error.
#[derive(Debug, Clone, Copy, PartialEq, Eq, Structural)]
pub enum TimerError {
    /// The requested duration exceeds the 32-bit counter at the timer clock.
    TicksOverflow,
}

/// Timer ticks in `us` microseconds.
pub open spec fn ticks_for_us(us: u32) -> nat {
    (TIMER_CLOCK_HZ as nat * us as nat) / 1_000_000
}

/// Timer ticks in `ms` milliseconds.
pub open spec fn ticks_for_ms(ms: u32) -> nat {
    (TIMER_CLOCK_HZ as nat * ms as nat) / 1_000
}

/// Timer ticks in `ns` nanoseconds.
pub open spec fn ticks_for_ns(ns: u32) -> nat {
    (TIMER_CLOCK_HZ as nat * ns as nat) / 1_000_000_000
}

proof fn lemma_tick_products(x: u32)
    ensures
        TIMER_CLOCK_HZ as nat * x as nat <= u64::MAX,
{
    assert(24_000_000 * x as nat <= 24_000_000 * 0xFFFF_FFFFnat) by (nonlinear_arith)
        requires x <= 0xFFFF_FFFFu32;
}

/// Microseconds to timer ticks, or `TicksOverflow` when the count does not
/// fit the 32-bit load register.
pub fn try_ticks_for_us(us: u32) -> (r: Result<u32, TimerError>)
    ensures
        ticks_for_us(us) <= u32::MAX <==> r.is_ok(),
        r matches Ok(t) ==> t == ticks_for_us(us),
        r matches Err(e) ==> e == TimerError::TicksOverflow,
{
    proof { lemma_tick_products(us); }
    let ticks = TIMER_CLOCK_HZ as u64 * us as u64 / 1_000_000;
    if ticks > u32::MAX as u64 {
        Err(TimerError::TicksOverflow)
    } else {
        Ok(ticks as u32)
    }
}

/// Milliseconds to timer ticks, or `TicksOverflow` when the count does not
/// fit the 32-bit load register.
pub fn try_ticks_for_ms(ms: u32) -> (r: Result<u32, TimerError>)
    ensures
        ticks_for_ms(ms) <= u32::MAX <==> r.is_ok(),
        r matches Ok(t) ==> t == ticks_for_ms(ms),
        r matches Err(e) ==> e == TimerError::TicksOverflow,
{
    proof { lemma_tick_products(ms); }
    let ticks = TIMER_CLOCK_HZ as u64 * ms as u64 / 1_000;
    if ticks > u32::MAX as u64 {
        Err(TimerError::TicksOverflow)
    } else {
        Ok(ticks as u32)
    }
}

/// Microseconds to timer ticks, saturating at `u32::MAX` (the blocking
/// delay has no error channel).
pub fn ticks_for_us_saturating(us: u32) -> (r: u32)
    ensures
        r == if ticks_for_us(us) > u32::MAX { u32::MAX as nat } else { ticks_for_us(us) },
{
    proof { lemma_tick_products(us); }
    let ticks = TIMER_CLOCK_HZ as u64 * us as u64 / 1_000_000;
    if ticks > u32::MAX as u64 {
        u32::MAX
    } else {
        ticks as u32
    }
}

/// Milliseconds to timer ticks, saturating at `u32::MAX`.
pub fn ticks_for_ms_saturating(ms: u32) -> (r: u32)
    ensures
        r == if ticks_for_ms(ms) > u32::MAX { u32::MAX as nat } else { ticks_for_ms(ms) },
{
    proof { lemma_tick_products(ms); }
    let ticks = TIMER_CLOCK_HZ as u64 * ms as u64 / 1_000;
    if ticks > u32::MAX as u64 {
        u32::MAX
    } else {
        ticks as u32
    }
}

/// Nanoseconds to timer ticks, saturating at `u32::MAX`; the blocking
/// nanosecond delay starts the timer only for a non-zero count.
pub fn ticks_for_ns_saturating(ns: u32) -> (r: u32)
    ensures
        r == if ticks_for_ns(ns) > u32::MAX { u32::MAX as nat } else { ticks_for_ns(ns) },
{
    proof { lemma_tick_products(ns); }
    let ticks = TIMER_CLOCK_HZ as u64 * ns as u64 / 1_000_000_000;
    if ticks > u32::MAX as u64 {
        u32::MAX
    } else {
        ticks as u32
    }
}

/// `control` enable bit.
pub const CTRL_ENABLE: u32 = 1;
/// `control` current-count latch request bit.
pub const CTRL_CNT_REQ: u32 = 0x20;
/// `control` current-count latch valid bit.
pub const CTRL_CNT_LOCK: u32 = 0x40;
/// Bound on the polls of `cnt_lock` after a latch request.
pub const TIMER_LOCK_TIMEOUT: u32 = 0xFFFF;

/// The `control` word that configures a channel: mode in bits 2:1, channel
/// disabled, interrupt unmasked.
pub open spec fn control_word(mode: TimerMode) -> u32 {
    (mode_code(mode) & 0x3) << 1u32
}

/// The register words that configure a channel.
#[derive(Debug, Clone, Copy, PartialEq, Eq, Structural)]
pub struct TimerSetup {
    /// Value for the channel's `load_count` register.
    pub load_count: u32,
    /// Value for the channel's `control` register (channel still disabled).
    pub control: u32,
}

/// Timer driver for the three channels.
pub struct TimerDriver;

impl TimerDriver {
    /// Create a timer driver.
    pub fn new() -> (d: Self) {
        TimerDriver
    }

    /// The words that configure `channel` with a raw 32-bit load count:
    /// the load count verbatim and the mode in the control word.
    pub fn configure(&self, channel: TimerChannel, mode: TimerMode, load_value: u32) -> (s: TimerSetup)
        ensures
            s.load_count == load_value,
            s.control == control_word(mode),
    {
        let code: u32 = match mode {
            TimerMode::OneShot => 0,
            TimerMode::Periodic => 1,
        };
        TimerSetup { load_count: load_value, control: (code & 0x3) << 1 }
    }

    /// The `control` word that enables a channel, from its current value.
    pub fn enable(&self, control: u32) -> (r: u32)
        ensures
            r == control | CTRL_ENABLE,
    {
        control | CTRL_ENABLE
    }

    /// The `control` word that disables a channel, from its current value.
    pub fn disable(&self, control: u32) -> (r: u32)
        ensures
            r == control & !CTRL_ENABLE,
    {
        control & !CTRL_ENABLE
    }

    /// The `control` word that requests a snapshot of the live counter
    /// (read-modify-write keeps enable, mode and mask).
    pub fn latch_request(&self, control: u32) -> (r: u32)
        ensures
            r == control | CTRL_CNT_REQ,
    {
        control | CTRL_CNT_REQ
    }

    /// Whether the requested snapshot is ready (`cnt_lock`).
    pub fn latch_ready(&self, control: u32) -> (r: bool)
        ensures
            r == (control & CTRL_CNT_LOCK != 0),
    {
        control & CTRL_CNT_LOCK != 0
    }

    /// Whether reading the current value takes the latch handshake: only an
    /// enabled channel is latched (a disabled one holds a stale value).
    pub fn needs_latch(&self, control: u32) -> (r: bool)
        ensures
            r == (control & CTRL_ENABLE != 0),
    {
        control & CTRL_ENABLE != 0
    }

    /// The current counter value, through `bus`, which accesses one
    /// channel's registers. `control` is read first; a disabled channel reads
    /// 0 and nothing else is accessed. Otherwise `control` is written back
    /// with `cnt_req` set, then read until it shows `cnt_lock`, at most
    /// [`TIMER_LOCK_TIMEOUT`] times, and then `current_value` is read and
    /// returned, whether or not the lock was seen.
    pub fn current_value<B: FnMut(TimerAccess) -> u32>(&self, bus: &mut B) -> (r: u32)
        requires
            forall|a: TimerAccess| call_requires(*old(bus), (a,)),
        ensures
            exists|calls: Seq<TimerAccess>, states: Seq<B>, answers: Seq<u32>|
                #[trigger] access_trace(*old(bus), calls, states, answers) && latched_read(calls, answers, r),
    {
        let ghost start = *bus;
        let c = bus(TimerAccess::ReadControl);
        let ghost c1 = seq![TimerAccess::ReadControl];
        let ghost s1 = seq![start];
        let ghost a1 = seq![c];
        assert(access_trace(start, c1, s1, a1));
        if c & CTRL_ENABLE == 0 {
            return 0;
        }
        let w = self.latch_request(c);
        let ghost pre = *bus;
        let x = bus(TimerAccess::WriteControl(w));
        let ghost c2 = c1.push(TimerAccess::WriteControl(w));
        let ghost s2 = s1.push(pre);
        let ghost a2 = a1.push(x);
        assert(access_trace(start, c2, s2, a2));
        let ghost mid = *bus;
        let _ = poll_bus(bus, TimerAccess::ReadControl, CTRL_CNT_LOCK, true, TIMER_LOCK_TIMEOUT);
        let ghost (cp, sp, ap) = choose|cp: Seq<TimerAccess>, sp: Seq<B>, ap: Seq<u32>|
            #[trigger] access_trace(mid, cp, sp, ap) && all_calls(cp, TimerAccess::ReadControl) && bounded_poll(
                ap,
                CTRL_CNT_LOCK,
                true,
                TIMER_LOCK_TIMEOUT as nat,
            ) && ap.len() > 0;
        let ghost pre3 = *bus;
        let v = bus(TimerAccess::ReadValue);
        proof {
            lemma_trace_append(start, c2, s2, a2, mid, cp, sp, ap);
            lemma_trace_append(
                start,
                c2 + cp,
                s2 + sp,
                a2 + ap,
                pre3,
                seq![TimerAccess::ReadValue],
                seq![pre3],
                seq![v],
            );
            let calls = c2 + cp + seq![TimerAccess::ReadValue];
            let answers = a2 + ap + seq![v];
            let n = calls.len();
            assert(calls.subrange(2, n - 1) =~= cp);
            assert(answers.subrange(2, n - 1) =~= ap);
            assert(calls[0] == TimerAccess::ReadControl);
            assert(answers[0] == c);
            assert(calls[1] == TimerAccess::WriteControl(w));
            assert(latched_read(calls, answers, v));
        }
        v
    }

    /// Whether a channel's interrupt is pending, from its `raw_intr` register.
    pub fn interrupt_pending(&self, raw_intr: u32) -> (r: bool)
        ensures
            r == (raw_intr & 1 != 0),
    {
        raw_intr & 1 != 0
    }

    /// The index of the `eoi` register whose read clears `channel`'s
    /// interrupt.
    pub fn clear_interrupt(&self, channel: TimerChannel) -> (r: usize)
        ensures
            r == channel_index(channel),
    {
        channel.index()
    }

    /// A one-shot wrapper for `channel`.
    pub fn oneshot(&self, channel: TimerChannel) -> (t: OneShotTimer)
        ensures
            t.channel == channel,
    {
        OneShotTimer { channel }
    }

    /// A periodic wrapper for `channel`.
    pub fn periodic(&self, channel: TimerChannel) -> (t: PeriodicTimer)
        ensures
            t.channel == channel,
    {
        PeriodicTimer { channel }
    }
}

/// A one-shot timer on one channel: counts down once and stops.
pub struct OneShotTimer {
    /// The channel.
    pub channel: TimerChannel,
}

impl OneShotTimer {
    /// The words that start the one-shot with `count` ticks; the channel is
    /// then enabled with [`TimerDriver::enable`].
    pub fn start(&mut self, count: u32) -> (s: TimerSetup)
        ensures
            *final(self) == *old(self),
            s.load_count == count,
            s.control == control_word(TimerMode::OneShot),
    {
        TimerDriver.configure(self.channel, TimerMode::OneShot, count)
    }

    /// The words that start the one-shot for `us` microseconds, or
    /// `TicksOverflow` when the count does not fit 32 bits.
    pub fn start_micros(&mut self, us: u32) -> (r: Result<TimerSetup, TimerError>)
        ensures
            *final(self) == *old(self),
            ticks_for_us(us) <= u32::MAX <==> r.is_ok(),
            r matches Ok(s) ==> s.load_count == ticks_for_us(us) && s.control == control_word(
                TimerMode::OneShot,
            ),
            r matches Err(e) ==> e == TimerError::TicksOverflow,
    {
        let ticks = try_ticks_for_us(us)?;
        Ok(self.start(ticks))
    }

    /// The words that start the one-shot for `ms` milliseconds, or
    /// `TicksOverflow` when the count does not fit 32 bits.
    pub fn start_millis(&mut self, ms: u32) -> (r: Result<TimerSetup, TimerError>)
        ensures
            *final(self) == *old(self),
            ticks_for_ms(ms) <= u32::MAX <==> r.is_ok(),
            r matches Ok(s) ==> s.load_count == ticks_for_ms(ms) && s.control == control_word(
                TimerMode::OneShot,
            ),
            r matches Err(e) ==> e == TimerError::TicksOverflow,
    {
        let ticks = try_ticks_for_ms(ms)?;
        Ok(self.start(ticks))
    }

    /// Whether the one-shot has expired, from the channel's `raw_intr`.
    pub fn expired(&self, raw_intr: u32) -> (r: bool)
        ensures
            r == (raw_intr & 1 != 0),
    {
        TimerDriver.interrupt_pending(raw_intr)
    }

    /// The current counter value (see [`TimerDriver::current_value`]).
    pub fn current<B: FnMut(TimerAccess) -> u32>(&self, bus: &mut B) -> (r: u32)
        requires
            forall|a: TimerAccess| call_requires(*old(bus), (a,)),
        ensures
            exists|calls: Seq<TimerAccess>, states: Seq<B>, answers: Seq<u32>|
                #[trigger] access_trace(*old(bus), calls, states, answers) && latched_read(calls, answers, r),
    {
        TimerDriver.current_value(bus)
    }

    /// The `control` word that stops the one-shot.
    pub fn stop(&self, control: u32) -> (r: u32)
        ensures
            r == control & !CTRL_ENABLE,
    {
        TimerDriver.disable(control)
    }

    /// The index of the `eoi` register that clears the interrupt flag.
    pub fn clear(&self) -> (r: usize)
        ensures
            r == channel_index(self.channel),
    {
        TimerDriver.clear_interrupt(self.channel)
    }
}

/// A periodic timer on one channel: reloads and interrupts each period.
pub struct PeriodicTimer {
    /// The channel.
    pub channel: TimerChannel,
}

impl PeriodicTimer {
    /// The words that start the periodic timer with a period of `period`
    /// ticks; the channel is then enabled with [`TimerDriver::enable`].
    pub fn start(&mut self, period: u32) -> (s: TimerSetup)
        ensures
            *final(self) == *old(self),
            s.load_count == period,
            s.control == control_word(TimerMode::Periodic),
    {
        TimerDriver.configure(self.channel, TimerMode::Periodic, period)
    }

    /// The words that start the periodic timer with a period of `us`
    /// microseconds, or `TicksOverflow` when it does not fit 32 bits.
    pub fn start_micros(&mut self, us: u32) -> (r: Result<TimerSetup, TimerError>)
        ensures
            *final(self) == *old(self),
            ticks_for_us(us) <= u32::MAX <==> r.is_ok(),
            r matches Ok(s) ==> s.load_count == ticks_for_us(us) && s.control == control_word(
                TimerMode::Periodic,
            ),
            r matches Err(e) ==> e == TimerError::TicksOverflow,
    {
        let ticks = try_ticks_for_us(us)?;
        Ok(self.start(ticks))
    }

    /// Whether a period has elapsed, from the channel's `raw_intr`.
    pub fn tick_elapsed(&self, raw_intr: u32) -> (r: bool)
        ensures
            r == (raw_intr & 1 != 0),
    {
        TimerDriver.interrupt_pending(raw_intr)
    }

    /// The `control` word that stops the timer.
    pub fn stop(&self, control: u32) -> (r: u32)
        ensures
            r == control & !CTRL_ENABLE,
    {
        TimerDriver.disable(control)
    }

    /// The current counter value (see [`TimerDriver::current_value`]).
    pub fn current<B: FnMut(TimerAccess) -> u32>(&self, bus: &mut B) -> (r: u32)
        requires
            forall|a: TimerAccess| call_requires(*old(bus), (a,)),
        ensures
            exists|calls: Seq<TimerAccess>, states: Seq<B>, answers: Seq<u32>|
                #[trigger] access_trace(*old(bus), calls, states, answers) && latched_read(calls, answers, r),
    {
        TimerDriver.current_value(bus)
    }

    /// The index of the `eoi` register that clears the tick flag.
    pub fn clear_tick(&self) -> (r: usize)
        ensures
            r == channel_index(self.channel),
    {
        TimerDriver.clear_interrupt(self.channel)
    }
}

/// Interrupt-driven delay on one timer channel.
pub struct AsyncDelay {
    /// The channel.
    pub channel: TimerChannel,
}

impl AsyncDelay {
    /// A delay on `channel`.
    pub fn new(channel: TimerChannel) -> (d: Self)
        ensures
            d.channel == channel,
    {
        AsyncDelay { channel }
    }

    /// The one-shot words for a delay of `ns` nanoseconds: the tick count
    /// (taken modulo 2^32) raised to at least one tick.
    pub fn delay_setup(&self, ns: u32) -> (s: TimerSetup)
        ensures
            s.load_count == if (ticks_for_ns(ns) as u32) == 0 { 1 } else { ticks_for_ns(ns) as u32 },
            s.control == control_word(TimerMode::OneShot),
    {
        proof { lemma_tick_products(ns); }
        let ticks = (TIMER_CLOCK_HZ as u64 * ns as u64 / 1_000_000_000) as u32;
        let load = if ticks == 0 { 1 } else { ticks };
        TimerDriver.configure(self.channel, TimerMode::OneShot, load)
    }
}

/// The words that the timer interrupt handler writes for `control`: the
/// channel stopped (its interrupt is then cleared by reading `eoi`).
pub fn on_interrupt(control: u32) -> (r: u32)
    ensures
        r == control & !CTRL_ENABLE,
{
    TimerDriver.disable(control)
}

/// Every microsecond count up to `u32::MAX / 24` converts; the next one
/// overflows: the conversion's bound is exact.
pub proof fn law_us_safe_range(us: u32)
    ensures
        us <= u32::MAX / 24 ==> ticks_for_us(us) <= u32::MAX,
        us > u32::MAX / 24 ==> ticks_for_us(us) > u32::MAX,
        ticks_for_us(us) == 24 * us,
{
    assert((24_000_000 * us as nat) / 1_000_000 == 24 * us as nat) by (nonlinear_arith);
}

/// The timer counts 24 000 ticks per millisecond: `ms` milliseconds are
/// `24_000 * ms` ticks, a thousand times the ticks of as many microseconds
/// and a million times those of as many nanoseconds (up to rounding); the
/// checked conversion succeeds exactly up to `u32::MAX / 24_000`
/// milliseconds.
pub proof fn law_ms_ticks(ms: u32)
    ensures
        ticks_for_ms(ms) == 24_000 * ms,
        ticks_for_ms(ms) == 1_000 * ticks_for_us(ms),
        ticks_for_ns(ms) == (24 * ms as nat) / 1_000,
        (ticks_for_ms(ms) <= u32::MAX) <==> ms <= u32::MAX / 24_000,
{
    assert((24_000_000 * ms as nat) / 1_000 == 24_000 * ms as nat) by (nonlinear_arith);
    assert((24_000_000 * ms as nat) / 1_000_000 == 24 * ms as nat) by (nonlinear_arith);
    assert((24_000_000 * ms as nat) / 1_000_000_000 == (24 * ms as nat) / 1_000) by (nonlinear_arith);
}

/// Whole milliseconds and whole microseconds of the same span give the
/// same tick count: `ms` milliseconds are `1000 * ms` microseconds.
pub proof fn law_ms_is_thousand_us(ms: u32)
    requires
        ms * 1_000 <= u32::MAX,
    ensures
        ticks_for_ms(ms) == ticks_for_us((ms * 1_000) as u32),
{
    law_ms_ticks(ms);
    law_us_safe_range((ms * 1_000) as u32);
}

/// A fresh channel's `control` word: the periodic (reload) bit 1 is set
/// exactly for a periodic timer, and the channel starts disabled with its
/// interrupt unmasked (no other bit set).
pub proof fn law_control_word_mode(mode: TimerMode)
    ensures
        control_word(mode) == 2 <==> mode == TimerMode::Periodic,
        control_word(mode) == 0 <==> mode == TimerMode::OneShot,
{
    assert(((0u32 & 0x3) << 1u32) == 0 && ((1u32 & 0x3) << 1u32) == 2) by (bit_vector);
}

/// Enabling and disabling a channel touch only the enable bit.
pub proof fn law_enable_disable_bit(control: u32)
    ensures
        (control | CTRL_ENABLE) & !CTRL_ENABLE == control & !CTRL_ENABLE,
        (control & !CTRL_ENABLE) & CTRL_ENABLE == 0,
        (control | CTRL_ENABLE) & CTRL_ENABLE == CTRL_ENABLE,
{
    crate::bits::lemma_mask_set_clear(control, CTRL_ENABLE);
}

/// A register access of a latched read of one channel.
#[derive(Debug, Clone, Copy, PartialEq, Eq, Structural)]
pub enum TimerAccess {
    /// Read the channel's `control` register.
    ReadControl,
    /// Write the channel's `control` register.
    WriteControl(u32),
    /// Read the channel's `current_value` register.
    ReadValue,
}

/// The accesses and result of a latched read, in order: `control` is read;
/// when its enable bit is clear that is all and the result is 0; otherwise
/// it is written back with `cnt_req` set, then read in a bounded poll for
/// `cnt_lock` of at most [`TIMER_LOCK_TIMEOUT`] reads, then
/// `current_value` is read, and that is the result.
pub open spec fn latched_read(calls: Seq<TimerAccess>, answers: Seq<u32>, r: u32) -> bool {
    &&& calls.len() >= 1
    &&& calls[0] == TimerAccess::ReadControl
    &&& answers[0] & CTRL_ENABLE == 0 ==> calls.len() == 1 && r == 0
    &&& answers[0] & CTRL_ENABLE != 0 ==> {
        let n = calls.len();
        &&& n >= 4
        &&& calls[1] == TimerAccess::WriteControl(answers[0] | CTRL_CNT_REQ)
        &&& all_calls(calls.subrange(2, n - 1), TimerAccess::ReadControl)
        &&& bounded_poll(answers.subrange(2, n - 1), CTRL_CNT_LOCK, true, TIMER_LOCK_TIMEOUT as nat)
        &&& calls[n - 1] == TimerAccess::ReadValue
        &&& r == answers[n - 1]
    }
}

} // verus!
