//! TCXO 64-bit free-running counter.
//!
//! The counter is read by latching it (write the refresh bit of
//! `tcxo_status`), polling the valid flag, then reading the four 16-bit count
//! registers. This module computes the status words and assembles the count.
use vstd::prelude::*;
use crate::poll::{access_trace, all_calls, bounded_poll, lemma_trace_append, poll_bus, poll_met, poll_result, poll_until};
use crate::time::{counter64, tcxo_counter64};

verus! {

/// `tcxo_status` counter enable (bit 2).
pub const TCXO_EN_BIT: u32 = 0x4;
/// `tcxo_status` counter clear (bit 1).
pub const TCXO_CLEAR_BIT: u32 = 0x2;
/// `tcxo_status` latch / refresh request (bit 0).
pub const TCXO_REFRESH_BIT: u32 = 1;
/// `tcxo_status` latched-value-valid flag (bit 4).
pub const TCXO_VALID_BIT: u32 = 0x10;
/// Polls of the valid flag after a refresh request before giving up.
pub const TCXO_REFRESH_POLLS: u32 = 100;

/// The lower 32 bits of the counter from `count1:count0`.
pub open spec fn counter32(c0: u32, c1: u32) -> u32 {
    (c1 << 16u32) | c0
}

/// TCXO counter driver.
pub struct TcxoDriver;

impl TcxoDriver {
    /// Create a TCXO driver.
    pub fn new() -> (d: Self) {
        TcxoDriver
    }

    /// The status word that enables the counter.
    pub fn enable(&mut self, status: u32) -> (r: u32)
        ensures
            *final(self) == *old(self),
            r == status | TCXO_EN_BIT,
    {
        status | TCXO_EN_BIT
    }

    /// The status word that disables the counter.
    pub fn disable(&mut self, status: u32) -> (r: u32)
        ensures
            *final(self) == *old(self),
            r == status & !TCXO_EN_BIT,
    {
        status & !TCXO_EN_BIT
    }

    /// The status word that clears the counter.
    pub fn clear(&mut self, status: u32) -> (r: u32)
        ensures
            *final(self) == *old(self),
            r == status | TCXO_CLEAR_BIT,
    {
        status | TCXO_CLEAR_BIT
    }

    /// The status word that requests a latch of the counter.
    pub fn refresh_request(&self, status: u32) -> (r: u32)
        ensures
            r == status | TCXO_REFRESH_BIT,
    {
        status | TCXO_REFRESH_BIT
    }

    /// Wait for a requested latch: `valid` (which reads the valid flag) is
    /// polled at most [`TCXO_REFRESH_POLLS`] times; `Ok` as soon as it
    /// answers `true`, `Err` once every poll answered `false`.
    pub fn refresh<F: FnMut() -> bool>(&self, valid: &mut F) -> (r: Result<(), ()>)
        requires
            forall|| call_requires(*old(valid), ()),
        ensures
            poll_result(*old(valid), TCXO_REFRESH_POLLS as nat, r is Ok),
    {
        if poll_until(valid, TCXO_REFRESH_POLLS) {
            Ok(())
        } else {
            Err(())
        }
    }

    /// Whether the latched value is valid after a refresh.
    pub fn refresh_ok(&self, status: u32) -> (r: bool)
        ensures
            r == (status & TCXO_VALID_BIT != 0),
    {
        status & TCXO_VALID_BIT != 0
    }

    /// Whether the counter value is valid (the same valid flag).
    pub fn is_valid(&self, status: u32) -> (r: bool)
        ensures
            r == (status & TCXO_VALID_BIT != 0),
    {
        status & TCXO_VALID_BIT != 0
    }

    /// The full 64-bit counter from the four count registers, or `None` when
    /// the refresh did not become valid within [`TCXO_REFRESH_POLLS`] polls.
    pub fn read_counter(&self, refreshed: bool, c0: u32, c1: u32, c2: u32, c3: u32) -> (r: Option<u64>)
        ensures
            refreshed <==> r.is_some(),
            r matches Some(v) ==> v == counter64(c0, c1, c2, c3),
    {
        if !refreshed {
            return None;
        }
        Some(tcxo_counter64(c0, c1, c2, c3))
    }

    /// The lower 32 bits of the counter from `count1:count0`, or `None` when
    /// the refresh timed out.
    pub fn read_counter32(&self, refreshed: bool, c0: u32, c1: u32) -> (r: Option<u32>)
        ensures
            refreshed <==> r.is_some(),
            r matches Some(v) ==> v == counter32(c0, c1),
    {
        if !refreshed {
            return None;
        }
        Some((c1 << 16u32) | c0)
    }
}

/// A register access of a latched counter read.
#[derive(Debug, Clone, Copy, PartialEq, Eq, Structural)]
pub enum TcxoAccess {
    /// Read `tcxo_status`.
    ReadStatus,
    /// Write `tcxo_status`.
    WriteStatus(u32),
    /// Read count register `tcxo_count0..3`.
    ReadCount(u8),
}

/// The latch part of a counter read that ended after `k` valid-flag polls:
/// `tcxo_status` read, written back with the refresh bit set, then polled
/// `k` times for the valid flag, at most [`TCXO_REFRESH_POLLS`] times.
pub open spec fn latch_prefix(calls: Seq<TcxoAccess>, answers: Seq<u32>, k: int) -> bool {
    &&& calls.len() >= 2 + k
    &&& answers.len() == calls.len()
    &&& calls[0] == TcxoAccess::ReadStatus
    &&& calls[1] == TcxoAccess::WriteStatus(answers[0] | TCXO_REFRESH_BIT)
    &&& k >= 1
    &&& all_calls(calls.subrange(2, 2 + k), TcxoAccess::ReadStatus)
    &&& bounded_poll(answers.subrange(2, 2 + k), TCXO_VALID_BIT, true, TCXO_REFRESH_POLLS as nat)
}

/// The accesses and result of a latched read of the `count` low count
/// registers (two or four): the latch, and, only when its poll saw the
/// valid flag, the count registers read in order from `count0`; `None`
/// exactly when it did not. `value` is what the registers read assemble to.
pub open spec fn latched_counter_run(
    calls: Seq<TcxoAccess>,
    answers: Seq<u32>,
    count: int,
    got: bool,
) -> bool {
    let k = calls.len() - 2 - if got { count } else { 0 };
    &&& latch_prefix(calls, answers, k)
    &&& got == poll_met(answers.subrange(2, 2 + k), TCXO_VALID_BIT, true)
    &&& got ==> forall|i: int| 0 <= i < count ==> #[trigger] calls[2 + k + i] == TcxoAccess::ReadCount(i as u8)
}

impl TcxoDriver {
    fn latch<B: FnMut(TcxoAccess) -> u32>(&self, bus: &mut B) -> (r: bool)
        requires
            forall|a: TcxoAccess| call_requires(*old(bus), (a,)),
        ensures
            forall|a: TcxoAccess| call_requires(*final(bus), (a,)),
            exists|calls: Seq<TcxoAccess>, states: Seq<B>, answers: Seq<u32>|
                #[trigger] access_trace(*old(bus), calls, states, answers) && latch_prefix(
                    calls,
                    answers,
                    calls.len() - 2,
                ) && r == poll_met(answers.subrange(2, calls.len() as int), TCXO_VALID_BIT, true),
    {
        let ghost start = *bus;
        let st = bus(TcxoAccess::ReadStatus);
        let ghost p2 = *bus;
        let x = bus(TcxoAccess::WriteStatus(self.refresh_request(st)));
        let ghost c1 = seq![TcxoAccess::ReadStatus, TcxoAccess::WriteStatus(st | TCXO_REFRESH_BIT)];
        let ghost s1 = seq![start, p2];
        let ghost a1 = seq![st, x];
        assert(access_trace(start, c1, s1, a1));
        let ghost m = *bus;
        let ok = poll_bus(bus, TcxoAccess::ReadStatus, TCXO_VALID_BIT, true, TCXO_REFRESH_POLLS);
        let ghost (c2, s2, a2) = choose|c: Seq<TcxoAccess>, st: Seq<B>, an: Seq<u32>|
            #[trigger] access_trace(m, c, st, an) && all_calls(c, TcxoAccess::ReadStatus) && bounded_poll(
                an,
                TCXO_VALID_BIT,
                true,
                TCXO_REFRESH_POLLS as nat,
            ) && an.len() > 0 && ok == poll_met(an, TCXO_VALID_BIT, true);
        proof {
            lemma_trace_append(start, c1, s1, a1, m, c2, s2, a2);
            let calls = c1 + c2;
            let answers = a1 + a2;
            assert(calls.subrange(2, calls.len() as int) =~= c2);
            assert(answers.subrange(2, answers.len() as int) =~= a2);
        }
        ok
    }

    /// The full 64-bit counter, through `bus`: `tcxo_status` is read and
    /// written back with the refresh bit set, the valid flag is polled at
    /// most [`TCXO_REFRESH_POLLS`] times, and only once it is seen are
    /// `tcxo_count0..3` read, in order, and assembled; else `None`.
    pub fn read_latched<B: FnMut(TcxoAccess) -> u32>(&self, bus: &mut B) -> (r: Option<u64>)
        requires
            forall|a: TcxoAccess| call_requires(*old(bus), (a,)),
        ensures
            exists|calls: Seq<TcxoAccess>, states: Seq<B>, answers: Seq<u32>|
                #[trigger] access_trace(*old(bus), calls, states, answers) && latched_counter_run(
                    calls,
                    answers,
                    4,
                    r is Some,
                ) && (r matches Some(v) ==> v == counter64(
                    answers[calls.len() - 4],
                    answers[calls.len() - 3],
                    answers[calls.len() - 2],
                    answers[calls.len() - 1],
                )),
    {
        let ghost start = *bus;
        let ok = self.latch(bus);
        let ghost (c1, s1, a1) = choose|c: Seq<TcxoAccess>, st: Seq<B>, an: Seq<u32>|
            #[trigger] access_trace(start, c, st, an) && latch_prefix(c, an, c.len() - 2) && ok == poll_met(
                an.subrange(2, c.len() as int),
                TCXO_VALID_BIT,
                true,
            );
        if !ok {
            return None;
        }
        let ghost q0 = *bus;
        let c0 = bus(TcxoAccess::ReadCount(0));
        let ghost q1 = *bus;
        let c1v = bus(TcxoAccess::ReadCount(1));
        let ghost q2 = *bus;
        let c2v = bus(TcxoAccess::ReadCount(2));
        let ghost q3 = *bus;
        let c3v = bus(TcxoAccess::ReadCount(3));
        proof {
            let cc = seq![
                TcxoAccess::ReadCount(0),
                TcxoAccess::ReadCount(1),
                TcxoAccess::ReadCount(2),
                TcxoAccess::ReadCount(3),
            ];
            lemma_trace_append(start, c1, s1, a1, q0, cc, seq![q0, q1, q2, q3], seq![c0, c1v, c2v, c3v]);
            let calls = c1 + cc;
            let answers = a1 + seq![c0, c1v, c2v, c3v];
            let k = c1.len() - 2;
            assert(calls.subrange(2, 2 + k) =~= c1.subrange(2, 2 + k));
            assert(answers.subrange(2, 2 + k) =~= a1.subrange(2, 2 + k));
            assert(forall|i: int| 0 <= i < 4 ==> #[trigger] calls[2 + k + i] == TcxoAccess::ReadCount(i as u8));
        }
        Some(tcxo_counter64(c0, c1v, c2v, c3v))
    }

    /// The lower 32 bits of the counter, through `bus`: the same latch, then
    /// only once the valid flag is seen `tcxo_count0` and `tcxo_count1` are
    /// read, in order, and assembled; else `None`.
    pub fn read_latched32<B: FnMut(TcxoAccess) -> u32>(&self, bus: &mut B) -> (r: Option<u32>)
        requires
            forall|a: TcxoAccess| call_requires(*old(bus), (a,)),
        ensures
            exists|calls: Seq<TcxoAccess>, states: Seq<B>, answers: Seq<u32>|
                #[trigger] access_trace(*old(bus), calls, states, answers) && latched_counter_run(
                    calls,
                    answers,
                    2,
                    r is Some,
                ) && (r matches Some(v) ==> v == counter32(answers[calls.len() - 2], answers[calls.len() - 1])),
    {
        let ghost start = *bus;
        let ok = self.latch(bus);
        let ghost (c1, s1, a1) = choose|c: Seq<TcxoAccess>, st: Seq<B>, an: Seq<u32>|
            #[trigger] access_trace(start, c, st, an) && latch_prefix(c, an, c.len() - 2) && ok == poll_met(
                an.subrange(2, c.len() as int),
                TCXO_VALID_BIT,
                true,
            );
        if !ok {
            return None;
        }
        let ghost q0 = *bus;
        let c0 = bus(TcxoAccess::ReadCount(0));
        let ghost q1 = *bus;
        let c1v = bus(TcxoAccess::ReadCount(1));
        proof {
            let cc = seq![TcxoAccess::ReadCount(0), TcxoAccess::ReadCount(1)];
            lemma_trace_append(start, c1, s1, a1, q0, cc, seq![q0, q1], seq![c0, c1v]);
            let calls = c1 + cc;
            let answers = a1 + seq![c0, c1v];
            let k = c1.len() - 2;
            assert(calls.subrange(2, 2 + k) =~= c1.subrange(2, 2 + k));
            assert(answers.subrange(2, 2 + k) =~= a1.subrange(2, 2 + k));
            assert(forall|i: int| 0 <= i < 2 ==> #[trigger] calls[2 + k + i] == TcxoAccess::ReadCount(i as u8));
        }
        Some((c1v << 16u32) | c0)
    }
}

/// Enable sets bit 2 and touches nothing else; disable clears it and
/// touches nothing else; enable then disable keeps every other bit.
pub proof fn law_enable_disable(status: u32)
    ensures
        (status | TCXO_EN_BIT) & TCXO_EN_BIT != 0,
        (status | TCXO_EN_BIT) & !TCXO_EN_BIT == status & !TCXO_EN_BIT,
        (status & !TCXO_EN_BIT) & TCXO_EN_BIT == 0,
        (status & !TCXO_EN_BIT) & !TCXO_EN_BIT == status & !TCXO_EN_BIT,
        ((status | TCXO_EN_BIT) & !TCXO_EN_BIT) == status & !TCXO_EN_BIT,
{
    crate::bits::lemma_mask_set_clear(status, TCXO_EN_BIT);
}

/// Clear and refresh each set only their own bit.
pub proof fn law_clear_refresh(status: u32)
    ensures
        (status | TCXO_CLEAR_BIT) & TCXO_CLEAR_BIT != 0,
        (status | TCXO_CLEAR_BIT) & !TCXO_CLEAR_BIT == status & !TCXO_CLEAR_BIT,
        (status | TCXO_REFRESH_BIT) & TCXO_REFRESH_BIT != 0,
        (status | TCXO_REFRESH_BIT) & !TCXO_REFRESH_BIT == status & !TCXO_REFRESH_BIT,
{
    crate::bits::lemma_mask_set_clear(status, TCXO_CLEAR_BIT);
    crate::bits::lemma_mask_set_clear(status, TCXO_REFRESH_BIT);
}

/// The valid flag depends on bit 4 alone: toggling the control bits never
/// changes it.
pub proof fn law_valid_only_bit4(status: u32)
    ensures
        ((status ^ 0b111u32) & TCXO_VALID_BIT != 0) == (status & TCXO_VALID_BIT != 0),
{
    lemma_valid_bit(status);
}

proof fn lemma_valid_bit(s: u32)
    by (bit_vector)
    ensures
        ((s ^ 7u32) & 16u32 != 0) == (s & 16u32 != 0),
{
}

/// The 32-bit read agrees with the low half of the 64-bit read when the count
/// registers hold 16-bit values.
pub proof fn law_counter32_is_low_half(c0: u16, c1: u16, c2: u16, c3: u16)
    ensures
        (counter64(c0 as u32, c1 as u32, c2 as u32, c3 as u32) & 0xFFFF_FFFF) as u32 == counter32(
            c0 as u32,
            c1 as u32,
        ),
{
    lemma_low_half(c0 as u64, c1 as u64, c2 as u64, c3 as u64, c0 as u32, c1 as u32);
}

proof fn lemma_low_half(c0: u64, c1: u64, c2: u64, c3: u64, d0: u32, d1: u32)
    by (bit_vector)
    requires
        c0 < 0x10000,
        c1 < 0x10000,
        c0 == d0,
        c1 == d1,
    ensures
        (((c3 << 48u64) | (c2 << 32u64) | (c1 << 16u64) | c0) & 0xFFFF_FFFF) as u32 == (d1
            << 16u32) | d0,
{
}

} // verus!
