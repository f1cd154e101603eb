//! BS2X RTC v150: a 64-bit down-counter on the 32.768 kHz domain (RTC0).
//!
//! The counter is read coherently by requesting a latched snapshot
//! (`cnt_req`), waiting (bounded) for `cnt_lock`, then reading the two
//! 32-bit halves. The start script, that handshake and the assembly of the
//! halves are decided here; register access is MMIO.
use vstd::prelude::*;
use crate::poll::{access_trace, all_calls, bounded_poll, lemma_trace_append, poll_bus};

verus! {

/// Counter run mode (`control.mode`).
#[derive(Clone, Copy, Debug, PartialEq, Eq, Structural)]
pub enum Mode {
    /// Count down once from `load` to zero, then stop.
    OneShot,
    /// Count down from `load`, reload and repeat.
    Periodic,
    /// Free-running.
    FreeRun,
}

impl Mode {
    /// The `control.mode` field value: 0, 1, and 3 for free-running.
    pub open spec fn bits_spec(&self) -> u8 {
        match self {
            Mode::OneShot => 0,
            Mode::Periodic => 1,
            Mode::FreeRun => 3,
        }
    }

    /// The `control.mode` field value.
    pub fn bits(&self) -> (r: u8)
        ensures
            r == self.bits_spec(),
    {
        match self {
            Mode::OneShot => 0,
            Mode::Periodic => 1,
            Mode::FreeRun => 3,
        }
    }
}

/// Bound on the polls of `cnt_lock`.
pub const POLL_LIMIT: u32 = 0xFFFF;

/// One operation on the RTC registers.
#[derive(Clone, Copy, Debug, PartialEq, Eq, Structural)]
pub enum RtcOp {
    /// Clear `control.enable`.
    Stop,
    /// Write `control.mode`.
    SetMode(u8),
    /// Write `load_count0`.
    Load(u32),
    /// Set `control.enable`.
    Start,
    /// Set the per-instance EOI bit of `eoi_ren`.
    EndOfInterrupt,
}

/// The 64-bit counter made of its high and low halves.
pub open spec fn combine_spec(hi: u32, lo: u32) -> int {
    hi * 0x1_0000_0000 + lo
}

/// The 64-bit counter made of its latched halves (`current_value1` high,
/// `current_value0` low).
pub fn combine(hi: u32, lo: u32) -> (r: u64)
    ensures
        r == combine_spec(hi, lo),
{
    let h = hi as u64;
    let l = lo as u64;
    assert(((h << 32) | l) == h * 0x1_0000_0000 + l) by (bit_vector)
        requires
            h < 0x1_0000_0000,
            l < 0x1_0000_0000,
    ;
    (h << 32) | l
}

/// Splitting a counter into its halves and combining them again gives it
/// back; the halves of a combined counter are the halves it was made of.
pub proof fn law_combine_split(v: u64, hi: u32, lo: u32)
    ensures
        combine_spec((v / 0x1_0000_0000) as u32, (v % 0x1_0000_0000) as u32) == v,
        combine_spec(hi, lo) / 0x1_0000_0000 == hi,
        combine_spec(hi, lo) % 0x1_0000_0000 == lo,
{
}

/// A register access of a counter read. The two status reads answer 1 for
/// a set bit and 0 for a clear one.
#[derive(Clone, Copy, Debug, PartialEq, Eq, Structural)]
pub enum RtcAccess {
    /// Read `control.enable`.
    IsEnabled,
    /// Set `control.cnt_req`.
    RequestLatch,
    /// Read `control.cnt_lock`.
    IsLocked,
    /// Read `current_value0`.
    ReadLow,
    /// Read `current_value1`.
    ReadHigh,
}

/// The accesses and result of a counter read, in order: `enable` is read;
/// when clear that is all and the result is 0; otherwise `cnt_req` is set,
/// `cnt_lock` is read in a bounded poll of at most [`POLL_LIMIT`] reads, and
/// the low then the high half are read; the result is the halves combined.
pub open spec fn count_read(calls: Seq<RtcAccess>, answers: Seq<u32>, r: int) -> bool {
    &&& calls.len() >= 1
    &&& calls[0] == RtcAccess::IsEnabled
    &&& answers[0] & 1 == 0 ==> calls.len() == 1 && r == 0
    &&& answers[0] & 1 != 0 ==> {
        let n = calls.len();
        &&& n >= 5
        &&& calls[1] == RtcAccess::RequestLatch
        &&& all_calls(calls.subrange(2, n - 2), RtcAccess::IsLocked)
        &&& bounded_poll(answers.subrange(2, n - 2), 1, true, POLL_LIMIT as nat)
        &&& calls[n - 2] == RtcAccess::ReadLow
        &&& calls[n - 1] == RtcAccess::ReadHigh
        &&& r == combine_spec(answers[n - 1], answers[n - 2])
    }
}

/// The v150 RTC (RTC0).
pub struct Rtc;

impl Rtc {
    /// The driver, and the operations that start it counting down from
    /// `load` in `mode`: stop, set the mode, load, start.
    pub fn new(load: u32, mode: Mode) -> (r: (Rtc, Vec<RtcOp>))
        ensures
            r.1@ == seq![RtcOp::Stop, RtcOp::SetMode(mode.bits_spec()), RtcOp::Load(load), RtcOp::Start],
    {
        let ops = vec![RtcOp::Stop, RtcOp::SetMode(mode.bits()), RtcOp::Load(load), RtcOp::Start];
        assert(ops@ =~= seq![RtcOp::Stop, RtcOp::SetMode(mode.bits_spec()), RtcOp::Load(load), RtcOp::Start]);
        (Rtc, ops)
    }

    /// The live counter, through `bus`. Whether the counter runs is read
    /// first; a stopped counter reads 0 and nothing else is accessed.
    /// Otherwise `cnt_req` is set, `cnt_lock` is read at most [`POLL_LIMIT`]
    /// times until it shows, and then the low and the high halves are read,
    /// in that order, and combined (the read goes ahead when the lock never
    /// comes).
    pub fn read_count<B: FnMut(RtcAccess) -> u32>(&self, bus: &mut B) -> (r: u64)
        requires
            forall|a: RtcAccess| call_requires(*old(bus), (a,)),
        ensures
            exists|calls: Seq<RtcAccess>, states: Seq<B>, answers: Seq<u32>|
                #[trigger] access_trace(*old(bus), calls, states, answers) && count_read(calls, answers, r as int),
    {
        let ghost start = *bus;
        let e = bus(RtcAccess::IsEnabled);
        let ghost c1 = seq![RtcAccess::IsEnabled];
        let ghost s1 = seq![start];
        let ghost a1 = seq![e];
        assert(access_trace(start, c1, s1, a1));
        if e & 1 == 0 {
            return 0;
        }
        let ghost pre = *bus;
        let x = bus(RtcAccess::RequestLatch);
        let ghost c2 = c1.push(RtcAccess::RequestLatch);
        let ghost s2 = s1.push(pre);
        let ghost a2 = a1.push(x);
        assert(access_trace(start, c2, s2, a2));
        let ghost mid = *bus;
        let _ = poll_bus(bus, RtcAccess::IsLocked, 1, true, POLL_LIMIT);
        let ghost (cp, sp, ap) = choose|cp: Seq<RtcAccess>, sp: Seq<B>, ap: Seq<u32>|
            #[trigger] access_trace(mid, cp, sp, ap) && all_calls(cp, RtcAccess::IsLocked) && bounded_poll(
                ap,
                1,
                true,
                POLL_LIMIT as nat,
            ) && ap.len() > 0;
        let ghost pre3 = *bus;
        let lo = bus(RtcAccess::ReadLow);
        let ghost pre4 = *bus;
        let hi = bus(RtcAccess::ReadHigh);
        proof {
            lemma_trace_append(start, c2, s2, a2, mid, cp, sp, ap);
            lemma_trace_append(
                start,
                c2 + cp,
                s2 + sp,
                a2 + ap,
                pre3,
                seq![RtcAccess::ReadLow, RtcAccess::ReadHigh],
                seq![pre3, pre4],
                seq![lo, hi],
            );
            let calls = c2 + cp + seq![RtcAccess::ReadLow, RtcAccess::ReadHigh];
            let answers = a2 + ap + seq![lo, hi];
            let n = calls.len();
            assert(calls.subrange(2, n - 2) =~= cp);
            assert(answers.subrange(2, n - 2) =~= ap);
            assert(calls[0] == RtcAccess::IsEnabled);
            assert(answers[0] == e);
            assert(calls[1] == RtcAccess::RequestLatch);
        }
        combine(hi, lo)
    }

    /// Whether the timer interrupt is pending (`raw_intr` bit 0).
    pub fn is_pending(&self, raw_intr: u32) -> (r: bool)
        ensures
            r == (raw_intr & 1 != 0),
    {
        raw_intr & 1 != 0
    }

    /// Clear the timer interrupt.
    pub fn clear_interrupt(&self) -> (r: RtcOp)
        ensures
            r == RtcOp::EndOfInterrupt,
    {
        RtcOp::EndOfInterrupt
    }
}

} // verus!
