//! BS2X true random number generator (IP v1): wait for the FIFO to report
//! ready and done, then pop a 32-bit word.
use vstd::prelude::*;
use crate::poll::{access_trace, all_calls, bounded_poll, lemma_trace_append, poll_bus, poll_met};

verus! {

/// Bound on the polls of a read.
pub const POLL_LIMIT: u32 = 1_000_000;

/// TRNG errors.
#[derive(Debug, Clone, Copy, PartialEq, Eq, Structural)]
pub enum TrngError {
    /// The FIFO never reported ready and done within the bounded wait.
    Timeout,
}

/// The BS2X TRNG (its ring oscillators are enabled by the driver when it
/// is built).
pub struct Trng;

impl Trng {
    /// The TRNG.
    pub fn new() -> (t: Self) {
        Trng
    }

    /// Whether `trng_fifo_ready` reports a word: ready (bit 0) and done
    /// (bit 1) both set.
    pub fn word_available(&self, fifo_ready: u32) -> (r: bool)
        ensures
            r == (fifo_ready & 0x01 != 0 && fifo_ready & 0x02 != 0),
    {
        fifo_ready & 0x01 != 0 && fifo_ready & 0x02 != 0
    }

    /// One word, through `bus`: `trng_fifo_ready` is read until it shows
    /// ready and done (bits 0 and 1), at most [`POLL_LIMIT`] times, and only
    /// then is `trng_fifo_data` read, whose word is the result; otherwise
    /// `Timeout`, with the data register never read.
    pub fn next_u32<B: FnMut(TrngV1Access) -> u32>(&self, bus: &mut B) -> (r: Result<u32, TrngError>)
        requires
            forall|a: TrngV1Access| call_requires(*old(bus), (a,)),
        ensures
            exists|calls: Seq<TrngV1Access>, states: Seq<B>, answers: Seq<u32>|
                #[trigger] access_trace(*old(bus), calls, states, answers) && next_word_shape(calls, answers, r),
    {
        let ghost start = *bus;
        if poll_bus(bus, TrngV1Access::FifoReady, 3, true, POLL_LIMIT) {
            let ghost (c1, s1, a1) = choose|c: Seq<TrngV1Access>, s: Seq<B>, a: Seq<u32>|
                #[trigger] access_trace(start, c, s, a) && all_calls(c, TrngV1Access::FifoReady) && bounded_poll(
                    a,
                    3,
                    true,
                    POLL_LIMIT as nat,
                ) && a.len() > 0 && poll_met(a, 3, true);
            let ghost pre = *bus;
            let w = bus(TrngV1Access::FifoData);
            proof {
                lemma_trace_append(start, c1, s1, a1, pre, seq![TrngV1Access::FifoData], seq![pre], seq![w]);
                assert((c1 + seq![TrngV1Access::FifoData]).drop_last() =~= c1);
                assert((a1 + seq![w]).drop_last() =~= a1);
            }
            Ok(w)
        } else {
            Err(TrngError::Timeout)
        }
    }
}

/// A register access of a word read.
#[derive(Debug, Clone, Copy, PartialEq, Eq, Structural)]
pub enum TrngV1Access {
    /// Read `trng_fifo_ready`.
    FifoReady,
    /// Read `trng_fifo_data` (pops a word).
    FifoData,
}

/// The accesses and result of a word read: a bounded poll of
/// `trng_fifo_ready` for ready and done (bits 0 and 1 both set) of at most
/// [`POLL_LIMIT`] reads; when the last showed both, one read of
/// `trng_fifo_data` after it, whose word is the result; otherwise `Timeout`
/// with nothing else read.
pub open spec fn next_word_shape(calls: Seq<TrngV1Access>, answers: Seq<u32>, r: Result<u32, TrngError>) -> bool {
    match r {
        Ok(w) => {
            &&& calls.len() >= 2
            &&& calls.last() == TrngV1Access::FifoData
            &&& answers.last() == w
            &&& all_calls(calls.drop_last(), TrngV1Access::FifoReady)
            &&& bounded_poll(answers.drop_last(), 3, true, POLL_LIMIT as nat)
            &&& poll_met(answers.drop_last(), 3, true)
        },
        Err(e) => {
            &&& e == TrngError::Timeout
            &&& all_calls(calls, TrngV1Access::FifoReady)
            &&& bounded_poll(answers, 3, true, POLL_LIMIT as nat)
            &&& !poll_met(answers, 3, true)
        },
    }
}

/// A `trng_fifo_ready` value reports a word exactly when its bits 0 and 1
/// are both set.
pub proof fn law_word_ready_bits(v: u32)
    ensures
        (v & 3 == 3) <==> (v & 0x01 != 0 && v & 0x02 != 0),
{
    assert((v & 3 == 3) <==> (v & 0x01 != 0 && v & 0x02 != 0)) by (bit_vector);
}

} // verus!
