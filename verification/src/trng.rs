//! True random number generator (FRO entropy, 32-bit FIFO words).
//!
//! `trng_fifo_ready`: data ready bit 0, generation done bit 1. The bounded
//! blocking read and the little-endian byte fill are computed here.
use vstd::prelude::*;
use crate::poll::{access_trace, all_calls, bounded_poll, lemma_trace_append, poll_bus, poll_met};
use crate::sfc::le_byte;

verus! {

/// TRNG errors.
#[derive(Debug, Clone, Copy, PartialEq, Eq, Structural)]
pub enum TrngError {
    /// No data in the FIFO.
    NoData,
    /// No entropy within the bounded wait.
    Timeout,
}

/// Bound on the polls of a blocking read.
pub const TRNG_READ_LOOPS: u32 = 1_000_000;

/// A register access of a blocking read.
#[derive(Debug, Clone, Copy, PartialEq, Eq, Structural)]
pub enum TrngAccess {
    /// Read `trng_fifo_ready`.
    FifoReady,
    /// Read `trng_fifo_data` (pops a word).
    FifoData,
}

/// The accesses and result of a blocking read: reads of `trng_fifo_ready`,
/// a bounded poll of its bit 0 of at most [`TRNG_READ_LOOPS`] reads; when
/// the last showed data, one read of `trng_fifo_data` after it, whose word
/// is the result; otherwise `Timeout` with nothing else read.
pub open spec fn blocking_read_shape(calls: Seq<TrngAccess>, answers: Seq<u32>, r: Result<u32, TrngError>) -> bool {
    match r {
        Ok(w) => {
            &&& calls.len() >= 2
            &&& calls.last() == TrngAccess::FifoData
            &&& answers.last() == w
            &&& all_calls(calls.drop_last(), TrngAccess::FifoReady)
            &&& bounded_poll(answers.drop_last(), 1, true, TRNG_READ_LOOPS as nat)
            &&& poll_met(answers.drop_last(), 1, true)
        },
        Err(e) => {
            &&& e == TrngError::Timeout
            &&& all_calls(calls, TrngAccess::FifoReady)
            &&& bounded_poll(answers, 1, true, TRNG_READ_LOOPS as nat)
            &&& !poll_met(answers, 1, true)
        },
    }
}

/// The TRNG driver.
pub struct TrngDriver;

impl TrngDriver {
    /// The TRNG driver.
    pub fn new() -> (d: Self) {
        TrngDriver
    }

    /// Whether a word is ready (`trng_fifo_ready` bit 0).
    pub fn data_ready(&self, fifo_ready: u32) -> (r: bool)
        ensures
            r == (fifo_ready & 0x01 != 0),
    {
        fifo_ready & 0x01 != 0
    }

    /// Whether generation is complete (`trng_fifo_ready` bit 1).
    pub fn done(&self, fifo_ready: u32) -> (r: bool)
        ensures
            r == (fifo_ready & 0x02 != 0),
    {
        fifo_ready & 0x02 != 0
    }

    /// One word: `NoData` when `fifo_ready` says the FIFO is empty (and
    /// `read_data` is not called), else what `read_data` returns.
    pub fn read<F: FnOnce() -> u32>(&self, fifo_ready: u32, read_data: F) -> (r: Result<u32, TrngError>)
        requires
            fifo_ready & 0x01 != 0 ==> call_requires(read_data, ()),
        ensures
            fifo_ready & 0x01 == 0 ==> r == Err::<u32, TrngError>(TrngError::NoData),
            fifo_ready & 0x01 != 0 ==> r.is_ok() && call_ensures(read_data, (), r->Ok_0),
    {
        if !self.data_ready(fifo_ready) {
            return Err(TrngError::NoData);
        }
        Ok(read_data())
    }

    /// One word: `bus` reads `trng_fifo_ready` (bit 0, data ready) at most
    /// [`TRNG_READ_LOOPS`] times, and only once a read shows data does it
    /// read `trng_fifo_data`, whose word is the result; otherwise `Timeout`,
    /// with the data register never read.
    pub fn read_blocking<B: FnMut(TrngAccess) -> u32>(&self, bus: &mut B) -> (r: Result<u32, TrngError>)
        requires
            forall|a: TrngAccess| call_requires(*old(bus), (a,)),
        ensures
            exists|calls: Seq<TrngAccess>, states: Seq<B>, answers: Seq<u32>|
                #[trigger] access_trace(*old(bus), calls, states, answers) && blocking_read_shape(
                    calls,
                    answers,
                    r,
                ),
    {
        let ghost start = *bus;
        if poll_bus(bus, TrngAccess::FifoReady, 1, true, TRNG_READ_LOOPS) {
            let ghost (c1, s1, a1) = choose|c: Seq<TrngAccess>, s: Seq<B>, a: Seq<u32>|
                #[trigger] access_trace(start, c, s, a) && all_calls(c, TrngAccess::FifoReady)
                    && bounded_poll(a, 1, true, TRNG_READ_LOOPS as nat) && a.len() > 0 && poll_met(a, 1, true);
            let ghost pre = *bus;
            let w = bus(TrngAccess::FifoData);
            proof {
                lemma_trace_append(start, c1, s1, a1, pre, seq![TrngAccess::FifoData], seq![pre], seq![w]);
                assert((c1 + seq![TrngAccess::FifoData]).drop_last() =~= c1);
                assert((a1 + seq![w]).drop_last() =~= a1);
                assert(blocking_read_shape(c1 + seq![TrngAccess::FifoData], a1 + seq![w], Ok(w)));
            }
            Ok(w)
        } else {
            Err(TrngError::Timeout)
        }
    }

    /// The number of FIFO words a fill of `len` bytes consumes.
    pub fn words_needed(&self, len: usize) -> (r: usize)
        ensures
            r == (len as nat + 3) / 4,
    {
        len / 4 + (if len % 4 != 0 { 1usize } else { 0 })
    }

    /// Fill `buf` from the words read before the first timeout, in order,
    /// each split little endian (a final word contributes only the bytes
    /// that fit). `Ok` when `words` cover `buf`; otherwise `Timeout`, with
    /// the bytes the words do cover written and the rest of `buf` left as it
    /// was.
    pub fn fill_bytes(&self, buf: &mut [u8], words: &[u32]) -> (r: Result<(), TrngError>)
        ensures
            final(buf)@.len() == old(buf)@.len(),
            r is Ok <==> words@.len() * 4 >= old(buf)@.len(),
            r matches Err(e) ==> e == TrngError::Timeout,
            forall|i: int|
                0 <= i < old(buf)@.len() && i < words@.len() * 4 ==> #[trigger] final(buf)@[i] == le_byte(
                    words@[i / 4],
                    i % 4,
                ),
            forall|i: int|
                0 <= i < old(buf)@.len() && i >= words@.len() * 4 ==> #[trigger] final(buf)@[i] == old(
                    buf,
                )@[i],
    {
        let n = buf.len();
        let mut i: usize = 0;
        while i < n
            invariant
                n == buf@.len(),
                buf@.len() == old(buf)@.len(),
                i <= n,
                i <= words@.len() * 4,
                forall|k: int| 0 <= k < i ==> #[trigger] buf@[k] == le_byte(words@[k / 4], k % 4),
                forall|k: int| i <= k < n ==> #[trigger] buf@[k] == old(buf)@[k],
            decreases n - i,
        {
            if i / 4 >= words.len() {
                return Err(TrngError::Timeout);
            }
            let w = words[i / 4];
            let k = (i % 4) as u32;
            buf[i] = ((w >> (8 * k)) & 0xFF) as u8;
            i += 1;
        }
        Ok(())
    }

    /// Fill `buf` with the words read before the first timeout, in order.
    /// `Ok` when there are enough; otherwise `Timeout`, with the words there
    /// are written and the rest of `buf` left as it was.
    pub fn fill_words(&self, buf: &mut [u32], words: &[u32]) -> (r: Result<(), TrngError>)
        ensures
            final(buf)@.len() == old(buf)@.len(),
            r is Ok <==> words@.len() >= old(buf)@.len(),
            r matches Err(e) ==> e == TrngError::Timeout,
            forall|i: int|
                0 <= i < old(buf)@.len() && i < words@.len() ==> #[trigger] final(buf)@[i] == words@[i],
            forall|i: int|
                0 <= i < old(buf)@.len() && i >= words@.len() ==> #[trigger] final(buf)@[i] == old(buf)@[i],
    {
        let n = buf.len();
        let mut i: usize = 0;
        while i < n
            invariant
                n == buf@.len(),
                buf@.len() == old(buf)@.len(),
                i <= n,
                i <= words@.len(),
                forall|k: int| 0 <= k < i ==> #[trigger] buf@[k] == words@[k],
                forall|k: int| i <= k < n ==> #[trigger] buf@[k] == old(buf)@[k],
            decreases n - i,
        {
            if i >= words.len() {
                return Err(TrngError::Timeout);
            }
            buf[i] = words[i];
            i += 1;
        }
        Ok(())
    }

    /// The `trng_fro_sample_clk_sel` word: 1 for the external clock.
    pub fn set_sample_clock(&mut self, external: bool) -> (r: u32)
        ensures
            r == if external { 1u32 } else { 0u32 },
    {
        if external {
            1
        } else {
            0
        }
    }

    /// The `trng_fro_div_cnt` word.
    pub fn set_divider(&mut self, div: u8) -> (r: u32)
        ensures
            *final(self) == *old(self),
            r == div,
    {
        div as u32
    }

    /// The data status, from `trng_data_st`.
    pub fn data_status(&self, st: u32) -> (r: u32)
        ensures
            r == st,
    {
        st
    }
}

} // verus!
