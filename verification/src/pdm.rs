//! BS2X PDM microphone front end (v150): CIC decimation, sample-rate
//! conversion and the UP FIFO of 32-bit PCM words, drained by polling.
use vstd::prelude::*;
use crate::poll::{access_trace, lemma_prefix_push};

verus! {

/// Bound on the polls of the FIFO's empty flag before one word.
pub const POLL_LIMIT: u32 = 1_000_000;

/// One register write of the start script.
#[derive(Clone, Copy, Debug, PartialEq, Eq, Structural)]
pub enum PdmOp {
    /// `cic_ctrl`: channel 0 gain, and enable.
    CicControl { gain: u8, enable: bool },
    /// `srcdn_ctrl`: channel 0 down-conversion mode.
    SrcDownMode(u8),
    /// `up_fifo_ctrl`: almost-empty and almost-full thresholds.
    UpFifoThresholds { almost_empty: u8, almost_full: u8 },
    /// `clk_rst_en`: DMIC, UP FIFO, up path and its channel 0 clocks.
    ClocksEnable,
    /// Set `clk_rst_en.pdm_dp_rst_n` (release the datapath).
    Start,
}

/// The start script of the DMIC channel-0 path.
pub open spec fn start_spec() -> Seq<PdmOp> {
    seq![
        PdmOp::CicControl { gain: 0x14, enable: true },
        PdmOp::SrcDownMode(0),
        PdmOp::UpFifoThresholds { almost_empty: 3, almost_full: 16 },
        PdmOp::ClocksEnable,
        PdmOp::Start,
    ]
}

/// The PDM front end.
pub struct Pdm;

impl Pdm {
    /// The front end, and its start script.
    pub fn new() -> (r: (Pdm, Vec<PdmOp>))
        ensures
            r.1@ == start_spec(),
    {
        let ops = vec![
            PdmOp::CicControl { gain: 0x14, enable: true },
            PdmOp::SrcDownMode(0),
            PdmOp::UpFifoThresholds { almost_empty: 3, almost_full: 16 },
            PdmOp::ClocksEnable,
            PdmOp::Start,
        ];
        assert(ops@ =~= start_spec());
        (Pdm, ops)
    }

    /// The IP version, from the `version` register.
    pub fn version(&self, reg: u32) -> (r: u32)
        ensures
            r == reg,
    {
        reg
    }

    /// Capture words into `buf`, through `bus`. Before each word the FIFO
    /// status is read until it shows the FIFO non-empty, and then the data
    /// word is read; the capture stops at the status read that shows it
    /// empty for the `POLL_LIMIT + 1`-th time in a row, or when `buf` is
    /// full. The number of words captured is returned; they fill the front of
    /// `buf` in the order read, and the rest of `buf` is left as it was.
    pub fn capture<B: FnMut(PdmAccess) -> u32>(&self, buf: &mut [u32], bus: &mut B) -> (r: usize)
        requires
            forall|a: PdmAccess| call_requires(*old(bus), (a,)),
        ensures
            exists|calls: Seq<PdmAccess>, states: Seq<B>, answers: Seq<u32>|
                #[trigger] access_trace(*old(bus), calls, states, answers) && capture_run(
                    old(buf)@,
                    final(buf)@,
                    calls,
                    answers,
                    r as nat,
                ),
    {
        let n = buf.len();
        let ghost len = n as nat;
        let ghost start = *bus;
        let ghost mut calls: Seq<PdmAccess> = Seq::empty();
        let ghost mut states: Seq<B> = Seq::empty();
        let ghost mut answers: Seq<u32> = Seq::empty();
        let mut i: usize = 0;
        let mut spins: u32 = 0;
        loop
            invariant
                n == buf@.len(),
                len == n,
                buf@.len() == old(buf)@.len(),
                i <= n,
                spins <= POLL_LIMIT,
                forall|a: PdmAccess| call_requires(*bus, (a,)),
                start == *old(bus),
                calls.len() == 0 ==> *bus == start,
                access_trace(start, calls, states, answers),
                capture_pos(len, answers) == (buf@.subrange(0, i as int), spins as nat, false, false),
                forall|k: int| i <= k < n ==> #[trigger] buf@[k] == old(buf)@[k],
                forall|j: int| 0 <= j < calls.len() ==> #[trigger] calls[j] == capture_access(
                    capture_pos(len, answers.take(j)),
                ) && !capture_pos(len, answers.take(j)).3 && capture_pos(len, answers.take(j)).0.len()
                    < len,
            decreases n - i, POLL_LIMIT - spins,
        {
            if i == n {
                proof {
                    assert(capture_run(old(buf)@, buf@, calls, answers, i as nat));
                }
                return i;
            }
            let ghost pos0 = capture_pos(len, answers);
            let ghost pre = *bus;
            let v = bus(PdmAccess::FifoStatus);
            proof {
                lemma_prefix_push(answers, v);
                lemma_prefix_push(calls, PdmAccess::FifoStatus);
                calls = calls.push(PdmAccess::FifoStatus);
                states = states.push(pre);
                answers = answers.push(v);
            }
            assert(access_trace(start, calls, states, answers));
            if v & 1 == 0 {
                assert(capture_pos(len, answers) == (buf@.subrange(0, i as int), 0nat, true, false));
                let ghost pre2 = *bus;
                let d = bus(PdmAccess::FifoData);
                proof {
                    lemma_prefix_push(answers, d);
                    lemma_prefix_push(calls, PdmAccess::FifoData);
                    calls = calls.push(PdmAccess::FifoData);
                    states = states.push(pre2);
                    answers = answers.push(d);
                }
                assert(access_trace(start, calls, states, answers));
                let ghost before = buf@;
                buf[i] = d;
                proof {
                    assert(buf@.subrange(0, i + 1) =~= before.subrange(0, i as int).push(d));
                }
                i += 1;
                spins = 0;
            } else if spins == POLL_LIMIT {
                proof {
                    assert(capture_pos(len, answers) == (buf@.subrange(0, i as int), spins as nat, false, true));
                    assert(capture_run(old(buf)@, buf@, calls, answers, i as nat));
                }
                return i;
            } else {
                spins += 1;
            }
        }
    }
}

/// A register access of a capture. The status read answers 1 while the UP
/// FIFO is empty, else 0.
#[derive(Clone, Copy, Debug, PartialEq, Eq, Structural)]
pub enum PdmAccess {
    /// Read `up_fifo_st.up_fifo_empty_int`.
    FifoStatus,
    /// Read `up_fifo_data.pcm_word` (pops a word).
    FifoData,
}

/// Where a capture of a `len`-word buffer stands after the accesses that
/// got `answers`: the words read so far, the empty status reads since the
/// last word, whether the next access reads a word, and whether it stopped
/// on the status read that showed the FIFO empty once more after
/// [`POLL_LIMIT`] such reads in a row.
pub open spec fn capture_pos(len: nat, answers: Seq<u32>) -> (Seq<u32>, nat, bool, bool)
    decreases answers.len(),
{
    if answers.len() == 0 {
        (seq![], 0, false, false)
    } else {
        let p = capture_pos(len, answers.drop_last());
        let v = answers.last();
        if p.3 || p.0.len() >= len {
            p
        } else if p.2 {
            (p.0.push(v), 0, false, false)
        } else if v & 1 == 0 {
            (p.0, 0, true, false)
        } else if p.1 >= POLL_LIMIT {
            (p.0, p.1, false, true)
        } else {
            (p.0, p.1 + 1, false, false)
        }
    }
}

/// The access a capture makes next: the data word once the status showed
/// the FIFO non-empty, else the status.
pub open spec fn capture_access(p: (Seq<u32>, nat, bool, bool)) -> PdmAccess {
    if p.2 {
        PdmAccess::FifoData
    } else {
        PdmAccess::FifoStatus
    }
}

/// A whole capture from `old_buf` to `new_buf` returning `r`: each access
/// is the one [`capture_access`] names after the answers before it, made
/// only while the capture had neither stopped nor filled the buffer; it
/// ended with the buffer full or stopped, with no word half read; the words
/// read, `r` of them, fill the front of the buffer, and the rest is as it
/// was.
pub open spec fn capture_run(
    old_buf: Seq<u32>,
    new_buf: Seq<u32>,
    calls: Seq<PdmAccess>,
    answers: Seq<u32>,
    r: nat,
) -> bool {
    let len = old_buf.len();
    let p = capture_pos(len, answers);
    &&& forall|j: int|
        0 <= j < calls.len() ==> #[trigger] calls[j] == capture_access(capture_pos(len, answers.take(j)))
            && !capture_pos(len, answers.take(j)).3 && capture_pos(len, answers.take(j)).0.len() < len
    &&& !p.2
    &&& p.3 || p.0.len() == len
    &&& r == p.0.len()
    &&& new_buf.len() == len
    &&& forall|i: int| 0 <= i < r ==> #[trigger] new_buf[i] == p.0[i]
    &&& forall|i: int| r <= i < len ==> #[trigger] new_buf[i] == old_buf[i]
}

} // verus!
