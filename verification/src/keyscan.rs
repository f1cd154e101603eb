//! BS2X key-matrix scanner (v150): row/column matrix, events through a FIFO.
//!
//! `keyscan_pin_num` holds the row count minus one in bits 8:4 and the column
//! count minus one in bits 2:0. A FIFO entry is the empty marker `0x0FF`, or
//! a key: pressed at bit 8, row at bits 7:3, column at bits 2:0.
use vstd::prelude::*;
use crate::poll::{access_trace, all_calls, bounded_poll, lemma_trace_append, poll_bus};

verus! {

/// The FIFO's empty marker.
pub const FIFO_EMPTY: u16 = 0x0FF;

/// Bound on the polls of the event status before the FIFO is read.
pub const POLL_LIMIT: u32 = 1_000_000;

/// One key event.
#[derive(Clone, Copy, Debug, PartialEq, Eq, Structural)]
pub struct KeyEvent {
    /// Matrix row.
    pub row: u8,
    /// Matrix column.
    pub col: u8,
    /// Press (`true`) or release.
    pub pressed: bool,
}

/// One register write of the start script.
#[derive(Clone, Copy, Debug, PartialEq, Eq, Structural)]
pub enum KeyscanOp {
    /// Write `keyscan_pin_num`.
    PinNum(u32),
    /// Set `keyscan_enable.ena`.
    Enable,
    /// Set `keyscan_clk_ena.fifo_rd_clken`.
    FifoClockEnable,
    /// Set `keyscan_start.task_start`.
    Start,
}

/// The event a FIFO entry decodes to (`None` for the empty marker).
pub open spec fn decode_spec(key: u16) -> Option<KeyEvent> {
    if key == FIFO_EMPTY {
        None
    } else {
        let low = key % 256;
        Some(KeyEvent { row: (low / 8) as u8, col: (low % 8) as u8, pressed: (key / 256) % 2 == 1 })
    }
}

/// The `keyscan_pin_num` word for a `rows` by `cols` matrix (each count less
/// one, saturating at 0, masked to its field).
pub open spec fn pin_num_spec(rows: u8, cols: u8) -> int {
    let r: int = if rows == 0 { 0 } else { rows - 1 };
    let c: int = if cols == 0 { 0 } else { cols - 1 };
    (r % 32) * 16 + c % 8
}

/// Decode a `key_value_fifo` entry.
pub fn decode_key(key: u16) -> (r: Option<KeyEvent>)
    ensures
        r == decode_spec(key),
{
    if key == FIFO_EMPTY {
        return None;
    }
    let low = (key & 0xFF) as u8;
    assert({
        &&& key & 0xFF == key % 256
        &&& ((key >> 8) & 1 != 0) == ((key / 256) % 2 == 1)
        &&& (key & 0xFF) as u8 >> 3 == (key & 0xFF) as u8 / 8
        &&& (key & 0xFF) as u8 & 7 == (key & 0xFF) as u8 % 8
    }) by (bit_vector);
    Some(KeyEvent { row: low >> 3, col: low & 0x7, pressed: (key >> 8) & 0x1 != 0 })
}

/// The key-matrix scanner.
pub struct Keyscan;

/// A register access of a key read. The event-status read answers 1 when
/// a value-ready or press event is flagged, else 0.
#[derive(Clone, Copy, Debug, PartialEq, Eq, Structural)]
pub enum KeyAccess {
    /// Read the value-ready and press bits of `keyscan_event_sts`.
    EventStatus,
    /// Read `key_value_fifo`.
    ReadFifo,
    /// Write `event_key_value_rdy_clr` to `keyscan_event_clr`.
    Ack,
}

/// The accesses and result of a key read, in order: a bounded poll of the
/// event status of at most [`POLL_LIMIT`] reads, one read of the FIFO, and
/// the acknowledge; the result is the FIFO entry (its low 16 bits) decoded.
pub open spec fn key_read(calls: Seq<KeyAccess>, answers: Seq<u32>, r: Option<KeyEvent>) -> bool {
    let n = calls.len();
    &&& n >= 3
    &&& all_calls(calls.subrange(0, n - 2), KeyAccess::EventStatus)
    &&& bounded_poll(answers.subrange(0, n - 2), 1, true, POLL_LIMIT as nat)
    &&& calls[n - 2] == KeyAccess::ReadFifo
    &&& calls[n - 1] == KeyAccess::Ack
    &&& r == decode_spec(answers[n - 2] as u16)
}

impl Keyscan {
    /// The scanner, and the writes that configure a `rows` by `cols` matrix
    /// and start it.
    pub fn new(rows: u8, cols: u8) -> (r: (Keyscan, Vec<KeyscanOp>))
        ensures
            r.1@ == seq![
                KeyscanOp::PinNum(pin_num_spec(rows, cols) as u32),
                KeyscanOp::Enable,
                KeyscanOp::FifoClockEnable,
                KeyscanOp::Start,
            ],
    {
        let r: u32 = if rows == 0 { 0 } else { (rows - 1) as u32 };
        let c: u32 = if cols == 0 { 0 } else { (cols - 1) as u32 };
        let w = ((r & 0x1F) << 4) | (c & 0x7);
        assert(((r & 0x1F) << 4) | (c & 0x7) == (r % 32) * 16 + c % 8) by (bit_vector)
            requires
                r < 256,
                c < 256,
        ;
        let ops = vec![KeyscanOp::PinNum(w), KeyscanOp::Enable, KeyscanOp::FifoClockEnable, KeyscanOp::Start];
        assert(ops@ =~= seq![
            KeyscanOp::PinNum(pin_num_spec(rows, cols) as u32),
            KeyscanOp::Enable,
            KeyscanOp::FifoClockEnable,
            KeyscanOp::Start,
        ]);
        (Keyscan, ops)
    }

    /// One key event, through `bus`: the event status (value-ready or
    /// press) is read at most [`POLL_LIMIT`] times until it shows one, then
    /// the FIFO is read whatever the poll saw, then the value-ready event is
    /// acknowledged, and the FIFO entry is decoded.
    pub fn read_key<B: FnMut(KeyAccess) -> u32>(&self, bus: &mut B) -> (r: Option<KeyEvent>)
        requires
            forall|a: KeyAccess| call_requires(*old(bus), (a,)),
        ensures
            exists|calls: Seq<KeyAccess>, states: Seq<B>, answers: Seq<u32>|
                #[trigger] access_trace(*old(bus), calls, states, answers) && key_read(calls, answers, r),
    {
        let ghost start = *bus;
        let _ = poll_bus(bus, KeyAccess::EventStatus, 1, true, POLL_LIMIT);
        let ghost (cp, sp, ap) = choose|cp: Seq<KeyAccess>, sp: Seq<B>, ap: Seq<u32>|
            #[trigger] access_trace(start, cp, sp, ap) && all_calls(cp, KeyAccess::EventStatus) && bounded_poll(
                ap,
                1,
                true,
                POLL_LIMIT as nat,
            ) && ap.len() > 0;
        let ghost pre = *bus;
        let v = bus(KeyAccess::ReadFifo);
        let ghost pre2 = *bus;
        let x = bus(KeyAccess::Ack);
        proof {
            lemma_trace_append(
                start,
                cp,
                sp,
                ap,
                pre,
                seq![KeyAccess::ReadFifo, KeyAccess::Ack],
                seq![pre, pre2],
                seq![v, x],
            );
            let calls = cp + seq![KeyAccess::ReadFifo, KeyAccess::Ack];
            let answers = ap + seq![v, x];
            let n = calls.len();
            assert(calls.subrange(0, n - 2) =~= cp);
            assert(answers.subrange(0, n - 2) =~= ap);
        }
        decode_key(v as u16)
    }
}

/// A FIFO entry decodes to no event exactly when it is the empty marker;
/// otherwise its low byte is the key position, row times eight plus column
/// (a column below 8), and bit 8 tells a press from a release.
pub proof fn law_decode_key(key: u16)
    ensures
        decode_spec(key) is None <==> key == FIFO_EMPTY,
        decode_spec(key) matches Some(e) ==> e.row as int * 8 + e.col == key % 256 && e.col < 8 && e.pressed
            == ((key / 256) % 2 == 1),
{
}

} // verus!
