//! BS2X quadrature decoder: accumulates signed A/B motion in `qdec_acc_data`
//! (16 bits, two's complement) and counts double transitions.
use vstd::prelude::*;

verus! {

/// One operation on the decoder.
#[derive(Debug, Clone, Copy, PartialEq, Eq, Structural)]
pub enum QdecOp {
    /// Set `qdec_enable.en`.
    Enable,
    /// Set `qdec_task_start.start`.
    Start,
    /// Set `qdec_task_stop.stop`.
    Stop,
}

/// The 16-bit two's-complement value of `acc`.
pub open spec fn signed16(acc: u16) -> int {
    if acc >= 0x8000 {
        acc - 0x1_0000
    } else {
        acc as int
    }
}

/// The quadrature decoder.
pub struct Qdec;

impl Qdec {
    /// The decoder, and the operations that start it: enable, then start.
    pub fn new() -> (r: (Qdec, Vec<QdecOp>))
        ensures
            r.1@ == seq![QdecOp::Enable, QdecOp::Start],
    {
        let ops = vec![QdecOp::Enable, QdecOp::Start];
        assert(ops@ =~= seq![QdecOp::Enable, QdecOp::Start]);
        (Qdec, ops)
    }

    /// The signed accumulated count from the `acc_rd_val` field (negative
    /// is reverse rotation).
    pub fn read_count(&self, acc: u16) -> (r: i16)
        ensures
            r == signed16(acc),
    {
        if acc >= 0x8000 {
            (acc as i32 - 0x1_0000) as i16
        } else {
            acc as i16
        }
    }

    /// The double/invalid transition count from the `dbl_rd_val` field.
    pub fn read_error_count(&self, dbl: u8) -> (r: u8)
        ensures
            r == dbl,
    {
        dbl
    }

    /// Stop sampling (the count is kept).
    pub fn stop(&self) -> (r: QdecOp)
        ensures
            r == QdecOp::Stop,
    {
        QdecOp::Stop
    }
}

/// The count is the accumulator read as two's complement: it agrees with
/// the raw 16 bits modulo 2^16, lies in the `i16` range, and is negative
/// exactly when the sign bit (15) is set.
pub proof fn law_signed16(acc: u16)
    ensures
        (signed16(acc) - acc) % 0x1_0000 == 0,
        -0x8000 <= signed16(acc) < 0x8000,
        signed16(acc) < 0 <==> acc >= 0x8000,
{
}

} // verus!
