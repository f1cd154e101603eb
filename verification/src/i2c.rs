//! I2C master (I2C0/1) in FIFO mode.
//!
//! A transfer is a program of register steps ([`I2cStep`]): load `TXR`,
//! write a command to `COM` (start / write / read / NACK / stop), wait for a
//! status flag, read `RXR`, clear the interrupt flags. The programs for
//! plain writes, reads, write-then-read and general transactions (repeated
//! START between operations, one STOP at the end) are built and proved here;
//! the driver executes the steps.
use vstd::prelude::*;
use crate::poll::{poll_result, poll_until};
use crate::soc::SYSTEM_CLOCK_HZ;

verus! {

/// Bound on the polls of each wait.
pub const I2C_WAIT_LOOPS: u32 = 1_000_000;
/// `COM` bit: generate STOP.
pub const COM_STOP: u32 = 0x01;
/// `COM` bit: write the `TXR` byte.
pub const COM_WE: u32 = 0x02;
/// `COM` bit: read a byte into `RXR`.
pub const COM_RD: u32 = 0x04;
/// `COM` bit: generate (repeated) START.
pub const COM_START: u32 = 0x08;
/// `COM` bit: answer the received byte with NACK.
pub const COM_ACK: u32 = 0x10;
/// `ICR` word that clears every interrupt flag.
pub const ICR_ALL: u32 = 0x7FF;
/// `SR` flag: ACK error (NACK from the peer).
pub const SR_ACK_ERR: u32 = 0x04;
/// `SR` flag: a byte was received.
pub const SR_RX: u32 = 0x08;
/// `SR` flag: a byte was sent.
pub const SR_TX: u32 = 0x10;
/// `SR` flag: STOP was sent.
pub const SR_STOP: u32 = 0x20;
/// `SR` flag: bus busy.
pub const SR_BUS_BUSY: u32 = 0x80;
/// `CTRL` word: I2C enabled (bit 8), FIFO mode (bit 11), ACK-error
/// interrupt unmasked (bit 2).
pub const CTRL_ENABLE_FIFO: u32 = 0x904;

/// I2C errors.
#[derive(Debug, Clone, Copy, PartialEq, Eq, Structural)]
pub enum I2cError {
    /// The peer did not acknowledge.
    Ack,
    /// Bus error.
    BusError,
    /// A status flag did not appear within the bounded wait.
    Timeout,
}

/// The address byte of a write to `addr`: `addr << 1` with R/W = 0.
pub open spec fn write_address(addr: u8) -> u32 {
    (addr as nat * 2) as u32
}

/// The address byte of a read from `addr`: `(addr << 1) | 1`.
pub open spec fn read_address(addr: u8) -> u32 {
    (addr as nat * 2 + 1) as u32
}

/// The address byte that starts a write to `addr`.
pub fn address_write_byte(addr: u8) -> (r: u32)
    ensures
        r == write_address(addr),
{
    (addr as u32) * 2
}

/// The address byte that starts a read from `addr`.
pub fn address_read_byte(addr: u8) -> (r: u32)
    ensures
        r == read_address(addr),
{
    (addr as u32) * 2 + 1
}

/// One register step of a transfer.
#[derive(Debug, Clone, Copy, PartialEq, Eq, Structural)]
pub enum I2cStep {
    /// Write [`ICR_ALL`] to `ICR`.
    ClearInterrupts,
    /// Write the value to `TXR`.
    WriteTxr(u32),
    /// Write the value to `COM`.
    WriteCom(u32),
    /// Wait (bounded) for [`SR_TX`], then fail with `Ack` if [`SR_ACK_ERR`]
    /// is set.
    WaitTxAck,
    /// Wait (bounded) for [`SR_RX`].
    WaitRx,
    /// Read `RXR` into the next byte of the read buffer.
    ReadRx,
    /// Wait (bounded) for [`SR_STOP`].
    WaitStop,
}

/// One operation of a transaction.
#[derive(Debug, Clone, PartialEq, Eq)]
pub enum I2cOp {
    /// Write these bytes.
    Write(Vec<u8>),
    /// Read this many bytes.
    Read(usize),
}

/// START with `addr_byte`: clear the flags, load the address, clear `COM`,
/// then START + write, and wait for the address to be acknowledged.
pub open spec fn start_seq(addr_byte: u32) -> Seq<I2cStep> {
    seq![
        I2cStep::ClearInterrupts,
        I2cStep::WriteTxr(addr_byte),
        I2cStep::WriteCom(0),
        I2cStep::WriteCom(COM_START | COM_WE),
        I2cStep::WaitTxAck,
    ]
}

/// Send one data byte and wait for its acknowledge.
pub open spec fn write_byte_seq(b: u8) -> Seq<I2cStep> {
    seq![
        I2cStep::WriteTxr(b as u32),
        I2cStep::WriteCom(COM_WE),
        I2cStep::WaitTxAck,
        I2cStep::ClearInterrupts,
    ]
}

/// Send the bytes of `d` in order.
pub open spec fn write_bytes_seq(d: Seq<u8>) -> Seq<I2cStep>
    decreases d.len(),
{
    if d.len() == 0 {
        seq![]
    } else {
        write_bytes_seq(d.drop_last()) + write_byte_seq(d.last())
    }
}

/// Receive one byte; the last byte of a read is answered with NACK.
pub open spec fn read_byte_seq(last: bool) -> Seq<I2cStep> {
    seq![
        I2cStep::WriteCom(if last { COM_RD | COM_ACK } else { COM_RD }),
        I2cStep::WaitRx,
        I2cStep::ReadRx,
        I2cStep::ClearInterrupts,
    ]
}

/// The first `k` bytes of an `n`-byte read.
pub open spec fn read_bytes_seq(k: nat, n: nat) -> Seq<I2cStep>
    decreases k,
{
    if k == 0 {
        seq![]
    } else {
        read_bytes_seq((k - 1) as nat, n) + read_byte_seq(k - 1 == n - 1)
    }
}

/// STOP and wait for it.
pub open spec fn stop_seq() -> Seq<I2cStep> {
    seq![I2cStep::WriteCom(COM_STOP), I2cStep::WaitStop, I2cStep::ClearInterrupts]
}

/// The steps of one transaction operation (a repeated START, a flag clear,
/// then the data phase).
pub open spec fn op_seq(addr: u8, op: I2cOp) -> Seq<I2cStep> {
    match op {
        I2cOp::Write(d) => start_seq(write_address(addr)) + seq![I2cStep::ClearInterrupts]
            + write_bytes_seq(d@),
        I2cOp::Read(n) => start_seq(read_address(addr)) + seq![I2cStep::ClearInterrupts]
            + read_bytes_seq(n as nat, n as nat),
    }
}

/// The steps of a list of operations, in order.
pub open spec fn ops_seq(addr: u8, ops: Seq<I2cOp>) -> Seq<I2cStep>
    decreases ops.len(),
{
    if ops.len() == 0 {
        seq![]
    } else {
        ops_seq(addr, ops.drop_last()) + op_seq(addr, ops.last())
    }
}

/// The steps of a plain write.
pub open spec fn write_spec(addr: u8, d: Seq<u8>) -> Seq<I2cStep> {
    start_seq(write_address(addr)) + write_bytes_seq(d) + stop_seq()
}

/// The steps of a plain read of `n` bytes.
pub open spec fn read_spec(addr: u8, n: nat) -> Seq<I2cStep> {
    start_seq(read_address(addr)) + read_bytes_seq(n, n) + stop_seq()
}

/// The steps of a write-then-read with repeated START; an empty phase is
/// left out, and one STOP ends the transfer.
pub open spec fn write_read_spec(addr: u8, w: Seq<u8>, n: nat) -> Seq<I2cStep> {
    (if w.len() > 0 {
        start_seq(write_address(addr)) + write_bytes_seq(w)
    } else {
        seq![]
    }) + (if n > 0 {
        start_seq(read_address(addr)) + read_bytes_seq(n, n)
    } else {
        seq![]
    }) + stop_seq()
}

/// The steps of a transaction: its operations with repeated START between
/// them and a single STOP at the end.
pub open spec fn transaction_spec(addr: u8, ops: Seq<I2cOp>) -> Seq<I2cStep> {
    ops_seq(addr, ops) + stop_seq()
}

fn push_start(out: &mut Vec<I2cStep>, addr_byte: u32)
    ensures
        final(out)@ == old(out)@ + start_seq(addr_byte),
{
    let mut chunk = vec![
        I2cStep::ClearInterrupts,
        I2cStep::WriteTxr(addr_byte),
        I2cStep::WriteCom(0),
        I2cStep::WriteCom(COM_START | COM_WE),
        I2cStep::WaitTxAck,
    ];
    out.append(&mut chunk);
}

fn push_stop(out: &mut Vec<I2cStep>)
    ensures
        final(out)@ == old(out)@ + stop_seq(),
{
    let mut chunk = vec![I2cStep::WriteCom(COM_STOP), I2cStep::WaitStop, I2cStep::ClearInterrupts];
    out.append(&mut chunk);
}

fn push_write_bytes(out: &mut Vec<I2cStep>, data: &[u8])
    ensures
        final(out)@ == old(out)@ + write_bytes_seq(data@),
{
    let ghost base = out@;
    let mut i: usize = 0;
    assert(data@.subrange(0, 0) =~= Seq::<u8>::empty());
    assert(out@ =~= base + write_bytes_seq(data@.subrange(0, 0)));
    while i < data.len()
        invariant
            i <= data@.len(),
            out@ == base + write_bytes_seq(data@.subrange(0, i as int)),
        decreases data@.len() - i,
    {
        let b = data[i];
        let mut chunk = vec![
            I2cStep::WriteTxr(b as u32),
            I2cStep::WriteCom(COM_WE),
            I2cStep::WaitTxAck,
            I2cStep::ClearInterrupts,
        ];
        out.append(&mut chunk);
        proof {
            let s = data@.subrange(0, i + 1);
            assert(s.drop_last() =~= data@.subrange(0, i as int));
            assert(s.last() == b);
            assert(out@ =~= base + write_bytes_seq(s));
        }
        i += 1;
    }
    assert(data@.subrange(0, data@.len() as int) =~= data@);
}

fn push_read_bytes(out: &mut Vec<I2cStep>, n: usize)
    ensures
        final(out)@ == old(out)@ + read_bytes_seq(n as nat, n as nat),
{
    let ghost base = out@;
    let mut i: usize = 0;
    assert(out@ =~= base + read_bytes_seq(0, n as nat));
    while i < n
        invariant
            i <= n,
            out@ == base + read_bytes_seq(i as nat, n as nat),
        decreases n - i,
    {
        let last = i == n - 1;
        let com = if last { COM_RD | COM_ACK } else { COM_RD };
        let mut chunk = vec![I2cStep::WriteCom(com), I2cStep::WaitRx, I2cStep::ReadRx, I2cStep::ClearInterrupts];
        out.append(&mut chunk);
        proof {
            assert(out@ =~= base + read_bytes_seq((i + 1) as nat, n as nat));
        }
        i += 1;
    }
}

/// The bus timing and control words of a configured I2C block.
#[derive(Debug, Clone, Copy, PartialEq, Eq, Structural)]
pub struct I2cTiming {
    /// `SCL_H` (half the SCL period, in units of two clock cycles).
    pub scl_h: u32,
    /// `SCL_L`.
    pub scl_l: u32,
    /// `CTRL` word.
    pub ctrl: u32,
}

/// The SCL half-period count for `freq` Hz against the 240 MHz clock (a zero
/// frequency is taken as 1 Hz).
pub open spec fn scl_half_spec(freq: u32) -> nat {
    let f: nat = if freq == 0 { 1 } else { freq as nat };
    SYSTEM_CLOCK_HZ as nat / (2 * f) / 2
}

/// The timing and control words for an SCL frequency of `freq` Hz.
pub fn configure_i2c(freq: u32) -> (t: I2cTiming)
    requires
        freq < 0x8000_0000,
    ensures
        t.scl_h == scl_half_spec(freq),
        t.scl_l == scl_half_spec(freq),
        t.ctrl == CTRL_ENABLE_FIFO,
{
    let f = if freq == 0 { 1 } else { freq };
    let period = SYSTEM_CLOCK_HZ / (2 * f);
    let half = period / 2;
    I2cTiming { scl_h: half, scl_l: half, ctrl: CTRL_ENABLE_FIFO }
}

/// An I2C master on block `idx` (0 or 1).
pub struct I2c {
    /// The block index.
    pub idx: u8,
    /// The words its constructor computed.
    pub timing: I2cTiming,
}

impl I2c {
    /// I2C0 at `freq` Hz.
    pub fn new_i2c0(freq: u32) -> (r: Self)
        requires
            freq < 0x8000_0000,
        ensures
            r.idx == 0,
            r.timing.scl_h == scl_half_spec(freq),
            r.timing.scl_l == scl_half_spec(freq),
            r.timing.ctrl == CTRL_ENABLE_FIFO,
    {
        I2c { idx: 0, timing: configure_i2c(freq) }
    }

    /// I2C1 at `freq` Hz.
    pub fn new_i2c1(freq: u32) -> (r: Self)
        requires
            freq < 0x8000_0000,
        ensures
            r.idx == 1,
            r.timing.scl_h == scl_half_spec(freq),
            r.timing.scl_l == scl_half_spec(freq),
            r.timing.ctrl == CTRL_ENABLE_FIFO,
    {
        I2c { idx: 1, timing: configure_i2c(freq) }
    }

    /// Whether `SR` reports an ACK error: `Err(Ack)` if so.
    pub fn check_ack(&self, sr: u32) -> (r: Result<(), I2cError>)
        ensures
            r.is_ok() <==> sr & SR_ACK_ERR == 0,
            r matches Err(e) ==> e == I2cError::Ack,
    {
        if sr & SR_ACK_ERR != 0 {
            Err(I2cError::Ack)
        } else {
            Ok(())
        }
    }

    /// The steps of a write of `data` to `addr`: START with the write
    /// address, each byte acknowledged, STOP.
    pub fn write(&mut self, addr: u8, data: &[u8]) -> (r: Vec<I2cStep>)
        ensures
            *final(self) == *old(self),
            r@ == write_spec(addr, data@),
    {
        let mut out: Vec<I2cStep> = Vec::new();
        push_start(&mut out, address_write_byte(addr));
        push_write_bytes(&mut out, data);
        push_stop(&mut out);
        assert(out@ =~= write_spec(addr, data@));
        out
    }

    /// The steps of a read of `len` bytes from `addr`: START with the read
    /// address, each byte read (the last one NACKed), STOP.
    pub fn read(&mut self, addr: u8, len: usize) -> (r: Vec<I2cStep>)
        ensures
            *final(self) == *old(self),
            r@ == read_spec(addr, len as nat),
    {
        let mut out: Vec<I2cStep> = Vec::new();
        push_start(&mut out, address_read_byte(addr));
        push_read_bytes(&mut out, len);
        push_stop(&mut out);
        assert(out@ =~= read_spec(addr, len as nat));
        out
    }

    /// The steps of a write of `wr_buf` then a read of `rd_len` bytes with a
    /// repeated START between them and one STOP at the end.
    pub fn write_read(&mut self, addr: u8, wr_buf: &[u8], rd_len: usize) -> (r: Vec<I2cStep>)
        ensures
            *final(self) == *old(self),
            r@ == write_read_spec(addr, wr_buf@, rd_len as nat),
    {
        let mut out: Vec<I2cStep> = Vec::new();
        if wr_buf.len() > 0 {
            push_start(&mut out, address_write_byte(addr));
            push_write_bytes(&mut out, wr_buf);
        }
        let ghost mid = out@;
        if rd_len > 0 {
            push_start(&mut out, address_read_byte(addr));
            push_read_bytes(&mut out, rd_len);
        }
        push_stop(&mut out);
        assert(out@ =~= write_read_spec(addr, wr_buf@, rd_len as nat));
        out
    }

    /// The steps of a transaction: each operation with a repeated START
    /// (write address for writes, read address for reads), one STOP at the
    /// end.
    pub fn transaction_impl(&mut self, address: u8, operations: &[I2cOp]) -> (r: Vec<I2cStep>)
        ensures
            *final(self) == *old(self),
            r@ == transaction_spec(address, operations@),
    {
        let mut out: Vec<I2cStep> = Vec::new();
        let addr_w = address_write_byte(address);
        let addr_r = address_read_byte(address);
        let mut i: usize = 0;
        assert(operations@.subrange(0, 0) =~= Seq::<I2cOp>::empty());
        while i < operations.len()
            invariant
                i <= operations@.len(),
                addr_w == write_address(address),
                addr_r == read_address(address),
                out@ == ops_seq(address, operations@.subrange(0, i as int)),
            decreases operations@.len() - i,
        {
            let ghost before = out@;
            match &operations[i] {
                I2cOp::Write(data) => {
                    push_start(&mut out, addr_w);
                    let mut clr = vec![I2cStep::ClearInterrupts];
                    out.append(&mut clr);
                    push_write_bytes(&mut out, data.as_slice());
                },
                I2cOp::Read(n) => {
                    push_start(&mut out, addr_r);
                    let mut clr = vec![I2cStep::ClearInterrupts];
                    out.append(&mut clr);
                    push_read_bytes(&mut out, *n);
                },
            }
            proof {
                let s = operations@.subrange(0, i + 1);
                assert(s.drop_last() =~= operations@.subrange(0, i as int));
                assert(s.last() == operations@[i as int]);
                assert(out@ =~= before + op_seq(address, operations@[i as int]));
                assert(out@ =~= ops_seq(address, s));
            }
            i += 1;
        }
        assert(operations@.subrange(0, operations@.len() as int) =~= operations@);
        push_stop(&mut out);
        out
    }
}

/// Poll `ready` at most [`I2C_WAIT_LOOPS`] times: `Ok` as soon as it answers
/// `true`, `Timeout` when every look answered `false`.
pub fn wait_until<F: FnMut() -> bool>(ready: &mut F) -> (r: Result<(), I2cError>)
    requires
        forall|| call_requires(*old(ready), ()),
    ensures
        poll_result(*old(ready), I2C_WAIT_LOOPS as nat, r is Ok),
        r matches Err(e) ==> e == I2cError::Timeout,
{
    if poll_until(ready, I2C_WAIT_LOOPS) {
        Ok(())
    } else {
        Err(I2cError::Timeout)
    }
}

/// Every write address has R/W = 0 and the matching read address differs
/// from it only in R/W = 1.
pub proof fn law_address_rw_bit(addr: u8)
    ensures
        write_address(addr) % 2 == 0,
        read_address(addr) == write_address(addr) + 1,
        read_address(addr) % 2 == 1,
        write_address(addr) / 2 == addr,
        read_address(addr) / 2 == addr,
{
}

/// Exactly one STOP ends every write-then-read, whatever its phases, and a
/// write-then-read with both phases is the write phase, a repeated START
/// into the read phase, then STOP.
pub proof fn law_write_read_single_stop(addr: u8, w: Seq<u8>, n: nat)
    requires
        w.len() > 0,
        n > 0,
    ensures
        write_read_spec(addr, w, n) == start_seq(write_address(addr)) + write_bytes_seq(w) + start_seq(
            read_address(addr),
        ) + read_bytes_seq(n, n) + stop_seq(),
{
    assert(write_read_spec(addr, w, n) =~= start_seq(write_address(addr)) + write_bytes_seq(w)
        + start_seq(read_address(addr)) + read_bytes_seq(n, n) + stop_seq());
}

/// A transaction of a single write is the plain write with one extra flag
/// clear after the address phase.
pub proof fn law_single_write_transaction(addr: u8, d: Vec<u8>)
    ensures
        transaction_spec(addr, seq![I2cOp::Write(d)]) == start_seq(write_address(addr)) + seq![
            I2cStep::ClearInterrupts,
        ] + write_bytes_seq(d@) + stop_seq(),
{
    let ops = seq![I2cOp::Write(d)];
    assert(ops.drop_last() =~= Seq::<I2cOp>::empty());
    assert(ops_seq(addr, ops.drop_last()) =~= Seq::<I2cStep>::empty());
    assert(transaction_spec(addr, ops) =~= start_seq(write_address(addr)) + seq![
        I2cStep::ClearInterrupts,
    ] + write_bytes_seq(d@) + stop_seq());
}

/// The `n`-byte read program reads exactly `n` bytes and NACKs only the
/// last.
pub proof fn law_read_bytes_shape(k: nat, n: nat)
    requires
        k <= n,
    ensures
        read_bytes_seq(k, n).len() == 4 * k,
        forall|i: int| 0 <= i < k ==> #[trigger] read_bytes_seq(k, n)[4 * i] == I2cStep::WriteCom(
            if i == n - 1 { COM_RD | COM_ACK } else { COM_RD },
        ),
    decreases k,
{
    if k > 0 {
        law_read_bytes_shape((k - 1) as nat, n);
        let prev = read_bytes_seq((k - 1) as nat, n);
        let cur = read_bytes_seq(k, n);
        assert forall|i: int| 0 <= i < k implies #[trigger] cur[4 * i] == I2cStep::WriteCom(
            if i == n - 1 { COM_RD | COM_ACK } else { COM_RD },
        ) by {
            if i < k - 1 {
                assert(cur[4 * i] == prev[4 * i]);
            } else {
                assert(cur[4 * i] == read_byte_seq(k - 1 == n - 1)[0]);
            }
        }
    }
}

} // verus!
