//! BS2X I2C master over the DesignWare `ic_*` controller (v151).
//!
//! `IC_CON`: master mode bit 0, speed bits 2:1, restart enable bit 5, slave
//! disable bit 6, RX-FIFO-full hold bit 9. `IC_DATA_CMD`: data [7:0], read
//! command bit 8, STOP bit 9. Transfers are programs of [`DwStep`]s that
//! the driver executes; each wait is bounded.
use vstd::prelude::*;
use crate::poll::{poll_result, poll_until};
use crate::program::{bytes_of, run_trace};

verus! {

/// Bus speed.
#[derive(Debug, Clone, Copy, PartialEq, Eq, Structural)]
pub enum Speed {
    /// Standard mode (100 kHz).
    Standard,
    /// Fast mode (400 kHz).
    Fast,
}

/// I2C errors.
#[derive(Debug, Clone, Copy, PartialEq, Eq, Structural)]
pub enum I2cError {
    /// A status bit did not assert within the bounded wait.
    Timeout,
    /// The addressed device did not acknowledge (TX abort).
    Nack,
}

/// Bound on the polls of each wait.
pub const POLL_LIMIT: u32 = 1_000_000;
/// `IC_DATA_CMD` read-command bit.
pub const DATA_CMD_READ: u32 = 0x100;
/// `IC_DATA_CMD` STOP bit.
pub const DATA_CMD_STOP: u32 = 0x200;
/// `IC_STATUS` TX FIFO not full.
pub const STATUS_TFNF: u32 = 0x2;
/// `IC_STATUS` RX FIFO not empty.
pub const STATUS_RFNE: u32 = 0x8;
/// `IC_RAW_INTR_STAT` TX abort.
pub const RAW_TX_ABRT: u32 = 0x40;
/// `IC_RAW_INTR_STAT` STOP detected.
pub const RAW_STOP_DET: u32 = 0x200;

/// `(IC_CON speed field, SCL high count, SCL low count)` of a speed.
pub open spec fn scl_params_spec(speed: Speed) -> (u32, u32, u32) {
    match speed {
        Speed::Standard => (1u32, 160u32, 190u32),
        Speed::Fast => (2u32, 40u32, 50u32),
    }
}

/// The speed field and SCL counts of a bus speed.
pub fn scl_params(speed: Speed) -> (r: (u32, u32, u32))
    ensures
        r == scl_params_spec(speed),
{
    match speed {
        Speed::Standard => (1u32, 160u32, 190u32),
        Speed::Fast => (2u32, 40u32, 50u32),
    }
}

/// The master-init words, in order: `IC_ENABLE` = 0, `IC_CON`, the SCL
/// high and low counts (standard or fast registers), `IC_RX_TL` = 0,
/// `IC_TX_TL` = 0, `IC_ENABLE` = 1.
#[derive(Debug, Clone, Copy, PartialEq, Eq, Structural)]
pub struct DwSetup {
    /// `IC_CON`.
    pub con: u32,
    /// Whether the counts go to the fast-mode registers.
    pub fast: bool,
    /// SCL high count.
    pub hcnt: u32,
    /// SCL low count.
    pub lcnt: u32,
}

/// The master-init words for `speed`.
pub fn configure(speed: Speed) -> (s: DwSetup)
    ensures
        s.con == 0x261 + scl_params_spec(speed).0 * 2,
        s.fast == (speed == Speed::Fast),
        s.hcnt == scl_params_spec(speed).1,
        s.lcnt == scl_params_spec(speed).2,
{
    let (field, hcnt, lcnt) = scl_params(speed);
    DwSetup { con: 0x261 + field * 2, fast: speed == Speed::Fast, hcnt, lcnt }
}

/// One step of a transfer.
#[derive(Debug, Clone, Copy, PartialEq, Eq, Structural)]
pub enum DwStep {
    /// Point the controller at a target: `IC_ENABLE` = 0, clear 10-bit
    /// master addressing in `IC_CON`, `IC_TAR` = the value, `IC_ENABLE` = 1,
    /// read `IC_CLR_INTR`.
    SetTarget(u32),
    /// Wait (bounded) for [`STATUS_TFNF`].
    WaitTxNotFull,
    /// Write the value to `IC_DATA_CMD`.
    WriteDataCmd(u32),
    /// Wait (bounded) for [`STATUS_RFNE`].
    WaitRxNotEmpty,
    /// If [`RAW_TX_ABRT`] is set: read `IC_CLR_INTR` and fail with `Nack`.
    CheckAbort,
    /// Read `IC_DATA_CMD` into the next byte of the read buffer.
    ReadData,
    /// Wait (bounded) for [`RAW_STOP_DET`].
    WaitStopDet,
    /// Wait (bounded) for [`RAW_STOP_DET`] or [`RAW_TX_ABRT`]; running out
    /// of polls is not a failure.
    WaitStopOrAbort,
    /// Read `IC_CLR_INTR` (clears the abort and the other interrupts).
    ClearInterrupts,
}

/// The `IC_TAR` value of a 7-bit target.
pub open spec fn tar_spec(addr: u8) -> u32 {
    (addr as u32) % 0x400
}

/// The command word of write byte `i` of `n`: the data, STOP on the last.
pub open spec fn write_cmd(b: u8, last: bool) -> u32 {
    (b as nat + (if last { DATA_CMD_STOP as nat } else { 0 })) as u32
}

/// The first `k` bytes of an `n`-byte write of `d`.
pub open spec fn write_prefix(d: Seq<u8>, k: nat) -> Seq<DwStep>
    decreases k,
{
    if k == 0 {
        seq![]
    } else {
        write_prefix(d, (k - 1) as nat) + seq![
            DwStep::WaitTxNotFull,
            DwStep::WriteDataCmd(write_cmd(d[k - 1], k == d.len())),
            DwStep::CheckAbort,
        ]
    }
}

/// The first `k` bytes of an `n`-byte read.
pub open spec fn read_prefix(k: nat, n: nat) -> Seq<DwStep>
    decreases k,
{
    if k == 0 {
        seq![]
    } else {
        read_prefix((k - 1) as nat, n) + seq![
            DwStep::WaitTxNotFull,
            DwStep::WriteDataCmd(if k == n { 0x300u32 } else { DATA_CMD_READ }),
            DwStep::WaitRxNotEmpty,
            DwStep::CheckAbort,
            DwStep::ReadData,
        ]
    }
}

/// A write of `d` to `addr`.
pub open spec fn write_spec(addr: u8, d: Seq<u8>) -> Seq<DwStep> {
    seq![DwStep::SetTarget(tar_spec(addr))] + write_prefix(d, d.len()) + seq![DwStep::WaitStopDet]
}

/// A read of `n` bytes from `addr`.
pub open spec fn read_spec(addr: u8, n: nat) -> Seq<DwStep> {
    seq![DwStep::SetTarget(tar_spec(addr))] + read_prefix(n, n)
}

/// A write then a read, each left out when empty.
pub open spec fn write_read_spec(addr: u8, w: Seq<u8>, n: nat) -> Seq<DwStep> {
    (if w.len() > 0 { write_spec(addr, w) } else { seq![] }) + (if n > 0 { read_spec(addr, n) } else { seq![] })
}

fn push_write(out: &mut Vec<DwStep>, addr: u8, data: &[u8])
    ensures
        final(out)@ == old(out)@ + write_spec(addr, data@),
{
    let ghost base = out@;
    out.push(DwStep::SetTarget((addr as u32) % 0x400));
    let ghost start = out@;
    let n = data.len();
    let mut i: usize = 0;
    while i < n
        invariant
            n == data@.len(),
            i <= n,
            out@ == start + write_prefix(data@, i as nat),
            start == base + seq![DwStep::SetTarget(tar_spec(addr))],
        decreases n - i,
    {
        let last = i + 1 == n;
        let cmd: u32 = data[i] as u32 + (if last { DATA_CMD_STOP } else { 0 });
        let mut chunk = vec![DwStep::WaitTxNotFull, DwStep::WriteDataCmd(cmd), DwStep::CheckAbort];
        out.append(&mut chunk);
        proof {
            assert(out@ =~= start + write_prefix(data@, (i + 1) as nat));
        }
        i += 1;
    }
    out.push(DwStep::WaitStopDet);
    proof {
        assert(out@ =~= base + write_spec(addr, data@));
    }
}

fn push_read(out: &mut Vec<DwStep>, addr: u8, n: usize)
    ensures
        final(out)@ == old(out)@ + read_spec(addr, n as nat),
{
    let ghost base = out@;
    out.push(DwStep::SetTarget((addr as u32) % 0x400));
    let ghost start = out@;
    let mut i: usize = 0;
    while i < n
        invariant
            i <= n,
            out@ == start + read_prefix(i as nat, n as nat),
            start == base + seq![DwStep::SetTarget(tar_spec(addr))],
        decreases n - i,
    {
        let cmd = if i + 1 == n { DATA_CMD_READ + DATA_CMD_STOP } else { DATA_CMD_READ };
        let mut chunk = vec![
            DwStep::WaitTxNotFull,
            DwStep::WriteDataCmd(cmd),
            DwStep::WaitRxNotEmpty,
            DwStep::CheckAbort,
            DwStep::ReadData,
        ];
        out.append(&mut chunk);
        proof {
            assert(out@ =~= start + read_prefix((i + 1) as nat, n as nat));
        }
        i += 1;
    }
    proof {
        assert(out@ =~= base + read_spec(addr, n as nat));
    }
}

/// A BS2X I2C master on block `idx` (0 or 1).
pub struct I2c {
    /// The block index.
    pub idx: u8,
    /// The init words its constructor computed.
    pub setup: DwSetup,
}

impl I2c {
    /// I2C0 configured for `speed`.
    pub fn new_i2c0(speed: Speed) -> (r: Self)
        ensures
            r.idx == 0,
            r.setup.fast == (speed == Speed::Fast),
    {
        I2c { idx: 0, setup: configure(speed) }
    }

    /// I2C1 configured for `speed`.
    pub fn new_i2c1(speed: Speed) -> (r: Self)
        ensures
            r.idx == 1,
            r.setup.fast == (speed == Speed::Fast),
    {
        I2c { idx: 1, setup: configure(speed) }
    }

    /// The steps of a write of `data` to `addr` (STOP after the last byte).
    pub fn write(&mut self, addr: u8, data: &[u8]) -> (r: Vec<DwStep>)
        ensures
            *final(self) == *old(self),
            r@ == write_spec(addr, data@),
    {
        let mut out: Vec<DwStep> = Vec::new();
        push_write(&mut out, addr, data);
        assert(out@ =~= write_spec(addr, data@));
        out
    }

    /// The steps of a read of `len` bytes from `addr` (STOP after the last).
    pub fn read(&mut self, addr: u8, len: usize) -> (r: Vec<DwStep>)
        ensures
            *final(self) == *old(self),
            r@ == read_spec(addr, len as nat),
    {
        let mut out: Vec<DwStep> = Vec::new();
        push_read(&mut out, addr, len);
        assert(out@ =~= read_spec(addr, len as nat));
        out
    }

    /// The steps of a write then a read (each skipped when empty).
    pub fn write_read(&mut self, addr: u8, wr: &[u8], rd_len: usize) -> (r: Vec<DwStep>)
        ensures
            *final(self) == *old(self),
            r@ == write_read_spec(addr, wr@, rd_len as nat),
    {
        let mut out: Vec<DwStep> = Vec::new();
        if wr.len() > 0 {
            push_write(&mut out, addr, wr);
        }
        if rd_len > 0 {
            push_read(&mut out, addr, rd_len);
        }
        assert(out@ =~= write_read_spec(addr, wr@, rd_len as nat));
        out
    }

    /// The steps that start a probe of `addr`: target it and push a
    /// one-byte read with STOP; then wait for STOP or abort and decide with
    /// [`I2c::probe`].
    pub fn probe_steps(&mut self, addr: u8) -> (r: Vec<DwStep>)
        ensures
            *final(self) == *old(self),
            r@ == seq![DwStep::SetTarget(tar_spec(addr)), DwStep::WriteDataCmd(0x300u32), DwStep::WaitStopOrAbort],
    {
        let r = vec![
            DwStep::SetTarget((addr as u32) % 0x400),
            DwStep::WriteDataCmd(DATA_CMD_READ + DATA_CMD_STOP),
            DwStep::WaitStopOrAbort,
        ];
        assert(r@ =~= seq![DwStep::SetTarget(tar_spec(addr)), DwStep::WriteDataCmd(0x300u32), DwStep::WaitStopOrAbort]);
        r
    }

    /// The probe's verdict from `IC_RAW_INTR_STAT` and `IC_STATUS` after the
    /// wait, and the steps that end it: present when no TX abort happened;
    /// then one byte is drained from the RX FIFO when present and the FIFO
    /// holds one, and `IC_CLR_INTR` is read in every case.
    pub fn probe(&mut self, raw_intr: u32, status: u32) -> (r: (bool, Vec<DwStep>))
        ensures
            *final(self) == *old(self),
            r.0 == (raw_intr & RAW_TX_ABRT == 0),
            r.1@ == if r.0 && status & STATUS_RFNE != 0 {
                seq![DwStep::ReadData, DwStep::ClearInterrupts]
            } else {
                seq![DwStep::ClearInterrupts]
            },
    {
        let present = raw_intr & RAW_TX_ABRT == 0;
        let mut steps: Vec<DwStep> = Vec::new();
        if present && status & STATUS_RFNE != 0 {
            steps.push(DwStep::ReadData);
        }
        steps.push(DwStep::ClearInterrupts);
        proof {
            if present && status & STATUS_RFNE != 0 {
                assert(steps@ =~= seq![DwStep::ReadData, DwStep::ClearInterrupts]);
            } else {
                assert(steps@ =~= seq![DwStep::ClearInterrupts]);
            }
        }
        (present, steps)
    }

    /// Whether a probe's wait is over: STOP detected or TX aborted.
    pub fn probe_resolved(&self, raw_intr: u32) -> (r: bool)
        ensures
            r == (raw_intr & RAW_STOP_DET != 0 || raw_intr & RAW_TX_ABRT != 0),
    {
        raw_intr & RAW_STOP_DET != 0 || raw_intr & RAW_TX_ABRT != 0
    }
}

/// Poll `ready` at most [`POLL_LIMIT`] times: `Ok` as soon as it answers
/// `true`, `Timeout` when every look answered `false`.
pub fn wait_until<F: FnMut() -> bool>(ready: &mut F) -> (r: Result<(), I2cError>)
    requires
        forall|| call_requires(*old(ready), ()),
    ensures
        poll_result(*old(ready), POLL_LIMIT as nat, r is Ok),
        r matches Err(e) ==> e == I2cError::Timeout,
{
    if poll_until(ready, POLL_LIMIT) {
        Ok(())
    } else {
        Err(I2cError::Timeout)
    }
}

/// In both speeds the speed field is a legal non-zero code, the counts fit
/// 16 bits, SCL low exceeds SCL high, and fast mode is shorter than
/// standard.
pub proof fn law_scl_params()
    ensures
        forall|s: Speed|
            1 <= #[trigger] scl_params_spec(s).0 <= 3 && scl_params_spec(s).1 <= 0xFFFF && scl_params_spec(s).2
                <= 0xFFFF && scl_params_spec(s).2 > scl_params_spec(s).1,
        scl_params_spec(Speed::Fast).1 < scl_params_spec(Speed::Standard).1,
        scl_params_spec(Speed::Fast).2 < scl_params_spec(Speed::Standard).2,
{
}

/// A write-then-read run ends at a failing write step: when step `i` of
/// the write part answered an error, it was the last step made, so no read
/// step was made and the read buffer is never touched.
pub proof fn law_failed_write_ends_transfer<E: FnMut(DwStep) -> Result<Option<u8>, I2cError>>(
    start: E,
    addr: u8,
    w: Seq<u8>,
    n: nat,
    states: Seq<E>,
    results: Seq<Result<Option<u8>, I2cError>>,
    i: int,
)
    requires
        w.len() > 0,
        run_trace(start, write_read_spec(addr, w, n), states, results),
        0 <= i < results.len(),
        i < write_spec(addr, w).len(),
        results[i] is Err,
    ensures
        results.len() == i + 1,
        results.len() <= write_spec(addr, w).len(),
        bytes_of(results) == bytes_of(results.drop_last()),
{
}

/// A write program sends each byte once, in order, with STOP on the last
/// byte only.
pub proof fn law_write_prefix_shape(d: Seq<u8>, k: nat)
    requires
        k <= d.len(),
    ensures
        write_prefix(d, k).len() == 3 * k,
        forall|i: int|
            0 <= i < k ==> #[trigger] write_prefix(d, k)[3 * i + 1] == DwStep::WriteDataCmd(
                write_cmd(d[i], i + 1 == d.len()),
            ),
    decreases k,
{
    if k > 0 {
        law_write_prefix_shape(d, (k - 1) as nat);
        let prev = write_prefix(d, (k - 1) as nat);
        let cur = write_prefix(d, k);
        assert forall|i: int| 0 <= i < k implies #[trigger] cur[3 * i + 1] == DwStep::WriteDataCmd(
            write_cmd(d[i], i + 1 == d.len()),
        ) by {
            if i < k - 1 {
                assert(cur[3 * i + 1] == prev[3 * i + 1]);
            }
        }
    }
}

} // verus!
