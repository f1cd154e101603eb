//! eFuse (one-time programmable) controller, v151.
//!
//! The 256-byte array is seen through a window of 128 words, each holding two
//! bytes: the even address in bits 7:0, the odd one in bits 15:8. An access is
//! armed by writing a mode magic to `EFUSE_CTL_DATA` (`0x5A5A` read, `0xA5A5`
//! program); a program also raises `EFUSE_AVDD_CTL` around the data write.
use vstd::prelude::*;
use crate::poll::access_trace;

verus! {

/// Magic written to `EFUSE_CTL_DATA` to arm a read.
pub const EFUSE_READ_MAGIC: u32 = 0x5A5A;

/// Magic written to `EFUSE_CTL_DATA` to arm a program.
pub const EFUSE_WRITE_MAGIC: u32 = 0xA5A5;

/// Size of the eFuse array in bytes (2048 bits).
pub const EFUSE_MAX_BYTES: u16 = 256;

/// Settle time before and after a program pulse, in microseconds.
pub const EFUSE_PROGRAM_DELAY_US: u32 = 100;

/// The byte lane of window word `word` that holds eFuse byte `byte_addr`:
/// bits 7:0 for an even address, bits 15:8 for an odd one.
pub open spec fn lane_of(word: u32, byte_addr: u16) -> u8 {
    if byte_addr % 2 == 1 {
        ((word / 256) % 256) as u8
    } else {
        (word % 256) as u8
    }
}

/// The window word that programs `value` at `byte_addr`.
pub open spec fn packed(value: u8, byte_addr: u16) -> u32 {
    if byte_addr % 2 == 1 {
        (value * 256) as u32
    } else {
        value as u32
    }
}

/// A register access of an eFuse read.
#[derive(Debug, Clone, Copy, PartialEq, Eq, Structural)]
pub enum EfuseAccess {
    /// Write `EFUSE_CTL_DATA`.
    WriteCtl(u32),
    /// Read window word `EFUSE_DATA[index]`.
    ReadData(usize),
}

/// The accesses that read `count` consecutive bytes from `start`: for each
/// byte, in order, the read magic written to `EFUSE_CTL_DATA`, then the
/// byte's window word read.
pub open spec fn byte_reads(start: u16, count: nat) -> Seq<EfuseAccess> {
    Seq::new(
        2 * count,
        |j: int|
            if j % 2 == 0 {
                EfuseAccess::WriteCtl(EFUSE_READ_MAGIC)
            } else {
                EfuseAccess::ReadData(((start + j / 2) / 2) as usize)
            },
    )
}

/// A buffer read from `start`: the bytes read are the first `m` of the
/// buffer, `m` being how many of its addresses lie in the array; the
/// accesses are exactly those of [`byte_reads`] for them, in order; each
/// byte read is the lane of the word its read got; the rest of the buffer is
/// as it was.
pub open spec fn buffer_read(
    start: u16,
    old_buf: Seq<u8>,
    new_buf: Seq<u8>,
    calls: Seq<EfuseAccess>,
    answers: Seq<u32>,
) -> bool {
    let n = old_buf.len() as int;
    let m = if start >= EFUSE_MAX_BYTES {
        0
    } else if start + n <= EFUSE_MAX_BYTES {
        n
    } else {
        EFUSE_MAX_BYTES - start
    };
    &&& calls == byte_reads(start, m as nat)
    &&& new_buf.len() == n
    &&& forall|k: int| 0 <= k < m ==> #[trigger] new_buf[k] == lane_of(answers[2 * k + 1], (start + k) as u16)
    &&& forall|k: int| m <= k < n ==> #[trigger] new_buf[k] == old_buf[k]
}

/// Index of the window word holding eFuse byte `byte_addr`.
pub fn word_index(byte_addr: u16) -> (r: usize)
    ensures
        r == byte_addr / 2,
{
    (byte_addr / 2) as usize
}

/// The eFuse byte `byte_addr` out of its window word.
pub fn extract_byte(word: u32, byte_addr: u16) -> (r: u8)
    ensures
        r == lane_of(word, byte_addr),
{
    assert({
        &&& byte_addr & 1 != 0 ==> byte_addr % 2 == 1
        &&& byte_addr & 1 == 0 ==> byte_addr % 2 == 0
        &&& (word >> 8) & 0xFF == (word / 256) % 256
        &&& word & 0xFF == word % 256
    }) by (bit_vector);
    if byte_addr & 1 != 0 {
        ((word >> 8) & 0xFF) as u8
    } else {
        (word & 0xFF) as u8
    }
}

/// The window word that programs `value` at `byte_addr`.
pub fn pack_byte(value: u8, byte_addr: u16) -> (r: u32)
    ensures
        r == packed(value, byte_addr),
{
    assert({
        &&& byte_addr & 1 != 0 ==> byte_addr % 2 == 1
        &&& byte_addr & 1 == 0 ==> byte_addr % 2 == 0
        &&& ((value as u32) << 8) == value * 256
    }) by (bit_vector);
    if byte_addr & 1 != 0 {
        (value as u32) << 8
    } else {
        value as u32
    }
}

/// A byte packed for programming is read back unchanged from its lane.
pub proof fn law_pack_extract(value: u8, byte_addr: u16)
    ensures
        lane_of(packed(value, byte_addr), byte_addr) == value,
{
}

/// eFuse access error.
#[derive(Debug, Clone, Copy, PartialEq, Eq, Structural)]
pub enum EfuseError {
    /// Byte address outside the array (`>= EFUSE_MAX_BYTES`).
    OutOfRange,
}

/// The boot-done status (`EFUSE_STS`).
#[derive(Debug, Clone, Copy, PartialEq, Eq, Structural)]
pub struct EfuseStatus {
    /// Manufacturing status (2-bit field).
    pub man_status: u8,
    /// Boot stage 0 completed.
    pub boot0_done: bool,
    /// Boot stage 1 completed.
    pub boot1_done: bool,
    /// Boot stage 2 completed.
    pub boot2_done: bool,
}

impl EfuseStatus {
    /// Whether every boot stage completed.
    pub fn boot_complete(&self) -> (r: bool)
        ensures
            r == (self.boot0_done && self.boot1_done && self.boot2_done),
    {
        self.boot0_done && self.boot1_done && self.boot2_done
    }
}

/// The writes of one program pulse, in order: `ctl_data` to `EFUSE_CTL_DATA`,
/// `avdd_on` to `EFUSE_AVDD_CTL`, a settle of `settle_us`, `data` to window
/// word `word_index`, `avdd_off` to `EFUSE_AVDD_CTL`, a settle of
/// `settle_us`.
#[derive(Debug, Clone, Copy, PartialEq, Eq, Structural)]
pub struct EfuseProgram {
    /// The mode magic.
    pub ctl_data: u32,
    /// The window word written.
    pub word_index: usize,
    /// The value written to it.
    pub data: u32,
    /// Settle time around the pulse, in microseconds.
    pub settle_us: u32,
    /// `EFUSE_AVDD_CTL` word that raises the program voltage.
    pub avdd_on: u32,
    /// `EFUSE_AVDD_CTL` word that lowers it again.
    pub avdd_off: u32,
}

/// The eFuse controller driver.
pub struct EfuseDriver;

impl EfuseDriver {
    /// An eFuse driver.
    pub fn new() -> (d: Self) {
        EfuseDriver
    }

    /// The `EFUSE_CLK_PERIOD` word (cycles of the controller clock).
    pub fn set_clock_period(&mut self, period: u8) -> (r: u32)
        ensures
            *final(self) == *old(self),
            r == period,
    {
        period as u32
    }

    /// The status decoded from `EFUSE_STS`: manufacturing status bits 1:0,
    /// boot stages done at bits 2, 3 and 4.
    pub fn status(&self, sts: u32) -> (r: EfuseStatus)
        ensures
            r.man_status == sts & 3,
            r.boot0_done == ((sts >> 2) & 1 != 0),
            r.boot1_done == ((sts >> 3) & 1 != 0),
            r.boot2_done == ((sts >> 4) & 1 != 0),
    {
        assert(sts & 3 <= 3) by (bit_vector);
        EfuseStatus {
            man_status: (sts & 3) as u8,
            boot0_done: (sts >> 2) & 1 != 0,
            boot1_done: (sts >> 3) & 1 != 0,
            boot2_done: (sts >> 4) & 1 != 0,
        }
    }

    /// One eFuse byte, through `bus`: the read magic is written to
    /// `EFUSE_CTL_DATA`, then the byte's window word is read and its lane
    /// is the byte. Out of range nothing is accessed.
    pub fn read_byte<B: FnMut(EfuseAccess) -> u32>(&mut self, byte_addr: u16, bus: &mut B) -> (r: Result<
        u8,
        EfuseError,
    >)
        requires
            forall|a: EfuseAccess| call_requires(*old(bus), (a,)),
        ensures
            exists|calls: Seq<EfuseAccess>, states: Seq<B>, answers: Seq<u32>|
                #[trigger] access_trace(*old(bus), calls, states, answers) && (byte_addr >= EFUSE_MAX_BYTES
                    ==> calls.len() == 0 && r == Err::<u8, EfuseError>(EfuseError::OutOfRange)) && (byte_addr
                    < EFUSE_MAX_BYTES ==> calls == byte_reads(byte_addr, 1) && r == Ok::<u8, EfuseError>(
                    lane_of(answers[1], byte_addr),
                )),
    {
        let ghost start = *bus;
        if byte_addr >= EFUSE_MAX_BYTES {
            assert(access_trace(start, Seq::<EfuseAccess>::empty(), Seq::<B>::empty(), Seq::<u32>::empty()));
            return Err(EfuseError::OutOfRange);
        }
        let idx = word_index(byte_addr);
        let x = bus(EfuseAccess::WriteCtl(EFUSE_READ_MAGIC));
        let ghost p2 = *bus;
        let word = bus(EfuseAccess::ReadData(idx));
        proof {
            let calls = seq![EfuseAccess::WriteCtl(EFUSE_READ_MAGIC), EfuseAccess::ReadData(idx)];
            assert(access_trace(start, calls, seq![start, p2], seq![x, word]));
            assert(calls =~= byte_reads(byte_addr, 1));
        }
        Ok(extract_byte(word, byte_addr))
    }

    /// `buf.len()` consecutive bytes from `start_byte`, each read as
    /// [`EfuseDriver::read_byte`] reads it, in order. The read stops at the
    /// first address outside the array: bytes before it are filled, the rest
    /// of `buf` is left as it was, and the result is `OutOfRange`.
    pub fn read_buffer<B: FnMut(EfuseAccess) -> u32>(&mut self, start_byte: u16, buf: &mut [u8], bus: &mut B) -> (r:
        Result<(), EfuseError>)
        requires
            forall|a: EfuseAccess| call_requires(*old(bus), (a,)),
        ensures
            final(buf)@.len() == old(buf)@.len(),
            r is Ok <==> (old(buf)@.len() == 0 || start_byte + old(buf)@.len() <= EFUSE_MAX_BYTES),
            r matches Err(e) ==> e == EfuseError::OutOfRange,
            exists|calls: Seq<EfuseAccess>, states: Seq<B>, answers: Seq<u32>|
                #[trigger] access_trace(*old(bus), calls, states, answers) && buffer_read(
                    start_byte,
                    old(buf)@,
                    final(buf)@,
                    calls,
                    answers,
                ),
    {
        let ghost start = *bus;
        let ghost mut calls: Seq<EfuseAccess> = Seq::empty();
        let ghost mut states: Seq<B> = Seq::empty();
        let ghost mut answers: Seq<u32> = Seq::empty();
        let n = buf.len();
        let mut i: usize = 0;
        while i < n
            invariant_except_break
                n == buf@.len(),
                buf@.len() == old(buf)@.len(),
                i <= n,
                i > 0 ==> start_byte + i <= EFUSE_MAX_BYTES,
                forall|a: EfuseAccess| call_requires(*bus, (a,)),
                start == *old(bus),
                i == 0 ==> *bus == start,
                access_trace(start, calls, states, answers),
                calls == byte_reads(start_byte, i as nat),
                forall|k: int| 0 <= k < i ==> #[trigger] buf@[k] == lane_of(answers[2 * k + 1], (start_byte + k) as u16),
                forall|k: int| i <= k < n ==> #[trigger] buf@[k] == old(buf)@[k],
            ensures
                buf@.len() == old(buf)@.len(),
                i <= n,
                i < n ==> start_byte + i >= EFUSE_MAX_BYTES,
                i > 0 ==> start_byte + i <= EFUSE_MAX_BYTES,
                access_trace(start, calls, states, answers),
                calls == byte_reads(start_byte, i as nat),
                forall|k: int| 0 <= k < i ==> #[trigger] buf@[k] == lane_of(answers[2 * k + 1], (start_byte + k) as u16),
                forall|k: int| i <= k < n ==> #[trigger] buf@[k] == old(buf)@[k],
            decreases n - i,
        {
            let addr: u16 = start_byte + i as u16;
            if addr >= EFUSE_MAX_BYTES {
                break;
            }
            let idx = word_index(addr);
            let ghost p1 = *bus;
            let x = bus(EfuseAccess::WriteCtl(EFUSE_READ_MAGIC));
            let ghost p2 = *bus;
            let word = bus(EfuseAccess::ReadData(idx));
            proof {
                calls = calls.push(EfuseAccess::WriteCtl(EFUSE_READ_MAGIC)).push(EfuseAccess::ReadData(idx));
                states = states.push(p1).push(p2);
                answers = answers.push(x).push(word);
                assert(calls =~= byte_reads(start_byte, (i + 1) as nat));
            }
            assert(access_trace(start, calls, states, answers));
            let b = extract_byte(word, addr);
            buf[i] = b;
            i += 1;
        }
        if i < n {
            return Err(EfuseError::OutOfRange);
        }
        Ok(())
    }

    /// The writes that program `value` at `byte_addr` (irreversible: bits
    /// only burn from 0 to 1); out of range, none.
    pub fn write_byte(&mut self, byte_addr: u16, value: u8) -> (r: Result<EfuseProgram, EfuseError>)
        ensures
            byte_addr >= EFUSE_MAX_BYTES ==> r == Err::<EfuseProgram, EfuseError>(
                EfuseError::OutOfRange,
            ),
            byte_addr < EFUSE_MAX_BYTES ==> r == Ok::<EfuseProgram, EfuseError>(
                (EfuseProgram {
                    ctl_data: EFUSE_WRITE_MAGIC,
                    word_index: (byte_addr / 2) as usize,
                    data: packed(value, byte_addr),
                    settle_us: EFUSE_PROGRAM_DELAY_US,
                    avdd_on: 1,
                    avdd_off: 0,
                }),
            ),
    {
        if byte_addr >= EFUSE_MAX_BYTES {
            return Err(EfuseError::OutOfRange);
        }
        Ok(
            EfuseProgram {
                ctl_data: EFUSE_WRITE_MAGIC,
                word_index: word_index(byte_addr),
                data: pack_byte(value, byte_addr),
                settle_us: EFUSE_PROGRAM_DELAY_US,
                avdd_on: 1,
                avdd_off: 0,
            },
        )
    }
}

} // verus!
