//! D-cache maintenance by address range (4 KB, 32-byte lines, not coherent
//! with DMA).
//!
//! Maintenance works per line: a range is widened to whole lines, and for
//! each line its address goes to `DCINCVA` (CSR 0x7C5) and the command to
//! `DCMAINT` (CSR 0x7C3), followed by a fence. The command bits are
//! `VA = 0x1`, `DCIV = 0x4` (invalidate) and `DCC = 0x8` (clean).
use vstd::prelude::*;

verus! {

/// D-cache line size in bytes.
pub const CACHE_LINE: usize = 32;

/// Clean (write back) by address: `DCC | VA`.
pub const CMD_CLEAN: u32 = 0x9;

/// Invalidate by address: `DCIV | VA`.
pub const CMD_INVALIDATE: u32 = 0x5;

/// Clean and invalidate by address: `DCC | DCIV | VA`.
pub const CMD_FLUSH: u32 = 0xd;

/// The first line of a range starting at `addr`.
pub open spec fn first_line(addr: int) -> int {
    addr - addr % 32
}

/// The end of the last line of a range ending (exclusive) at `end`.
pub open spec fn line_end(end: int) -> int {
    (end + 31) / 32 * 32
}

/// The line addresses covering `[addr, addr + len)`, in order; none for an
/// empty range.
pub open spec fn lines_spec(addr: int, len: int) -> Seq<usize> {
    if len == 0 {
        Seq::empty()
    } else {
        Seq::new(
            ((line_end(addr + len) - first_line(addr)) / 32) as nat,
            |i: int| (first_line(addr) + 32 * i) as usize,
        )
    }
}

/// A maintenance operation: the command and the line addresses it is
/// written for.
pub struct CacheMaintenance {
    /// The `DCMAINT` command.
    pub command: u32,
    /// The `DCINCVA` line addresses, in order.
    pub lines: Vec<usize>,
}

/// The line addresses covering `[addr, addr + len)`.
pub fn maintenance_lines(addr: usize, len: usize) -> (r: Vec<usize>)
    requires
        addr + len + 31 <= usize::MAX,
    ensures
        r@ == lines_spec(addr as int, len as int),
{
    let mut out: Vec<usize> = Vec::new();
    if len == 0 {
        assert(out@ =~= lines_spec(addr as int, len as int));
        return out;
    }
    let start = addr - addr % 32;
    let end = (addr + len + 31) / 32 * 32;
    assert(end >= start + 32 && (end - start) % 32 == 0) by (nonlinear_arith)
        requires
            start == addr - addr % 32,
            end == (addr + len + 31) / 32 * 32,
            len > 0,
    ;
    let mut line = start;
    while line < end
        invariant
            start <= line <= end,
            (line - start) % 32 == 0,
            (end - start) % 32 == 0,
            end <= usize::MAX,
            start == first_line(addr as int),
            end == line_end(addr + len as int),
            out@.len() == (line - start) / 32,
            forall|k: int| 0 <= k < out@.len() ==> #[trigger] out@[k] == (start + 32 * k) as usize,
        decreases end - line,
    {
        out.push(line);
        line = line + 32;
    }
    assert(out@ =~= lines_spec(addr as int, len as int));
    out
}

/// Clean `[addr, addr + len)`: before a bus master reads what the CPU
/// wrote.
pub fn clean_range(addr: usize, len: usize) -> (r: CacheMaintenance)
    requires
        addr + len + 31 <= usize::MAX,
    ensures
        r.command == CMD_CLEAN,
        r.lines@ == lines_spec(addr as int, len as int),
{
    CacheMaintenance { command: CMD_CLEAN, lines: maintenance_lines(addr, len) }
}

/// Invalidate `[addr, addr + len)`: after a bus master wrote, before the CPU
/// reads. Whole lines are dropped, so the range should be line aligned.
pub fn invalidate_range(addr: usize, len: usize) -> (r: CacheMaintenance)
    requires
        addr + len + 31 <= usize::MAX,
    ensures
        r.command == CMD_INVALIDATE,
        r.lines@ == lines_spec(addr as int, len as int),
{
    CacheMaintenance { command: CMD_INVALIDATE, lines: maintenance_lines(addr, len) }
}

/// Clean and invalidate `[addr, addr + len)`.
pub fn flush_range(addr: usize, len: usize) -> (r: CacheMaintenance)
    requires
        addr + len + 31 <= usize::MAX,
    ensures
        r.command == CMD_FLUSH,
        r.lines@ == lines_spec(addr as int, len as int),
{
    CacheMaintenance { command: CMD_FLUSH, lines: maintenance_lines(addr, len) }
}

/// The lines of a non-empty range are line aligned and cover every byte of
/// it.
pub proof fn law_lines_cover(addr: nat, len: nat, b: int)
    requires
        len > 0,
        addr <= b < addr + len,
    ensures
        ({
            let s = lines_spec(addr as int, len as int);
            let k = (b - first_line(addr as int)) / 32;
            &&& 0 <= k < s.len()
            &&& first_line(addr as int) + 32 * k <= b < first_line(addr as int) + 32 * k + 32
            &&& (first_line(addr as int) + 32 * k) % 32 == 0
        }),
{
    let f = first_line(addr as int);
    let e = line_end((addr + len) as int);
    let k = (b - f) / 32;
    assert(0 <= k && f + 32 * k <= b < f + 32 * k + 32 && (f + 32 * k) % 32 == 0 && k < (e - f) / 32)
        by (nonlinear_arith)
        requires
            f == addr - addr % 32,
            e == (addr + len + 31) / 32 * 32,
            k == (b - f) / 32,
            addr <= b < addr + len,
            len > 0,
    ;
}

} // verus!
