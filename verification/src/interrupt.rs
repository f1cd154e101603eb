//! The riscv31 local interrupt controller of the WS63 application core.
//!
//! IRQ 26..=31 are enabled by the matching `mie` bit; IRQ >= 32 by the
//! custom `LOCIEN0..2` CSRs (32 IRQs per register from base 32), pending in
//! `LOCIPD0..2`, cleared by writing the IRQ number to `LOCIPCLR`. Each IRQ
//! from 26 has a 4-bit priority in `LOCIPRI0..15` (8 per register); an IRQ
//! is delivered when enabled and its priority is strictly above the
//! threshold `PRITHD`. IRQs are named by number here.
use vstd::prelude::*;

verus! {

/// First IRQ with a configurable priority.
pub const SYS_VECTOR_CNT: u16 = 26;
/// First IRQ enabled through `LOCIEN`.
pub const LOCAL_IRQ_VECTOR_CNT: u16 = 32;
/// IRQs per `LOCIEN` / `LOCIPD` register.
pub const LOCIEN_IRQ_NUM: u16 = 32;
/// IRQs per `LOCIPRI` register.
pub const LOCIPRI_IRQ_NUM: u16 = 8;
/// Bits per priority field.
pub const LOCIPRI_IRQ_BITS: u16 = 4;
/// Mask of one priority field.
pub const LOCIPRI_FIELD_MASK: u32 = 0xF;
/// One past the highest IRQ with a priority field (26 + 16 * 8).
pub const PRIORITY_IRQ_END: u16 = 154;
/// Default `LOCIPRI` word: priority 1 for every IRQ.
pub const LOCIPRI_DEFAULT_VAL: u32 = 0x1111_1111;

/// A priority level, 1 (lowest) to 7 (highest).
#[derive(Debug, Clone, Copy, PartialEq, Eq, Structural)]
pub struct Priority(u8);

/// The level `level` clamped into `1..=7`.
pub open spec fn clamp_level(level: u8) -> u8 {
    if level < 1 {
        1
    } else if level > 7 {
        7
    } else {
        level
    }
}

impl Priority {
    /// The level, in specifications.
    pub closed spec fn value(self) -> u8 {
        self.0
    }

    #[verifier::type_invariant]
    closed spec fn inv(self) -> bool {
        1 <= self.0 <= 7
    }

    /// The priority `level`, clamped into `1..=7`.
    pub fn new(level: u8) -> (p: Self)
        ensures
            p.value() == clamp_level(level),
    {
        let l = if level < 1 {
            1
        } else if level > 7 {
            7
        } else {
            level
        };
        Priority(l)
    }

    /// The lowest deliverable priority (1).
    pub fn lowest() -> (p: Self)
        ensures
            p.value() == 1,
    {
        Priority(1)
    }

    /// The highest priority (7).
    pub fn highest() -> (p: Self)
        ensures
            p.value() == 7,
    {
        Priority(7)
    }

    /// The level (1-7).
    pub fn level(self) -> (r: u8)
        ensures
            r == self.value(),
            1 <= r <= 7,
    {
        proof { use_type_invariant(self); }
        self.0
    }
}

/// Where an IRQ's enable (and pending) bit lives.
#[derive(Debug, Clone, Copy, PartialEq, Eq, Structural)]
pub enum IrqBit {
    /// The mask in `mie` (`mip` for pending).
    Mie(u32),
    /// The mask in `LOCIEN{reg}` (`LOCIPD{reg}` for pending).
    Locien(u16, u32),
}

/// The enable bit of IRQ `n`: `mie` for 26..=31, `LOCIEN0..2` for 32..=127,
/// none otherwise.
pub open spec fn irq_bit_spec(n: u16) -> Option<IrqBit> {
    if SYS_VECTOR_CNT <= n < LOCAL_IRQ_VECTOR_CNT {
        Some(IrqBit::Mie(1u32 << n as u32))
    } else if LOCAL_IRQ_VECTOR_CNT <= n && (n - 32) / 32 <= 2 {
        Some(IrqBit::Locien(((n - 32) / 32) as u16, 1u32 << ((n - 32) % 32) as u32))
    } else {
        None
    }
}

/// The enable bit of IRQ `n`.
pub fn irq_bit(n: u16) -> (r: Option<IrqBit>)
    ensures
        r == irq_bit_spec(n),
{
    if SYS_VECTOR_CNT <= n && n < LOCAL_IRQ_VECTOR_CNT {
        Some(IrqBit::Mie(1u32 << n as u32))
    } else if LOCAL_IRQ_VECTOR_CNT <= n && (n - LOCAL_IRQ_VECTOR_CNT) / LOCIEN_IRQ_NUM <= 2 {
        let bit = (n - LOCAL_IRQ_VECTOR_CNT) % LOCIEN_IRQ_NUM;
        let reg = (n - LOCAL_IRQ_VECTOR_CNT) / LOCIEN_IRQ_NUM;
        Some(IrqBit::Locien(reg, 1u32 << bit as u32))
    } else {
        None
    }
}

/// The bit to set to enable IRQ `n` (none for a system vector).
pub fn enable(n: u16) -> (r: Option<IrqBit>)
    ensures
        r == irq_bit_spec(n),
{
    irq_bit(n)
}

/// The bit to clear to disable IRQ `n`, and the `LOCIPCLR` word that then
/// clears its pending state.
pub fn disable(n: u16) -> (r: (Option<IrqBit>, u32))
    ensures
        r.0 == irq_bit_spec(n),
        r.1 == n,
{
    (irq_bit(n), n as u32)
}

/// Whether IRQ `n` is enabled, from the value of the register that holds
/// its enable bit (`mie` or its `LOCIEN`).
pub fn is_enabled(n: u16, reg: u32) -> (r: bool)
    ensures
        r == match irq_bit_spec(n) {
            Some(IrqBit::Mie(m)) => reg & m != 0,
            Some(IrqBit::Locien(_, m)) => reg & m != 0,
            None => false,
        },
{
    match irq_bit(n) {
        Some(IrqBit::Mie(m)) => reg & m != 0,
        Some(IrqBit::Locien(_, m)) => reg & m != 0,
        None => false,
    }
}

/// Whether IRQ `n` is pending, from `mip` or its `LOCIPD`.
pub fn is_pending(n: u16, reg: u32) -> (r: bool)
    ensures
        r == match irq_bit_spec(n) {
            Some(IrqBit::Mie(m)) => reg & m != 0,
            Some(IrqBit::Locien(_, m)) => reg & m != 0,
            None => false,
        },
{
    is_enabled(n, reg)
}

/// The `LOCIPCLR` word that clears IRQ `n`'s pending state.
pub fn clear_pending(n: u16) -> (r: u32)
    ensures
        r == n,
{
    n as u32
}

/// The priority field of IRQ `n`: `(LOCIPRI register, bit shift)` for
/// 26..154.
pub open spec fn priority_slot_spec(n: u16) -> Option<(u16, u16)> {
    if SYS_VECTOR_CNT <= n < PRIORITY_IRQ_END {
        Some((((n - 26) / 8) as u16, (((n - 26) % 8) * 4) as u16))
    } else {
        None
    }
}

/// The priority field of IRQ `n`.
pub fn priority_slot(n: u16) -> (r: Option<(u16, u16)>)
    ensures
        r == priority_slot_spec(n),
        r matches Some(s) ==> s.0 <= 15 && s.1 <= 28,
{
    if SYS_VECTOR_CNT <= n && n < PRIORITY_IRQ_END {
        let order = (n - SYS_VECTOR_CNT) % LOCIPRI_IRQ_NUM;
        let reg = (n - SYS_VECTOR_CNT) / LOCIPRI_IRQ_NUM;
        Some((reg, order * LOCIPRI_IRQ_BITS))
    } else {
        None
    }
}

/// `reg` with the 4-bit field at `shift` replaced by `value`.
pub open spec fn field_set_spec(reg: u32, shift: u32, value: u32) -> u32 {
    (reg & !(0xFu32 << shift)) | ((value & 0xF) << shift)
}

/// The `LOCIPRI` word with the field at `shift` set to `value`: the
/// nibble is cleared first, so a priority can also be lowered.
pub fn locipri_set_field(reg: u32, shift: u16, value: u32) -> (r: u32)
    requires
        shift <= 28,
    ensures
        r == field_set_spec(reg, shift as u32, value),
{
    let clear = LOCIPRI_FIELD_MASK << shift as u32;
    let set = (value & LOCIPRI_FIELD_MASK) << shift as u32;
    (reg & !clear) | set
}

/// Setting IRQ `n`'s priority: the register and its new value from the
/// current `LOCIPRI` value; none for IRQs without a priority field.
pub fn set_priority(n: u16, priority: Priority, locipri: u32) -> (r: Option<(u16, u32)>)
    ensures
        r == match priority_slot_spec(n) {
            Some(s) => Some((s.0, field_set_spec(locipri, s.1 as u32, priority.value() as u32))),
            None => None,
        },
{
    match priority_slot(n) {
        Some((reg, shift)) => Some((reg, locipri_set_field(locipri, shift, priority.level() as u32))),
        None => None,
    }
}

/// IRQ `n`'s priority from its `LOCIPRI` value: the field clamped into
/// `1..=7`; the lowest priority for IRQs without a field.
pub fn priority(n: u16, locipri: u32) -> (p: Priority)
    ensures
        p.value() == match priority_slot_spec(n) {
            Some(s) => clamp_level(((locipri >> s.1 as u32) & 0xF) as u8),
            None => 1,
        },
{
    match priority_slot(n) {
        Some((_, shift)) => {
            let field = (locipri >> shift as u32) & LOCIPRI_FIELD_MASK;
            proof { crate::bits::lemma_and_le(locipri >> shift as u32, 0xF); }
            Priority::new(field as u8)
        },
        None => Priority::lowest(),
    }
}

/// The `PRITHD` word for a threshold (3 bits).
pub fn set_threshold(level: u8) -> (r: u32)
    ensures
        r == level % 8,
{
    (level % 8) as u32
}

/// The threshold from `PRITHD`.
pub fn threshold(prithd: u32) -> (r: u8)
    ensures
        r == prithd % 8,
{
    (prithd % 8) as u8
}

/// The word written to every `LOCIPRI` register at init (priority 1).
pub fn init() -> (r: u32)
    ensures
        r == LOCIPRI_DEFAULT_VAL,
{
    LOCIPRI_DEFAULT_VAL
}

/// A priority written into its field reads back unchanged, and the other
/// fields of the register keep their values.
pub proof fn law_priority_write_read(reg: u32, shift: u32, value: u32, other: u32)
    by (bit_vector)
    requires
        shift <= 28,
        value <= 0xF,
        other <= 28,
        other + 4 <= shift || shift + 4 <= other,
    ensures
        (field_set_spec(reg, shift, value) >> shift) & 0xF == value,
        (field_set_spec(reg, shift, value) >> other) & 0xF == (reg >> other) & 0xF,
{
}

/// The `LOCIPRI0..15` registers after setting IRQ `n` to `level` (as
/// [`set_priority`] computes it); unchanged for an IRQ without a field.
pub open spec fn locipri_after(regs: Seq<u32>, n: u16, level: u8) -> Seq<u32> {
    match priority_slot_spec(n) {
        Some(s) => regs.update(s.0 as int, field_set_spec(regs[s.0 as int], s.1 as u32, level as u32)),
        None => regs,
    }
}

/// The `LOCIPRI0..15` registers after the priority settings of `writes`,
/// made in order.
pub open spec fn locipri_after_all(regs: Seq<u32>, writes: Seq<(u16, u8)>) -> Seq<u32>
    decreases writes.len(),
{
    if writes.len() == 0 {
        regs
    } else {
        locipri_after(locipri_after_all(regs, writes.drop_last()), writes.last().0, writes.last().1)
    }
}

/// IRQ `n`'s priority as [`priority`] reads it from the `LOCIPRI0..15`
/// registers.
pub open spec fn priority_in(regs: Seq<u32>, n: u16) -> u8 {
    match priority_slot_spec(n) {
        Some(s) => clamp_level(((regs[s.0 as int] >> s.1 as u32) & 0xF) as u8),
        None => 1,
    }
}

/// Setting another IRQ's priority leaves IRQ `n`'s field as it was.
proof fn lemma_other_write_keeps(regs: Seq<u32>, n: u16, m: u16, level: u8)
    requires
        regs.len() == 16,
        26 <= n < 154,
        m != n,
        1 <= level <= 7,
    ensures
        locipri_after(regs, m, level).len() == 16,
        ({
            let s = priority_slot_spec(n)->0;
            (locipri_after(regs, m, level)[s.0 as int] >> s.1 as u32) & 0xF == (regs[s.0 as int] >> s.1 as u32)
                & 0xF
        }),
{
    let sn = priority_slot_spec(n)->0;
    if let Some(sm) = priority_slot_spec(m) {
        if sm.0 == sn.0 {
            assert((n - 26) % 8 != (m - 26) % 8);
            let a = sm.1 as u32;
            let b = sn.1 as u32;
            assert(a + 4 <= b || b + 4 <= a);
            law_priority_write_read(regs[sn.0 as int], a, level as u32, b);
        }
    }
}

/// The last setting of an IRQ's priority is the one it reads back: after
/// IRQ `n` (26 to 153) is set to `level`, setting the priorities of any
/// other IRQs, in any register, leaves [`priority`] of `n` at `level`.
pub proof fn law_priority_last_write_wins(regs: Seq<u32>, n: u16, level: u8, later: Seq<(u16, u8)>)
    requires
        regs.len() == 16,
        26 <= n < 154,
        1 <= level <= 7,
        forall|i: int| 0 <= i < later.len() ==> #[trigger] later[i].0 != n && 1 <= later[i].1 <= 7,
    ensures
        locipri_after_all(locipri_after(regs, n, level), later).len() == 16,
        priority_in(locipri_after_all(locipri_after(regs, n, level), later), n) == level,
    decreases later.len(),
{
    let s = priority_slot_spec(n)->0;
    if later.len() == 0 {
        let other: u32 = if s.1 >= 4 { 0 } else { 4 };
        law_priority_write_read(regs[s.0 as int], s.1 as u32, level as u32, other);
    } else {
        let front = later.drop_last();
        assert forall|i: int| 0 <= i < front.len() implies #[trigger] front[i].0 != n && 1 <= front[i].1 <= 7 by {
            assert(front[i] == later[i]);
        }
        law_priority_last_write_wins(regs, n, level, front);
        let mid = locipri_after_all(locipri_after(regs, n, level), front);
        lemma_other_write_keeps(mid, n, later.last().0, later.last().1);
    }
}

/// An IRQ below 26 or from 154 up has no priority field: [`set_priority`]
/// writes nothing for it and [`priority`] reads it as the lowest priority,
/// whatever the registers hold.
pub proof fn law_priority_outside_range(regs: Seq<u32>, n: u16, level: u8)
    requires
        n < 26 || n >= 154,
    ensures
        priority_slot_spec(n) is None,
        locipri_after(regs, n, level) == regs,
        priority_in(regs, n) == 1,
{
}

/// Every IRQ from 26 to 153 has its own priority field: distinct IRQs never
/// share a field.
pub proof fn law_priority_slots_distinct(a: u16, b: u16)
    requires
        26 <= a < 154,
        26 <= b < 154,
        a != b,
    ensures
        priority_slot_spec(a) != priority_slot_spec(b),
{
}

/// Distinct IRQs that have an enable bit never share it.
pub proof fn law_irq_bits_distinct(a: u16, b: u16)
    requires
        26 <= a < 128,
        26 <= b < 128,
        a != b,
    ensures
        irq_bit_spec(a) != irq_bit_spec(b),
{
    if a < 32 && b < 32 {
        let x = a as u32;
        let y = b as u32;
        assert((1u32 << x) != (1u32 << y)) by (bit_vector)
            requires
                x < 32,
                y < 32,
                x != y,
        ;
    } else if a >= 32 && b >= 32 && (a - 32) / 32 == (b - 32) / 32 {
        let x = ((a - 32) % 32) as u32;
        let y = ((b - 32) % 32) as u32;
        assert((1u32 << x) != (1u32 << y)) by (bit_vector)
            requires
                x < 32,
                y < 32,
                x != y,
        ;
    }
}

} // verus!
