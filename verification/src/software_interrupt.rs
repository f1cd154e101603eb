//! CPU software interrupt 0: the `SYS_CTL1.SOFT_INT0` source (bit 0 of its
//! enable, set, clear and status registers), delivered as local IRQ 36.
use vstd::prelude::*;
use crate::interrupt::{clear_pending, disable, enable, irq_bit_spec, IrqBit};

verus! {

/// The local IRQ number of software interrupt 0.
pub const SOFT_INT0_IRQ: u16 = 36;

/// The SOFT_INT0 bit of the `SYS_CTL1` soft-interrupt registers.
pub const SOFT_INT0_BIT: u32 = 0x1;

/// The writes of claiming or releasing the source. A claim writes
/// `soft_int_clr`, the interrupt controller's `LOCIPCLR` and `soft_int_en`,
/// then sets the IRQ enable bit; a release clears the IRQ enable bit, writes
/// `soft_int_en`, then `soft_int_clr` and `LOCIPCLR`.
#[derive(Debug, Clone, Copy, PartialEq, Eq, Structural)]
pub struct SoftIntSetup {
    /// Written to `soft_int_clr`.
    pub source_clear: u32,
    /// Written to `LOCIPCLR`.
    pub pending_clear: u32,
    /// Written to `soft_int_en`.
    pub source_enable: u32,
    /// The IRQ enable bit.
    pub irq: Option<IrqBit>,
}

/// Owner of software interrupt 0.
pub struct SoftwareInterrupt0;

impl SoftwareInterrupt0 {
    /// Claim the source: clear stale state, enable the source and IRQ 36.
    pub fn new() -> (r: (SoftwareInterrupt0, SoftIntSetup))
        ensures
            r.1 == (SoftIntSetup {
                source_clear: SOFT_INT0_BIT,
                pending_clear: SOFT_INT0_IRQ as u32,
                source_enable: SOFT_INT0_BIT,
                irq: irq_bit_spec(SOFT_INT0_IRQ),
            }),
    {
        let (source_clear, pending_clear) = Self::clear_interrupt();
        let irq = enable(SOFT_INT0_IRQ);
        (SoftwareInterrupt0, SoftIntSetup { source_clear, pending_clear, source_enable: SOFT_INT0_BIT, irq })
    }

    /// Pend the interrupt: the `soft_int_set` word.
    pub fn pend(&self) -> (r: u32)
        ensures
            r == SOFT_INT0_BIT,
    {
        Self::pend_interrupt()
    }

    /// The `soft_int_set` word that pends the interrupt.
    pub fn pend_interrupt() -> (r: u32)
        ensures
            r == SOFT_INT0_BIT,
    {
        SOFT_INT0_BIT
    }

    /// Whether the source is asserted in `soft_int_sts`.
    pub fn is_pending(&self, sts: u32) -> (r: bool)
        ensures
            r == (sts & SOFT_INT0_BIT != 0),
    {
        sts & SOFT_INT0_BIT != 0
    }

    /// Clear the source and the controller's latch: the `soft_int_clr` and
    /// `LOCIPCLR` words.
    pub fn clear_interrupt() -> (r: (u32, u32))
        ensures
            r == (SOFT_INT0_BIT, SOFT_INT0_IRQ as u32),
    {
        (SOFT_INT0_BIT, clear_pending(SOFT_INT0_IRQ))
    }

    /// Give the source up: disable IRQ 36 and the source, and clear it.
    pub fn release(self) -> (r: SoftIntSetup)
        ensures
            r == (SoftIntSetup {
                source_clear: SOFT_INT0_BIT,
                pending_clear: SOFT_INT0_IRQ as u32,
                source_enable: 0,
                irq: irq_bit_spec(SOFT_INT0_IRQ),
            }),
    {
        let (irq, _) = disable(SOFT_INT0_IRQ);
        let (source_clear, pending_clear) = Self::clear_interrupt();
        SoftIntSetup { source_clear, pending_clear, source_enable: 0, irq }
    }
}

} // verus!
