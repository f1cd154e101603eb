//! Peripheral clock-gate map of the CLDO_CRG clock and reset generator.
use vstd::prelude::*;

verus! {

/// Peripherals with a clock domain in the CLDO_CRG.
#[derive(Debug, Clone, Copy, PartialEq, Eq, Structural)]
pub enum Peripheral {
    Uart0,
    Uart1,
    Uart2,
    I2c0,
    I2c1,
    Spi0,
    Spi1,
    Pwm,
    Timer,
    Lsadc,
    Tsensor,
    I2s,
    Dma,
    Sdma,
    Sfc,
    Trng,
    SecurityGroup,
}

/// Number of [`Peripheral`] variants.
pub const PERIPHERAL_COUNT: usize = 17;

/// The clock gate of a peripheral: `(register, bit)` where register 0 is
/// `CKEN_CTL0` and 1 is `CKEN_CTL1`, or `None` when the peripheral has no
/// individually attested gate.
pub open spec fn cken_spec(p: Peripheral) -> Option<(u8, u8)> {
    match p {
        Peripheral::Pwm => Some((0u8, 2u8)),
        Peripheral::I2s => Some((0u8, 12u8)),
        Peripheral::Uart0 => Some((1u8, 18u8)),
        Peripheral::Uart1 => Some((1u8, 19u8)),
        Peripheral::Uart2 => Some((1u8, 20u8)),
        Peripheral::Spi0 => Some((1u8, 25u8)),
        _ => None,
    }
}

impl Peripheral {
    /// The CLDO_CRG clock-gate `(register, bit)` of this peripheral, or `None`
    /// if the peripheral is not individually gated. PWM answers its base bit
    /// (its nine gates are bits 2..=10); I2S answers its clock gate (bit 12;
    /// its bus gate is bit 11).
    pub fn cken_info(&self) -> (r: Option<(u8, u8)>)
        ensures
            r == cken_spec(*self),
    {
        match self {
            Peripheral::Pwm => Some((0, 2)),
            Peripheral::I2s => Some((0, 12)),
            Peripheral::Uart0 => Some((1, 18)),
            Peripheral::Uart1 => Some((1, 19)),
            Peripheral::Uart2 => Some((1, 20)),
            Peripheral::Spi0 => Some((1, 25)),
            Peripheral::I2c0
            | Peripheral::I2c1
            | Peripheral::Timer
            | Peripheral::Lsadc
            | Peripheral::Tsensor
            | Peripheral::Trng
            | Peripheral::SecurityGroup
            | Peripheral::Dma
            | Peripheral::Sdma
            | Peripheral::Sfc
            | Peripheral::Spi1 => None,
        }
    }
}

/// Every gate addresses a real clock-gate location: register 0 or 1, a bit
/// inside the 32-bit register word.
pub proof fn law_cken_in_register(p: Peripheral)
    ensures
        cken_spec(p) matches Some((reg, bit)) ==> reg <= 1 && bit < 32,
{
}

/// Two distinct gated peripherals never share a gate.
pub proof fn law_cken_distinct(p: Peripheral, q: Peripheral)
    requires
        p != q,
        cken_spec(p) is Some,
        cken_spec(q) is Some,
    ensures
        cken_spec(p) != cken_spec(q),
{
}

} // verus!
