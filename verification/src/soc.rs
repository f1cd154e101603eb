//! SoC description of the WS63: clock rates and peripheral instance counts.
use vstd::prelude::*;

verus! {

/// CPU / PLL system clock (240 MHz).
pub const SYSTEM_CLOCK_HZ: u32 = 240_000_000;

/// TCXO crystal frequency (24 MHz): the counting clock of the timer, the
/// watchdog and the TCXO time base.
pub const TCXO_HZ: u32 = 24_000_000;

/// Timer / watchdog counting clock (the TCXO crystal).
pub const TIMER_CLOCK_HZ: u32 = 24_000_000;

/// UART baud-base clock (160 MHz, PLL-derived).
pub const UART_CLOCK_HZ: u32 = 160_000_000;

/// Boot-console UART clock inherited from flashboot (the raw 40 MHz TCXO).
pub const UART_BOOT_CLOCK_HZ: u32 = 40_000_000;

/// SPI controller input clock SSI_CLK (160 MHz, PLL-derived).
pub const SPI_CLOCK_HZ: u32 = 160_000_000;

/// I2C peripheral clock (the TCXO crystal).
pub const I2C_CLOCK_HZ: u32 = 24_000_000;

/// Number of GPIO pins.
pub const GPIO_COUNT: usize = 19;

/// Number of ULP GPIO pins.
pub const ULP_GPIO_COUNT: usize = 8;

/// Number of UART instances.
pub const UART_COUNT: usize = 3;

/// Number of I2C instances.
pub const I2C_COUNT: usize = 2;

/// Number of SPI instances.
pub const SPI_COUNT: usize = 2;

/// Number of PWM channels.
pub const PWM_CHANNEL_COUNT: usize = 8;

/// Number of DMA channels per controller.
pub const DMA_CHANNEL_COUNT: usize = 4;

/// Number of timer instances.
pub const TIMER_COUNT: usize = 3;

/// Number of LSADC channels.
pub const LSADC_CHANNEL_COUNT: usize = 6;

/// TCXO counter width in bits.
pub const TCXO_COUNTER_WIDTH: usize = 64;

/// RTC counter width in bits.
pub const RTC_COUNTER_WIDTH: usize = 48;

/// Interrupt number of the timer channel that the alarm uses (TIMER_INT0).
pub const ALARM_INTERRUPT: u16 = 26;

} // verus!
