//! Verified hardware-abstraction logic for HiSilicon WS63 / BS2X RISC-V SoCs.
//!
//! Every driver computation (register words, divisors, encodings, decodes and
//! the decisions of the bounded polling loops) lives here with a contract.
//! Register access itself is memory-mapped I/O: a driver method here takes the
//! register values that were read and returns the values to write.
#![allow(non_camel_case_types)]

mod bits;
mod private;
pub mod soc;
pub mod poll;
pub mod program;
pub mod time;
pub mod clock;
pub mod clock_init;
pub mod delay;
pub mod timer;
pub mod tcxo;
pub mod uart;
pub mod dma;
pub mod i2c;
pub mod gpio;
pub mod pwm;
pub mod io_config;
pub mod sfc;
pub mod spi;
pub mod lsadc;
pub mod i2s;
pub mod i2c_v151;
pub mod tsensor;
pub mod interrupt;
pub mod rtc;
pub mod trng;
pub mod trng_v1;
pub mod efuse;
pub mod gadc;
pub mod ulp_gpio;
pub mod usb;
pub mod safety;
pub mod km;
pub mod rtc_v150;
pub mod system;
pub mod spacc;
pub mod pke;
pub mod qdec;
pub mod keyscan;
pub mod pdm;
pub mod software_interrupt;
pub mod cache;
pub mod embassy;
