//! IO configuration: pin function select (mux) and pad control (drive
//! strength, pull resistor, Schmitt trigger, input enable) of the GPIO,
//! UART and SFC pads.
//!
//! Pad-control word: drive strength DS[2:0] in bits 6:4, Schmitt trigger
//! bit 3, pull enable bit 9, pull select bit 10 (1 = up), input enable bit
//! 11.
use vstd::prelude::*;

verus! {

/// Pad drive strength (DS[2:0]; smaller is stronger).
#[derive(Debug, Clone, Copy, PartialEq, Eq, Structural)]
pub enum DriveStrength {
    /// Strongest drive (0).
    Strongest,
    /// Medium-strong drive (1).
    Strong,
    /// Medium drive (2).
    Medium,
    /// Medium-weak drive (3).
    Weak,
    /// Weaker drive (4).
    Weaker,
    /// Very weak drive (5).
    VeryWeak,
    /// Weakest drive (6).
    Weakest,
    /// Minimum drive (7).
    Minimum,
}

/// The DS[2:0] code of a drive strength.
pub open spec fn drive_code(d: DriveStrength) -> nat {
    match d {
        DriveStrength::Strongest => 0,
        DriveStrength::Strong => 1,
        DriveStrength::Medium => 2,
        DriveStrength::Weak => 3,
        DriveStrength::Weaker => 4,
        DriveStrength::VeryWeak => 5,
        DriveStrength::Weakest => 6,
        DriveStrength::Minimum => 7,
    }
}

impl DriveStrength {
    /// The DS[2:0] code (0-7).
    pub fn code(self) -> (r: u32)
        ensures
            r == drive_code(self),
    {
        match self {
            DriveStrength::Strongest => 0,
            DriveStrength::Strong => 1,
            DriveStrength::Medium => 2,
            DriveStrength::Weak => 3,
            DriveStrength::Weaker => 4,
            DriveStrength::VeryWeak => 5,
            DriveStrength::Weakest => 6,
            DriveStrength::Minimum => 7,
        }
    }
}

/// Pull resistor configuration.
#[derive(Debug, Clone, Copy, PartialEq, Eq, Structural)]
pub enum PullResistor {
    /// No pull.
    Floating,
    /// Pull-up.
    Up,
    /// Pull-down.
    Down,
}

/// Pin mux selection: the fifteen GPIO pins and the four UART pads.
#[derive(Debug, Clone, Copy, PartialEq, Eq, Structural)]
pub enum PinMux {
    Gpio00,
    Gpio01,
    Gpio02,
    Gpio03,
    Gpio04,
    Gpio05,
    Gpio06,
    Gpio07,
    Gpio08,
    Gpio09,
    Gpio10,
    Gpio11,
    Gpio12,
    Gpio13,
    Gpio14,
    Uart0Txd,
    Uart0Rxd,
    Uart1Txd,
    Uart1Rxd,
}

/// SFC pad selection.
#[derive(Debug, Clone, Copy, PartialEq, Eq, Structural)]
pub enum SfcPad {
    Clk,
    Csn,
    Io0,
    Io1,
    Io2,
    Io3,
}

/// One of the four UART pads.
#[derive(Debug, Clone, Copy, PartialEq, Eq, Structural)]
pub enum UartPad {
    /// UART0 TXD.
    Uart0Txd,
    /// UART0 RXD.
    Uart0Rxd,
    /// UART1 TXD.
    Uart1Txd,
    /// UART1 RXD.
    Uart1Rxd,
}

/// The UART pad a mux selection names, if any.
pub open spec fn uart_pad_of(p: PinMux) -> Option<UartPad> {
    match p {
        PinMux::Uart0Txd => Some(UartPad::Uart0Txd),
        PinMux::Uart0Rxd => Some(UartPad::Uart0Rxd),
        PinMux::Uart1Txd => Some(UartPad::Uart1Txd),
        PinMux::Uart1Rxd => Some(UartPad::Uart1Rxd),
        _ => None,
    }
}

/// An IO_CONFIG register.
#[derive(Debug, Clone, Copy, PartialEq, Eq, Structural)]
pub enum IoRegister {
    /// `gpio_NN_sel` of GPIO pin N (0-14).
    GpioSel(u8),
    /// The mux select of a UART pad.
    UartSel(UartPad),
    /// `pad_gpio_NN_ctrl` of GPIO pad N (0-14).
    PadGpio(u8),
    /// The pad control of a UART pad.
    PadUart(UartPad),
    /// The pad control of an SFC pad.
    PadSfc(SfcPad),
}

/// A write of `value` to `reg`.
#[derive(Debug, Clone, Copy, PartialEq, Eq, Structural)]
pub struct IoWrite {
    /// The register.
    pub reg: IoRegister,
    /// The value.
    pub value: u32,
}

/// The `(pull enable, pull select)` bits of a pull.
pub open spec fn pull_pe_ps(p: PullResistor) -> (nat, nat) {
    match p {
        PullResistor::Floating => (0, 0),
        PullResistor::Up => (1, 1),
        PullResistor::Down => (1, 0),
    }
}

/// The pad-control word: DS in bits 6:4, ST bit 3, PE bit 9, PS bit 10,
/// IE bit 11.
pub open spec fn pad_ctrl_spec(drive: DriveStrength, pull: PullResistor, st: bool, ie: bool) -> nat {
    drive_code(drive) * 16 + (if st { 8nat } else { 0 }) + pull_pe_ps(pull).0 * 512 + pull_pe_ps(pull).1
        * 1024 + (if ie { 2048nat } else { 0 })
}

/// The pad-control word for the given drive strength, pull, Schmitt
/// trigger and input enable.
pub fn build_pad_ctrl(drive: DriveStrength, pull: PullResistor, schmitt_trigger: bool, input_enable: bool) -> (r:
    u32)
    ensures
        r == pad_ctrl_spec(drive, pull, schmitt_trigger, input_enable),
{
    let ds = drive.code();
    let pull_bits: u32 = match pull {
        PullResistor::Floating => 0,
        PullResistor::Up => 0x600,
        PullResistor::Down => 0x200,
    };
    ds * 16 + (if schmitt_trigger { 8 } else { 0 }) + pull_bits + (if input_enable { 0x800 } else { 0 })
}

/// The IO_CONFIG driver.
pub struct IoConfigDriver;

impl IoConfigDriver {
    /// The IO configuration driver.
    pub fn new() -> (d: Self) {
        IoConfigDriver
    }

    /// The write that selects function `function` (3 bits) for GPIO pin
    /// `pin` (0-14).
    pub fn set_gpio_mux(&mut self, pin: u8, function: u8) -> (w: IoWrite)
        requires
            pin < 15,
        ensures
            w == (IoWrite { reg: IoRegister::GpioSel(pin), value: (function % 8) as u32 }),
    {
        IoWrite { reg: IoRegister::GpioSel(pin), value: (function % 8) as u32 }
    }

    /// The function selected for a GPIO pin (0-14), from its `gpio_NN_sel`
    /// value.
    pub fn get_gpio_mux(&self, pin: u8, sel: u32) -> (r: u8)
        requires
            pin < 15,
        ensures
            r == sel % 8,
    {
        (sel % 8) as u8
    }

    /// The write that selects `function` for a UART pad, or `None` when
    /// `pin` is no UART pad.
    pub fn set_uart_mux(&mut self, pin: PinMux, function: u8) -> (w: Option<IoWrite>)
        ensures
            w == match uart_pad_of(pin) {
                Some(p) => Some(IoWrite { reg: IoRegister::UartSel(p), value: (function % 8) as u32 }),
                None => None,
            },
    {
        let val = (function % 8) as u32;
        match pin {
            PinMux::Uart0Txd => Some(IoWrite { reg: IoRegister::UartSel(UartPad::Uart0Txd), value: val }),
            PinMux::Uart0Rxd => Some(IoWrite { reg: IoRegister::UartSel(UartPad::Uart0Rxd), value: val }),
            PinMux::Uart1Txd => Some(IoWrite { reg: IoRegister::UartSel(UartPad::Uart1Txd), value: val }),
            PinMux::Uart1Rxd => Some(IoWrite { reg: IoRegister::UartSel(UartPad::Uart1Rxd), value: val }),
            _ => None,
        }
    }

    /// The write that configures GPIO pad `pin` (0-14).
    pub fn configure_gpio_pad(
        &mut self,
        pin: u8,
        drive: DriveStrength,
        pull: PullResistor,
        schmitt_trigger: bool,
        input_enable: bool,
    ) -> (w: IoWrite)
        requires
            pin < 15,
        ensures
            w.reg == IoRegister::PadGpio(pin),
            w.value == pad_ctrl_spec(drive, pull, schmitt_trigger, input_enable),
    {
        IoWrite { reg: IoRegister::PadGpio(pin), value: build_pad_ctrl(drive, pull, schmitt_trigger, input_enable) }
    }

    /// The write that configures a UART pad, or `None` when `uart_pad` is
    /// no UART pad.
    pub fn configure_uart_pad(
        &mut self,
        uart_pad: PinMux,
        drive: DriveStrength,
        pull: PullResistor,
        schmitt_trigger: bool,
        input_enable: bool,
    ) -> (w: Option<IoWrite>)
        ensures
            w.is_some() <==> uart_pad_of(uart_pad).is_some(),
            w matches Some(x) ==> x.reg == IoRegister::PadUart(uart_pad_of(uart_pad).unwrap()) && x.value
                == pad_ctrl_spec(drive, pull, schmitt_trigger, input_enable),
    {
        let val = build_pad_ctrl(drive, pull, schmitt_trigger, input_enable);
        match uart_pad {
            PinMux::Uart0Txd => Some(IoWrite { reg: IoRegister::PadUart(UartPad::Uart0Txd), value: val }),
            PinMux::Uart0Rxd => Some(IoWrite { reg: IoRegister::PadUart(UartPad::Uart0Rxd), value: val }),
            PinMux::Uart1Txd => Some(IoWrite { reg: IoRegister::PadUart(UartPad::Uart1Txd), value: val }),
            PinMux::Uart1Rxd => Some(IoWrite { reg: IoRegister::PadUart(UartPad::Uart1Rxd), value: val }),
            _ => None,
        }
    }

    /// The write that configures an SFC pad.
    pub fn configure_sfc_pad(
        &mut self,
        sfc_pad: SfcPad,
        drive: DriveStrength,
        pull: PullResistor,
        schmitt_trigger: bool,
        input_enable: bool,
    ) -> (w: IoWrite)
        ensures
            w.reg == IoRegister::PadSfc(sfc_pad),
            w.value == pad_ctrl_spec(drive, pull, schmitt_trigger, input_enable),
    {
        IoWrite { reg: IoRegister::PadSfc(sfc_pad), value: build_pad_ctrl(drive, pull, schmitt_trigger, input_enable) }
    }

    /// The pad-control value of GPIO pad `pin` (0-14), from its register.
    pub fn read_gpio_pad(&self, pin: u8, pad: u32) -> (r: u32)
        requires
            pin < 15,
        ensures
            r == pad,
    {
        pad
    }
}

/// Every pad-control field reads back from the word, and nothing outside
/// the defined fields (bits 3-6 and 9-11) is ever set.
pub proof fn law_pad_ctrl_fields(drive: DriveStrength, pull: PullResistor, st: bool, ie: bool)
    ensures
        ({
            let v = pad_ctrl_spec(drive, pull, st, ie);
            &&& (v / 16) % 8 == drive_code(drive)
            &&& ((v / 8) % 2 == 1) == st
            &&& (v / 512) % 2 == pull_pe_ps(pull).0
            &&& (v / 1024) % 2 == pull_pe_ps(pull).1
            &&& (v / 2048 == 1) == ie
            &&& v < 4096
            &&& v % 8 == 0
            &&& (v / 128) % 4 == 0
        }),
{
}

} // verus!
