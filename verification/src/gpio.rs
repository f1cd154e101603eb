//! GPIO (19 pins: GPIO0 bits 7-0, GPIO1 bits 15-8, GPIO2 bits 18-16).
//!
//! A pin `n` lives in block `n / 8` at bit `n % 8`. The pin drivers compute
//! the words for the block's `sw_oen` (1 = input), `data_set` / `data_clr`,
//! interrupt registers and the pad's pull/input-buffer bits in IO_CONFIG.
use vstd::prelude::*;

verus! {

/// Pull resistor configuration.
#[derive(Debug, Clone, Copy, PartialEq, Eq, Structural)]
pub enum Pull {
    /// No pull resistor (high-impedance input): {PE,PS} = 00.
    Floating,
    /// Pull-up: {PE,PS} = 11.
    Up,
    /// Pull-down: {PE,PS} = 10.
    Down,
}

/// Interrupt trigger condition (`GPIO_INT_TYPE` + `GPIO_INT_POLARITY`).
#[derive(Debug, Clone, Copy, PartialEq, Eq, Structural)]
pub enum InterruptTrigger {
    /// Edge-sensitive, low to high.
    RisingEdge,
    /// Edge-sensitive, high to low.
    FallingEdge,
    /// Level-sensitive, asserted while high.
    HighLevel,
    /// Level-sensitive, asserted while low.
    LowLevel,
}

/// The three GPIO interrupt banks.
#[derive(Debug, Clone, Copy, PartialEq, Eq, Structural)]
pub enum GpioBank {
    /// Bank 0 (GPIO_INT0).
    Bank0,
    /// Bank 1 (GPIO_INT1).
    Bank1,
    /// Bank 2 (GPIO_INT2).
    Bank2,
}

/// The index of a bank.
pub open spec fn bank_index(b: GpioBank) -> u8 {
    match b {
        GpioBank::Bank0 => 0u8,
        GpioBank::Bank1 => 1u8,
        GpioBank::Bank2 => 2u8,
    }
}

impl GpioBank {
    /// The bank with index `index`, or `None` outside `0..=2`.
    pub fn from_index(index: u8) -> (r: Option<Self>)
        ensures
            index <= 2 <==> r.is_some(),
            r matches Some(b) ==> bank_index(b) == index,
    {
        match index {
            0 => Some(GpioBank::Bank0),
            1 => Some(GpioBank::Bank1),
            2 => Some(GpioBank::Bank2),
            _ => None,
        }
    }

    /// The bank index (0-2).
    pub fn index(self) -> (r: u8)
        ensures
            r == bank_index(self),
    {
        match self {
            GpioBank::Bank0 => 0,
            GpioBank::Bank1 => 1,
            GpioBank::Bank2 => 2,
        }
    }
}

/// Digital input configuration.
#[derive(Debug, Clone, Copy, PartialEq, Eq, Structural)]
pub struct InputConfig {
    /// Pull resistor applied to the pad.
    pub pull: Pull,
}

impl Default for InputConfig {
    /// No pull resistor.
    fn default() -> (c: Self)
        ensures
            c.pull == Pull::Floating,
    {
        InputConfig { pull: Pull::Floating }
    }
}

impl InputConfig {
    /// No pull resistor.
    pub fn new() -> (c: Self)
        ensures
            c.pull == Pull::Floating,
    {
        InputConfig { pull: Pull::Floating }
    }

    /// This configuration with the pull set to `pull`.
    pub fn with_pull(self, pull: Pull) -> (c: Self)
        ensures
            c.pull == pull,
    {
        InputConfig { pull }
    }
}

/// Digital output configuration.
#[derive(Debug, Clone, Copy, PartialEq, Eq, Structural)]
pub struct OutputConfig {
    /// Drive the pin high on initialization (otherwise low).
    pub initial_high: bool,
}

impl Default for OutputConfig {
    /// Starts low.
    fn default() -> (c: Self)
        ensures
            !c.initial_high,
    {
        OutputConfig { initial_high: false }
    }
}

impl OutputConfig {
    /// Push-pull, starts low.
    pub fn new() -> (c: Self)
        ensures
            !c.initial_high,
    {
        OutputConfig { initial_high: false }
    }

    /// This configuration with the initial level set (`true` = high).
    pub fn with_initial(self, high: bool) -> (c: Self)
        ensures
            c.initial_high == high,
    {
        OutputConfig { initial_high: high }
    }
}

/// A write that drives a pin's level.
#[derive(Debug, Clone, Copy, PartialEq, Eq, Structural)]
pub enum LevelWrite {
    /// Write the mask to `GPIO_DATA_SET` (drive high).
    DataSet(u32),
    /// Write the mask to `GPIO_DATA_CLR` (drive low).
    DataClr(u32),
}

/// A type-erased pin (0-18).
pub struct AnyPin {
    block: u8,
    bit: u8,
}

/// Pad-control bit: pull enable.
pub const PAD_PE_BIT: u32 = 0x200;
/// Pad-control bit: pull select.
pub const PAD_PS_BIT: u32 = 0x400;
/// Pad-control bit: input-buffer enable.
pub const PAD_IE_BIT: u32 = 0x800;

/// The `(pull enable, pull select)` bits of a pull.
pub open spec fn pull_bits(p: Pull) -> (bool, bool) {
    match p {
        Pull::Floating => (false, false),
        Pull::Up => (true, true),
        Pull::Down => (true, false),
    }
}

/// The pad-control word that applies `pull` and enables the input buffer,
/// keeping every other bit of `pad`.
pub open spec fn pull_rmw(pad: u32, pull: Pull) -> u32 {
    (pad & !(PAD_PE_BIT | PAD_PS_BIT)) | (if pull_bits(pull).0 { PAD_PE_BIT } else { 0 }) | (if pull_bits(
        pull,
    ).1 {
        PAD_PS_BIT
    } else {
        0
    }) | PAD_IE_BIT
}

/// The pad-control word for an input on `pin`: `None` for pins 15-18,
/// which have no pad-control register, else the pull applied and the input
/// buffer enabled with every other bit of `pad` kept.
pub fn apply_pull(pin: u8, pull: Pull, pad: u32) -> (r: Option<u32>)
    ensures
        pin > 14 ==> r is None,
        pin <= 14 ==> r == Some(pull_rmw(pad, pull)),
{
    if pin > 14 {
        return None;
    }
    let (pe, ps) = match pull {
        Pull::Floating => (false, false),
        Pull::Up => (true, true),
        Pull::Down => (true, false),
    };
    let cleared = pad & !(PAD_PE_BIT | PAD_PS_BIT);
    let with_pe = cleared | (if pe { PAD_PE_BIT } else { 0 });
    let with_ps = with_pe | (if ps { PAD_PS_BIT } else { 0 });
    Some(with_ps | PAD_IE_BIT)
}

/// The `(edge, high)` bits of a trigger: edge- vs level-sensitive, and
/// rising/high vs falling/low.
pub open spec fn trigger_bits(t: InterruptTrigger) -> (bool, bool) {
    match t {
        InterruptTrigger::RisingEdge => (true, true),
        InterruptTrigger::FallingEdge => (true, false),
        InterruptTrigger::HighLevel => (false, true),
        InterruptTrigger::LowLevel => (false, false),
    }
}

/// `reg` with `mask` set when `on`, cleared otherwise.
pub open spec fn with_bit(reg: u32, mask: u32, on: bool) -> u32 {
    if on {
        reg | mask
    } else {
        reg & !mask
    }
}

impl AnyPin {
    /// The pin number, in specifications.
    pub closed spec fn pin(&self) -> u8 {
        (self.block * 8 + self.bit) as u8
    }

    /// The pin's bit within its block, in specifications.
    pub closed spec fn bit_spec(&self) -> u8 {
        self.bit
    }

    /// The pin's block, in specifications.
    pub closed spec fn block_spec(&self) -> u8 {
        self.block
    }

    #[verifier::type_invariant]
    closed spec fn inv(self) -> bool {
        self.bit < 8 && self.block * 8 + self.bit <= 18
    }

    /// The pin `pin` (0-18).
    pub fn steal(pin: u8) -> (p: Self)
        requires
            pin <= 18,
        ensures
            p.pin() == pin,
            p.block_spec() == pin / 8,
            p.bit_spec() == pin % 8,
    {
        AnyPin { block: pin / 8, bit: pin % 8 }
    }

    /// The pin number (0-18).
    pub fn number(&self) -> (r: u8)
        ensures
            r == self.pin(),
            r <= 18,
            r == self.block_spec() * 8 + self.bit_spec(),
    {
        proof { use_type_invariant(self); }
        self.block * 8 + self.bit
    }

    /// The block (0-2) whose registers serve this pin.
    pub fn block(&self) -> (r: u8)
        ensures
            r == self.block_spec(),
            r <= 2,
    {
        proof { use_type_invariant(self); }
        self.block
    }

    /// The pin's mask within its block: `1 << bit`.
    pub fn mask(&self) -> (r: u32)
        ensures
            r == 1u32 << self.bit_spec() as u32,
            self.bit_spec() < 8,
    {
        proof { use_type_invariant(self); }
        1u32 << self.bit as u32
    }

    /// The `sw_oen` word that makes this pin an input (`true`) or an output.
    pub fn set_oen(&self, input: bool, oen: u32) -> (r: u32)
        ensures
            r == with_bit(oen, 1u32 << self.bit_spec() as u32, input),
    {
        let m = self.mask();
        if input {
            oen | m
        } else {
            oen & !m
        }
    }

    /// Make this pin an input: the `sw_oen` word (direction input) and the
    /// pad-control word (pull and input buffer, pins 0-14 only).
    pub fn init_input(self, config: InputConfig, oen: u32, pad: u32) -> (r: (Input, u32, Option<u32>))
        ensures
            r.0.pin == self,
            r.0.config == config,
            r.1 == oen | (1u32 << self.bit_spec() as u32),
            self.pin() > 14 ==> r.2 is None,
            self.pin() <= 14 ==> r.2 == Some(pull_rmw(pad, config.pull)),
    {
        let w = self.set_oen(true, oen);
        let n = self.number();
        let p = apply_pull(n, config.pull, pad);
        (Input { pin: self, config }, w, p)
    }

    /// Make this pin an output: first the initial level write, then the
    /// `sw_oen` word (direction output).
    pub fn init_output(self, config: OutputConfig, oen: u32) -> (r: (Output, LevelWrite, u32))
        ensures
            r.0.pin == self,
            r.0.config == config,
            r.1 == if config.initial_high {
                LevelWrite::DataSet(1u32 << self.bit_spec() as u32)
            } else {
                LevelWrite::DataClr(1u32 << self.bit_spec() as u32)
            },
            r.2 == oen & !(1u32 << self.bit_spec() as u32),
    {
        let m = self.mask();
        let level = if config.initial_high {
            LevelWrite::DataSet(m)
        } else {
            LevelWrite::DataClr(m)
        };
        let w = self.set_oen(false, oen);
        (Output { pin: self, config }, level, w)
    }

    /// Make this pin a combined input/output: the initial level write, then
    /// the `sw_oen` word (direction output).
    pub fn init_flex(self, config: OutputConfig, oen: u32) -> (r: (Flex, LevelWrite, u32))
        ensures
            r.0.pin == self,
            r.1 == if config.initial_high {
                LevelWrite::DataSet(1u32 << self.bit_spec() as u32)
            } else {
                LevelWrite::DataClr(1u32 << self.bit_spec() as u32)
            },
            r.2 == oen & !(1u32 << self.bit_spec() as u32),
    {
        let m = self.mask();
        let level = if config.initial_high {
            LevelWrite::DataSet(m)
        } else {
            LevelWrite::DataClr(m)
        };
        let w = self.set_oen(false, oen);
        (Flex { pin: self, config }, level, w)
    }

    /// The pin's level in the block's `sw_out` register.
    pub fn level(&self, sw_out: u32) -> (r: bool)
        ensures
            r == ((sw_out >> self.bit_spec() as u32) & 1 != 0),
    {
        proof { use_type_invariant(self); }
        (sw_out >> self.bit as u32) & 1 != 0
    }
}

/// Digital input pin.
pub struct Input {
    /// The pin.
    pub pin: AnyPin,
    /// Its configuration.
    pub config: InputConfig,
}

impl Input {
    /// Whether the pin reads high in `sw_out`.
    pub fn is_high(&self, sw_out: u32) -> (r: bool)
        ensures
            r == ((sw_out >> self.pin.bit_spec() as u32) & 1 != 0),
    {
        self.pin.level(sw_out)
    }

    /// Whether the pin reads low in `sw_out`.
    pub fn is_low(&self, sw_out: u32) -> (r: bool)
        ensures
            r == !((sw_out >> self.pin.bit_spec() as u32) & 1 != 0),
    {
        !self.is_high(sw_out)
    }

    /// The pin number (0-18).
    pub fn number(&self) -> (r: u8)
        ensures
            r == self.pin.pin(),
    {
        self.pin.number()
    }

    /// The `int_en` word that enables this pin's interrupt.
    pub fn enable_interrupt(&self, int_en: u32) -> (r: u32)
        ensures
            r == int_en | (1u32 << self.pin.bit_spec() as u32),
    {
        int_en | self.pin.mask()
    }

    /// The `int_en` word that disables this pin's interrupt.
    pub fn disable_interrupt(&self, int_en: u32) -> (r: u32)
        ensures
            r == int_en & !(1u32 << self.pin.bit_spec() as u32),
    {
        int_en & !self.pin.mask()
    }

    /// The `int_eoi` word that clears this pin's pending interrupt.
    pub fn clear_interrupt(&self) -> (r: u32)
        ensures
            r == 1u32 << self.pin.bit_spec() as u32,
    {
        self.pin.mask()
    }

    /// The `(int_type, int_polarity)` words for `trigger`: edge-sensitive
    /// sets the type bit, rising/high sets the polarity bit.
    pub fn set_interrupt_trigger(&self, trigger: InterruptTrigger, int_type: u32, int_polarity: u32) -> (r: (
        u32,
        u32,
    ))
        ensures
            r.0 == with_bit(int_type, 1u32 << self.pin.bit_spec() as u32, trigger_bits(trigger).0),
            r.1 == with_bit(int_polarity, 1u32 << self.pin.bit_spec() as u32, trigger_bits(trigger).1),
    {
        let m = self.pin.mask();
        let (edge, high) = match trigger {
            InterruptTrigger::RisingEdge => (true, true),
            InterruptTrigger::FallingEdge => (true, false),
            InterruptTrigger::HighLevel => (false, true),
            InterruptTrigger::LowLevel => (false, false),
        };
        let t = if edge {
            int_type | m
        } else {
            int_type & !m
        };
        let p = if high {
            int_polarity | m
        } else {
            int_polarity & !m
        };
        (t, p)
    }

    /// Whether this pin's interrupt is pending in `int_raw`.
    pub fn interrupt_pending(&self, int_raw: u32) -> (r: bool)
        ensures
            r == ((int_raw >> self.pin.bit_spec() as u32) & 1 != 0),
    {
        self.pin.level(int_raw)
    }

    /// Give back the type-erased pin (the pad keeps its configuration).
    pub fn degrade(self) -> (p: AnyPin)
        ensures
            p == self.pin,
    {
        self.pin
    }
}

/// Push-pull output pin.
pub struct Output {
    /// The pin.
    pub pin: AnyPin,
    /// Its configuration.
    pub config: OutputConfig,
}

/// Marker that an output was left driving its last level past its driver.
#[derive(Debug)]
pub struct OutputLatched;

impl Output {
    /// Drive the pin high.
    pub fn set_high(&mut self) -> (r: LevelWrite)
        ensures
            r == LevelWrite::DataSet(1u32 << old(self).pin.bit_spec() as u32),
            *final(self) == *old(self),
    {
        LevelWrite::DataSet(self.pin.mask())
    }

    /// Drive the pin low.
    pub fn set_low(&mut self) -> (r: LevelWrite)
        ensures
            r == LevelWrite::DataClr(1u32 << old(self).pin.bit_spec() as u32),
            *final(self) == *old(self),
    {
        LevelWrite::DataClr(self.pin.mask())
    }

    /// Invert the level the pin drives in `sw_out`.
    pub fn toggle(&mut self, sw_out: u32) -> (r: LevelWrite)
        ensures
            *final(self) == *old(self),
            sw_out & (1u32 << old(self).pin.bit_spec() as u32) != 0 ==> r == LevelWrite::DataClr(
                1u32 << old(self).pin.bit_spec() as u32,
            ),
            sw_out & (1u32 << old(self).pin.bit_spec() as u32) == 0 ==> r == LevelWrite::DataSet(
                1u32 << old(self).pin.bit_spec() as u32,
            ),
    {
        let m = self.pin.mask();
        if sw_out & m != 0 {
            LevelWrite::DataClr(m)
        } else {
            LevelWrite::DataSet(m)
        }
    }

    /// Whether the pin is driven high in `sw_out`.
    pub fn is_set_high(&self, sw_out: u32) -> (r: bool)
        ensures
            r == ((sw_out >> self.pin.bit_spec() as u32) & 1 != 0),
    {
        self.pin.level(sw_out)
    }

    /// The pin number (0-18).
    pub fn number(&self) -> (r: u8)
        ensures
            r == self.pin.pin(),
    {
        self.pin.number()
    }

    /// The same pin as a combined input/output, still driving.
    pub fn into_flex(self) -> (f: Flex)
        ensures
            f.pin == self.pin,
            f.config == self.config,
    {
        Flex { pin: self.pin, config: self.config }
    }

    /// Give back the type-erased pin, still driving.
    pub fn degrade(self) -> (p: AnyPin)
        ensures
            p == self.pin,
    {
        self.pin
    }

    /// Keep the pin driving its current level past this driver.
    pub fn into_latched(self) -> (m: OutputLatched) {
        OutputLatched
    }

    /// Release the output to the safe state: the `sw_oen` word that reverts
    /// the pad to input / high impedance.
    pub fn release(self, oen: u32) -> (r: u32)
        ensures
            r == oen | (1u32 << self.pin.bit_spec() as u32),
    {
        self.pin.set_oen(true, oen)
    }
}

/// Combined input and output pin.
pub struct Flex {
    /// The pin.
    pub pin: AnyPin,
    /// Its configuration.
    pub config: OutputConfig,
}

impl Flex {
    /// Switch to output (the `sw_oen` word) and drive high.
    pub fn set_high(&mut self, oen: u32) -> (r: (u32, LevelWrite))
        ensures
            *final(self) == *old(self),
            r.0 == oen & !(1u32 << old(self).pin.bit_spec() as u32),
            r.1 == LevelWrite::DataSet(1u32 << old(self).pin.bit_spec() as u32),
    {
        (self.pin.set_oen(false, oen), LevelWrite::DataSet(self.pin.mask()))
    }

    /// Switch to output (the `sw_oen` word) and drive low.
    pub fn set_low(&mut self, oen: u32) -> (r: (u32, LevelWrite))
        ensures
            *final(self) == *old(self),
            r.0 == oen & !(1u32 << old(self).pin.bit_spec() as u32),
            r.1 == LevelWrite::DataClr(1u32 << old(self).pin.bit_spec() as u32),
    {
        (self.pin.set_oen(false, oen), LevelWrite::DataClr(self.pin.mask()))
    }

    /// Switch to output and invert the level driven in `sw_out`.
    pub fn toggle(&mut self, oen: u32, sw_out: u32) -> (r: (u32, LevelWrite))
        ensures
            *final(self) == *old(self),
            r.0 == oen & !(1u32 << old(self).pin.bit_spec() as u32),
            sw_out & (1u32 << old(self).pin.bit_spec() as u32) != 0 ==> r.1 == LevelWrite::DataClr(
                1u32 << old(self).pin.bit_spec() as u32,
            ),
            sw_out & (1u32 << old(self).pin.bit_spec() as u32) == 0 ==> r.1 == LevelWrite::DataSet(
                1u32 << old(self).pin.bit_spec() as u32,
            ),
    {
        let w = self.pin.set_oen(false, oen);
        let m = self.pin.mask();
        if sw_out & m != 0 {
            (w, LevelWrite::DataClr(m))
        } else {
            (w, LevelWrite::DataSet(m))
        }
    }

    /// Whether the pin is driven high in `sw_out`.
    pub fn is_set_high(&self, sw_out: u32) -> (r: bool)
        ensures
            r == ((sw_out >> self.pin.bit_spec() as u32) & 1 != 0),
    {
        self.pin.level(sw_out)
    }

    /// Sampling the pin as an input: the `sw_oen` word that switches it to
    /// input, and the word that afterwards restores its saved direction bit.
    pub fn sample_oen(&self, oen: u32) -> (r: (u32, u32))
        ensures
            r.0 == oen | (1u32 << self.pin.bit_spec() as u32),
            r.1 == with_bit(
                r.0,
                1u32 << self.pin.bit_spec() as u32,
                oen & (1u32 << self.pin.bit_spec() as u32) != 0,
            ),
    {
        let m = self.pin.mask();
        let input = oen | m;
        let restore = if oen & m != 0 {
            input | m
        } else {
            input & !m
        };
        (input, restore)
    }

    /// Whether the pin reads high in `sw_out` (sampled as an input).
    pub fn is_high(&self, sw_out: u32) -> (r: bool)
        ensures
            r == ((sw_out >> self.pin.bit_spec() as u32) & 1 != 0),
    {
        self.pin.level(sw_out)
    }

    /// Whether the pin reads low in `sw_out`.
    pub fn is_low(&self, sw_out: u32) -> (r: bool)
        ensures
            r == !((sw_out >> self.pin.bit_spec() as u32) & 1 != 0),
    {
        !self.is_high(sw_out)
    }

    /// The `sw_oen` word that makes the pad an output.
    pub fn set_as_output(&mut self, oen: u32) -> (r: u32)
        ensures
            *final(self) == *old(self),
            r == oen & !(1u32 << old(self).pin.bit_spec() as u32),
    {
        self.pin.set_oen(false, oen)
    }

    /// The `sw_oen` word that makes the pad an input / high impedance.
    pub fn set_as_input(&mut self, oen: u32) -> (r: u32)
        ensures
            *final(self) == *old(self),
            r == oen | (1u32 << old(self).pin.bit_spec() as u32),
    {
        self.pin.set_oen(true, oen)
    }

    /// The pin number (0-18).
    pub fn number(&self) -> (r: u8)
        ensures
            r == self.pin.pin(),
    {
        self.pin.number()
    }

    /// Give back the type-erased pin.
    pub fn degrade(self) -> (p: AnyPin)
        ensures
            p == self.pin,
    {
        self.pin
    }
}

/// A peripheral output signal routable to a GPIO pin.
#[derive(Debug, Clone, Copy, PartialEq, Eq, Structural)]
pub struct OutputSignal(pub u8);

/// A peripheral input signal routable from a GPIO pin.
#[derive(Debug, Clone, Copy, PartialEq, Eq, Structural)]
pub struct InputSignal(pub u8);

/// Types that drive a peripheral output signal.
pub trait PeripheralOutput: crate::private::Sealed {
    /// The output signal this type drives.
    fn output_signal(&self) -> OutputSignal;
}

/// Types that source a peripheral input signal.
pub trait PeripheralInput: crate::private::Sealed {
    /// The input signal this type sources.
    fn input_signal(&self) -> InputSignal;
}

impl crate::private::Sealed for Output {
}

impl crate::private::Sealed for Input {
}

impl crate::private::Sealed for Flex {
}

/// The IO mux configuration handle.
pub struct Io;

impl Io {
    /// The IO mux handle.
    pub fn new() -> (r: Self) {
        Io
    }
}

/// The words the GPIO bank interrupt handler writes for `int_raw`: the
/// `int_en` word with the fired pins masked, and the `int_eoi` word that
/// clears their latches.
pub fn on_interrupt(int_raw: u32, int_en: u32) -> (r: (u32, u32))
    ensures
        r.0 == int_en & !int_raw,
        r.1 == int_raw,
{
    (int_en & !int_raw, int_raw)
}

/// Every pin splits into a block and bit that recombine to it, with the
/// block boundaries at 8 and 16.
pub proof fn law_pin_split_round_trip(pin: u8)
    requires
        pin <= 18,
    ensures
        (pin / 8) * 8 + pin % 8 == pin,
        pin % 8 < 8,
        pin / 8 <= 2,
        pin < 8 ==> pin / 8 == 0,
        8 <= pin < 16 ==> pin / 8 == 1,
        16 <= pin ==> pin / 8 == 2,
{
}

/// Applying a pull keeps every pad bit outside PE, PS and IE, sets exactly
/// the pull's PE/PS pattern, and always enables the input buffer.
pub proof fn law_apply_pull_rmw(pad: u32, pe: bool, ps: bool)
    by (bit_vector)
    ensures
        ({
            let v = (pad & !(0x200u32 | 0x400u32)) | (if pe { 0x200u32 } else { 0 }) | (if ps {
                0x400u32
            } else {
                0
            }) | 0x800u32;
            &&& v & !0xE00u32 == pad & !0xE00u32
            &&& (v & 0x200u32 != 0) == pe
            &&& (v & 0x400u32 != 0) == ps
            &&& v & 0x800u32 != 0
        }),
{
}

/// Changing one pin's direction or interrupt bits leaves every other pin's
/// bits of the shared register as they were.
pub proof fn law_with_bit_isolated(reg: u32, bit: u32, other: u32, on: bool)
    requires
        bit < 8,
        other < 32,
        other != bit,
    ensures
        (with_bit(reg, 1u32 << bit, on) >> other) & 1 == (reg >> other) & 1,
        (with_bit(reg, 1u32 << bit, on) >> bit) & 1 == (if on { 1u32 } else { 0u32 }),
{
    assert((if on { reg | (1u32 << bit) } else { reg & !(1u32 << bit) } >> other) & 1 == (reg >> other)
        & 1) by (bit_vector)
        requires
            bit < 8,
            other < 32,
            other != bit,
    ;
    assert((if on { reg | (1u32 << bit) } else { reg & !(1u32 << bit) } >> bit) & 1 == (if on {
        1u32
    } else {
        0u32
    })) by (bit_vector)
        requires
            bit < 8,
    ;
}

} // verus!
