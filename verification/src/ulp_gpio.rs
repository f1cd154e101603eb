//! Ultra-low-power GPIO: eight pins, GPIO107 to GPIO114, at bits 0 to 7 of
//! a block laid out like the standard GPIO blocks.
//!
//! Each method takes the register values it reads and returns the word to
//! write: a one-hot mask for the write-1 registers, the modified word for the
//! read-modify-write ones.
use vstd::prelude::*;
use core::marker::PhantomData;
use crate::gpio::LevelWrite;

verus! {

/// Number of the first ULP pin (bit 0).
pub const ULP_BASE_PIN: u8 = 107;

/// Number of ULP pins.
pub const ULP_PIN_COUNT: u8 = 8;

/// Marker: the pin is an input.
pub struct Input;

/// Marker: the pin is an output.
pub struct Output;

/// A ULP GPIO pin in mode `MODE`.
pub struct UlpGpioPin<MODE> {
    bit: u8,
    _mode: PhantomData<MODE>,
}

/// The bit of pin `pin` in the block.
pub open spec fn pin_bit(pin: u8) -> int {
    pin - ULP_BASE_PIN
}

impl<MODE> UlpGpioPin<MODE> {
    #[verifier::type_invariant]
    closed spec fn inv(self) -> bool {
        self.bit < 8
    }

    /// The pin's bit in the block (0-7).
    pub closed spec fn bit_spec(&self) -> u8 {
        self.bit
    }

    /// The pin's one-hot mask.
    pub open spec fn mask_spec(&self) -> u32 {
        1u32 << self.bit_spec() as u32
    }

    /// The pin number (107-114).
    pub fn number(&self) -> (r: u8)
        ensures
            r == ULP_BASE_PIN + self.bit_spec(),
            ULP_BASE_PIN <= r < ULP_BASE_PIN + ULP_PIN_COUNT,
    {
        proof { use_type_invariant(self); }
        107 + self.bit
    }

    fn mask(&self) -> (r: u32)
        ensures
            r == self.mask_spec(),
    {
        proof { use_type_invariant(self); }
        1u32 << self.bit
    }
}

impl UlpGpioPin<Output> {
    /// Drive the pin high: its mask to `gpio_data_set`.
    pub fn set_high(&mut self) -> (r: u32)
        ensures
            *final(self) == *old(self),
            r == old(self).mask_spec(),
    {
        self.mask()
    }

    /// Drive the pin low: its mask to `gpio_data_clr`.
    pub fn set_low(&mut self) -> (r: u32)
        ensures
            *final(self) == *old(self),
            r == old(self).mask_spec(),
    {
        self.mask()
    }

    /// Invert the level driven in `sw_out`.
    pub fn toggle(&mut self, sw_out: u32) -> (r: LevelWrite)
        ensures
            *final(self) == *old(self),
            sw_out & old(self).mask_spec() != 0 ==> r == LevelWrite::DataClr(old(self).mask_spec()),
            sw_out & old(self).mask_spec() == 0 ==> r == LevelWrite::DataSet(old(self).mask_spec()),
    {
        let m = self.mask();
        if sw_out & m != 0 {
            LevelWrite::DataClr(m)
        } else {
            LevelWrite::DataSet(m)
        }
    }

    /// Whether the pin is driven high in `sw_out`.
    pub fn is_set_high(&self, sw_out: u32) -> (r: bool)
        ensures
            r == ((sw_out >> self.bit_spec() as u32) & 1 != 0),
    {
        proof { use_type_invariant(self); }
        (sw_out >> self.bit) & 1 != 0
    }

    /// Switch to input: the new `gpio_sw_oen` word (the pin's bit set) and
    /// the pin.
    pub fn into_input(self, oen: u32) -> (r: (u32, UlpGpioPin<Input>))
        ensures
            r.0 == oen | self.mask_spec(),
            r.1.bit_spec() == self.bit_spec(),
    {
        proof { use_type_invariant(&self); }
        let m = self.mask();
        (oen | m, UlpGpioPin { bit: self.bit, _mode: PhantomData })
    }
}

impl UlpGpioPin<Input> {
    /// Whether the pin reads high (the block reports it in `gpio_sw_out`).
    pub fn is_high(&self, sw_out: u32) -> (r: bool)
        ensures
            r == ((sw_out >> self.bit_spec() as u32) & 1 != 0),
    {
        proof { use_type_invariant(self); }
        (sw_out >> self.bit) & 1 != 0
    }

    /// Whether the pin reads low.
    pub fn is_low(&self, sw_out: u32) -> (r: bool)
        ensures
            r == ((sw_out >> self.bit_spec() as u32) & 1 == 0),
    {
        !self.is_high(sw_out)
    }

    /// The `gpio_int_en` word with the pin's interrupt enabled.
    pub fn enable_interrupt(&self, int_en: u32) -> (r: u32)
        ensures
            r == int_en | self.mask_spec(),
    {
        int_en | self.mask()
    }

    /// The `gpio_int_en` word with the pin's interrupt disabled.
    pub fn disable_interrupt(&self, int_en: u32) -> (r: u32)
        ensures
            r == int_en & !self.mask_spec(),
    {
        int_en & !self.mask()
    }

    /// Clear the pin's interrupt: its mask to `gpio_int_eoi`.
    pub fn clear_interrupt(&self) -> (r: u32)
        ensures
            r == self.mask_spec(),
    {
        self.mask()
    }

    /// Whether the pin's interrupt is pending in `gpio_int_raw`.
    pub fn interrupt_pending(&self, int_raw: u32) -> (r: bool)
        ensures
            r == ((int_raw >> self.bit_spec() as u32) & 1 != 0),
    {
        proof { use_type_invariant(self); }
        (int_raw >> self.bit) & 1 != 0
    }

    /// Switch to output: the new `gpio_sw_oen` word (the pin's bit clear)
    /// and the pin.
    pub fn into_output(self, oen: u32) -> (r: (u32, UlpGpioPin<Output>))
        ensures
            r.0 == oen & !self.mask_spec(),
            r.1.bit_spec() == self.bit_spec(),
    {
        proof { use_type_invariant(&self); }
        let m = self.mask();
        (oen & !m, UlpGpioPin { bit: self.bit, _mode: PhantomData })
    }
}

/// Pin `pin` (107-114) as an input: the `gpio_sw_oen` word with its bit set,
/// and the pin.
pub fn create_input_pin(pin: u8, oen: u32) -> (r: (u32, UlpGpioPin<Input>))
    requires
        ULP_BASE_PIN <= pin < ULP_BASE_PIN + ULP_PIN_COUNT,
    ensures
        r.1.bit_spec() == pin_bit(pin),
        r.0 == oen | r.1.mask_spec(),
{
    let bit = pin - 107;
    let p: UlpGpioPin<Output> = UlpGpioPin { bit, _mode: PhantomData };
    let m = p.mask();
    (oen | m, UlpGpioPin { bit, _mode: PhantomData })
}

/// Pin `pin` (107-114) as an output: the `gpio_sw_oen` word with its bit
/// clear, and the pin.
pub fn create_output_pin(pin: u8, oen: u32) -> (r: (u32, UlpGpioPin<Output>))
    requires
        ULP_BASE_PIN <= pin < ULP_BASE_PIN + ULP_PIN_COUNT,
    ensures
        r.1.bit_spec() == pin_bit(pin),
        r.0 == oen & !r.1.mask_spec(),
{
    let bit = pin - 107;
    let p: UlpGpioPin<Output> = UlpGpioPin { bit, _mode: PhantomData };
    let m = p.mask();
    (oen & !m, p)
}

/// The pin number of block bit `bit`.
pub fn pin_number(bit: u8) -> (r: u8)
    requires
        bit < ULP_PIN_COUNT,
    ensures
        r == ULP_BASE_PIN + bit,
{
    107 + bit
}

/// The block bit of pin `pin` (107 or above).
pub fn pin_to_bit(pin: u8) -> (r: u8)
    requires
        pin >= ULP_BASE_PIN,
    ensures
        r == pin_bit(pin),
{
    pin - 107
}

/// Pin numbers and block bits are inverse across the block, and each pin's
/// mask is a distinct single bit of the low byte.
pub proof fn law_pin_bit_round_trip(bit: u8, other: u8)
    requires
        bit < ULP_PIN_COUNT,
        other < ULP_PIN_COUNT,
    ensures
        pin_bit((ULP_BASE_PIN + bit) as u8) == bit,
        (1u32 << bit as u32) & 0xFF == 1u32 << bit as u32,
        bit != other ==> (1u32 << bit as u32) & (1u32 << other as u32) == 0,
{
    assert(bit < 8 && other < 8 ==> {
        &&& (1u32 << bit as u32) & 0xFF == 1u32 << bit as u32
        &&& (bit != other ==> (1u32 << bit as u32) & (1u32 << other as u32) == 0)
    }) by (bit_vector);
}

} // verus!
