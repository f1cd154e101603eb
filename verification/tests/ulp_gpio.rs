use hisi_hal::gpio::LevelWrite;
use hisi_hal::ulp_gpio::{
    create_input_pin, create_output_pin, pin_number, pin_to_bit, ULP_BASE_PIN, ULP_PIN_COUNT,
};

const PIN_COUNT: u8 = ULP_PIN_COUNT;

#[test]
fn number_of_first_pin() {
    assert_eq!(pin_number(0), 107);
}

#[test]
fn number_of_last_pin() {
    assert_eq!(pin_number(PIN_COUNT - 1), 114);
}

#[test]
fn pin_to_bit_round_trips() {
    for bit in 0..PIN_COUNT {
        let pin = pin_number(bit);
        assert_eq!(pin_to_bit(pin), bit);
    }
}

#[test]
fn valid_pins_pass_bit_bound() {
    for pin in 107..=114u8 {
        assert!(pin_to_bit(pin) < PIN_COUNT, "pin {pin} should be valid");
    }
}

#[test]
fn first_out_of_range_pin_fails_bit_bound() {
    assert_eq!(pin_to_bit(115), PIN_COUNT);
    assert!(!(pin_to_bit(115) < PIN_COUNT));
}

#[test]
fn bit_mask_is_single_bit() {
    let mut seen: u32 = 0;
    for bit in 0..PIN_COUNT {
        let mask = 1u32 << bit;
        assert_eq!(mask.count_ones(), 1);
        assert_eq!(seen & mask, 0, "bit {bit} mask overlaps a previous pin");
        seen |= mask;
    }
    assert_eq!(seen, 0xFF);
}

#[test]
fn output_pin_words() {
    let (oen, mut p) = create_output_pin(110, 0xFF);
    assert_eq!(oen, 0xF7);
    assert_eq!(p.number(), 110);
    assert_eq!(p.set_high(), 0x08);
    assert_eq!(p.set_low(), 0x08);
    assert_eq!(p.toggle(0x08), LevelWrite::DataClr(0x08));
    assert_eq!(p.toggle(0x00), LevelWrite::DataSet(0x08));
    assert!(p.is_set_high(0x08));
    assert!(!p.is_set_high(0xF7));
    let (oen, i) = p.into_input(0x00);
    assert_eq!(oen, 0x08);
    assert_eq!(i.number(), 110);
}

#[test]
fn input_pin_words() {
    let (oen, p) = create_input_pin(ULP_BASE_PIN, 0x10);
    assert_eq!(oen, 0x11);
    assert!(p.is_high(0x01));
    assert!(p.is_low(0x02));
    assert_eq!(p.enable_interrupt(0x80), 0x81);
    assert_eq!(p.disable_interrupt(0xFF), 0xFE);
    assert_eq!(p.clear_interrupt(), 0x01);
    assert!(p.interrupt_pending(0x01));
    assert!(!p.interrupt_pending(0x02));
    let (oen, o) = p.into_output(0x0F);
    assert_eq!(oen, 0x0E);
    assert_eq!(o.number(), 107);
}
