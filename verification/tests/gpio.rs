use hisi_hal::gpio::{
    apply_pull, AnyPin, Flex, GpioBank, InputConfig, InterruptTrigger, LevelWrite, OutputConfig,
    OutputLatched, Pull, PAD_IE_BIT, PAD_PE_BIT, PAD_PS_BIT,
};

fn split(pin: u8) -> (u8, u8) {
    let p = AnyPin::steal(pin);
    (p.block(), p.mask().trailing_zeros() as u8)
}

fn trigger_bits(t: InterruptTrigger) -> (bool, bool) {
    let input = AnyPin::steal(0).init_input(InputConfig::new(), 0, 0).0;
    let (ty, pol) = input.set_interrupt_trigger(t, 0, 0);
    (ty & 1 != 0, pol & 1 != 0)
}

fn pull_bits(p: Pull) -> (bool, bool) {
    let v = apply_pull(0, p, 0).unwrap();
    (v & PAD_PE_BIT != 0, v & PAD_PS_BIT != 0)
}

fn apply_pull_rmw(start: u32, pull: Pull) -> u32 {
    apply_pull(0, pull, start).unwrap()
}

#[test]
fn output_latched_marker_is_zero_sized() {
    assert_eq!(core::mem::size_of::<OutputLatched>(), 0);
}

#[test]
fn pin_number_round_trips() {
    for pin in 0u8..=18 {
        assert_eq!(AnyPin::steal(pin).number(), pin);
    }
}

#[test]
fn pin_split_block_boundaries() {
    assert_eq!(split(0), (0, 0));
    assert_eq!(split(7), (0, 7));
    assert_eq!(split(8), (1, 0));
    assert_eq!(split(15), (1, 7));
    assert_eq!(split(16), (2, 0));
    assert_eq!(split(18), (2, 2));
}

#[test]
fn input_config_defaults_to_no_pull() {
    assert_eq!(InputConfig::default().pull, Pull::Floating);
    assert_eq!(InputConfig::new().pull, Pull::Floating);
}

#[test]
fn input_config_with_pull_sets_field() {
    assert_eq!(InputConfig::new().with_pull(Pull::Up).pull, Pull::Up);
    assert_eq!(InputConfig::new().with_pull(Pull::Down).pull, Pull::Down);
    assert_eq!(InputConfig::new().with_pull(Pull::Floating).pull, Pull::Floating);
}

#[test]
fn output_config_defaults_are_false() {
    let a = OutputConfig::new();
    let b = OutputConfig::default();
    assert!(!a.initial_high);
    assert!(!b.initial_high);
}

#[test]
fn output_config_builder_sets_initial_level() {
    let c = OutputConfig::new().with_initial(true);
    assert!(c.initial_high);
}

#[test]
fn interrupt_trigger_encoding() {
    assert_eq!(trigger_bits(InterruptTrigger::RisingEdge), (true, true));
    assert_eq!(trigger_bits(InterruptTrigger::FallingEdge), (true, false));
    assert_eq!(trigger_bits(InterruptTrigger::HighLevel), (false, true));
    assert_eq!(trigger_bits(InterruptTrigger::LowLevel), (false, false));
}

#[test]
fn interrupt_trigger_edge_vs_level() {
    assert!(trigger_bits(InterruptTrigger::RisingEdge).0);
    assert!(trigger_bits(InterruptTrigger::FallingEdge).0);
    assert!(!trigger_bits(InterruptTrigger::HighLevel).0);
    assert!(!trigger_bits(InterruptTrigger::LowLevel).0);
}

#[test]
fn pull_encoding_matches_svd() {
    assert_eq!(pull_bits(Pull::Floating), (false, false));
    assert_eq!(pull_bits(Pull::Up), (true, true));
    assert_eq!(pull_bits(Pull::Down), (true, false));
}

#[test]
fn pull_enable_implies_nonzero() {
    assert!(!pull_bits(Pull::Floating).0);
    assert!(pull_bits(Pull::Up).0);
    assert!(pull_bits(Pull::Down).0);
}

#[test]
fn pad_ctrl_pac_coverage() {
    for pin in 0u8..=14 {
        assert!(apply_pull(pin, Pull::Up, 0).is_some());
    }
    for pin in 15u8..=18 {
        assert!(apply_pull(pin, Pull::Up, 0).is_none());
    }
}

#[test]
fn pad_pull_bits_are_distinct_and_placed() {
    assert_eq!(PAD_PE_BIT, 1 << 9);
    assert_eq!(PAD_PS_BIT, 1 << 10);
    assert_ne!(PAD_PE_BIT, PAD_PS_BIT);
    assert_eq!(PAD_PE_BIT | PAD_PS_BIT, 0b110_0000_0000);
}

#[test]
fn pad_clear_mask_preserves_other_bits() {
    let other = 0xFFFF_FFFFu32 & !(PAD_PE_BIT | PAD_PS_BIT);
    let v = apply_pull_rmw(other, Pull::Floating) & !PAD_IE_BIT;
    assert_eq!(v, other & !PAD_IE_BIT);
}

#[test]
fn pad_ie_bit_is_bit11() {
    assert_eq!(PAD_IE_BIT, 1 << 11);
    assert_ne!(PAD_IE_BIT, PAD_PE_BIT);
    assert_ne!(PAD_IE_BIT, PAD_PS_BIT);
}

#[test]
fn apply_pull_always_enables_input_buffer() {
    for &start in &[0x0000_0000u32, 0x800, 0x600, 0xFFFF_FFFF] {
        for pull in [Pull::Floating, Pull::Up, Pull::Down] {
            let v = apply_pull_rmw(start, pull);
            assert_ne!(v & PAD_IE_BIT, 0, "IE must be set (start={start:#x}, {pull:?})");
        }
    }
}

#[test]
fn apply_pull_sets_pull_and_keeps_unrelated_bits() {
    let start = (0x7 << 4) | (1 << 3);
    let keep = (0x7 << 4) | (1 << 3);

    let up = apply_pull_rmw(start, Pull::Up);
    assert_eq!(up & keep, keep);
    assert_eq!(up & (PAD_PE_BIT | PAD_PS_BIT), PAD_PE_BIT | PAD_PS_BIT);
    assert_ne!(up & PAD_IE_BIT, 0);

    let down = apply_pull_rmw(start, Pull::Down);
    assert_eq!(down & keep, keep);
    assert_eq!(down & (PAD_PE_BIT | PAD_PS_BIT), PAD_PE_BIT);

    let none = apply_pull_rmw(start | PAD_PE_BIT | PAD_PS_BIT, Pull::Floating);
    assert_eq!(none & (PAD_PE_BIT | PAD_PS_BIT), 0);
    assert_ne!(none & PAD_IE_BIT, 0);
}

#[test]
fn gpio_bank_index_round_trip() {
    for i in 0u8..3 {
        assert_eq!(GpioBank::from_index(i).unwrap().index(), i);
    }
    assert!(GpioBank::from_index(3).is_none());
}

#[test]
fn output_and_flex_words() {
    let (mut out, level, oen) = AnyPin::steal(9).init_output(OutputConfig::new().with_initial(true), 0xFF);
    assert_eq!(level, LevelWrite::DataSet(0x2));
    assert_eq!(oen, 0xFD);
    assert_eq!(out.toggle(0x2), LevelWrite::DataClr(0x2));
    assert_eq!(out.toggle(0x0), LevelWrite::DataSet(0x2));
    assert!(out.is_set_high(0x2));
    assert_eq!(out.number(), 9);
    let mut flex: Flex = out.into_flex();
    assert_eq!(flex.set_as_input(0), 0x2);
    assert_eq!(flex.sample_oen(0x0), (0x2, 0x0));
    assert_eq!(flex.sample_oen(0x2), (0x2, 0x2));
    assert!(flex.is_low(0x1));
    let input = flex.degrade().init_input(InputConfig::new().with_pull(Pull::Up), 0, 0).0;
    assert_eq!(input.enable_interrupt(0x1), 0x3);
    assert_eq!(input.clear_interrupt(), 0x2);
    assert!(input.interrupt_pending(0x2));
}
