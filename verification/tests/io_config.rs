use hisi_hal::io_config::{
    build_pad_ctrl, DriveStrength, IoConfigDriver, IoRegister, IoWrite, PinMux, PullResistor, SfcPad,
    UartPad,
};

const ST_BIT: u32 = 1 << 3;
const DS_MASK: u32 = 0x7 << 4;
const PE_BIT: u32 = 1 << 9;
const PS_BIT: u32 = 1 << 10;
const IE_BIT: u32 = 1 << 11;

#[test]
fn drive_strength_discriminants_are_dense() {
    assert_eq!(DriveStrength::Strongest as u32, 0);
    assert_eq!(DriveStrength::Strong as u32, 1);
    assert_eq!(DriveStrength::Medium as u32, 2);
    assert_eq!(DriveStrength::Weak as u32, 3);
    assert_eq!(DriveStrength::Weaker as u32, 4);
    assert_eq!(DriveStrength::VeryWeak as u32, 5);
    assert_eq!(DriveStrength::Weakest as u32, 6);
    assert_eq!(DriveStrength::Minimum as u32, 7);
    assert_eq!(DriveStrength::Minimum.code(), 7);
}

#[test]
fn drive_strength_lands_in_bits_4_to_6() {
    for (ds, expect) in [
        (DriveStrength::Strongest, 0u32),
        (DriveStrength::Strong, 1 << 4),
        (DriveStrength::Medium, 2 << 4),
        (DriveStrength::Minimum, 7 << 4),
    ] {
        let val = build_pad_ctrl(ds, PullResistor::Floating, false, false);
        assert_eq!(val & DS_MASK, expect, "ds {ds:?} mis-placed");
        assert_eq!(val & !DS_MASK, 0);
    }
}

#[test]
fn drive_strength_covers_full_mask() {
    let strongest = build_pad_ctrl(DriveStrength::Strongest, PullResistor::Floating, false, false);
    let minimum = build_pad_ctrl(DriveStrength::Minimum, PullResistor::Floating, false, false);
    assert_eq!(strongest & DS_MASK, 0);
    assert_eq!(minimum & DS_MASK, DS_MASK);
}

#[test]
fn pull_none_sets_neither_pe_nor_ps() {
    let val = build_pad_ctrl(DriveStrength::Strongest, PullResistor::Floating, false, false);
    assert_eq!(val & (PE_BIT | PS_BIT), 0);
}

#[test]
fn pull_up_sets_pe_and_ps() {
    let val = build_pad_ctrl(DriveStrength::Strongest, PullResistor::Up, false, false);
    assert_eq!(val & PE_BIT, PE_BIT);
    assert_eq!(val & PS_BIT, PS_BIT);
}

#[test]
fn pull_down_sets_pe_only() {
    let val = build_pad_ctrl(DriveStrength::Strongest, PullResistor::Down, false, false);
    assert_eq!(val & PE_BIT, PE_BIT);
    assert_eq!(val & PS_BIT, 0);
}

#[test]
fn schmitt_and_input_enable_are_independent_bits() {
    let none = build_pad_ctrl(DriveStrength::Strongest, PullResistor::Floating, false, false);
    assert_eq!(none & (ST_BIT | IE_BIT), 0);
    let st = build_pad_ctrl(DriveStrength::Strongest, PullResistor::Floating, true, false);
    assert_eq!(st, ST_BIT);
    let ie = build_pad_ctrl(DriveStrength::Strongest, PullResistor::Floating, false, true);
    assert_eq!(ie, IE_BIT);
    let both = build_pad_ctrl(DriveStrength::Strongest, PullResistor::Floating, true, true);
    assert_eq!(both, ST_BIT | IE_BIT);
}

#[test]
fn all_fields_compose_without_collision() {
    let val = build_pad_ctrl(DriveStrength::Minimum, PullResistor::Up, true, true);
    assert_eq!(val, DS_MASK | PE_BIT | PS_BIT | ST_BIT | IE_BIT);
}

#[test]
fn no_bits_set_outside_known_fields() {
    let defined = DS_MASK | PE_BIT | PS_BIT | ST_BIT | IE_BIT;
    for &drive in &[DriveStrength::Strongest, DriveStrength::Medium, DriveStrength::Minimum] {
        for &pull in &[PullResistor::Floating, PullResistor::Up, PullResistor::Down] {
            for st in [false, true] {
                for ie in [false, true] {
                    let val = build_pad_ctrl(drive, pull, st, ie);
                    assert_eq!(val & !defined, 0, "reserved bit set for {drive:?}/{pull:?}/{st}/{ie}");
                }
            }
        }
    }
}

#[test]
fn io_config_driver_writes() {
    let mut d = IoConfigDriver::new();
    assert_eq!(d.set_gpio_mux(3, 0x0A), IoWrite { reg: IoRegister::GpioSel(3), value: 2 });
    assert_eq!(d.get_gpio_mux(3, 0xFF), 7);
    assert_eq!(
        d.set_uart_mux(PinMux::Uart1Rxd, 1),
        Some(IoWrite { reg: IoRegister::UartSel(UartPad::Uart1Rxd), value: 1 })
    );
    assert_eq!(d.set_uart_mux(PinMux::Gpio05, 1), None);
    let w = d.configure_gpio_pad(14, DriveStrength::Medium, PullResistor::Down, false, true);
    assert_eq!(w, IoWrite { reg: IoRegister::PadGpio(14), value: 0x20 | PE_BIT | IE_BIT });
    assert!(d.configure_uart_pad(PinMux::Gpio00, DriveStrength::Medium, PullResistor::Down, false, true).is_none());
    let s = d.configure_sfc_pad(SfcPad::Io2, DriveStrength::Strongest, PullResistor::Up, true, false);
    assert_eq!(s.reg, IoRegister::PadSfc(SfcPad::Io2));
    assert_eq!(s.value, PE_BIT | PS_BIT | ST_BIT);
    assert_eq!(d.read_gpio_pad(0, 0x800), 0x800);
}
