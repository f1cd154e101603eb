use hisi_hal::interrupt::{
    clear_pending, disable, enable, init, is_enabled, is_pending, locipri_set_field, priority, priority_slot,
    set_priority, set_threshold, threshold, IrqBit, Priority,
};

#[test]
fn priority_clamps_into_range() {
    assert_eq!(Priority::new(0).level(), 1);
    assert_eq!(Priority::new(4).level(), 4);
    assert_eq!(Priority::new(200).level(), 7);
    assert_eq!(Priority::lowest().level(), 1);
    assert_eq!(Priority::highest().level(), 7);
}

#[test]
fn irq_enable_bits_route_by_number() {
    assert_eq!(enable(26), Some(IrqBit::Mie(1 << 26)));
    assert_eq!(enable(33), Some(IrqBit::Locien(0, 1 << 1)));
    assert_eq!(enable(59), Some(IrqBit::Locien(0, 1 << 27)));
    assert_eq!(enable(72), Some(IrqBit::Locien(1, 1 << 8)));
    assert_eq!(enable(5), None);
    assert_eq!(disable(59), (Some(IrqBit::Locien(0, 1 << 27)), 59));
    assert!(is_enabled(33, 0b10));
    assert!(!is_enabled(33, 0b01));
    assert!(is_pending(26, 1 << 26));
    assert_eq!(clear_pending(72), 72);
}

#[test]
fn priority_write_then_read() {
    assert_eq!(priority_slot(26), Some((0, 0)));
    assert_eq!(priority_slot(59), Some((4, 4)));
    assert_eq!(priority_slot(154), None);
    let (reg, v) = set_priority(59, Priority::new(5), 0x1111_1111).unwrap();
    assert_eq!(reg, 4);
    assert_eq!(v, 0x1111_1151);
    assert_eq!(priority(59, v).level(), 5);
    assert_eq!(priority(58, v).level(), 1);
    assert_eq!(locipri_set_field(0xFFFF_FFFF, 28, 2), 0x2FFF_FFFF);
    assert_eq!(priority(200, 0).level(), 1);
    assert_eq!(set_threshold(9), 1);
    assert_eq!(threshold(0xF), 7);
    assert_eq!(init(), 0x1111_1111);
}

#[test]
fn last_priority_write_wins_across_registers() {
    let mut regs = [0x1111_1111u32; 16];
    let mut apply = |n: u16, level: u8| {
        if let Some((reg, _)) = priority_slot(n) {
            let (r2, v) = set_priority(n, Priority::new(level), regs[reg as usize]).unwrap();
            assert_eq!(r2, reg);
            regs[reg as usize] = v;
        }
    };
    apply(40, 6);
    apply(41, 2);
    apply(39, 7);
    apply(100, 3);
    let (reg, _) = priority_slot(40).unwrap();
    assert_eq!(priority(40, regs[reg as usize]).level(), 6);
    assert_eq!(set_priority(10, Priority::new(6), 0x1111_1111), None);
    assert_eq!(priority(10, 0x7777_7777).level(), 1);
    assert_eq!(priority(154, 0x7777_7777).level(), 1);
}
