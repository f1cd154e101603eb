use hisi_hal::rtc::{control_bits, RtcDriver, RtcMode, CTRL_ENABLE, CTRL_INT_MASK, CTRL_PERIODIC, RTC_CLOCK_HZ};

#[test]
fn free_running_control_word() {
    let ctrl = control_bits(RtcMode::FreeRunning);
    assert_eq!(ctrl, CTRL_ENABLE | CTRL_INT_MASK);
    assert_eq!(ctrl, 0b101);
}

#[test]
fn periodic_control_word() {
    let ctrl = control_bits(RtcMode::Periodic);
    assert_eq!(ctrl, CTRL_ENABLE | CTRL_PERIODIC | CTRL_INT_MASK);
    assert_eq!(ctrl, 0b111);
}

#[test]
fn periodic_bit_is_the_only_difference() {
    let free = control_bits(RtcMode::FreeRunning);
    let periodic = control_bits(RtcMode::Periodic);
    assert_eq!(free ^ periodic, CTRL_PERIODIC);
}

#[test]
fn enable_always_set_and_interrupt_starts_masked() {
    for mode in [RtcMode::FreeRunning, RtcMode::Periodic] {
        let ctrl = control_bits(mode);
        assert_ne!(ctrl & CTRL_ENABLE, 0, "enable bit must be set");
        assert_ne!(ctrl & CTRL_INT_MASK, 0, "interrupt must start masked");
    }
}

#[test]
fn control_bits_use_distinct_nonoverlapping_flags() {
    assert_eq!(CTRL_ENABLE & CTRL_PERIODIC, 0);
    assert_eq!(CTRL_ENABLE & CTRL_INT_MASK, 0);
    assert_eq!(CTRL_PERIODIC & CTRL_INT_MASK, 0);
    assert_eq!((CTRL_ENABLE | CTRL_PERIODIC | CTRL_INT_MASK) & !0b111, 0);
}

#[test]
fn enable_disable_mask_round_trip() {
    let mut d = RtcDriver::new();
    let base = control_bits(RtcMode::Periodic);
    let off = d.disable(base);
    assert_eq!(d.enable(off), base);
    let masked = d.enable_interrupt(base);
    assert_eq!(d.disable_interrupt(masked), base);
    assert_eq!(d.enable(base), base);
}

#[test]
fn rtc_clock_is_32_768_khz() {
    assert_eq!(RTC_CLOCK_HZ, 32_768);
    assert_eq!(RTC_CLOCK_HZ, 1 << 15);
}

#[test]
fn rtc_configure_words() {
    let mut d = RtcDriver::new();
    let s = d.configure(RtcMode::FreeRunning, 1234);
    assert_eq!((s.load_count, s.control), (1234, 0b101));
    assert!(d.interrupt_pending(1));
    assert_eq!(d.set_load(9), 9);
}
