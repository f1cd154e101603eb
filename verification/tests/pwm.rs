use hisi_hal::pwm::{
    enable_pwm_clock, Duty, PwmChannel, PwmChannelId, PwmError, PwmPeriod, PwmRunning, PWM_CLOCK_HZ,
};

#[test]
fn running_marker_is_zero_sized() {
    assert_eq!(core::mem::size_of::<PwmRunning>(), 0);
}

#[test]
fn duty_rejects_over_100() {
    assert!(Duty::from_percent(0).is_some());
    assert!(Duty::from_percent(100).is_some());
    assert!(Duty::from_percent(101).is_none());
    assert!(Duty::from_percent(255).is_none());
}

#[test]
fn duty_consts() {
    assert_eq!(Duty::zero().percent(), 0);
    assert_eq!(Duty::half().percent(), 50);
    assert_eq!(Duty::full().percent(), 100);
}

#[test]
fn period_from_count_rejects_zero() {
    assert!(PwmPeriod::from_count(0).is_none());
    assert_eq!(PwmPeriod::from_count(1).unwrap().count(), 1);
    assert_eq!(PwmPeriod::from_count(60_000).unwrap().count(), 60_000);
}

#[test]
fn try_from_hz_basic_and_bounds() {
    assert!(PwmPeriod::try_from_hz(0).is_none());
    assert!(PwmPeriod::try_from_hz(PWM_CLOCK_HZ + 1).is_none());
    assert!(PwmPeriod::try_from_hz(1).is_none());
    assert_eq!(PwmPeriod::try_from_hz(PWM_CLOCK_HZ).unwrap().count(), 1);
    assert_eq!(PwmPeriod::try_from_hz(1_000).unwrap().count(), (PWM_CLOCK_HZ / 1_000) as u16);
}

#[test]
fn duty_count_zero_half_full() {
    let p = PwmPeriod::from_count(1_000).unwrap();
    assert_eq!(p.duty_count(Duty::zero()), 0);
    assert_eq!(p.duty_count(Duty::half()), 500);
    assert_eq!(p.duty_count(Duty::full()), 1_000);
}

#[test]
fn duty_count_monotonic_and_bounded() {
    let p = PwmPeriod::from_count(1_000).unwrap();
    let mut prev = 0u16;
    for pct in 0u8..=100 {
        let d = p.duty_count(Duty::from_percent(pct).unwrap());
        assert!(d >= prev, "duty must be monotonic: pct={pct} d={d} prev={prev}");
        assert!(d <= p.count(), "duty {d} must never exceed period {}", p.count());
        prev = d;
    }
}

#[test]
fn duty_count_no_overflow_for_max_period() {
    let p = PwmPeriod::from_count(u16::MAX).unwrap();
    assert_eq!(p.duty_count(Duty::full()), u16::MAX);
    assert_eq!(p.duty_count(Duty::from_percent(1).unwrap()), u16::MAX / 100);
}

#[test]
fn start_mask_is_channel_bit() {
    for ch in 0u8..8 {
        let mut c = PwmChannel::new(PwmChannelId::from_index(ch).unwrap());
        assert_eq!(c.start(), 1u32 << ch);
        assert_eq!(c.start().count_ones(), 1);
    }
    assert_eq!(PwmChannel::new(PwmChannelId::Ch7).start(), 0x80);
}

#[test]
fn channel_bounds() {
    assert!((0u8..8).all(|c| PwmChannelId::from_index(c).is_some()));
    assert!(PwmChannelId::from_index(8).is_none());
}

#[test]
fn pwm_clock_is_40mhz() {
    assert_eq!(PWM_CLOCK_HZ, 40_000_000);
    let s = enable_pwm_clock(0, 0, 0xFFFF_FFFF);
    assert_eq!(s.clk_sel, 0x80);
    assert_eq!(s.cken_ctl0, 0x7FC);
    assert_eq!(s.div_unload, 0xFFEF_FFFF);
    assert_eq!(s.div_set, 0xFFE6_FFFF);
    assert_eq!(s.div_load, 0xFFF6_FFFF);
}

#[test]
fn configure_and_duty_words() {
    let mut c = PwmChannel::new(PwmChannelId::Ch2);
    let s = c.configure(PwmPeriod::from_count(1_000).unwrap(), Duty::from_percent(25).unwrap(), 0, 0, 0);
    assert_eq!((s.freq_l, s.freq_h, s.duty_l, s.duty_h), (1_000, 0, 250, 0));
    assert_eq!(c.period_count(1_000, 0), 1_000);
    assert_eq!(c.period_count(0x1_2345, 0x1), 0x1_2345);
    assert_eq!(c.max_duty_cycle(70_000), 0xFFFF);
    assert_eq!(c.set_duty_cycle(500, 1_000), Ok((500, 0)));
    assert_eq!(c.set_duty_cycle(1_001, 1_000), Err(PwmError::DutyOutOfRange));
    assert_eq!(c.set_polarity(false), 0);
    assert_eq!(c.enable(), 1);
    assert_eq!(c.release(), 0);
}
