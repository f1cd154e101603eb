use hisi_hal::gadc::{
    amux_1, delay_cycles, sign_extend18, AdcChannel, Gadc, GadcAccess, GadcConvAccess, GadcError, GadcPowerStep, VSSAFE1_BIT,
};

#[test]
fn channel_discriminants_are_index() {
    assert_eq!(AdcChannel::Ain0 as u32, 0);
    assert_eq!(AdcChannel::Ain3 as u32, 3);
    assert_eq!(AdcChannel::Ain7 as u32, 7);
    assert_eq!(AdcChannel::Ain3.index(), 3);
}

#[test]
fn sign_extend_positive_passthrough() {
    assert_eq!(sign_extend18(0), 0);
    assert_eq!(sign_extend18(1), 1);
    assert_eq!(sign_extend18(0x1FFFF), 131_071);
}

#[test]
fn sign_extend_negative_values() {
    assert_eq!(sign_extend18(0x2_0000), -131_072);
    assert_eq!(sign_extend18(0x3_FFFF), -1);
    assert_eq!(sign_extend18(0x3_FFFE), -2);
}

#[test]
fn sign_extend_ignores_high_bits() {
    assert_eq!(sign_extend18(0xFFFC_0000), 0);
    assert_eq!(sign_extend18(0xFFFF_FFFF), -1);
    assert_eq!(sign_extend18(0xDEAD_0000 | 0x1FFFF), 131_071);
}

#[test]
fn sign_extend_range_is_18bit_signed() {
    for raw in [0u32, 0x1, 0x1_FFFF, 0x2_0000, 0x3_FFFF, 0xFFFF_FFFF] {
        let v = sign_extend18(raw);
        assert!((-131_072..=131_071).contains(&v), "raw={raw:#x} -> {v}");
    }
}

#[test]
fn amux_n_side_fixed_to_vssafe1() {
    for ch in [AdcChannel::Ain0, AdcChannel::Ain4, AdcChannel::Ain7] {
        let v = amux_1(ch);
        assert_eq!(v & 0x7FF, 1 << VSSAFE1_BIT, "amuxn for {ch:?}");
        assert_ne!(v & (1 << 11), 0, "div-n bit for {ch:?}");
        assert_ne!(v & (1 << 23), 0, "div-p bit for {ch:?}");
    }
}

#[test]
fn amux_p_side_is_channel_onehot() {
    assert_eq!((amux_1(AdcChannel::Ain0) >> 12) & 0x7FF, 1 << 0);
    assert_eq!((amux_1(AdcChannel::Ain5) >> 12) & 0x7FF, 1 << 5);
    assert_eq!((amux_1(AdcChannel::Ain7) >> 12) & 0x7FF, 1 << 7);
}

#[test]
fn amux_known_value_ain0() {
    let expected = (1 << 9) | (1 << 11) | (1 << 12) | (1 << 23);
    assert_eq!(amux_1(AdcChannel::Ain0), expected);
}

#[test]
fn delay_us_saturates() {
    assert_eq!(delay_cycles(0), 0);
    assert_eq!(delay_cycles(1), 64);
    assert_eq!(delay_cycles(u32::MAX), u32::MAX);
}

#[test]
fn first_success_after_power_up_is_discarded() {
    let mut g = Gadc::new();
    assert!(g.discard_pending());
    assert_eq!(g.after_conversion(Err(GadcError::ConversionTimeout)), Some(Err(GadcError::ConversionTimeout)));
    assert!(g.discard_pending());
    assert_eq!(g.after_conversion(Ok(5)), None);
    assert!(!g.discard_pending());
    assert_eq!(g.after_conversion(Ok(-7)), Some(Ok(-7)));
    assert_eq!(g.after_conversion(Ok(9)), Some(Ok(9)));
}

#[test]
fn convert_once_polls_then_stops_then_reads() {
    let g = Gadc::new();
    let mut polls = 0u32;
    let mut log: Vec<GadcConvAccess> = Vec::new();
    let r = g.convert_once(&mut |a| {
        log.push(a);
        match a {
            GadcConvAccess::Step(_) => 0,
            GadcConvAccess::PollDone => {
                polls += 1;
                (polls == 3) as u32
            },
            GadcConvAccess::ReadData => 0x3_FFFE,
        }
    });
    assert_eq!(r, Ok(-2));
    let mut expected: Vec<GadcConvAccess> = Gadc::trigger_sequence().into_iter().map(GadcConvAccess::Step).collect();
    expected.extend([GadcConvAccess::PollDone; 3]);
    expected.extend(Gadc::stop_sequence().into_iter().map(GadcConvAccess::Step));
    expected.push(GadcConvAccess::ReadData);
    assert_eq!(log, expected);
}

#[test]
fn convert_once_times_out_but_still_stops() {
    let g = Gadc::new();
    let mut log: Vec<GadcConvAccess> = Vec::new();
    let r = g.convert_once(&mut |a| {
        log.push(a);
        match a {
            GadcConvAccess::ReadData => panic!("no read expected"),
            _ => 0,
        }
    });
    assert_eq!(r, Err(GadcError::ConversionTimeout));
    assert_eq!(
        log.last(),
        Some(&GadcConvAccess::Step(GadcPowerStep::GadcConfigModify { en: None, mux_en: Some(false), iso_en: Some(true) }))
    );
    assert_eq!(log.iter().filter(|a| **a == GadcConvAccess::PollDone).count(), 1_000_000);
}

#[test]
fn power_up_script_shape() {
    let s = Gadc::power_up_sequence();
    assert_eq!(s.len(), 32);
    assert_eq!(s[0], GadcPowerStep::AonAfeIsoEnable);
    assert_eq!(s[20], GadcPowerStep::ClockDivider(0x27));
    assert_eq!(s[31], GadcPowerStep::GadcConfig { en: true, mux_en: true, iso_en: false });
}

#[test]
fn read_selects_channel_and_discards_first_sample() {
    let mut g = Gadc::new();
    let mut samples = vec![Ok(11), Ok(22), Ok(33)].into_iter();
    let mut log: Vec<GadcAccess> = Vec::new();
    let mut bus = |a: GadcAccess| {
        log.push(a);
        match a {
            GadcAccess::Select(_) => Ok(0),
            GadcAccess::Convert => samples.next().unwrap(),
        }
    };
    assert_eq!(g.read(AdcChannel::Ain2, &mut bus), Ok(22));
    assert!(!g.discard_pending());
    assert_eq!(g.read(AdcChannel::Ain5, &mut bus), Ok(33));
    assert_eq!(
        log,
        vec![
            GadcAccess::Select(amux_1(AdcChannel::Ain2)),
            GadcAccess::Convert,
            GadcAccess::Convert,
            GadcAccess::Select(amux_1(AdcChannel::Ain5)),
            GadcAccess::Convert,
        ]
    );
}

#[test]
fn read_failed_discard_stays_pending() {
    let mut g = Gadc::new();
    let mut samples = vec![Err(GadcError::ConversionTimeout), Ok(1), Ok(2)].into_iter();
    let mut bus = |a: GadcAccess| match a {
        GadcAccess::Select(_) => Ok(0),
        GadcAccess::Convert => samples.next().unwrap(),
    };
    assert_eq!(g.read(AdcChannel::Ain0, &mut bus), Err(GadcError::ConversionTimeout));
    assert!(g.discard_pending());
    assert_eq!(g.read(AdcChannel::Ain0, &mut bus), Ok(2));
}
