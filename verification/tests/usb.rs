use hisi_hal::usb::{
    id_has_signature, speed_from_enumspd, Speed, Usb, UsbAccess, UsbCondition, UsbError, UsbStep, UsbWrite,
    SNPS_SIGNATURE,
};

#[test]
fn signature_is_ascii_ot() {
    assert_eq!(SNPS_SIGNATURE, u16::from_be_bytes([b'O', b'T']));
    assert_eq!(SNPS_SIGNATURE, 0x4F54);
}

#[test]
fn signature_check_uses_high_half_only() {
    assert!(id_has_signature(0x4F54_0000));
    assert!(id_has_signature(0x4F54_FFFF));
    assert!(id_has_signature((SNPS_SIGNATURE as u32) << 16 | 0x1234));
}

#[test]
fn signature_check_rejects_wrong_high_half() {
    assert!(!id_has_signature(0x0000_4F54));
    assert!(!id_has_signature(0));
    assert!(!id_has_signature(0xFFFF_FFFF));
    assert!(!id_has_signature(0x4F55_0000));
    assert!(!id_has_signature(0x4F53_0000));
}

#[test]
fn enumspd_known_values() {
    assert_eq!(speed_from_enumspd(0), Speed::High);
    assert_eq!(speed_from_enumspd(1), Speed::FullFs);
    assert_eq!(speed_from_enumspd(2), Speed::Low);
    assert_eq!(speed_from_enumspd(3), Speed::Full);
}

#[test]
fn enumspd_out_of_range_is_full() {
    for v in 3u8..=u8::MAX {
        assert_eq!(speed_from_enumspd(v), Speed::Full);
    }
}

#[test]
fn speed_variants_are_distinct() {
    let speeds = [speed_from_enumspd(0), speed_from_enumspd(1), speed_from_enumspd(2), speed_from_enumspd(3)];
    for i in 0..speeds.len() {
        for j in (i + 1)..speeds.len() {
            assert_ne!(speeds[i], speeds[j]);
        }
    }
}

#[test]
fn enumerate_runs_the_script_in_order() {
    let mut usb = Usb::new();
    let mut log: Vec<UsbAccess> = Vec::new();
    let r = usb.device_enumerate(&mut |a| {
        log.push(a);
        match a {
            UsbAccess::ReadCoreId => 0x4F54_430A,
            UsbAccess::Poll(_) => 1,
            UsbAccess::Write(_) => 0,
            UsbAccess::ReadSpeed => 2,
        }
    });
    assert_eq!(r, Ok(Speed::Low));
    let mut expected = vec![UsbAccess::ReadCoreId];
    for step in usb.enumerate_sequence() {
        expected.push(match step {
            UsbStep::Wait(c) => UsbAccess::Poll(c),
            UsbStep::Write(w) => UsbAccess::Write(w),
        });
    }
    expected.push(UsbAccess::ReadSpeed);
    assert_eq!(log, expected);
}

#[test]
fn enumerate_without_signature_touches_nothing() {
    let mut usb = Usb::new();
    let mut log: Vec<UsbAccess> = Vec::new();
    let r = usb.device_enumerate(&mut |a| {
        log.push(a);
        0x1234_5678
    });
    assert_eq!(r, Err(UsbError::NotPresent));
    assert_eq!(log, vec![UsbAccess::ReadCoreId]);
}

#[test]
fn enumerate_times_out_when_host_never_resets() {
    let mut usb = Usb::new();
    let mut writes = 0u32;
    let mut reset_polls = 0u32;
    let mut last = UsbAccess::ReadCoreId;
    let r = usb.device_enumerate(&mut |a| {
        last = a;
        match a {
            UsbAccess::ReadCoreId => 0x4F54_0000,
            UsbAccess::Poll(UsbCondition::UsbReset) => {
                reset_polls += 1;
                0
            },
            UsbAccess::Poll(_) => 1,
            UsbAccess::Write(_) => {
                writes += 1;
                0
            },
            UsbAccess::ReadSpeed => 0,
        }
    });
    assert_eq!(r, Err(UsbError::Timeout));
    assert_eq!(writes, 7);
    assert_eq!(reset_polls, 1_000_000);
    assert_eq!(last, UsbAccess::Poll(UsbCondition::UsbReset));
}

#[test]
fn enumerate_waits_until_each_condition_holds() {
    let mut usb = Usb::new();
    let mut log: Vec<UsbAccess> = Vec::new();
    let mut enum_polls = 0u32;
    let r = usb.device_enumerate(&mut |a| {
        log.push(a);
        match a {
            UsbAccess::ReadCoreId => 0x4F54_0000,
            UsbAccess::Poll(UsbCondition::EnumDone) => {
                enum_polls += 1;
                (enum_polls == 3) as u32
            },
            UsbAccess::Poll(_) => 1,
            UsbAccess::Write(_) => 0,
            UsbAccess::ReadSpeed => 0,
        }
    });
    assert_eq!(r, Ok(Speed::High));
    let n = log.len();
    assert_eq!(
        &log[n - 5..],
        &[
            UsbAccess::Poll(UsbCondition::EnumDone),
            UsbAccess::Poll(UsbCondition::EnumDone),
            UsbAccess::Poll(UsbCondition::EnumDone),
            UsbAccess::Write(UsbWrite::AckEnumDone),
            UsbAccess::ReadSpeed,
        ]
    );
}
