use hisi_hal::i2c_v151::{
    configure, scl_params, wait_until, DwStep, I2c, I2cError, Speed, POLL_LIMIT, RAW_STOP_DET, RAW_TX_ABRT,
};

#[test]
fn standard_scl_params_exact() {
    assert_eq!(scl_params(Speed::Standard), (1, 160, 190));
}

#[test]
fn fast_scl_params_exact() {
    assert_eq!(scl_params(Speed::Fast), (2, 40, 50));
}

#[test]
fn scl_speed_field_fits_byte() {
    for s in [Speed::Standard, Speed::Fast] {
        let (field, _, _) = scl_params(s);
        assert!(field <= u8::MAX as u32);
        assert!(field != 0, "0 is the reserved/illegal IC_CON.speed value");
    }
}

#[test]
fn scl_counts_fit_u16() {
    for s in [Speed::Standard, Speed::Fast] {
        let (_, hcnt, lcnt) = scl_params(s);
        assert!(hcnt <= u16::MAX as u32);
        assert!(lcnt <= u16::MAX as u32);
    }
}

#[test]
fn fast_is_shorter_than_standard() {
    let (_, sh, sl) = scl_params(Speed::Standard);
    let (_, fh, fl) = scl_params(Speed::Fast);
    assert!(fh < sh);
    assert!(fl < sl);
}

#[test]
fn scl_low_exceeds_high() {
    for s in [Speed::Standard, Speed::Fast] {
        let (_, hcnt, lcnt) = scl_params(s);
        assert!(lcnt > hcnt);
    }
}

#[test]
fn target_addr_mask_keeps_7bit() {
    let mut i = I2c::new_i2c0(Speed::Standard);
    for addr in 0u8..=0x7F {
        assert_eq!(i.probe_steps(addr)[0], DwStep::SetTarget(addr as u32));
    }
}

#[test]
fn target_addr_mask_drops_nothing_for_u8() {
    let mut i = I2c::new_i2c0(Speed::Standard);
    for addr in 0u8..=0xFF {
        assert_eq!(i.probe_steps(addr)[0], DwStep::SetTarget(addr as u32));
    }
}

#[test]
fn wait_until_returns_ok_when_ready() {
    assert_eq!(wait_until(&mut || true), Ok(()));
}

#[test]
fn wait_until_times_out_when_never_ready() {
    assert_eq!(wait_until(&mut || false), Err(I2cError::Timeout));
}

#[test]
fn wait_until_polls_at_most_poll_limit() {
    let mut calls: u32 = 0;
    let r = wait_until(&mut || {
        calls += 1;
        false
    });
    assert_eq!(r, Err(I2cError::Timeout));
    assert_eq!(calls, POLL_LIMIT);
}

#[test]
fn wait_until_stops_at_first_ready() {
    let mut calls: u32 = 0;
    let r = wait_until(&mut || {
        calls += 1;
        calls >= 3
    });
    assert_eq!(r, Ok(()));
    assert_eq!(calls, 3);
}

#[test]
fn i2c_error_variants_distinct() {
    assert_ne!(I2cError::Timeout, I2cError::Nack);
    assert_eq!(I2cError::Nack, I2cError::Nack);
}

#[test]
fn speed_is_copy_and_eq() {
    let s = Speed::Fast;
    let t = s;
    assert_eq!(s, t);
    assert_eq!(scl_params(s), scl_params(t));
}

#[test]
fn dw_programs_and_probe() {
    let s = configure(Speed::Fast);
    assert_eq!((s.con, s.fast, s.hcnt, s.lcnt), (0x265, true, 40, 50));
    let mut i = I2c::new_i2c1(Speed::Standard);
    assert_eq!(i.setup.con, 0x263);
    assert_eq!(
        i.write(0x3C, &[0xAA, 0x55]),
        vec![
            DwStep::SetTarget(0x3C),
            DwStep::WaitTxNotFull,
            DwStep::WriteDataCmd(0xAA),
            DwStep::CheckAbort,
            DwStep::WaitTxNotFull,
            DwStep::WriteDataCmd(0x255),
            DwStep::CheckAbort,
            DwStep::WaitStopDet,
        ]
    );
    let r = i.read(0x3C, 1);
    assert_eq!(r[2], DwStep::WriteDataCmd(0x300));
    assert_eq!(r.len(), 6);
    assert_eq!(i.write_read(0x3C, &[], 0), vec![]);
    assert_eq!(i.probe(0, 0x8), (true, vec![DwStep::ReadData, DwStep::ClearInterrupts]));
    assert_eq!(i.probe(0, 0), (true, vec![DwStep::ClearInterrupts]));
    assert_eq!(i.probe(RAW_TX_ABRT, 0x8), (false, vec![DwStep::ClearInterrupts]));
    assert_eq!(i.probe_steps(0x3C)[2], DwStep::WaitStopOrAbort);
    assert!(i.probe_resolved(RAW_STOP_DET));
    assert!(!i.probe_resolved(0));
}
