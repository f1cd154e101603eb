use hisi_hal::efuse::{
    extract_byte, pack_byte, word_index, EfuseAccess, EfuseDriver, EfuseError, EfuseProgram, EfuseStatus,
    EFUSE_MAX_BYTES, EFUSE_PROGRAM_DELAY_US, EFUSE_READ_MAGIC, EFUSE_WRITE_MAGIC,
};

#[test]
fn test_magic_values() {
    assert_eq!(EFUSE_READ_MAGIC, 0x5A5A);
    assert_eq!(EFUSE_WRITE_MAGIC, 0xA5A5);
}

#[test]
fn test_word_index() {
    assert_eq!(word_index(0), 0);
    assert_eq!(word_index(1), 0);
    assert_eq!(word_index(2), 1);
    assert_eq!(word_index(3), 1);
    assert_eq!(word_index(255), 127);
}

#[test]
fn test_extract_byte_even_odd() {
    let word = 0xABCD;
    assert_eq!(extract_byte(word, 0), 0xCD);
    assert_eq!(extract_byte(word, 1), 0xAB);
    assert_eq!(extract_byte(word, 2), 0xCD);
}

#[test]
fn test_pack_byte_even_odd() {
    assert_eq!(pack_byte(0xCD, 0), 0x00CD);
    assert_eq!(pack_byte(0xAB, 1), 0xAB00);
}

#[test]
fn test_pack_extract_roundtrip() {
    for addr in [0u16, 1, 42, 255] {
        for v in [0u8, 1, 0x5A, 0xFF] {
            assert_eq!(extract_byte(pack_byte(v, addr), addr), v);
        }
    }
}

#[test]
fn test_efuse_boot_status_complete() {
    let sts = EfuseStatus { man_status: 0, boot0_done: true, boot1_done: true, boot2_done: true };
    assert!(sts.boot_complete());

    let partial = EfuseStatus { man_status: 0, boot0_done: true, boot1_done: false, boot2_done: true };
    assert!(!partial.boot_complete());
}

#[test]
fn status_decodes_register_bits() {
    let d = EfuseDriver::new();
    let s = d.status(0b1_1110);
    assert_eq!(s, EfuseStatus { man_status: 2, boot0_done: true, boot1_done: true, boot2_done: true });
    let s = d.status(0b0_1001);
    assert_eq!(s, EfuseStatus { man_status: 1, boot0_done: false, boot1_done: true, boot2_done: false });
}

fn window(a: EfuseAccess) -> u32 {
    match a {
        EfuseAccess::WriteCtl(magic) => {
            assert_eq!(magic, EFUSE_READ_MAGIC);
            0
        },
        EfuseAccess::ReadData(idx) => {
            // Byte address a holds a ^ 0x5A.
            let lo = ((2 * idx) as u32 ^ 0x5A) & 0xFF;
            let hi = ((2 * idx + 1) as u32 ^ 0x5A) & 0xFF;
            0xDEAD_0000 | (hi << 8) | lo
        },
    }
}

#[test]
fn read_byte_picks_the_lane() {
    let mut d = EfuseDriver::new();
    assert_eq!(d.read_byte(0, &mut window), Ok(0x5A));
    assert_eq!(d.read_byte(1, &mut window), Ok(0x5B));
    assert_eq!(d.read_byte(255, &mut window), Ok(255u8 ^ 0x5A));
}

#[test]
fn read_byte_out_of_range_makes_no_access() {
    let mut d = EfuseDriver::new();
    let mut never = |_a: EfuseAccess| -> u32 { panic!("no access expected") };
    assert_eq!(d.read_byte(EFUSE_MAX_BYTES, &mut never), Err(EfuseError::OutOfRange));
    assert_eq!(d.read_byte(u16::MAX, &mut never), Err(EfuseError::OutOfRange));
}

#[test]
fn read_buffer_fills_consecutive_bytes() {
    let mut d = EfuseDriver::new();
    let mut buf = [0u8; 4];
    let mut log: Vec<EfuseAccess> = Vec::new();
    assert_eq!(
        d.read_buffer(10, &mut buf, &mut |a| {
            log.push(a);
            window(a)
        }),
        Ok(())
    );
    assert_eq!(buf, [10 ^ 0x5A, 11 ^ 0x5A, 12 ^ 0x5A, 13 ^ 0x5A]);
    assert_eq!(
        log,
        vec![
            EfuseAccess::WriteCtl(EFUSE_READ_MAGIC),
            EfuseAccess::ReadData(5),
            EfuseAccess::WriteCtl(EFUSE_READ_MAGIC),
            EfuseAccess::ReadData(5),
            EfuseAccess::WriteCtl(EFUSE_READ_MAGIC),
            EfuseAccess::ReadData(6),
            EfuseAccess::WriteCtl(EFUSE_READ_MAGIC),
            EfuseAccess::ReadData(6),
        ]
    );
}

#[test]
fn read_buffer_stops_at_the_end_of_the_array() {
    let mut d = EfuseDriver::new();
    let mut buf = [0xEEu8; 4];
    assert_eq!(d.read_buffer(254, &mut buf, &mut window), Err(EfuseError::OutOfRange));
    assert_eq!(buf, [254 ^ 0x5A, 255 ^ 0x5A, 0xEE, 0xEE]);
    let mut empty: [u8; 0] = [];
    assert_eq!(d.read_buffer(300, &mut empty, &mut window), Ok(()));
}

#[test]
fn write_byte_program_sequence() {
    let mut d = EfuseDriver::new();
    assert_eq!(
        d.write_byte(7, 0xAB),
        Ok(EfuseProgram { ctl_data: 0xA5A5, word_index: 3, data: 0xAB00, settle_us: EFUSE_PROGRAM_DELAY_US, avdd_on: 1, avdd_off: 0 })
    );
    assert_eq!(
        d.write_byte(6, 0xAB),
        Ok(EfuseProgram { ctl_data: 0xA5A5, word_index: 3, data: 0x00AB, settle_us: 100, avdd_on: 1, avdd_off: 0 })
    );
    assert_eq!(d.write_byte(256, 1), Err(EfuseError::OutOfRange));
}

#[test]
fn clock_period_word() {
    let mut d = EfuseDriver::new();
    assert_eq!(d.set_clock_period(0x29), 0x29);
}
