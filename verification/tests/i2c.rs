use hisi_hal::i2c::{
    address_read_byte, address_write_byte, configure_i2c, I2c, I2cError, I2cOp, I2cStep, wait_until,
    COM_ACK, COM_RD, COM_START, COM_STOP, COM_WE, CTRL_ENABLE_FIFO,
};

#[test]
fn test_i2c_address_write_encoding() {
    assert_eq!((0x50u32 << 1), 0xA0);
    assert_eq!((0x50u32 << 1) & 0xFE, 0xA0);
    assert_eq!(address_write_byte(0x50), 0xA0);
    assert_eq!(address_write_byte(0x50) & 0xFE, 0xA0);
}

#[test]
fn test_i2c_address_read_encoding() {
    assert_eq!(((0x50u32 << 1) | 1), 0xA1);
    assert_eq!(address_read_byte(0x50), 0xA1);
}

#[test]
fn test_i2c_address_write_read_differ_by_one_bit() {
    let addr_w = address_write_byte(0x48);
    let addr_r = address_read_byte(0x48);
    assert_eq!(addr_w, 0x90);
    assert_eq!(addr_r, 0x91);
    assert_eq!(addr_r, addr_w | 1);
    assert_eq!(addr_w & 0x01, 0);
    assert_eq!(addr_r & 0x01, 1);
}

#[test]
fn test_i2c_10bit_high_address_encoding() {
    let addr: u32 = 0x78;
    let addr_w = addr << 1;
    assert_eq!(addr_w, 0xF0);
    assert_eq!(address_write_byte(0x78), 0xF0);
}

fn start(a: u32) -> Vec<I2cStep> {
    vec![
        I2cStep::ClearInterrupts,
        I2cStep::WriteTxr(a),
        I2cStep::WriteCom(0),
        I2cStep::WriteCom(COM_START | COM_WE),
        I2cStep::WaitTxAck,
    ]
}

fn stop() -> Vec<I2cStep> {
    vec![I2cStep::WriteCom(COM_STOP), I2cStep::WaitStop, I2cStep::ClearInterrupts]
}

#[test]
fn i2c_configure_100khz() {
    let t = configure_i2c(100_000);
    // 240 MHz / (2 * 100 kHz) = 1200, half = 600.
    assert_eq!(t.scl_h, 600);
    assert_eq!(t.scl_l, 600);
    assert_eq!(t.ctrl, CTRL_ENABLE_FIFO);
    let z = configure_i2c(0);
    assert_eq!(z.scl_h, 60_000_000);
    let i = I2c::new_i2c1(400_000);
    assert_eq!(i.idx, 1);
    assert_eq!(i.timing.scl_h, 150);
}

#[test]
fn i2c_write_program() {
    let mut i = I2c::new_i2c0(100_000);
    let mut expect = start(0xA0);
    expect.extend([I2cStep::WriteTxr(0x12), I2cStep::WriteCom(COM_WE), I2cStep::WaitTxAck, I2cStep::ClearInterrupts]);
    expect.extend(stop());
    assert_eq!(i.write(0x50, &[0x12]), expect);
}

#[test]
fn i2c_read_program_nacks_last() {
    let mut i = I2c::new_i2c0(100_000);
    let mut expect = start(0xA1);
    expect.extend([I2cStep::WriteCom(COM_RD), I2cStep::WaitRx, I2cStep::ReadRx, I2cStep::ClearInterrupts]);
    expect.extend([I2cStep::WriteCom(COM_RD | COM_ACK), I2cStep::WaitRx, I2cStep::ReadRx, I2cStep::ClearInterrupts]);
    expect.extend(stop());
    assert_eq!(i.read(0x50, 2), expect);
}

#[test]
fn i2c_write_read_single_stop() {
    let mut i = I2c::new_i2c0(100_000);
    let p = i.write_read(0x48, &[0x01], 1);
    let stops = p.iter().filter(|s| **s == I2cStep::WriteCom(COM_STOP)).count();
    assert_eq!(stops, 1);
    assert_eq!(p[1], I2cStep::WriteTxr(0x90));
    assert!(p.contains(&I2cStep::WriteTxr(0x91)));
    assert_eq!(i.write_read(0x48, &[], 0), stop());
}

#[test]
fn i2c_transaction_program() {
    let mut i = I2c::new_i2c0(100_000);
    let ops = vec![I2cOp::Write(vec![0xAB]), I2cOp::Read(1)];
    let p = i.transaction_impl(0x20, &ops);
    let mut expect = start(0x40);
    expect.push(I2cStep::ClearInterrupts);
    expect.extend([I2cStep::WriteTxr(0xAB), I2cStep::WriteCom(COM_WE), I2cStep::WaitTxAck, I2cStep::ClearInterrupts]);
    expect.extend(start(0x41));
    expect.push(I2cStep::ClearInterrupts);
    expect.extend([I2cStep::WriteCom(COM_RD | COM_ACK), I2cStep::WaitRx, I2cStep::ReadRx, I2cStep::ClearInterrupts]);
    expect.extend(stop());
    assert_eq!(p, expect);
}

#[test]
fn i2c_ack_and_wait() {
    let i = I2c::new_i2c0(100_000);
    assert_eq!(i.check_ack(0x04), Err(I2cError::Ack));
    assert_eq!(i.check_ack(0x10), Ok(()));
    let mut n = 0;
    let mut ready = || {
        n += 1;
        n == 3
    };
    assert_eq!(wait_until(&mut ready), Ok(()));
    let mut never = || false;
    assert_eq!(wait_until(&mut never), Err(I2cError::Timeout));
}
