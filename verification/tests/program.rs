use hisi_hal::i2c_v151::{DwStep, I2c, I2cError, Speed};
use hisi_hal::program::run_steps;

#[test]
fn run_collects_read_bytes_in_order() {
    let steps = [1u8, 2, 3, 4];
    let mut exec = |s: u8| -> Result<Option<u8>, ()> { Ok(if s % 2 == 0 { Some(s * 10) } else { None }) };
    assert_eq!(run_steps(&steps, &mut exec), Ok(vec![20, 40]));
}

#[test]
fn run_stops_at_first_failure() {
    let steps = [1u8, 2, 3, 4];
    let mut made = Vec::new();
    let mut exec = |s: u8| -> Result<Option<u8>, u8> {
        made.push(s);
        if s == 2 { Err(7) } else { Ok(Some(s)) }
    };
    assert_eq!(run_steps(&steps, &mut exec), Err(7));
    assert_eq!(made, vec![1, 2]);
}

#[test]
fn failed_write_makes_no_read_step() {
    let mut i = I2c::new_i2c0(Speed::Standard);
    let steps = i.write_read(0x3C, &[0xAA], 2);
    let mut made = Vec::new();
    let mut exec = |s: DwStep| -> Result<Option<u8>, I2cError> {
        made.push(s);
        match s {
            DwStep::CheckAbort => Err(I2cError::Nack),
            DwStep::ReadData => Ok(Some(0)),
            _ => Ok(None),
        }
    };
    assert_eq!(run_steps(&steps, &mut exec), Err(I2cError::Nack));
    assert!(!made.contains(&DwStep::ReadData));
    assert_eq!(made.last(), Some(&DwStep::CheckAbort));
}
