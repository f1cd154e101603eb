use hisi_hal::tsensor::{TempSensor, TEMP_CODE_MAX, TEMP_CODE_MIN};

fn code_from_sts(sts: u32) -> u16 {
    TempSensor::new().code(sts)
}

fn pack_int(done: bool, out_thresh: bool, overtemp: bool) -> u32 {
    TempSensor::new().enable_interrupts(done, out_thresh, overtemp)
}

fn unpack_int(sts: u32) -> (bool, bool, bool) {
    TempSensor::new().interrupt_status(sts)
}

#[test]
fn code_range_constants_within_10_bits() {
    assert!(TEMP_CODE_MIN < TEMP_CODE_MAX);
    assert!(TEMP_CODE_MAX <= 0x3FF);
    assert_eq!(TEMP_CODE_MIN, 114);
    assert_eq!(TEMP_CODE_MAX, 896);
}

#[test]
fn read_raw_extracts_bits_2_through_11() {
    assert_eq!(code_from_sts(0), 0);
    assert_eq!(code_from_sts((0x3FF << 2) | 0b11 | (0xF << 12)), 0x3FF);
    assert_eq!(code_from_sts((TEMP_CODE_MAX as u32) << 2), TEMP_CODE_MAX);
}

#[test]
fn read_raw_never_exceeds_10_bit_field() {
    assert_eq!(code_from_sts(u32::MAX), 0x3FF);
    assert!(code_from_sts(u32::MAX) <= TEMP_CODE_MAX.max(0x3FF));
}

#[test]
fn set_mode_inserts_into_bits_2_1_only() {
    let apply = |ctrl: u32, mode: u8| TempSensor::new().set_mode(ctrl, mode);
    assert_eq!(apply(0x01, 0), 0x01);
    assert_eq!(apply(0x01, 3), 0x01 | 0x06);
    assert_eq!(apply(0, 0xFF), 0x06);
    assert_eq!(apply(0x06, 1), 0x02);
}

#[test]
fn set_mode_preserves_unrelated_bits() {
    let out = TempSensor::new().set_mode(0xFFFF_FFFF, 0);
    assert_eq!(out, 0xFFFF_FFFF & !0x06);
}

#[test]
fn over_temp_threshold_masks_code_and_sets_enable_bit() {
    let apply = |code: u16, en: bool| TempSensor::new().set_over_temp_threshold(code, en);
    assert_eq!(apply(896, false), 896);
    assert_eq!(apply(896, false) & (1 << 10), 0);
    assert_eq!(apply(896, true), 896 | (1 << 10));
    assert_eq!(apply(0xFFFF, true), 0x3FF | (1 << 10));
}

#[test]
fn limit_setters_mask_to_10_bits() {
    let apply = |code: u16| TempSensor::new().set_high_limit(code);
    assert_eq!(apply(0x3FF), 0x3FF);
    assert_eq!(apply(0x400), 0);
    assert_eq!(apply(0xFFFF), 0x3FF);
    assert_eq!(apply(TEMP_CODE_MIN), TEMP_CODE_MIN as u32);
    assert_eq!(TempSensor::new().set_low_limit(0x7FF), 0x3FF);
}

#[test]
fn interrupt_mask_pack_known_bits() {
    assert_eq!(pack_int(false, false, false), 0);
    assert_eq!(pack_int(true, false, false), 0x01);
    assert_eq!(pack_int(false, true, false), 0x02);
    assert_eq!(pack_int(false, false, true), 0x04);
    assert_eq!(pack_int(true, true, true), 0x07);
}

#[test]
fn interrupt_status_unpack_known_bits() {
    assert_eq!(unpack_int(0), (false, false, false));
    assert_eq!(unpack_int(0x01), (true, false, false));
    assert_eq!(unpack_int(0x02), (false, true, false));
    assert_eq!(unpack_int(0x04), (false, false, true));
    assert_eq!(unpack_int(0x07), (true, true, true));
    assert_eq!(unpack_int(0xFFFF_FFF8), (false, false, false));
}

#[test]
fn interrupt_pack_unpack_round_trip() {
    for done in [false, true] {
        for out_thresh in [false, true] {
            for overtemp in [false, true] {
                let packed = pack_int(done, out_thresh, overtemp);
                assert_eq!(unpack_int(packed), (done, out_thresh, overtemp));
            }
        }
    }
}

#[test]
fn tsensor_read_raw_gates_on_ready() {
    let mut t = TempSensor::new();
    assert_eq!(t.read_raw(0, || panic!("not ready: no read")), None);
    assert_eq!(t.read_raw(0x2, || 500 << 2), Some(500));
    assert_eq!(t.enable(0), 1);
    assert_eq!(t.disable(3), 2);
    assert_eq!(t.clear_status(0x2), 0x3);
    assert_eq!(t.configure_auto_refresh(32, true), (32, 1));
}
