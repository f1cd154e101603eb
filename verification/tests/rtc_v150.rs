use hisi_hal::rtc_v150::{combine, Mode, Rtc, RtcAccess, RtcOp, POLL_LIMIT};

#[test]
fn mode_bits_match_hardware() {
    assert_eq!(Mode::OneShot.bits(), 0);
    assert_eq!(Mode::Periodic.bits(), 1);
    assert_eq!(Mode::FreeRun.bits(), 3);
}

#[test]
fn poll_limit_value() {
    assert_eq!(POLL_LIMIT, 0xFFFF);
}

#[test]
fn combine_low_word_only() {
    assert_eq!(combine(0, 0x1234_5678), 0x0000_0000_1234_5678);
}

#[test]
fn combine_high_word_only() {
    assert_eq!(combine(0x1234_5678, 0), 0x1234_5678_0000_0000);
}

#[test]
fn combine_no_bit_overlap() {
    assert_eq!(combine(u32::MAX, u32::MAX), u64::MAX);
}

#[test]
fn combine_round_trips() {
    let v: u64 = 0xDEAD_BEEF_CAFE_F00D;
    let hi = (v >> 32) as u32;
    let lo = v as u32;
    assert_eq!(combine(hi, lo), v);
}

#[test]
fn start_sequence() {
    let (_rtc, ops) = Rtc::new(0x8000, Mode::FreeRun);
    assert_eq!(ops, vec![RtcOp::Stop, RtcOp::SetMode(3), RtcOp::Load(0x8000), RtcOp::Start]);
}

#[test]
fn read_count_handshake() {
    let (rtc, _) = Rtc::new(1, Mode::Periodic);
    let mut log: Vec<RtcAccess> = Vec::new();
    let mut polls = 0u32;
    let v = rtc.read_count(&mut |a| {
        log.push(a);
        match a {
            RtcAccess::IsEnabled => 1,
            RtcAccess::RequestLatch => 0,
            RtcAccess::IsLocked => {
                polls += 1;
                (polls == 2) as u32
            },
            RtcAccess::ReadLow => 0xCAFE_F00D,
            RtcAccess::ReadHigh => 0xDEAD_BEEF,
        }
    });
    assert_eq!(v, 0xDEAD_BEEF_CAFE_F00D);
    assert_eq!(
        log,
        vec![
            RtcAccess::IsEnabled,
            RtcAccess::RequestLatch,
            RtcAccess::IsLocked,
            RtcAccess::IsLocked,
            RtcAccess::ReadLow,
            RtcAccess::ReadHigh,
        ]
    );

    let mut log: Vec<RtcAccess> = Vec::new();
    let v = rtc.read_count(&mut |a| {
        log.push(a);
        0
    });
    assert_eq!(v, 0);
    assert_eq!(log, vec![RtcAccess::IsEnabled]);
}

#[test]
fn pending_and_clear() {
    let (rtc, _) = Rtc::new(1, Mode::OneShot);
    assert!(rtc.is_pending(1));
    assert!(!rtc.is_pending(2));
    assert_eq!(rtc.clear_interrupt(), RtcOp::EndOfInterrupt);
}
