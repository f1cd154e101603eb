use hisi_hal::keyscan::{decode_key, KeyAccess, KeyEvent, Keyscan, KeyscanOp, FIFO_EMPTY};

#[test]
fn decode_entries() {
    assert_eq!(decode_key(FIFO_EMPTY), None);
    assert_eq!(decode_key(0x12B), Some(KeyEvent { row: 5, col: 3, pressed: true }));
    assert_eq!(decode_key(0x02B), Some(KeyEvent { row: 5, col: 3, pressed: false }));
    assert_eq!(decode_key(0x1FF), Some(KeyEvent { row: 31, col: 7, pressed: true }));
}

#[test]
fn start_script_packs_pin_counts() {
    let (_k, ops) = Keyscan::new(8, 6);
    assert_eq!(ops, vec![KeyscanOp::PinNum((7 << 4) | 5), KeyscanOp::Enable, KeyscanOp::FifoClockEnable, KeyscanOp::Start]);
    let (_k, ops) = Keyscan::new(0, 0);
    assert_eq!(ops[0], KeyscanOp::PinNum(0));
}

#[test]
fn read_key_polls_reads_and_acks() {
    let (k, _) = Keyscan::new(4, 4);
    let mut log: Vec<KeyAccess> = Vec::new();
    let r = k.read_key(&mut |a| {
        log.push(a);
        match a {
            KeyAccess::EventStatus => 1,
            KeyAccess::ReadFifo => 0x10A,
            KeyAccess::Ack => 0,
        }
    });
    assert_eq!(r, Some(KeyEvent { row: 1, col: 2, pressed: true }));
    assert_eq!(log, vec![KeyAccess::EventStatus, KeyAccess::ReadFifo, KeyAccess::Ack]);
    let mut polls = 0u32;
    let r = k.read_key(&mut |a| match a {
        KeyAccess::EventStatus => {
            polls += 1;
            0
        },
        KeyAccess::ReadFifo => FIFO_EMPTY as u32,
        KeyAccess::Ack => 0,
    });
    assert_eq!(r, None);
    assert_eq!(polls, 1_000_000);
}
