use hisi_hal::km::{KmDriver, KEYSLOT_COUNT};

#[test]
fn test_keyslot_lock_bit_position() {
    let mut km = KmDriver::new();
    let slot: u16 = 3;
    let val: u32 = km.lock_keyslot(slot as u8);
    assert_eq!(val, (slot as u32) | (1 << 20));
    assert_eq!(val & 0x3FF, 3);
    assert_eq!((val >> 20) & 1, 1);
}

#[test]
fn test_keyslot_lock_status_is_enum_not_bitmask() {
    let km = KmDriver::new();
    let unlocked: u8 = 0;
    let ree_locked: u8 = 1;
    let tee_locked: u8 = 2;
    assert_eq!(km.lock_status_locked(unlocked as u32), false);
    assert_eq!(km.lock_status_locked(ree_locked as u32), true);
    assert_eq!(km.lock_status_locked(tee_locked as u32), true);
    // An owner whose value has no bit for the slot still locks it.
    assert!(km.is_keyslot_locked(0, |w| {
        assert_eq!(w, 0);
        6
    }));
}

#[test]
fn test_keyslot_count() {
    assert_eq!(KEYSLOT_COUNT, 8);
    assert_eq!(KmDriver::new().keyslot_count(), 8);
}

#[test]
fn test_all_keyslots_lockable() {
    let mut km = KmDriver::new();
    for slot in 0..8u16 {
        let val: u32 = km.lock_keyslot(slot as u8);
        assert_eq!(val & 0x3FF, slot as u32);
        assert_eq!((val >> 20) & 1, 1);
        assert!(slot < KEYSLOT_COUNT as u16);
    }
}

#[test]
fn query_selects_slot_and_reads_owner() {
    let km = KmDriver::new();
    assert!(!km.is_keyslot_locked(5, |w| {
        assert_eq!(w, 5);
        0xF8
    }));
    assert!(km.is_keyslot_locked(7, |_w| 0x4));
    assert_eq!(KmDriver::new().enable(), 1);
}
