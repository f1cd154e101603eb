//! Key management: keyslot lock commands and lock-status queries.
//!
//! A slot is selected in bits 9:0 of `KC_RD_SLOT_NUM` / `KC_REECPU_LOCK_CMD`
//! with the keyslot type at bit 15 (0 = mcipher); the lock command is bit 20.
//! `KC_RD_LOCK_STATUS` bits 2:0 name the owner of a lock (0 = unlocked,
//! 1 REE, 2 TEE, 4 PCPU, 6 AIDSP): a slot is locked when the owner is not 0.
use vstd::prelude::*;

verus! {

/// Number of keyslots.
pub const KEYSLOT_COUNT: u8 = 8;

/// The `KC_RD_SLOT_NUM` word selecting mcipher keyslot `slot`.
pub open spec fn slot_select_spec(slot: u8) -> u32 {
    slot as u32
}

/// The `KC_REECPU_LOCK_CMD` word locking mcipher keyslot `slot`.
pub open spec fn lock_cmd_spec(slot: u8) -> u32 {
    slot as u32 | 0x10_0000u32
}

/// The key-management driver.
pub struct KmDriver;

impl KmDriver {
    /// The driver.
    pub fn new() -> (d: Self) {
        KmDriver
    }

    /// The `kl_com_ctrl` word that enables the block.
    pub fn enable(&mut self) -> (r: u32)
        ensures
            *final(self) == *old(self),
            r == 1,
    {
        0x01
    }

    /// The `KC_RD_SLOT_NUM` word that selects `slot` (type mcipher).
    pub fn rd_slot_select_word(&self, slot: u8) -> (r: u32)
        requires
            slot < KEYSLOT_COUNT,
        ensures
            r == slot_select_spec(slot),
    {
        slot as u32
    }

    /// The `KC_REECPU_LOCK_CMD` word that locks `slot`: the slot number in
    /// bits 9:0 and the lock command at bit 20.
    pub fn lock_cmd_word(&self, slot: u8) -> (r: u32)
        requires
            slot < KEYSLOT_COUNT,
        ensures
            r == lock_cmd_spec(slot),
    {
        slot as u32 | 0x10_0000
    }

    /// Whether `slot` is locked. `query(w)` writes `w` to `KC_RD_SLOT_NUM`
    /// and returns `KC_RD_LOCK_STATUS`; the slot is locked when the owner
    /// field (bits 2:0) is not 0.
    pub fn is_keyslot_locked<F: FnOnce(u32) -> u32>(&self, slot: u8, query: F) -> (r: bool)
        requires
            slot < KEYSLOT_COUNT,
            call_requires(query, (slot_select_spec(slot),)),
        ensures
            exists|st: u32| #[trigger] call_ensures(query, (slot_select_spec(slot),), st) && r == (st
                & 7 != 0),
    {
        let st = query(self.rd_slot_select_word(slot));
        st & 7 != 0
    }

    /// Whether a `KC_RD_LOCK_STATUS` value reports a lock owner.
    pub fn lock_status_locked(&self, status: u32) -> (r: bool)
        ensures
            r == (status & 7 != 0),
    {
        status & 7 != 0
    }

    /// Lock `slot`: the `KC_REECPU_LOCK_CMD` word to write. The slot stays
    /// locked until the next reset.
    pub fn lock_keyslot(&mut self, slot: u8) -> (r: u32)
        requires
            slot < KEYSLOT_COUNT,
        ensures
            *final(self) == *old(self),
            r == lock_cmd_spec(slot),
    {
        self.lock_cmd_word(slot)
    }

    /// The number of keyslots.
    pub fn keyslot_count(&self) -> (r: u8)
        ensures
            r == KEYSLOT_COUNT,
    {
        KEYSLOT_COUNT
    }
}

/// The fields of the lock command: the slot number in bits 9:0, the lock
/// command at bit 20, the type bit 15 clear, nothing else set; the select
/// word carries the slot with the type bit clear.
pub proof fn law_lock_cmd_fields(slot: u8)
    requires
        slot < KEYSLOT_COUNT,
    ensures
        lock_cmd_spec(slot) & 0x3FF == slot,
        (lock_cmd_spec(slot) >> 20) & 1 == 1,
        (lock_cmd_spec(slot) >> 15) & 1 == 0,
        lock_cmd_spec(slot) & !(0x3FFu32 | 0x10_0000u32) == 0,
        slot_select_spec(slot) & 0x3FF == slot,
        (slot_select_spec(slot) >> 15) & 1 == 0,
{
    let s = slot as u32;
    assert(s < 8 ==> {
        let w = s | 0x10_0000u32;
        &&& w & 0x3FF == s
        &&& (w >> 20) & 1 == 1
        &&& (w >> 15) & 1 == 0
        &&& w & !(0x3FFu32 | 0x10_0000u32) == 0
        &&& s & 0x3FF == s
        &&& (s >> 15) & 1 == 0
    }) by (bit_vector);
}

} // verus!
