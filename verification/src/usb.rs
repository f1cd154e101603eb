//! BS2X USB 2.0 OTG (Synopsys DWC2) in device mode, up to enumeration.
//!
//! Bring-up: core soft reset, force device mode, global and device
//! configuration, soft-connect, then wait for the host's USB reset and for
//! enumeration-done, and read the negotiated speed. The script, its bounded
//! waits and the decodes are here; each register access is MMIO.
use vstd::prelude::*;
use crate::poll::{access_trace, lemma_prefix_push};

verus! {

/// The Synopsys signature in the top half of `gsnpsid` ("OT").
pub const SNPS_SIGNATURE: u16 = 0x4F54;

/// Bound on the polls of each wait of the bring-up.
pub const POLL_LIMIT: u32 = 1_000_000;

/// Whether a core ID carries the DWC OTG signature in its top 16 bits.
pub open spec fn has_signature(core_id: u32) -> bool {
    core_id / 0x1_0000 == SNPS_SIGNATURE
}

/// Whether a `gsnpsid` value carries the signature in its top 16 bits.
pub fn id_has_signature(core_id: u32) -> (r: bool)
    ensures
        r == has_signature(core_id),
{
    assert((core_id >> 16) == core_id / 0x1_0000) by (bit_vector);
    (core_id >> 16) as u16 == SNPS_SIGNATURE
}

/// A core ID carries the signature exactly when its high half is the
/// signature, whatever its low half.
pub proof fn law_signature_high_half(high: u16, low: u16)
    ensures
        has_signature((high * 0x1_0000 + low) as u32) <==> high == SNPS_SIGNATURE,
{
    assert((high * 0x1_0000 + low) / 0x1_0000 == high) by (nonlinear_arith)
        requires
            low < 0x1_0000,
    ;
}

/// Errors of the device bring-up.
#[derive(Debug, PartialEq, Eq, Structural)]
pub enum UsbError {
    /// A status bit never rose within the bounded wait.
    Timeout,
    /// The core-ID signature was wrong (no controller).
    NotPresent,
}

/// The speed the host enumerated the device at (`DSTS.ENUMSPD`).
#[derive(Clone, Copy, Debug, PartialEq, Eq, Structural)]
pub enum Speed {
    /// High speed (0).
    High,
    /// Full speed through the high-speed PHY (3).
    Full,
    /// Low speed (2).
    Low,
    /// Full speed through a full-speed PHY (1).
    FullFs,
}

/// The speed an `ENUMSPD` value decodes to.
pub open spec fn speed_of(enumspd: u8) -> Speed {
    if enumspd == 0 {
        Speed::High
    } else if enumspd == 1 {
        Speed::FullFs
    } else if enumspd == 2 {
        Speed::Low
    } else {
        Speed::Full
    }
}

/// Decode `DSTS.ENUMSPD`; every value from 3 up is full speed.
pub fn speed_from_enumspd(enumspd: u8) -> (r: Speed)
    ensures
        r == speed_of(enumspd),
{
    match enumspd {
        0 => Speed::High,
        1 => Speed::FullFs,
        2 => Speed::Low,
        _ => Speed::Full,
    }
}

/// A condition the bring-up waits for.
#[derive(Clone, Copy, Debug, PartialEq, Eq, Structural)]
pub enum UsbCondition {
    /// `GRSTCTL.AHBIDLE` set.
    AhbIdle,
    /// `GRSTCTL.CSFTRST` clear (the soft reset has finished).
    SoftResetDone,
    /// `GINTSTS.USBRST` set (the host reset the bus).
    UsbReset,
    /// `GINTSTS.ENUMDONE` set.
    EnumDone,
}

/// A register write of the bring-up.
#[derive(Clone, Copy, Debug, PartialEq, Eq, Structural)]
pub enum UsbWrite {
    /// Write `GRSTCTL` with `CSFTRST` set.
    CoreSoftReset,
    /// Set `GUSBCFG.FORCEDEVMODE`.
    ForceDeviceMode,
    /// Write this value to `GINTSTS` (write 1 to clear).
    ClearInterrupts(u32),
    /// Set `USBRSTMSK` and `ENUMDONEMSK` in `GINTMSK`.
    UnmaskResetAndEnum,
    /// Set `DCFG.DEVSPD` and `DCFG.DEVADDR`.
    DeviceConfig { speed: u8, address: u8 },
    /// Set `GAHBCFG.GLBLINTRMSK`.
    GlobalInterruptEnable,
    /// Clear `DCTL.SFTDISCON` (attach the D+ pull-up).
    SoftConnect,
    /// Write `USBRST` to `GINTSTS` (acknowledge).
    AckUsbReset,
    /// Write `ENUMDONE` to `GINTSTS` (acknowledge).
    AckEnumDone,
}

/// One step of the bring-up.
#[derive(Clone, Copy, Debug, PartialEq, Eq, Structural)]
pub enum UsbStep {
    /// Wait, bounded, for a condition.
    Wait(UsbCondition),
    /// Make a write.
    Write(UsbWrite),
}

/// The bring-up script, in order.
pub open spec fn enumerate_spec() -> Seq<UsbStep> {
    seq![
        UsbStep::Wait(UsbCondition::AhbIdle),
        UsbStep::Write(UsbWrite::CoreSoftReset),
        UsbStep::Wait(UsbCondition::SoftResetDone),
        UsbStep::Wait(UsbCondition::AhbIdle),
        UsbStep::Write(UsbWrite::ForceDeviceMode),
        UsbStep::Write(UsbWrite::ClearInterrupts(0xFFFF_FFFF)),
        UsbStep::Write(UsbWrite::UnmaskResetAndEnum),
        UsbStep::Write(UsbWrite::DeviceConfig { speed: 0, address: 0 }),
        UsbStep::Write(UsbWrite::GlobalInterruptEnable),
        UsbStep::Write(UsbWrite::SoftConnect),
        UsbStep::Wait(UsbCondition::UsbReset),
        UsbStep::Write(UsbWrite::AckUsbReset),
        UsbStep::Wait(UsbCondition::EnumDone),
        UsbStep::Write(UsbWrite::AckEnumDone),
    ]
}

/// The DWC2 OTG controller in device mode.
pub struct Usb;

impl Usb {
    /// The driver.
    pub fn new() -> (u: Self) {
        Usb
    }

    /// Whether the core ID read from `gsnpsid` carries the signature.
    pub fn is_present(&self, core_id: u32) -> (r: bool)
        ensures
            r == has_signature(core_id),
    {
        id_has_signature(core_id)
    }

    /// The bring-up script.
    pub fn enumerate_sequence(&self) -> (r: Vec<UsbStep>)
        ensures
            r@ == enumerate_spec(),
    {
        let r = vec![
            UsbStep::Wait(UsbCondition::AhbIdle),
            UsbStep::Write(UsbWrite::CoreSoftReset),
            UsbStep::Wait(UsbCondition::SoftResetDone),
            UsbStep::Wait(UsbCondition::AhbIdle),
            UsbStep::Write(UsbWrite::ForceDeviceMode),
            UsbStep::Write(UsbWrite::ClearInterrupts(0xFFFF_FFFF)),
            UsbStep::Write(UsbWrite::UnmaskResetAndEnum),
            UsbStep::Write(UsbWrite::DeviceConfig { speed: 0, address: 0 }),
            UsbStep::Write(UsbWrite::GlobalInterruptEnable),
            UsbStep::Write(UsbWrite::SoftConnect),
            UsbStep::Wait(UsbCondition::UsbReset),
            UsbStep::Write(UsbWrite::AckUsbReset),
            UsbStep::Wait(UsbCondition::EnumDone),
            UsbStep::Write(UsbWrite::AckEnumDone),
        ];
        assert(r@ =~= enumerate_spec());
        r
    }

    /// Bring the device up and wait for enumeration, through `bus`. The
    /// core ID (`gsnpsid`) is read first; without the signature nothing else
    /// is accessed and the result is `NotPresent`. Otherwise the script of
    /// [`Usb::enumerate_sequence`] runs in order: each write is made once,
    /// and each wait reads its condition until it holds, at most
    /// [`POLL_LIMIT`] times; a wait that runs out stops the script with
    /// `Timeout`. After the last step `DSTS.ENUMSPD` is read and decoded.
    pub fn device_enumerate<B: FnMut(UsbAccess) -> u32>(&mut self, bus: &mut B) -> (r: Result<Speed, UsbError>)
        requires
            forall|a: UsbAccess| call_requires(*old(bus), (a,)),
        ensures
            exists|calls: Seq<UsbAccess>, states: Seq<B>, answers: Seq<u32>|
                #[trigger] access_trace(*old(bus), calls, states, answers) && enumerate_run(calls, answers, r),
    {
        let ghost start = *bus;
        let id = bus(UsbAccess::ReadCoreId);
        let ghost mut calls: Seq<UsbAccess> = seq![UsbAccess::ReadCoreId];
        let ghost mut states: Seq<B> = seq![start];
        let ghost mut answers: Seq<u32> = seq![id];
        let ghost mut mc: Seq<UsbAccess> = Seq::empty();
        let ghost mut ma: Seq<u32> = Seq::empty();
        assert(access_trace(start, calls, states, answers));
        if !self.is_present(id) {
            return Err(UsbError::NotPresent);
        }
        let script = self.enumerate_sequence();
        let mut i: usize = 0;
        let mut polls: u32 = 0;
        loop
            invariant
                script@ == enumerate_spec(),
                i <= script@.len(),
                polls < POLL_LIMIT,
                has_signature(id),
                forall|a: UsbAccess| call_requires(*bus, (a,)),
                access_trace(start, calls, states, answers),
                start == *old(bus),
                calls == seq![UsbAccess::ReadCoreId] + mc,
                answers == seq![id] + ma,
                mc.len() == ma.len(),
                enumerate_pos(ma) == (i as nat, polls as nat, false),
                forall|j: int| 0 <= j < mc.len() ==> #[trigger] mc[j] == enumerate_access(enumerate_pos(ma.take(j)))
                    && !enumerate_pos(ma.take(j)).2 && enumerate_pos(ma.take(j)).0 <= enumerate_spec().len(),
            decreases script@.len() - i, POLL_LIMIT - polls,
        {
            let ghost pos = enumerate_pos(ma);
            let access = if i == script.len() {
                UsbAccess::ReadSpeed
            } else {
                match script[i] {
                    UsbStep::Wait(c) => UsbAccess::Poll(c),
                    UsbStep::Write(w) => UsbAccess::Write(w),
                }
            };
            assert(access == enumerate_access(pos));
            let ghost pre = *bus;
            let v = bus(access);
            proof {
                lemma_prefix_push(ma, v);
                lemma_prefix_push(mc, access);
                mc = mc.push(access);
                ma = ma.push(v);
                calls = calls.push(access);
                states = states.push(pre);
                answers = answers.push(v);
                assert(calls =~= seq![UsbAccess::ReadCoreId] + mc);
                assert(answers =~= seq![id] + ma);
                assert(calls.subrange(1, calls.len() as int) =~= mc);
                assert(answers.subrange(1, answers.len() as int) =~= ma);
            }
            assert(access_trace(start, calls, states, answers));
            if i == script.len() {
                assert(enumerate_pos(ma) == (enumerate_spec().len() + 1, 0nat, false));
                return Ok(speed_from_enumspd(v as u8));
            }
            match script[i] {
                UsbStep::Write(_) => {
                    i += 1;
                    polls = 0;
                },
                UsbStep::Wait(_) => {
                    if v & 1 != 0 {
                        i += 1;
                        polls = 0;
                    } else if polls + 1 == POLL_LIMIT {
                        assert(enumerate_pos(ma).2);
                        return Err(UsbError::Timeout);
                    } else {
                        polls += 1;
                    }
                },
            }
        }
    }
}

/// A register access of the bring-up. A condition read answers 1 when the
/// condition holds, else 0.
#[derive(Clone, Copy, Debug, PartialEq, Eq, Structural)]
pub enum UsbAccess {
    /// Read `gsnpsid`.
    ReadCoreId,
    /// Read whether a condition holds.
    Poll(UsbCondition),
    /// Make a write.
    Write(UsbWrite),
    /// Read `DSTS.ENUMSPD`.
    ReadSpeed,
}

/// Where the bring-up stands after the accesses that got `answers` (the
/// core-ID read excepted): the script step it is at (one past the end once
/// the speed was read), the condition reads of the current wait that found
/// it not holding, and whether a wait ran out after [`POLL_LIMIT`] such
/// reads.
pub open spec fn enumerate_pos(answers: Seq<u32>) -> (nat, nat, bool)
    decreases answers.len(),
{
    if answers.len() == 0 {
        (0, 0, false)
    } else {
        let p = enumerate_pos(answers.drop_last());
        let v = answers.last();
        if p.2 || p.0 > enumerate_spec().len() {
            p
        } else if p.0 == enumerate_spec().len() {
            (p.0 + 1, 0, false)
        } else {
            match enumerate_spec()[p.0 as int] {
                UsbStep::Write(_) => (p.0 + 1, 0, false),
                UsbStep::Wait(_) => {
                    if v & 1 != 0 {
                        (p.0 + 1, 0, false)
                    } else if p.1 + 1 >= POLL_LIMIT {
                        (p.0, p.1 + 1, true)
                    } else {
                        (p.0, p.1 + 1, false)
                    }
                },
            }
        }
    }
}

/// The access the bring-up makes at position `p`: the write of a write
/// step, a read of the condition of a wait step, and the speed read after
/// the last step.
pub open spec fn enumerate_access(p: (nat, nat, bool)) -> UsbAccess {
    if p.0 < enumerate_spec().len() {
        match enumerate_spec()[p.0 as int] {
            UsbStep::Write(w) => UsbAccess::Write(w),
            UsbStep::Wait(c) => UsbAccess::Poll(c),
        }
    } else {
        UsbAccess::ReadSpeed
    }
}

/// A whole bring-up: the core ID is read first; without the signature that
/// is all and the result is `NotPresent`. Otherwise every later access is
/// the one [`enumerate_access`] names after the answers before it, made
/// only while no wait had run out; the run ended with a wait that ran out,
/// and then the result is `Timeout`, or with the speed read after the whole
/// script, and then the result is that speed.
pub open spec fn enumerate_run(calls: Seq<UsbAccess>, answers: Seq<u32>, r: Result<Speed, UsbError>) -> bool {
    &&& calls.len() >= 1
    &&& calls[0] == UsbAccess::ReadCoreId
    &&& !has_signature(answers[0]) ==> calls.len() == 1 && r == Err::<Speed, UsbError>(UsbError::NotPresent)
    &&& has_signature(answers[0]) ==> {
        let mc = calls.subrange(1, calls.len() as int);
        let ma = answers.subrange(1, answers.len() as int);
        let p = enumerate_pos(ma);
        &&& forall|j: int|
            0 <= j < mc.len() ==> #[trigger] mc[j] == enumerate_access(enumerate_pos(ma.take(j)))
                && !enumerate_pos(ma.take(j)).2 && enumerate_pos(ma.take(j)).0 <= enumerate_spec().len()
        &&& r == Err::<Speed, UsbError>(UsbError::Timeout) <==> p.2
        &&& r is Ok <==> p.0 == enumerate_spec().len() + 1
        &&& r is Ok || p.2
        &&& r matches Ok(s) ==> s == speed_of(answers.last() as u8)
    }
}

} // verus!
