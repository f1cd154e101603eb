use hisi_hal::pdm::{Pdm, PdmAccess, PdmOp};
use std::cell::Cell;

#[test]
fn start_script() {
    let (_p, ops) = Pdm::new();
    assert_eq!(ops.len(), 5);
    assert_eq!(ops[0], PdmOp::CicControl { gain: 0x14, enable: true });
    assert_eq!(ops[2], PdmOp::UpFifoThresholds { almost_empty: 3, almost_full: 16 });
    assert_eq!(ops[4], PdmOp::Start);
}

#[test]
fn capture_fills_until_timeout() {
    let (p, _) = Pdm::new();
    let next = Cell::new(0u32);
    let has = Cell::new(2u32);
    let status_reads = Cell::new(0u32);
    let mut buf = [7u32; 4];
    let n = p.capture(&mut buf, &mut |a| match a {
        PdmAccess::FifoStatus => {
            status_reads.set(status_reads.get() + 1);
            if has.get() > 0 {
                has.set(has.get() - 1);
                0
            } else {
                1
            }
        },
        PdmAccess::FifoData => {
            next.set(next.get() + 1);
            next.get() * 0x1_0000
        },
    });
    assert_eq!(n, 2);
    assert_eq!(buf, [0x1_0000, 0x2_0000, 7, 7]);
    assert_eq!(status_reads.get(), 2 + 1_000_001);
}

#[test]
fn capture_waits_before_every_word() {
    let (p, _) = Pdm::new();
    let mut log: Vec<PdmAccess> = Vec::new();
    let mut empties = 0u32;
    let mut buf = [0u32; 2];
    let n = p.capture(&mut buf, &mut |a| {
        log.push(a);
        match a {
            PdmAccess::FifoStatus => {
                empties += 1;
                (empties % 2) as u32
            },
            PdmAccess::FifoData => 5,
        }
    });
    assert_eq!(n, 2);
    assert_eq!(
        log,
        vec![
            PdmAccess::FifoStatus,
            PdmAccess::FifoStatus,
            PdmAccess::FifoData,
            PdmAccess::FifoStatus,
            PdmAccess::FifoStatus,
            PdmAccess::FifoData,
        ]
    );
}

#[test]
fn capture_full_buffer_and_version() {
    let (p, _) = Pdm::new();
    let mut buf = [0u32; 3];
    assert_eq!(
        p.capture(&mut buf, &mut |a| match a {
            PdmAccess::FifoStatus => 0,
            PdmAccess::FifoData => 0xABCD_0000,
        }),
        3
    );
    assert_eq!(buf, [0xABCD_0000; 3]);
    assert_eq!(p.version(0x150), 0x150);
}
