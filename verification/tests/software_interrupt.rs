use hisi_hal::interrupt::IrqBit;
use hisi_hal::software_interrupt::{SoftIntSetup, SoftwareInterrupt0};

#[test]
fn claim_pend_clear_release() {
    let (si, setup) = SoftwareInterrupt0::new();
    assert_eq!(
        setup,
        SoftIntSetup { source_clear: 1, pending_clear: 36, source_enable: 1, irq: Some(IrqBit::Locien(0, 1 << 4)) }
    );
    assert_eq!(si.pend(), 1);
    assert_eq!(SoftwareInterrupt0::pend_interrupt(), 1);
    assert!(si.is_pending(1));
    assert!(!si.is_pending(2));
    assert_eq!(SoftwareInterrupt0::clear_interrupt(), (1, 36));
    let r = si.release();
    assert_eq!(r.source_enable, 0);
    assert_eq!(r.pending_clear, 36);
}
