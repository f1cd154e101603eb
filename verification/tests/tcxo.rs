use hisi_hal::tcxo::{TcxoAccess, TcxoDriver};
use hisi_hal::time::tcxo_counter64;

#[test]
fn test_tcxo_refresh_timeout_logic() {
    let d = TcxoDriver::new();
    let mut attempts = 0;
    let mut valid = || {
        attempts += 1;
        false
    };
    let result = d.refresh(&mut valid);
    assert_eq!(result, Err(()));
    assert_eq!(attempts, 100);
}

#[test]
fn test_tcxo_refresh_success_on_valid() {
    let d = TcxoDriver::new();
    let mut valid = || true;
    let result = d.refresh(&mut valid);
    assert!(result.is_ok());
}

#[test]
fn test_tcxo_counter_64bit_assembly() {
    let d = TcxoDriver::new();
    let counter = tcxo_counter64(0x1234, 0x5678, 0x9ABC, 0xDEF0);
    assert_eq!(counter, 0xDEF0_9ABC_5678_1234);
    assert_eq!(d.read_counter(true, 0x1234, 0x5678, 0x9ABC, 0xDEF0), Some(0xDEF0_9ABC_5678_1234));
    assert_eq!(d.read_counter(false, 1, 2, 3, 4), None);
}

#[test]
fn test_tcxo_counter_32bit_assembly() {
    let d = TcxoDriver::new();
    assert_eq!(d.read_counter32(true, 0x1234, 0x5678), Some(0x5678_1234));
    assert_eq!(d.read_counter32(false, 0x1234, 0x5678), None);
}

#[test]
fn status_words() {
    let mut d = TcxoDriver::new();
    assert_eq!(d.enable(0x10), 0x14);
    assert_eq!(d.disable(0x15), 0x11);
    assert_eq!(d.clear(0), 0x2);
    assert_eq!(d.refresh_request(0x4), 0x5);
    assert!(d.refresh_ok(0x10));
    assert!(!d.is_valid(0x0F));
}

#[test]
fn latched_read_requests_polls_then_reads_counts() {
    let d = TcxoDriver::new();
    let mut log: Vec<TcxoAccess> = Vec::new();
    let mut polls = 0u32;
    let v = d.read_latched(&mut |a| {
        log.push(a);
        match a {
            TcxoAccess::ReadStatus => {
                polls += 1;
                if polls >= 3 { 0x14 } else { 0x04 }
            },
            TcxoAccess::WriteStatus(_) => 0,
            TcxoAccess::ReadCount(i) => [0x1234, 0x5678, 0x9ABC, 0xDEF0][i as usize],
        }
    });
    assert_eq!(v, Some(0xDEF0_9ABC_5678_1234));
    assert_eq!(
        log,
        vec![
            TcxoAccess::ReadStatus,
            TcxoAccess::WriteStatus(0x05),
            TcxoAccess::ReadStatus,
            TcxoAccess::ReadStatus,
            TcxoAccess::ReadCount(0),
            TcxoAccess::ReadCount(1),
            TcxoAccess::ReadCount(2),
            TcxoAccess::ReadCount(3),
        ]
    );
    let mut counts = 0u32;
    let v = d.read_latched32(&mut |a| match a {
        TcxoAccess::ReadCount(_) => {
            counts += 1;
            0
        },
        _ => 0,
    });
    assert_eq!(v, None);
    assert_eq!(counts, 0);
}
