use hisi_hal::trng::{TrngAccess, TrngDriver, TrngError};
use hisi_hal::trng_v1::{Trng, TrngV1Access};

#[test]
fn test_trng_error_type_variants() {
    assert_ne!(TrngError::NoData as u8, TrngError::Timeout as u8);
}

#[test]
fn test_trng_data_ready_bit() {
    let t = TrngDriver::new();
    assert!(t.data_ready(0x01));
    assert!(!t.data_ready(0x00));
}

#[test]
fn test_trng_done_bit() {
    let t = TrngDriver::new();
    assert!(t.done(0x02));
    assert!(!t.done(0x00));
}

#[test]
fn test_trng_read_blocking_timeout_logic() {
    let t = TrngDriver::new();
    let mut polls = 0u32;
    let mut data_reads = 0u32;
    let r = t.read_blocking(&mut |a| match a {
        TrngAccess::FifoReady => {
            polls += 1;
            0
        },
        TrngAccess::FifoData => {
            data_reads += 1;
            42
        },
    });
    assert_eq!(r, Err(TrngError::Timeout));
    assert_eq!(polls, 1_000_000);
    assert_eq!(data_reads, 0);
}

#[test]
fn test_trng_read_blocking_success_first_try() {
    let t = TrngDriver::new();
    let mut log = Vec::new();
    let r = t.read_blocking(&mut |a| {
        log.push(a);
        match a {
            TrngAccess::FifoReady => 1,
            TrngAccess::FifoData => 0xDEAD_BEEF,
        }
    });
    assert_eq!(r.unwrap(), 0xDEAD_BEEF);
    assert_eq!(log, vec![TrngAccess::FifoReady, TrngAccess::FifoData]);
}

#[test]
fn trng_read_and_fill() {
    let mut t = TrngDriver::new();
    assert_eq!(t.read(0, || panic!("empty FIFO")), Err(TrngError::NoData));
    assert_eq!(t.read(1, || 7), Ok(7));
    assert_eq!(t.words_needed(5), 2);
    assert_eq!(t.words_needed(8), 2);
    let mut b = [0u8; 6];
    assert_eq!(t.fill_bytes(&mut b, &[0x4433_2211, 0x8877_6655]), Ok(()));
    assert_eq!(b, [0x11, 0x22, 0x33, 0x44, 0x55, 0x66]);
    let mut b = [0xEEu8; 6];
    assert_eq!(t.fill_bytes(&mut b, &[0x4433_2211]), Err(TrngError::Timeout));
    assert_eq!(b, [0x11, 0x22, 0x33, 0x44, 0xEE, 0xEE]);
    let mut w = [0u32; 2];
    assert_eq!(t.fill_words(&mut w, &[1, 2]), Ok(()));
    assert_eq!(w, [1, 2]);
    let mut w = [9u32; 3];
    assert_eq!(t.fill_words(&mut w, &[1]), Err(TrngError::Timeout));
    assert_eq!(w, [1, 9, 9]);
    assert_eq!(t.set_divider(0x1b), 0x1b);
    assert_eq!(t.set_sample_clock(true), 1);
}

#[test]
fn trng_v1_waits_for_ready_and_done() {
    let t = Trng::new();
    assert!(!t.word_available(0x1));
    assert!(t.word_available(0x3));
    let mut n = 0;
    let mut log: Vec<TrngV1Access> = Vec::new();
    let r = t.next_u32(&mut |a| {
        log.push(a);
        match a {
            TrngV1Access::FifoReady => {
                n += 1;
                if n < 3 { 1 } else { 3 }
            },
            TrngV1Access::FifoData => 0xABCD,
        }
    });
    assert_eq!(r, Ok(0xABCD));
    assert_eq!(
        log,
        vec![TrngV1Access::FifoReady, TrngV1Access::FifoReady, TrngV1Access::FifoReady, TrngV1Access::FifoData]
    );
    let mut data_reads = 0u32;
    let r = t.next_u32(&mut |a| match a {
        TrngV1Access::FifoReady => 2,
        TrngV1Access::FifoData => {
            data_reads += 1;
            0
        },
    });
    assert_eq!(r, Err(hisi_hal::trng_v1::TrngError::Timeout));
    assert_eq!(data_reads, 0);
}
