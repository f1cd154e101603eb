use hisi_hal::soc::TIMER_CLOCK_HZ;
use hisi_hal::timer::{try_ticks_for_us, TimerAccess, TimerError};

const TICKS_PER_US: u64 = TIMER_CLOCK_HZ as u64 / 1_000_000;
const MAX_SAFE_US: u64 = u32::MAX as u64 / TICKS_PER_US;

#[test]
fn oneshot_overflow_rejected() {
    let us = (MAX_SAFE_US + 1_000_000).min(u32::MAX as u64) as u32;
    assert_eq!(try_ticks_for_us(us), Err(TimerError::TicksOverflow));
    assert_eq!(try_ticks_for_us(u32::MAX), Err(TimerError::TicksOverflow));
}

#[test]
fn small_value_converts() {
    assert_eq!(try_ticks_for_us(100), Ok((100 * TICKS_PER_US) as u32));
}

#[test]
fn max_safe_value_accepted() {
    let max_us = MAX_SAFE_US as u32;
    let ticks64 = TIMER_CLOCK_HZ as u64 * max_us as u64 / 1_000_000;
    assert!(ticks64 <= u32::MAX as u64);
    assert_eq!(try_ticks_for_us(max_us), Ok(ticks64 as u32));
    assert_eq!(try_ticks_for_us(max_us + 1), Err(TimerError::TicksOverflow));
}

#[test]
fn current_value_latches_enabled_channels_only() {
    let d = hisi_hal::timer::TimerDriver::new();
    let mut log: Vec<TimerAccess> = Vec::new();
    let mut reads = 0u32;
    let v = d.current_value(&mut |a| {
        log.push(a);
        match a {
            TimerAccess::ReadControl => {
                reads += 1;
                if reads == 4 { 0x41 } else { 0x01 }
            },
            TimerAccess::WriteControl(_) => 0,
            TimerAccess::ReadValue => 1234,
        }
    });
    assert_eq!(v, 1234);
    assert_eq!(
        log,
        vec![
            TimerAccess::ReadControl,
            TimerAccess::WriteControl(0x21),
            TimerAccess::ReadControl,
            TimerAccess::ReadControl,
            TimerAccess::ReadControl,
            TimerAccess::ReadValue,
        ]
    );
    let mut log: Vec<TimerAccess> = Vec::new();
    let v = d.current_value(&mut |a| {
        log.push(a);
        0
    });
    assert_eq!(v, 0);
    assert_eq!(log, vec![TimerAccess::ReadControl]);
    let mut polls = 0u32;
    let v = d.current_value(&mut |a| match a {
        TimerAccess::ReadControl => {
            polls += 1;
            0x01
        },
        TimerAccess::WriteControl(_) => 0,
        TimerAccess::ReadValue => 9,
    });
    assert_eq!(v, 9);
    assert_eq!(polls, 1 + 0xFFFF);
}
