use hisi_hal::embassy::{alarm_counts, now_ticks};

#[test]
fn tcxo_counts_scale_to_microseconds() {
    assert_eq!(now_ticks(0), 0);
    assert_eq!(now_ticks(24), 1);
    assert_eq!(now_ticks(23), 0);
    assert_eq!(now_ticks(24_000_000), 1_000_000);
}

#[test]
fn alarm_load_counts() {
    assert_eq!(alarm_counts(u64::MAX, 5), None);
    assert_eq!(alarm_counts(1_010, 1_000), Some(2_400));
    assert_eq!(alarm_counts(1_000, 1_000), Some(240));
    assert_eq!(alarm_counts(10, 1_000), Some(240));
    assert_eq!(alarm_counts(100_000_000, 0), Some(u32::MAX));
}
