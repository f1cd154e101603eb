use hisi_hal::cache::{clean_range, flush_range, invalidate_range, maintenance_lines, CACHE_LINE};

#[test]
fn range_widens_to_whole_lines() {
    assert_eq!(CACHE_LINE, 32);
    assert_eq!(maintenance_lines(0x1000, 32), vec![0x1000]);
    assert_eq!(maintenance_lines(0x1005, 32), vec![0x1000, 0x1020]);
    assert_eq!(maintenance_lines(0x101F, 2), vec![0x1000, 0x1020]);
    assert_eq!(maintenance_lines(0x1000, 65), vec![0x1000, 0x1020, 0x1040]);
    assert!(maintenance_lines(0x1234, 0).is_empty());
}

#[test]
fn commands() {
    let c = clean_range(0x2000, 4);
    assert_eq!(c.command, 0x9);
    assert_eq!(c.lines, vec![0x2000]);
    assert_eq!(invalidate_range(0x2000, 64).command, 0x5);
    assert_eq!(flush_range(0x2000, 64).command, 0xd);
    assert_eq!(flush_range(0x2000, 64).lines, vec![0x2000, 0x2020]);
}
