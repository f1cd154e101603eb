use hisi_hal::clock_init::{SystemClocks, TcxoFreq};

#[test]
fn test_tcxo_freq_values() {
    assert_eq!(TcxoFreq::MHz24.hz(), 24_000_000);
    assert_eq!(TcxoFreq::MHz40.hz(), 40_000_000);
}

#[test]
fn test_default_clocks() {
    let c = SystemClocks::assumed();
    assert_eq!(c.cpu_clk, 240_000_000);
    assert_eq!(c.pclk, 240_000_000);
    assert!(c.pll_locked);
}
