use hisi_hal::i2s::{
    data_width_bits, derive_dividers, enable_i2s_clock, fifo_threshold_word, mode_bits, ChannelCount,
    ClockEdge, DataWidth, I2sDriver, I2sMode, Master, MasterConfig, Slave, SlaveConfig,
};

fn encode_int_mask(rx: bool, tx: bool, rx_ovf: bool, tx_unf: bool) -> u32 {
    I2sDriver::<Master>::new_master(&MasterConfig::default()).set_interrupt_mask(rx, tx, rx_ovf, tx_unf)
}

fn decode_int_status(sts: u32) -> (bool, bool, bool, bool) {
    I2sDriver::<Master>::new_master(&MasterConfig::default()).interrupt_status(sts)
}

#[test]
fn channel_count_field_codes() {
    assert_eq!(ChannelCount::Two.code(), 0);
    assert_eq!(ChannelCount::Four.code(), 1);
    assert_eq!(ChannelCount::Eight.code(), 2);
    assert_eq!(ChannelCount::Sixteen.code(), 3);
    assert_eq!(ChannelCount::Two as u32, 0);
    assert_eq!(ChannelCount::Sixteen as u32, 3);
    assert_eq!(ChannelCount::Two.count(), 2);
    assert_eq!(ChannelCount::Four.count(), 4);
    assert_eq!(ChannelCount::Eight.count(), 8);
    assert_eq!(ChannelCount::Sixteen.count(), 16);
}

#[test]
fn data_width_field_codes() {
    assert_eq!(DataWidth::Bits16.code(), 1);
    assert_eq!(DataWidth::Bits18.code(), 2);
    assert_eq!(DataWidth::Bits20.code(), 3);
    assert_eq!(DataWidth::Bits24.code(), 4);
    assert_eq!(DataWidth::Bits32.code(), 5);
    assert_eq!(DataWidth::Bits16.bits(), 16);
    assert_eq!(DataWidth::Bits32.bits(), 32);
}

#[test]
fn mode_encoding_master_default() {
    let m = mode_bits(I2sMode::I2s, ChannelCount::Two, ClockEdge::Falling, true);
    assert_eq!(m, (1 << 6) | (1 << 7));
}

#[test]
fn mode_encoding_fields_disjoint() {
    assert_eq!(mode_bits(I2sMode::Pcm, ChannelCount::Two, ClockEdge::Rising, false), 1 << 0);
    assert_eq!(mode_bits(I2sMode::I2s, ChannelCount::Sixteen, ClockEdge::Rising, false), 0b11 << 4);
    assert_eq!(mode_bits(I2sMode::I2s, ChannelCount::Two, ClockEdge::Falling, false), 1 << 6);
    assert_eq!(mode_bits(I2sMode::I2s, ChannelCount::Two, ClockEdge::Rising, true), 1 << 7);
    assert_eq!(mode_bits(I2sMode::I2s, ChannelCount::Eight, ClockEdge::Rising, false), 2 << 4);
}

#[test]
fn data_width_set_encoding() {
    assert_eq!(data_width_bits(DataWidth::Bits16), 0x09);
    assert_eq!(data_width_bits(DataWidth::Bits32), 0x2D);
}

#[test]
fn derived_dividers_known_value() {
    let (bclk, fs_num, fs_ratio) = derive_dividers(DataWidth::Bits16, ChannelCount::Two);
    assert_eq!(fs_num, 32);
    assert_eq!(fs_ratio, 16);
    assert_eq!(bclk, 12);
}

#[test]
fn derived_dividers_in_range() {
    let widths = [DataWidth::Bits16, DataWidth::Bits18, DataWidth::Bits20, DataWidth::Bits24, DataWidth::Bits32];
    let chans = [ChannelCount::Two, ChannelCount::Four, ChannelCount::Eight, ChannelCount::Sixteen];
    for &dw in &widths {
        for &ch in &chans {
            let (bclk, fs_num, fs_ratio) = derive_dividers(dw, ch);
            assert!(bclk >= 1 && bclk <= 0x7F, "bclk {bclk} out of 7-bit range for {dw:?}/{ch:?}");
            assert!(fs_num >= 1 && fs_num <= 0x3FF, "fs_num {fs_num} out of 10-bit range");
            assert!(fs_ratio >= 1 && fs_ratio <= 0x7FF, "fs_ratio {fs_ratio} out of 11-bit range");
        }
    }
}

#[test]
fn interrupt_mask_encoding() {
    assert_eq!(encode_int_mask(false, false, false, false), 0x00);
    assert_eq!(encode_int_mask(true, false, false, false), 0x01);
    assert_eq!(encode_int_mask(false, true, false, false), 0x02);
    assert_eq!(encode_int_mask(false, false, true, false), 0x04);
    assert_eq!(encode_int_mask(false, false, false, true), 0x08);
    assert_eq!(encode_int_mask(true, true, true, true), 0x0F);
}

#[test]
fn interrupt_status_decode_roundtrips_mask() {
    for bits in 0u32..16 {
        let (rx, tx, ovf, unf) = decode_int_status(bits);
        assert_eq!(encode_int_mask(rx, tx, ovf, unf), bits);
    }
}

#[test]
fn fifo_threshold_packing() {
    assert_eq!(fifo_threshold_word(0x12, 0x34), 0x3412);
}

#[test]
fn default_master_config_is_16bit_stereo_i2s() {
    let c = MasterConfig::default();
    assert_eq!(c.mode, I2sMode::I2s);
    assert_eq!(c.channels, ChannelCount::Two);
    assert_eq!(c.data_width, DataWidth::Bits16);
    assert!(!c.loopback);
}

#[test]
fn master_and_slave_setup_words() {
    let m = I2sDriver::<Master>::new_master(&MasterConfig { loopback: true, ..MasterConfig::default() });
    assert_eq!(m.setup.mode, 0xC0);
    let d = m.setup.dividers.unwrap();
    assert_eq!((d.bclk, d.fs_num, d.fs_ratio), (12, 32, 16));
    assert_eq!((m.setup.crg, m.setup.version, m.setup.ct_set), (3, 0x100, 0x0C));
    let mut s = I2sDriver::<Slave>::new_slave(&SlaveConfig::default());
    assert!(s.setup.dividers.is_none());
    assert_eq!((s.setup.mode, s.setup.crg), (0, 0));
    assert_eq!(s.tx_fifo_right_depth(0x1234), 0x12);
    assert_eq!(s.version(0x1_0151), 0x51);
    assert_eq!(s.enable_rx(), 2);
    assert_eq!(enable_i2s_clock(0, 0), (1, 0x1800));
}
