use hisi_hal::sfc::{
    pack_databuf, unpack_databuf, AddressMode, BusConfig, FlashSpiMode, ReadDelay, SfcDriver, SpiIfType,
    MIN_TSHSL,
};

fn global_config_bits(spi_mode: FlashSpiMode, addr_mode: AddressMode, read_delay: ReadDelay, wp: bool) -> u32 {
    SfcDriver::new().configure_global(spi_mode, addr_mode, read_delay, wp)
}

fn timing_bits(tshsl: u8, tcss: u8, tcsh: u8) -> u32 {
    SfcDriver::new().configure_timing(tshsl, tcss, tcsh)
}

fn bus_config1_bits(config: &BusConfig) -> u32 {
    SfcDriver::new().configure_bus(config)
}

#[test]
fn enum_discriminants_match_field_values() {
    assert_eq!(SpiIfType::Standard as u32, 0);
    assert_eq!(SpiIfType::DualIO as u32, 1);
    assert_eq!(SpiIfType::DualIOCont as u32, 2);
    assert_eq!(SpiIfType::QuadIO as u32, 3);
    assert_eq!(SpiIfType::QuadIOCont as u32, 4);
    assert_eq!(AddressMode::ThreeByte as u32, 0);
    assert_eq!(AddressMode::FourByte as u32, 1);
    assert_eq!(FlashSpiMode::Mode0 as u32, 0);
    assert_eq!(FlashSpiMode::Mode3 as u32, 1);
    assert_eq!(ReadDelay::Delay0 as u32, 0);
    assert_eq!(ReadDelay::DelayHalf as u32, 1);
    assert_eq!(ReadDelay::Delay1 as u32, 2);
    assert_eq!(ReadDelay::Delay1_5 as u32, 3);
    assert_eq!(SpiIfType::QuadIOCont.code(), 4);
    assert_eq!(ReadDelay::Delay1_5.code(), 3);
}

#[test]
fn global_config_all_zero_default() {
    let v = global_config_bits(FlashSpiMode::Mode0, AddressMode::ThreeByte, ReadDelay::Delay0, false);
    assert_eq!(v, 0);
}

#[test]
fn global_config_each_field_lands_in_its_bit() {
    assert_eq!(global_config_bits(FlashSpiMode::Mode3, AddressMode::ThreeByte, ReadDelay::Delay0, false), 0b0000_0001);
    assert_eq!(global_config_bits(FlashSpiMode::Mode0, AddressMode::ThreeByte, ReadDelay::Delay0, true), 0b0000_0010);
    assert_eq!(global_config_bits(FlashSpiMode::Mode0, AddressMode::FourByte, ReadDelay::Delay0, false), 0b0000_0100);
    assert_eq!(global_config_bits(FlashSpiMode::Mode0, AddressMode::ThreeByte, ReadDelay::Delay1_5, false), 0b0001_1000);
}

#[test]
fn global_config_fields_are_independent() {
    let v = global_config_bits(FlashSpiMode::Mode3, AddressMode::FourByte, ReadDelay::Delay1_5, true);
    assert_eq!(v, 0b0001_1111);
}

#[test]
fn timing_clamps_tshsl_to_minimum() {
    let floor = MIN_TSHSL as u8 - 2;
    assert_eq!(floor, 3);
    assert_eq!(timing_bits(0, 0, 0) & 0x0F, floor as u32);
    assert_eq!(timing_bits(1, 0, 0) & 0x0F, floor as u32);
    assert_eq!(timing_bits(2, 0, 0) & 0x0F, floor as u32);
    assert_eq!(timing_bits(3, 0, 0) & 0x0F, 3);
    assert_eq!(timing_bits(7, 0, 0) & 0x0F, 7);
}

#[test]
fn timing_masks_field_widths() {
    assert_eq!(timing_bits(0xFF, 0, 0) & 0x0F, 0x0F);
    assert_eq!((timing_bits(3, 0xFF, 0) >> 8) & 0x07, 0x07);
    assert_eq!((timing_bits(3, 0, 0xFF) >> 12) & 0x07, 0x07);
}

#[test]
fn timing_places_fields_at_correct_offsets() {
    let v = timing_bits(5, 6, 7);
    assert_eq!(v & 0x0F, 5);
    assert_eq!((v >> 8) & 0x07, 6);
    assert_eq!((v >> 12) & 0x07, 7);
    assert_eq!(v, 5 | (6 << 8) | (7 << 12));
}

#[test]
fn bus_config1_default_round_trips() {
    let cfg = BusConfig::default();
    let v = bus_config1_bits(&cfg);
    assert_eq!(v & 0x07, SpiIfType::Standard as u32);
    assert_eq!((v >> 8) & 0xFF, 0x03);
    assert_eq!((v >> 16) & 0x07, SpiIfType::Standard as u32);
    assert_eq!((v >> 22) & 0xFF, 0x02);
    assert_eq!((v >> 3) & 0x07, 0);
    assert_eq!((v >> 6) & 0x03, 0);
    assert_eq!((v >> 19) & 0x07, 0);
}

#[test]
fn bus_config1_quad_read_encoding() {
    let cfg = BusConfig {
        read_if_type: SpiIfType::QuadIO,
        read_dummy_bytes: 4,
        read_instruction: 0xEB,
        read_prefetch_cnt: 2,
        write_if_type: SpiIfType::QuadIO,
        write_dummy_bytes: 0,
        write_instruction: 0x32,
    };
    let v = bus_config1_bits(&cfg);
    assert_eq!(v & 0x07, SpiIfType::QuadIO as u32);
    assert_eq!((v >> 3) & 0x07, 4);
    assert_eq!((v >> 6) & 0x03, 2);
    assert_eq!((v >> 8) & 0xFF, 0xEB);
    assert_eq!((v >> 16) & 0x07, SpiIfType::QuadIO as u32);
    assert_eq!((v >> 22) & 0xFF, 0x32);
}

#[test]
fn bus_config1_dummy_field_saturates_to_3_bits() {
    let mut cfg = BusConfig { read_dummy_bytes: 7, ..BusConfig::default() };
    assert_eq!((bus_config1_bits(&cfg) >> 3) & 0x07, 7);
    cfg.read_dummy_bytes = 8;
    assert_eq!((bus_config1_bits(&cfg) >> 3) & 0x07, 0);
    cfg = BusConfig { read_prefetch_cnt: 3, ..BusConfig::default() };
    assert_eq!((bus_config1_bits(&cfg) >> 6) & 0x03, 3);
    cfg.read_prefetch_cnt = 4;
    assert_eq!((bus_config1_bits(&cfg) >> 6) & 0x03, 0);
}

#[test]
fn databuf_word_packing_is_little_endian() {
    let chunk = [0x11u8, 0x22, 0x33, 0x44];
    let words = pack_databuf(&chunk);
    assert_eq!(words, vec![0x4433_2211]);
    assert_eq!(words[0].to_le_bytes(), chunk);
    let back = unpack_databuf(&words, 4);
    assert_eq!(&back[..4], &chunk);
}

#[test]
fn databuf_partial_chunk_packs_low_bytes() {
    let chunk = [0xAAu8, 0xBB, 0xCC];
    assert_eq!(pack_databuf(&chunk), vec![0x00CC_BBAA]);
}

#[test]
fn data_count_field_encodes_len_minus_one() {
    let mut d = SfcDriver::new();
    let mut encode = |data_len: usize| {
        let data = vec![0u8; data_len];
        (d.command_with_data(0x03, 0, &data, true).cmd_config >> 9) & 0x3F
    };
    assert_eq!(encode(0), 0);
    assert_eq!(encode(1), 0);
    assert_eq!(encode(64), 63);
    assert_eq!(encode(65), 63);
}

#[test]
fn data_len_clamped_to_buffer_size() {
    let mut d = SfcDriver::new();
    for (len, expect) in [(100usize, 64usize), (64, 64), (10, 10), (0, 0)] {
        let data = vec![0u8; len];
        assert_eq!(d.command_with_data(0x02, 0, &data, false).data_len, expect);
    }
}

#[test]
fn sfc_command_words() {
    let mut d = SfcDriver::new();
    let c = d.send_command(0x06, 0x1234, false);
    assert_eq!((c.ins, c.addr, c.cmd_config), (0x06, None, 0x01));
    let c = d.send_command(0x20, 0x1000, true);
    assert_eq!((c.addr, c.cmd_config), (Some(0x1000), 0x05));
    let w = d.command_with_data(0x02, 0x100, &[1, 2, 3, 4, 5], false);
    assert_eq!(w.databuf, vec![0x0403_0201, 0x05]);
    assert_eq!(w.cmd_config, 0x85 | (4 << 9));
    let r = d.command_with_data(0x03, 0x100, &[0; 8], true);
    assert!(r.databuf.is_empty());
    assert_eq!(r.cmd_config, 0x185 | (7 << 9));
    let dma = d.bus_dma_start(0x2000_0000, 0x10, 0xFFFF_FFFF, true);
    assert_eq!((dma.len, dma.ctrl), (0x3FFF_FFFF, 0x3));
    assert!(d.dma_done(0x2));
    assert!(d.command_done(0x1));
    assert_eq!(d.enable_interrupts(true, true), 3);
    assert_eq!(d.raw_interrupt_status(0x2), (false, true));
}
