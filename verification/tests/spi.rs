use hisi_hal::dma::{ChannelClaims, Dma0, DmaDriver};
use hisi_hal::soc::SPI_CLOCK_HZ;
use hisi_hal::spi::{
    configure_spi, configure_spi_source_clock, sckdv, wait_until, Config, DataBits, Spi, SpiDmaAccess, SpiError, SpiHz,
    SpiMode, SpiStep, DCR_RDMAE, DCR_TDMAE,
};

#[test]
fn test_sckdv_basic() {
    assert_eq!(sckdv(SPI_CLOCK_HZ, 1_000_000), 160);
}

#[test]
fn test_sckdv_is_even_and_min_two() {
    assert_eq!(sckdv(SPI_CLOCK_HZ, 1_000_000) & 1, 0);
    assert_eq!(sckdv(SPI_CLOCK_HZ, SPI_CLOCK_HZ), 2);
    assert_eq!(sckdv(SPI_CLOCK_HZ, u32::MAX), 2);
}

#[test]
fn test_sckdv_zero_freq_guard() {
    assert_eq!(sckdv(SPI_CLOCK_HZ, 0), 0xFFFE);
}

#[test]
fn test_sckdv_clamps_at_max() {
    assert_eq!(sckdv(SPI_CLOCK_HZ, 1000), 0xFFFE);
}

#[test]
fn spi_hz_rejects_out_of_range() {
    assert!(SpiHz::try_from_hz(0).is_none());
    assert!(SpiHz::try_from_hz(SPI_CLOCK_HZ / 2 + 1).is_none());
    assert!(SpiHz::try_from_hz(SPI_CLOCK_HZ).is_none());
    assert!(SpiHz::try_from_hz(1).is_none());
    assert_eq!(SpiHz::try_from_hz(1_000_000).unwrap().hz(), 1_000_000);
    assert_eq!(SpiHz::one_mhz().to_sckdv(), 160);
    assert_eq!(SpiHz::try_from_hz(SPI_CLOCK_HZ / 2).unwrap().to_sckdv(), 2);
}

#[test]
fn data_bits_validates_4_to_16() {
    assert!(DataBits::new(3).is_none());
    assert!(DataBits::new(17).is_none());
    assert_eq!(DataBits::new(4).unwrap().bits(), 4);
    assert_eq!(DataBits::new(16).unwrap().bits(), 16);
    assert_eq!(DataBits::eight().bits(), 8);
}

#[test]
fn spi_configure_words() {
    let s = configure_spi(&Config::default());
    assert_eq!((s.brs, s.ctra, s.slenr, s.er), (160, 7 << 13, 1, 1));
    let c = Config { mode: SpiMode::Mode3, data_bits: DataBits::sixteen(), ..Config::default() };
    assert_eq!(configure_spi(&c).ctra, (1 << 3) | (1 << 4) | (15 << 13));
    let clk = configure_spi_source_clock(0xFFFF_FFFF, 0xFFFF_FFFF, 0);
    assert_eq!(clk.div_unload, 0xFFFF_FBFF);
    assert_eq!(clk.div_set, 0xFFFF_F861);
    assert_eq!(clk.div_load, 0xFFFF_FC61);
    assert_eq!(clk.gate_closed, 0xFDFF_FFFF);
    assert_eq!(clk.clk_sel, 0x40);
    assert_eq!(clk.gate_open, 0xFFFF_FFFF);
}

#[test]
fn spi_transfer_program_pads_and_discards() {
    let mut spi = Spi::new_spi0(Config::default());
    let p = spi.transfer(&[0xA5], 2);
    assert_eq!(
        p,
        vec![
            SpiStep::WaitTxNotFull,
            SpiStep::WriteDr(0xA5),
            SpiStep::WaitRxNotEmpty,
            SpiStep::ReadDr(true),
            SpiStep::WaitTxNotFull,
            SpiStep::WriteDr(0),
            SpiStep::WaitRxNotEmpty,
            SpiStep::ReadDr(true),
        ]
    );
    let w = spi.transfer(&[1, 2], 0);
    assert_eq!(w[7], SpiStep::ReadDr(false));
    assert_eq!(spi.write(&[7]), vec![SpiStep::WaitTxNotFull, SpiStep::WriteDr(7)]);
    assert_eq!(spi.transfer_in_place(&[9]).len(), 4);
    assert_eq!(spi.wait_idle(), vec![SpiStep::WaitTxEmpty, SpiStep::WaitNotBusy]);
    assert!(spi.step_ready(SpiStep::WaitNotBusy, 0x0));
    assert!(!spi.step_ready(SpiStep::WaitNotBusy, 0x8000));
    assert!(spi.step_ready(SpiStep::WaitTxNotFull, 0x800));
    let mut never = || false;
    assert_eq!(wait_until(&mut never), Err(SpiError::Timeout));
}

#[test]
fn spi_dma_starts() {
    let spi = Spi::new_spi1(Config::default());
    let dma = DmaDriver::<Dma0>::new_dma();
    let mut claims = ChannelClaims::new();
    let chs = dma.split_channels(&mut claims).unwrap();
    let mut sd = spi.with_dma(DmaDriver::<Dma0>::new_dma());
    assert!(matches!(sd.write_dma(&chs.ch0, 0, 4096, 0x4402_1060, 0), Err(SpiError::BufferTooLong)));
    let s = sd.write_dma(&chs.ch0, 0x100, 16, 0x4402_1060, 0).ok().unwrap();
    assert_eq!((s.dtdl, s.drdl, s.dcr_enable), (4, 0, DCR_TDMAE));
    assert_eq!(s.tx.config, 1 | (13 << 5) | (1 << 9));
    let f = sd.transfer_dma(&chs.ch0, &chs.ch1, 0x200, 8, 0x100, 16, 0x4402_1060, 0).ok().unwrap();
    assert_eq!(f.dcr_enable, DCR_TDMAE | DCR_RDMAE);
    assert_eq!(f.tx.control & 0xFFF, 8);
    assert_eq!(f.rx.unwrap().en_chns, 0b11);
}

#[test]
fn spi_dma_wait_done_touches_nothing_else() {
    let spi = Spi::new_spi1(Config::default());
    let dma = DmaDriver::<Dma0>::new_dma();
    let mut claims = ChannelClaims::new();
    let chs = dma.split_channels(&mut claims).unwrap();
    let mut sd = spi.with_dma(DmaDriver::<Dma0>::new_dma());
    let mut log: Vec<SpiDmaAccess> = Vec::new();
    let mut reads = 0u32;
    let r = sd.wait_write_dma(&chs.ch2, &mut |a| {
        log.push(a);
        reads += 1;
        if reads < 3 { 0b100 } else { 0 }
    });
    assert_eq!(r, Ok(()));
    assert_eq!(log, vec![SpiDmaAccess::EnChns; 3]);
    assert_eq!(sd.end_write_dma(0x3), 0x2);
    assert_eq!(sd.end_transfer_dma(0x3), 0x0);
}

#[test]
fn spi_dma_wait_timeout_tears_down_in_order() {
    let spi = Spi::new_spi0(Config::default());
    let dma = DmaDriver::<Dma0>::new_dma();
    let mut claims = ChannelClaims::new();
    let chs = dma.split_channels(&mut claims).unwrap();
    let mut sd = spi.with_dma(DmaDriver::<Dma0>::new_dma());
    let mut log: Vec<SpiDmaAccess> = Vec::new();
    let mut drains = 0u32;
    let r = sd.wait_write_dma(&chs.ch1, &mut |a| {
        if a != SpiDmaAccess::EnChns {
            log.push(a);
        }
        match a {
            SpiDmaAccess::EnChns => 0b10,
            SpiDmaAccess::ReadDcr => 0x3,
            SpiDmaAccess::ReadConfig => {
                drains += 1;
                if drains == 3 { 0x1_0001 } else { 0x1_8001 }
            },
            _ => 0,
        }
    });
    assert_eq!(r, Err(SpiError::Timeout));
    assert_eq!(
        log,
        vec![
            SpiDmaAccess::ReadDcr,
            SpiDmaAccess::WriteDcr(0x2),
            SpiDmaAccess::ReadConfig,
            SpiDmaAccess::WriteConfig(0x1_8001 | 0x1_0000),
            SpiDmaAccess::ReadConfig,
            SpiDmaAccess::ReadConfig,
            SpiDmaAccess::ReadConfig,
            SpiDmaAccess::WriteConfig(0x1_8001 & !1),
        ]
    );
    let mut log: Vec<SpiDmaAccess> = Vec::new();
    let r = sd.wait_transfer_dma(&chs.ch0, &chs.ch1, &mut |a| {
        if a != SpiDmaAccess::EnChns {
            log.push(a);
        }
        match a {
            SpiDmaAccess::EnChns => 0b01,
            SpiDmaAccess::ReadDcr => 0x3,
            _ => 0,
        }
    });
    assert_eq!(r, Err(SpiError::Timeout));
    assert_eq!(log, vec![SpiDmaAccess::ReadDcr, SpiDmaAccess::WriteDcr(0)]);
}
