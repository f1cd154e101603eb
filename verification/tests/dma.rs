use hisi_hal::dma::{
    on_interrupt, physical_channel_index, ChannelClaims, CompletionWait, Dma0, DmaChannelConfig,
    DmaDirection, DmaDriver, DmaError, DmaFrame, DmaInstance, DmaPeripheral, DmaSyncMask,
    DmaTransferSize, FlowControl, PeriDmaCtl, PeriKind, Quiesce, Sdma0, TransferWidth, DMA_DRAIN_READS, DmaChannel,
    WaitSettled,
};

#[test]
fn test_dma_direction_tx_rx_distinct() {
    assert_ne!(DmaDirection::Tx as u8, DmaDirection::Rx as u8);
}

#[test]
fn test_dma_peripheral_spi_handshaking_ids() {
    assert_eq!(DmaPeripheral::Spi0Tx.request_id(), 7);
    assert_eq!(DmaPeripheral::Spi0Rx.request_id(), 8);
    assert_eq!(DmaPeripheral::Spi1Tx.request_id(), 13);
    assert_eq!(DmaPeripheral::Spi1Rx.request_id(), 14);
}

#[test]
fn test_dma_peripheral_uart_handshaking_ids() {
    assert_eq!(DmaPeripheral::Uart0Tx.request_id(), 1);
    assert_eq!(DmaPeripheral::Uart0Rx.request_id(), 2);
    assert_eq!(DmaPeripheral::Uart1Tx.request_id(), 3);
    assert_eq!(DmaPeripheral::Uart1Rx.request_id(), 4);
    assert_eq!(DmaPeripheral::Uart2Tx.request_id(), 5);
    assert_eq!(DmaPeripheral::Uart2Rx.request_id(), 6);
}

#[test]
fn test_dma_peripheral_i2s_handshaking_ids() {
    assert_eq!(DmaPeripheral::I2sTx.request_id(), 11);
    assert_eq!(DmaPeripheral::I2sRx.request_id(), 12);
}

#[test]
fn test_dma_peripheral_ids_fit_4bit_field() {
    for p in [
        DmaPeripheral::Uart0Tx,
        DmaPeripheral::Uart2Rx,
        DmaPeripheral::Spi0Tx,
        DmaPeripheral::Spi1Rx,
        DmaPeripheral::I2sTx,
        DmaPeripheral::I2sRx,
    ] {
        assert!(p.request_id() <= 0x0F, "{:?} id {} > 4 bits", p, p.request_id());
    }
}

#[test]
fn test_dma_channel_config_peripheral_wiring() {
    let tx = DmaChannelConfig::default().mem_to_peripheral(DmaPeripheral::Spi0Tx);
    assert_eq!(tx.flow_control, FlowControl::MemToPeripheral);
    assert_eq!(tx.dst_peripheral, 7);
    assert!(!tx.dst_inc);

    let rx = DmaChannelConfig::default().peripheral_to_mem(DmaPeripheral::Uart1Rx);
    assert_eq!(rx.flow_control, FlowControl::PeripheralToMem);
    assert_eq!(rx.src_peripheral, 4);
    assert!(!rx.src_inc);
}

#[test]
fn test_channel_base_consts() {
    assert_eq!(Dma0::channel_base(), 0);
    assert_eq!(Sdma0::channel_base(), 8);
}

#[test]
fn test_mdma_logical_to_physical() {
    for ch in 0u8..4 {
        assert_eq!(physical_channel_index(Dma0::channel_base(), ch), ch as usize);
    }
}

#[test]
fn test_sdma_logical_to_physical() {
    assert_eq!(physical_channel_index(Sdma0::channel_base(), 8), 0);
    assert_eq!(physical_channel_index(Sdma0::channel_base(), 9), 1);
    assert_eq!(physical_channel_index(Sdma0::channel_base(), 10), 2);
    assert_eq!(physical_channel_index(Sdma0::channel_base(), 11), 3);
}

#[test]
fn test_peripheral_config_tx_full() {
    let cfg = DmaChannelConfig::default()
        .mem_to_peripheral(DmaPeripheral::Spi0Tx)
        .with_width(DmaFrame::Byte)
        .with_transfer_int(true);
    assert_eq!(cfg.flow_control, FlowControl::MemToPeripheral);
    assert_eq!(cfg.dst_peripheral, 7);
    assert!(!cfg.dst_inc);
    assert!(cfg.src_inc, "memory side still increments");
    assert_eq!(cfg.src_width, TransferWidth::Width8);
    assert_eq!(cfg.dst_width, TransferWidth::Width8);
    assert!(cfg.transfer_int);
}

#[test]
fn test_peripheral_config_rx_full() {
    let cfg = DmaChannelConfig::default().peripheral_to_mem(DmaPeripheral::Spi0Rx).with_width(DmaFrame::HalfWord);
    assert_eq!(cfg.flow_control, FlowControl::PeripheralToMem);
    assert_eq!(cfg.src_peripheral, 8);
    assert!(!cfg.src_inc);
    assert!(cfg.dst_inc);
    assert_eq!(cfg.src_width, TransferWidth::Width16);
    assert_eq!(cfg.dst_width, TransferWidth::Width16);
}

#[test]
fn test_dma_frame_width_mapping() {
    assert_eq!(DmaFrame::Byte.width(), TransferWidth::Width8);
    assert_eq!(DmaFrame::HalfWord.width(), TransferWidth::Width16);
}

#[test]
fn test_start_mem_to_peripheral_rejects_too_large() {
    let dma = DmaDriver::<Dma0>::new_dma();
    let mut claims = ChannelClaims::new();
    let chs = dma.split_channels(&mut claims).unwrap();
    let peri_dis = PeriDmaCtl::new(0x4402_0000, PeriKind::Spi, DmaDirection::Tx);
    assert_eq!(claims.bits(), 0x0F);
    let r = dma.start_mem_to_peripheral(chs.ch0, 0x2000_0000, 5000, 0x4402_0060, DmaPeripheral::Spi0Tx, DmaFrame::Byte, peri_dis, 0, &mut claims);
    assert!(matches!(r, Err(DmaError::TransferTooLarge)), "expected TransferTooLarge");
    assert_eq!(claims.bits(), 0x0E, "the rejected channel's claim is released");
}

#[test]
fn test_split_channels_once() {
    let dma = DmaDriver::<Dma0>::new_dma();
    let mut claims = ChannelClaims::new();
    let chs = dma.split_channels(&mut claims);
    assert!(chs.is_some(), "first split must succeed");
    assert!(dma.split_channels(&mut claims).is_none(), "second split must fail");
    let chs = chs.unwrap();
    claims.release(chs.ch0);
    claims.release(chs.ch1);
    claims.release(chs.ch2);
    claims.release(chs.ch3);
    assert!(dma.split_channels(&mut claims).is_some(), "split after release must succeed");
}

#[test]
fn control_word_mem_to_mem_known_value() {
    let cfg = DmaChannelConfig::mem_to_mem();
    let size = DmaTransferSize::from_beats(16).unwrap();
    // 16 beats, width32 on both sides (2 << 18 | 2 << 21), both increments.
    assert_eq!(cfg.control_word(size), 16 | (2 << 18) | (2 << 21) | (1 << 26) | (1 << 27));
    assert_eq!(cfg.channel_config_word(), 0x1);
    let tx = cfg.mem_to_peripheral(DmaPeripheral::Uart0Tx).with_transfer_int(true);
    assert_eq!(tx.channel_config_word(), 1 | (1 << 5) | (1 << 9) | (1 << 13));
}

#[test]
fn transfer_size_and_sync_mask_bounds() {
    assert_eq!(DmaTransferSize::from_beats(0xFFF).unwrap().get(), 0xFFF);
    assert!(DmaTransferSize::from_beats(0x1000).is_none());
    assert_eq!(DmaSyncMask::from_bits(0xF).unwrap().bits(), 0xF);
    assert!(DmaSyncMask::from_bits(0x10).is_none());
    assert_eq!(DmaSyncMask::all().bits(), 0x0F);
    assert_eq!(DmaSyncMask::none().bits(), 0);
}

/// A completion wait on `ch` whose every read of `en_chns` is `en`.
fn settled(ch: &DmaChannel, en: u32) -> WaitSettled {
    let mut w = CompletionWait::new(ch);
    let mut reads = 1u32;
    while w.observe(en) {
        reads += 1;
    }
    assert!(reads == 1 || reads == 5_000_000);
    w.settle(en)
}

#[test]
fn mem_to_mem_start_and_wait() {
    let dma = DmaDriver::<Dma0>::new_dma();
    let mut claims = ChannelClaims::new();
    let chs = dma.split_channels(&mut claims).unwrap();
    let (t, s) = dma.start_mem_to_mem(chs.ch2, 0x100, 8, 0x200, 4, 0b0001).ok().unwrap();
    assert_eq!(s.physical, 2);
    assert_eq!(s.en_chns, 0b0101);
    assert_eq!(t.bytes, 16);
    assert!(!t.is_done(0b0100));
    assert!(t.is_done(0b0001));
    let (mut q, halt) = t.cancel(0x1);
    assert_eq!(halt, 0x1_0001);
    assert!(!q.observe(0));
    let (off, token) = q.finish(0x1_0001);
    assert_eq!(off, 0x1_0000);
    let st = settled(&t.channel, 0b0100);
    let e = t.wait(st, Some(token)).err().unwrap();
    assert_eq!(e.error(), DmaError::Timeout);
    let dma = DmaDriver::<Dma0>::new_dma();
    let r = dma.start_mem_to_mem(chs.ch1, 0, 5000, 0, 4096, 0);
    let (err, ch) = r.err().unwrap().into_parts();
    assert_eq!(err, DmaError::TransferTooLarge);
    assert_eq!(ch.logical(), 1);
}

#[test]
fn interrupt_status_and_requests() {
    let mut dma = DmaDriver::<Dma0>::new_dma();
    assert_eq!(dma.raw_interrupt_status(0x0302), (0x02, 0x03));
    assert_eq!(dma.interrupt_status(0x0004_0001), (0x01, 0x04));
    let mut claims = ChannelClaims::new();
    let chs = dma.split_channels(&mut claims).unwrap();
    assert_eq!(dma.burst_request(&chs.ch3), 0x8);
    assert_eq!(dma.clear_error_interrupt(&chs.ch1), 1 << 9);
    assert_eq!(dma.halt_channel(&chs.ch0, 0x1), 0x1_0001);
    assert_eq!(on_interrupt(0xFF), 0x0F);
}

#[test]
fn peri_dma_ctl_disable_words() {
    let spi = PeriDmaCtl::new(0x4402_0000, PeriKind::Spi, DmaDirection::Rx);
    assert_eq!(spi.disable(0x3), Some(0x1));
    let uart = PeriDmaCtl::new(0x4401_0000, PeriKind::Uart, DmaDirection::Tx);
    assert_eq!(uart.disable(0x3), None);
}

#[test]
fn completion_wait_and_quiesce() {
    let dma = DmaDriver::<Dma0>::new_dma();
    let mut claims = ChannelClaims::new();
    let chs = dma.split_channels(&mut claims).unwrap();
    let mut w = CompletionWait::new(&chs.ch1);
    assert!(w.observe(0b0010));
    assert!(!w.observe(0b0001));
    let st = w.settle(0b0010);
    assert!(st.timed_out());
    let (mut q, halt) = Quiesce::begin(&chs.ch1, 0x1);
    assert_eq!(halt, 0x1_0001);
    assert!(q.observe(0x8000));
    assert!(!q.observe(0));
    assert_eq!(q.finish(0x1_0001).0, 0x1_0000);
}

#[test]
fn software_requests_and_clock_bypass() {
    let mut d = hisi_hal::dma::DmaDriver::<Dma0>::new_dma();
    assert_eq!(d.burst_request_raw(2), 0b100);
    assert_eq!(d.single_request_raw(0), 0b1);
    let mut s = hisi_hal::dma::DmaDriver::<Sdma0>::new_sdma();
    assert_eq!(s.burst_request_raw(11), 0b1000);
    assert_eq!(Dma0::bypass_auto_clock_gate(0x3), Some(0x8_0003));
    assert_eq!(Sdma0::bypass_auto_clock_gate(0x3), None);
}

#[test]
fn peripheral_transfer_timeout_releases_claim() {
    let dma = DmaDriver::<Dma0>::new_dma();
    let mut claims = ChannelClaims::new();
    let chs = dma.split_channels(&mut claims).unwrap();
    let peri_dis = PeriDmaCtl::new(0x4402_0000, PeriKind::Spi, DmaDirection::Rx);
    let (t, s) = dma
        .start_peripheral_to_mem(chs.ch2, 0x2000_0000, 16, 0x4402_0060, DmaPeripheral::Spi0Rx, DmaFrame::Byte, peri_dis, 0, &mut claims)
        .ok()
        .unwrap();
    assert_eq!(s.physical, 2);
    assert_eq!(claims.bits(), 0x0F);
    let st = settled(&t.channel, 0b0100);
    let out = t.wait(&st);
    assert!(out.timed_out);
    assert!(out.invalidate);
    let (peri_word, mut q, halt) = t.cancel(0x3, 0x1);
    assert_eq!(peri_word, Some(0x1));
    assert_eq!(halt, 0x1_0001);
    assert!(q.observe(0x8000));
    assert!(!q.observe(0x1_0001));
    let (off, token) = q.finish(0x1_0001);
    assert_eq!(off, 0x1_0000);
    assert!(matches!(t.finish(st, &mut claims, Some(token)), Err(DmaError::Timeout)));
    assert_eq!(claims.bits(), 0x0B);
}

#[test]
fn peripheral_transfer_done_keeps_claim() {
    let dma = DmaDriver::<Dma0>::new_dma();
    let mut claims = ChannelClaims::new();
    let chs = dma.split_channels(&mut claims).unwrap();
    let peri_dis = PeriDmaCtl::new(0x4402_0000, PeriKind::Spi, DmaDirection::Tx);
    let (t, _) = dma
        .start_mem_to_peripheral(chs.ch1, 0x2000_0000, 16, 0x4402_0060, DmaPeripheral::Spi0Tx, DmaFrame::Byte, peri_dis, 0, &mut claims)
        .ok()
        .unwrap();
    let st = settled(&t.channel, 0);
    assert!(!st.timed_out());
    let ch = t.finish(st, &mut claims, None).ok().unwrap();
    assert_eq!(ch.logical(), 1);
    assert_eq!(claims.bits(), 0x0F);
}

#[test]
fn quiesce_drain_reads_bounded() {
    let dma = DmaDriver::<Dma0>::new_dma();
    let mut claims = ChannelClaims::new();
    let chs = dma.split_channels(&mut claims).unwrap();
    let (mut q, _) = Quiesce::begin(&chs.ch0, 0x1);
    let mut reads: u32 = 1;
    while q.observe(0x1_8001) {
        reads += 1;
    }
    assert_eq!(reads, DMA_DRAIN_READS);
    assert_eq!(reads, 5_000_001);
    assert_eq!(q.finish(0x1_8001).0, 0x1_8000);
}

#[test]
fn completion_wait_reads_then_decides() {
    let dma = DmaDriver::<Dma0>::new_dma();
    let mut claims = ChannelClaims::new();
    let chs = dma.split_channels(&mut claims).unwrap();
    let mut w = CompletionWait::new(&chs.ch0);
    let mut reads = 1u32;
    while w.observe(0b1) {
        reads += 1;
    }
    assert_eq!(reads, 5_000_000);
    // The channel finishes just in time for the deciding read.
    assert!(!w.settle(0).timed_out());
}
