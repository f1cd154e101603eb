//! SPI master (SPI0/1, DesignWare SSI v151).
//!
//! SCK = SSI_CLK / SCKDV with SSI_CLK = 160 MHz (a CLDO_CRG divider off the
//! 480 MHz PLL tap) and SCKDV even in `[2, 0xFFFE]`. Transfers are programs
//! of FIFO steps ([`SpiStep`]) that the driver executes, each wait bounded.
use vstd::prelude::*;
use crate::dma::{
    config_bits, control_bits, request_id_spec, Dma0, DmaChannel, DmaChannelConfig, DmaChannelSetup,
    DmaDriver, DmaFrame, DmaPeripheral, DmaTransferSize, CHN_ACTIVE, CHN_ENABLE, CHN_HALT, MAX_BEATS,
};
use crate::poll::{access_trace, all_calls, bounded_poll, lemma_trace_append, poll_bus, poll_met, poll_result, poll_until};
use crate::soc::SPI_CLOCK_HZ;

verus! {

/// Clock polarity / phase mode (CTRA `scpol` bit 3, `scph` bit 4).
#[derive(Debug, Clone, Copy, PartialEq, Eq, Structural)]
pub enum SpiMode {
    /// CPOL=0, CPHA=0.
    Mode0,
    /// CPOL=0, CPHA=1.
    Mode1,
    /// CPOL=1, CPHA=0.
    Mode2,
    /// CPOL=1, CPHA=1.
    Mode3,
}

/// The SCKDV divider for `freq` against `pclk`: `pclk / freq` (a zero
/// frequency taken as 1 Hz) clamped to `[2, 0xFFFF]`, then made even.
pub open spec fn sckdv_spec(pclk: u32, freq: u32) -> nat {
    let f: nat = if freq == 0 { 1 } else { freq as nat };
    let d = pclk as nat / f;
    let c: nat = if d < 2 { 2 } else if d > 0xFFFF { 0xFFFF } else { d };
    (c - c % 2) as nat
}

/// SCKDV for `freq` Hz against the SSI clock `pclk`.
pub fn sckdv(pclk: u32, freq: u32) -> (r: u32)
    ensures
        r == sckdv_spec(pclk, freq),
        2 <= r <= 0xFFFE,
        r % 2 == 0,
{
    let f = if freq == 0 { 1 } else { freq };
    let d = pclk / f;
    let c = if d < 2 {
        2
    } else if d > 0xFFFF {
        0xFFFF
    } else {
        d
    };
    c - c % 2
}

/// Whether `hz` has an SCKDV in `[2, 0xFFFE]` against the 160 MHz clock.
pub open spec fn spi_hz_valid(hz: u32) -> bool {
    hz > 0 && 2 <= SPI_CLOCK_HZ / hz <= 0xFFFE
}

/// A validated SCK frequency.
#[derive(Debug, Clone, Copy, PartialEq, Eq, Structural)]
pub struct SpiHz(u32);

impl SpiHz {
    /// The frequency, in specifications.
    pub closed spec fn value(self) -> u32 {
        self.0
    }

    #[verifier::type_invariant]
    closed spec fn inv(self) -> bool {
        spi_hz_valid(self.0)
    }

    /// 1 MHz, the default bus clock.
    pub fn one_mhz() -> (r: Self)
        ensures
            r.value() == 1_000_000,
    {
        SpiHz(1_000_000)
    }

    /// The frequency `hz`, or `None` when its SCKDV would leave `[2, 0xFFFE]`.
    pub fn try_from_hz(hz: u32) -> (r: Option<Self>)
        ensures
            r.is_some() <==> spi_hz_valid(hz),
            r matches Some(s) ==> s.value() == hz,
    {
        if hz == 0 {
            return None;
        }
        let div = SPI_CLOCK_HZ / hz;
        if div < 2 || div > 0xFFFE {
            return None;
        }
        Some(SpiHz(hz))
    }

    /// The frequency in Hz.
    pub fn hz(self) -> (r: u32)
        ensures
            r == self.value(),
            spi_hz_valid(r),
    {
        proof { use_type_invariant(self); }
        self.0
    }

    /// The even SCKDV divider of this frequency.
    pub fn to_sckdv(self) -> (r: u32)
        ensures
            r == sckdv_spec(SPI_CLOCK_HZ, self.value()),
    {
        sckdv(SPI_CLOCK_HZ, self.hz())
    }
}

/// A frame size in bits, 4 to 16.
#[derive(Debug, Clone, Copy, PartialEq, Eq, Structural)]
pub struct DataBits(u8);

impl DataBits {
    /// The frame size, in specifications.
    pub closed spec fn value(self) -> u8 {
        self.0
    }

    #[verifier::type_invariant]
    closed spec fn inv(self) -> bool {
        4 <= self.0 <= 16
    }

    /// 8-bit frames.
    pub fn eight() -> (r: Self)
        ensures
            r.value() == 8,
    {
        DataBits(8)
    }

    /// 16-bit frames.
    pub fn sixteen() -> (r: Self)
        ensures
            r.value() == 16,
    {
        DataBits(16)
    }

    /// The frame size `bits`, or `None` outside `4..=16`.
    pub fn new(bits: u8) -> (r: Option<Self>)
        ensures
            r.is_some() <==> 4 <= bits <= 16,
            r matches Some(d) ==> d.value() == bits,
    {
        if bits >= 4 && bits <= 16 {
            Some(DataBits(bits))
        } else {
            None
        }
    }

    /// The frame size in bits (4-16).
    pub fn bits(self) -> (r: u8)
        ensures
            r == self.value(),
            4 <= r <= 16,
    {
        proof { use_type_invariant(self); }
        self.0
    }
}

/// SPI master configuration.
#[derive(Debug, Clone, Copy)]
pub struct Config {
    /// SCK frequency.
    pub frequency: SpiHz,
    /// Clock mode.
    pub mode: SpiMode,
    /// Frame size.
    pub data_bits: DataBits,
}

impl Default for Config {
    /// 1 MHz, mode 0, 8-bit frames.
    fn default() -> (c: Self)
        ensures
            c.frequency.value() == 1_000_000,
            c.mode == SpiMode::Mode0,
            c.data_bits.value() == 8,
    {
        Config { frequency: SpiHz::one_mhz(), mode: SpiMode::Mode0, data_bits: DataBits::eight() }
    }
}

/// SPI errors.
#[derive(Debug, Clone, Copy, PartialEq, Eq, Structural)]
pub enum SpiError {
    /// FIFO overrun.
    Overflow,
    /// A status flag or a DMA channel did not complete within the bounded
    /// wait.
    Timeout,
    /// A DMA buffer exceeds 4095 beats.
    BufferTooLong,
}

/// Bound on the polls of each wait.
pub const SPI_WAIT_LOOPS: u32 = 1_000_000;
/// `WSR` flag: RX FIFO not empty.
pub const WSR_RXFNE: u32 = 0x10;
/// `WSR` flag: TX FIFO not full.
pub const WSR_TXFNF: u32 = 0x800;
/// `WSR` flag: TX FIFO empty.
pub const WSR_TXFE: u32 = 0x1000;
/// `WSR` flag: busy.
pub const WSR_BUSY: u32 = 0x8000;
/// `DCR` bit: transmit DMA enable.
pub const DCR_TDMAE: u32 = 0x1;
/// `DCR` bit: receive DMA enable.
pub const DCR_RDMAE: u32 = 0x2;

/// The CTRA word: clock mode in bits 4:3, frame size minus one at bit 13,
/// transmit-and-receive mode.
pub open spec fn ctra_spec(mode: SpiMode, bits: u8) -> u32 {
    ((match mode {
        SpiMode::Mode0 => 0nat,
        SpiMode::Mode1 => 8nat,
        SpiMode::Mode2 => 16nat,
        SpiMode::Mode3 => 24nat,
    }) + (bits - 1) as nat * 8192) as u32
}

/// The CLDO_CRG writes that give the SPI block its 160 MHz clock, in
/// order: `DIV_CTL3` load disabled, divider 3 / 1 set, load enabled; then
/// `CKEN_CTL1` gate closed, `CLK_SEL` switched to the PLL, gate opened.
#[derive(Debug, Clone, Copy, PartialEq, Eq, Structural)]
pub struct SpiClockSetup {
    /// `DIV_CTL3` with the SPI load enable (bit 10) cleared.
    pub div_unload: u32,
    /// `DIV_CTL3` with stage 2 = 3 (bits 9:5) and stage 1 = 1 (bits 4:0).
    pub div_set: u32,
    /// `DIV_CTL3` with the load enable set again.
    pub div_load: u32,
    /// `CKEN_CTL1` with the SPI gate (bit 25) closed.
    pub gate_closed: u32,
    /// `CLK_SEL` with the SPI source (bit 6) on the PLL.
    pub clk_sel: u32,
    /// `CKEN_CTL1` with the SPI gate opened.
    pub gate_open: u32,
}

/// The SPI source-clock writes from the current `DIV_CTL3`, `CKEN_CTL1` and
/// `CLK_SEL` values: 480 MHz / 3 = 160 MHz.
pub fn configure_spi_source_clock(div_ctl3: u32, cken_ctl1: u32, clk_sel: u32) -> (s: SpiClockSetup)
    ensures
        s.div_unload == div_ctl3 & !0x400u32,
        s.div_set == (s.div_unload & !0x3FFu32) | 0x61u32,
        s.div_load == s.div_set | 0x400u32,
        s.gate_closed == cken_ctl1 & !0x200_0000u32,
        s.clk_sel == clk_sel | 0x40u32,
        s.gate_open == s.gate_closed | 0x200_0000u32,
{
    let ssi_mhz = SPI_CLOCK_HZ / 1_000_000;
    assert(ssi_mhz == 160);
    let div = 480 / ssi_mhz;
    assert(div == 3);
    let div_unload = div_ctl3 & !0x400u32;
    let div_set = (div_unload & !0x3FFu32) | (div * 32 + 1);
    let gate_closed = cken_ctl1 & !0x200_0000u32;
    SpiClockSetup {
        div_unload,
        div_set,
        div_load: div_set | 0x400u32,
        gate_closed,
        clk_sel: clk_sel | 0x40u32,
        gate_open: gate_closed | 0x200_0000u32,
    }
}

/// The register writes that configure an SPI block, in order: `ER` = 0,
/// `BRS` = SCKDV, `CTRA`, `SLENR` = 1, `ER` = 1.
#[derive(Debug, Clone, Copy, PartialEq, Eq, Structural)]
pub struct SpiSetup {
    /// `BRS`: the SCKDV divider.
    pub brs: u32,
    /// `CTRA`.
    pub ctra: u32,
    /// `SLENR`: slave 0 selected.
    pub slenr: u32,
    /// `ER` after configuration: enabled.
    pub er: u32,
}

/// The configuration words of `config`.
pub open spec fn setup_spec(config: Config) -> SpiSetup {
    SpiSetup {
        brs: sckdv_spec(SPI_CLOCK_HZ, config.frequency.value()) as u32,
        ctra: ctra_spec(config.mode, config.data_bits.value()),
        slenr: 1,
        er: 1,
    }
}

/// The configuration words of an SPI block for `config`.
pub fn configure_spi(config: &Config) -> (s: SpiSetup)
    ensures
        s == setup_spec(*config),
{
    let mode_bits: u32 = match config.mode {
        SpiMode::Mode0 => 0,
        SpiMode::Mode1 => 8,
        SpiMode::Mode2 => 16,
        SpiMode::Mode3 => 24,
    };
    let bits = config.data_bits.bits();
    SpiSetup {
        brs: config.frequency.to_sckdv(),
        ctra: mode_bits + ((bits - 1) as u32) * 8192,
        slenr: 1,
        er: 1,
    }
}

/// One step of a byte-paced transfer.
#[derive(Debug, Clone, Copy, PartialEq, Eq, Structural)]
pub enum SpiStep {
    /// Wait (bounded) for [`WSR_TXFNF`].
    WaitTxNotFull,
    /// Write the value to `DR`.
    WriteDr(u32),
    /// Wait (bounded) for [`WSR_RXFNE`].
    WaitRxNotEmpty,
    /// Read `DR`; store its low byte in the next read slot when `true`,
    /// discard it otherwise.
    ReadDr(bool),
    /// Wait (bounded) for [`WSR_TXFE`].
    WaitTxEmpty,
    /// Wait (bounded) for [`WSR_BUSY`] to clear.
    WaitNotBusy,
}

/// The transmit word of slot `i`: the write byte, or 0 past its end.
pub open spec fn tx_word(write: Seq<u8>, i: int) -> u32 {
    if i < write.len() {
        write[i] as u32
    } else {
        0
    }
}

/// One full-duplex byte.
pub open spec fn xfer_byte_seq(tx: u32, keep: bool) -> Seq<SpiStep> {
    seq![SpiStep::WaitTxNotFull, SpiStep::WriteDr(tx), SpiStep::WaitRxNotEmpty, SpiStep::ReadDr(keep)]
}

/// The first `k` bytes of a full-duplex transfer.
pub open spec fn transfer_prefix(write: Seq<u8>, read_len: nat, k: nat) -> Seq<SpiStep>
    decreases k,
{
    if k == 0 {
        seq![]
    } else {
        transfer_prefix(write, read_len, (k - 1) as nat) + xfer_byte_seq(
            tx_word(write, k - 1),
            k - 1 < read_len,
        )
    }
}

/// A full-duplex transfer: `max(write, read)` bytes, zero-padded transmit,
/// receive stored into the first `read_len` slots.
pub open spec fn transfer_spec(write: Seq<u8>, read_len: nat) -> Seq<SpiStep> {
    transfer_prefix(write, read_len, if write.len() >= read_len { write.len() } else { read_len })
}

/// The first `k` bytes of a write-only transfer.
pub open spec fn write_prefix(data: Seq<u8>, k: nat) -> Seq<SpiStep>
    decreases k,
{
    if k == 0 {
        seq![]
    } else {
        write_prefix(data, (k - 1) as nat) + seq![SpiStep::WaitTxNotFull, SpiStep::WriteDr(data[k - 1] as u32)]
    }
}

fn transfer_program(write: &[u8], read_len: usize) -> (r: Vec<SpiStep>)
    ensures
        r@ == transfer_spec(write@, read_len as nat),
{
    let len = if write.len() >= read_len { write.len() } else { read_len };
    let mut out: Vec<SpiStep> = Vec::new();
    let mut i: usize = 0;
    while i < len
        invariant
            len == if write@.len() >= read_len { write@.len() } else { read_len as nat },
            i <= len,
            out@ == transfer_prefix(write@, read_len as nat, i as nat),
        decreases len - i,
    {
        let tx: u32 = if i < write.len() { write[i] as u32 } else { 0 };
        let keep = i < read_len;
        let mut chunk = vec![SpiStep::WaitTxNotFull, SpiStep::WriteDr(tx), SpiStep::WaitRxNotEmpty, SpiStep::ReadDr(keep)];
        out.append(&mut chunk);
        proof {
            assert(out@ =~= transfer_prefix(write@, read_len as nat, (i + 1) as nat));
        }
        i += 1;
    }
    out
}

/// An SPI master on block `idx` (0 or 1).
pub struct Spi {
    /// The block index.
    pub idx: u8,
    /// The configuration words its constructor computed.
    pub setup: SpiSetup,
}

impl Spi {
    /// SPI0 configured with `config`.
    pub fn new_spi0(config: Config) -> (s: Self)
        ensures
            s.idx == 0,
            s.setup == setup_spec(config),
    {
        Spi { idx: 0, setup: configure_spi(&config) }
    }

    /// SPI1 configured with `config`.
    pub fn new_spi1(config: Config) -> (s: Self)
        ensures
            s.idx == 1,
            s.setup == setup_spec(config),
    {
        Spi { idx: 1, setup: configure_spi(&config) }
    }

    /// The steps of a full-duplex transfer of `write` while reading
    /// `read_len` bytes.
    pub fn transfer(&mut self, write: &[u8], read_len: usize) -> (r: Vec<SpiStep>)
        ensures
            *final(self) == *old(self),
            r@ == transfer_spec(write@, read_len as nat),
    {
        transfer_program(write, read_len)
    }

    /// The steps of a transfer in place: each byte of `buf` is sent and
    /// replaced by the byte received.
    pub fn transfer_in_place(&mut self, buf: &[u8]) -> (r: Vec<SpiStep>)
        ensures
            *final(self) == *old(self),
            r@ == transfer_spec(buf@, buf@.len()),
    {
        transfer_program(buf, buf.len())
    }

    /// The steps of a write-only transfer (received bytes are left in the
    /// FIFO).
    pub fn write(&mut self, data: &[u8]) -> (r: Vec<SpiStep>)
        ensures
            *final(self) == *old(self),
            r@ == write_prefix(data@, data@.len()),
    {
        let mut out: Vec<SpiStep> = Vec::new();
        let mut i: usize = 0;
        while i < data.len()
            invariant
                i <= data@.len(),
                out@ == write_prefix(data@, i as nat),
            decreases data@.len() - i,
        {
            let mut chunk = vec![SpiStep::WaitTxNotFull, SpiStep::WriteDr(data[i] as u32)];
            out.append(&mut chunk);
            proof {
                assert(out@ =~= write_prefix(data@, (i + 1) as nat));
            }
            i += 1;
        }
        out
    }

    /// The steps that wait for the bus to go idle: TX FIFO empty, then not
    /// busy.
    pub fn wait_idle(&self) -> (r: Vec<SpiStep>)
        ensures
            r@ == seq![SpiStep::WaitTxEmpty, SpiStep::WaitNotBusy],
    {
        vec![SpiStep::WaitTxEmpty, SpiStep::WaitNotBusy]
    }

    /// Whether a wait step is satisfied by the status word `wsr`.
    pub fn step_ready(&self, step: SpiStep, wsr: u32) -> (r: bool)
        ensures
            step == SpiStep::WaitTxNotFull ==> r == (wsr & WSR_TXFNF != 0),
            step == SpiStep::WaitRxNotEmpty ==> r == (wsr & WSR_RXFNE != 0),
            step == SpiStep::WaitTxEmpty ==> r == (wsr & WSR_TXFE != 0),
            step == SpiStep::WaitNotBusy ==> r == (wsr & WSR_BUSY == 0),
            (step is WriteDr || step is ReadDr) ==> r,
    {
        match step {
            SpiStep::WaitTxNotFull => wsr & WSR_TXFNF != 0,
            SpiStep::WaitRxNotEmpty => wsr & WSR_RXFNE != 0,
            SpiStep::WaitTxEmpty => wsr & WSR_TXFE != 0,
            SpiStep::WaitNotBusy => wsr & WSR_BUSY == 0,
            _ => true,
        }
    }

    /// This master made DMA-capable with the primary DMA driver.
    pub fn with_dma(self, dma: DmaDriver<Dma0>) -> (d: SpiDma)
        ensures
            d.idx == self.idx,
    {
        SpiDma { idx: self.idx, dma }
    }
}

/// Poll `ready` at most [`SPI_WAIT_LOOPS`] times: `Ok` as soon as it answers
/// `true`, `Timeout` when every look answered `false`.
pub fn wait_until<F: FnMut() -> bool>(ready: &mut F) -> (r: Result<(), SpiError>)
    requires
        forall|| call_requires(*old(ready), ()),
    ensures
        poll_result(*old(ready), SPI_WAIT_LOOPS as nat, r is Ok),
        r matches Err(e) ==> e == SpiError::Timeout,
{
    if poll_until(ready, SPI_WAIT_LOOPS) {
        Ok(())
    } else {
        Err(SpiError::Timeout)
    }
}

/// A DMA-capable SPI master.
pub struct SpiDma {
    /// The block index (0 or 1).
    pub idx: u8,
    /// The DMA driver.
    pub dma: DmaDriver<Dma0>,
}

/// The transmit handshaking peripheral of block `idx`.
pub open spec fn spi_tx_peri(idx: u8) -> DmaPeripheral {
    if idx == 0 {
        DmaPeripheral::Spi0Tx
    } else {
        DmaPeripheral::Spi1Tx
    }
}

/// The receive handshaking peripheral of block `idx`.
pub open spec fn spi_rx_peri(idx: u8) -> DmaPeripheral {
    if idx == 0 {
        DmaPeripheral::Spi0Rx
    } else {
        DmaPeripheral::Spi1Rx
    }
}

/// The writes that start an SPI DMA transfer, in order: `DTDL` = 4,
/// `DRDL` = 0, the channel setups, then `DCR` with `dcr_enable` set.
#[derive(Debug, Clone, Copy, PartialEq, Eq, Structural)]
pub struct SpiDmaStart {
    /// `DTDL` (transmit watermark).
    pub dtdl: u32,
    /// `DRDL` (receive watermark).
    pub drdl: u32,
    /// The transmit channel setup.
    pub tx: DmaChannelSetup,
    /// The receive channel setup (full duplex only).
    pub rx: Option<DmaChannelSetup>,
    /// The `DCR` bits to set.
    pub dcr_enable: u32,
}

impl SpiDma {
    /// The transmit handshaking peripheral.
    pub fn tx_peri(&self) -> (r: DmaPeripheral)
        ensures
            r == spi_tx_peri(self.idx),
    {
        if self.idx == 0 {
            DmaPeripheral::Spi0Tx
        } else {
            DmaPeripheral::Spi1Tx
        }
    }

    /// The receive handshaking peripheral.
    pub fn rx_peri(&self) -> (r: DmaPeripheral)
        ensures
            r == spi_rx_peri(self.idx),
    {
        if self.idx == 0 {
            DmaPeripheral::Spi0Rx
        } else {
            DmaPeripheral::Spi1Rx
        }
    }

    /// Start a DMA write of `beats` bytes at `src_addr` to `DR` at `dr_addr`:
    /// watermarks, the transmit channel (byte frames, no interrupt), then
    /// `tdmae`. `BufferTooLong` above 4095 beats.
    pub fn write_dma(&mut self, ch: &DmaChannel, src_addr: u32, beats: usize, dr_addr: u32, en_chns: u32) -> (r:
        Result<SpiDmaStart, SpiError>)
        ensures
            final(self).idx == old(self).idx,
            r.is_ok() <==> beats <= MAX_BEATS,
            r matches Err(e) ==> e == SpiError::BufferTooLong,
            r matches Ok(s) ==> {
                &&& s.dtdl == 4 && s.drdl == 0
                &&& s.rx is None
                &&& s.dcr_enable == DCR_TDMAE
                &&& s.tx.physical == ch.number()
                &&& s.tx.src_addr == src_addr
                &&& s.tx.dst_addr == dr_addr
                &&& s.tx.control == control_bits(beats as u32, 0, 0, 0, 0, true, false, false)
                &&& s.tx.config == config_bits(0, request_id_spec(spi_tx_peri(old(self).idx)) as u32, 1, false, false, false)
                &&& s.tx.en_chns == en_chns | (1u32 << s.tx.physical)
            },
    {
        if beats > 0xFFF {
            return Err(SpiError::BufferTooLong);
        }
        let size = match DmaTransferSize::from_beats(beats) {
            Some(s) => s,
            None => return Err(SpiError::BufferTooLong),
        };
        let cfg = DmaChannelConfig::mem_to_mem().mem_to_peripheral(self.tx_peri()).with_width(DmaFrame::Byte);
        let n = ch.logical();
        let tx = self.dma.configure_channel_raw(n, src_addr, dr_addr, size, &cfg, en_chns);
        Ok(SpiDmaStart { dtdl: 4, drdl: 0, tx, rx: None, dcr_enable: DCR_TDMAE })
    }

    /// Start a full-duplex DMA transfer of `min(tx_beats, rx_beats)` bytes:
    /// transmit from `tx_addr` on `tx_ch` and receive into `rx_addr` on
    /// `rx_ch` (the receive setup sees the transmit one's `en_chns`), then
    /// `tdmae | rdmae`. `BufferTooLong` when either buffer exceeds 4095.
    pub fn transfer_dma(
        &mut self,
        tx_ch: &DmaChannel,
        rx_ch: &DmaChannel,
        rx_addr: u32,
        rx_beats: usize,
        tx_addr: u32,
        tx_beats: usize,
        dr_addr: u32,
        en_chns: u32,
    ) -> (r: Result<SpiDmaStart, SpiError>)
        ensures
            final(self).idx == old(self).idx,
            r.is_ok() <==> tx_beats <= MAX_BEATS && rx_beats <= MAX_BEATS,
            r matches Err(e) ==> e == SpiError::BufferTooLong,
            r matches Ok(s) ==> {
                let beats = if tx_beats <= rx_beats { tx_beats } else { rx_beats };
                &&& s.dtdl == 4 && s.drdl == 0
                &&& s.dcr_enable == DCR_TDMAE | DCR_RDMAE
                &&& s.tx.physical == tx_ch.number()
                &&& s.tx.src_addr == tx_addr
                &&& s.tx.dst_addr == dr_addr
                &&& s.tx.control == control_bits(beats as u32, 0, 0, 0, 0, true, false, false)
                &&& s.tx.en_chns == en_chns | (1u32 << s.tx.physical)
                &&& s.rx matches Some(rx) && rx.physical == rx_ch.number() && rx.src_addr == dr_addr
                    && rx.dst_addr == rx_addr && rx.control == control_bits(beats as u32, 0, 0, 0, 0, false, true, false)
                    && rx.config == config_bits(request_id_spec(spi_rx_peri(old(self).idx)) as u32, 0, 2, false, false, false)
                    && rx.en_chns == s.tx.en_chns | (1u32 << rx.physical)
            },
    {
        if tx_beats > 0xFFF || rx_beats > 0xFFF {
            return Err(SpiError::BufferTooLong);
        }
        let beats = if tx_beats <= rx_beats { tx_beats } else { rx_beats };
        let size = match DmaTransferSize::from_beats(beats) {
            Some(s) => s,
            None => return Err(SpiError::BufferTooLong),
        };
        let tx_cfg = DmaChannelConfig::mem_to_mem().mem_to_peripheral(self.tx_peri()).with_width(DmaFrame::Byte);
        let rx_cfg = DmaChannelConfig::mem_to_mem().peripheral_to_mem(self.rx_peri()).with_width(DmaFrame::Byte);
        let tn = tx_ch.logical();
        let rn = rx_ch.logical();
        let tx = self.dma.configure_channel_raw(tn, tx_addr, dr_addr, size, &tx_cfg, en_chns);
        let rx = self.dma.configure_channel_raw(rn, dr_addr, rx_addr, size, &rx_cfg, tx.en_chns);
        Ok(SpiDmaStart { dtdl: 4, drdl: 0, tx, rx: Some(rx), dcr_enable: DCR_TDMAE | DCR_RDMAE })
    }

    /// Wait for a DMA write on `ch` to complete, through `bus`: `en_chns` is
    /// read until the channel's bit is clear, at most [`SPI_WAIT_LOOPS`]
    /// times, and then `Ok` (the looped-back receive FIFO is drained next,
    /// then [`SpiDma::end_write_dma`]). When every read found it set the
    /// transfer is torn down, in order: `DCR` is read and written back with
    /// `tdmae` clear; the channel's `config` is read and written back with
    /// the halt bit set; `config` is read until its `active` bit is clear, at
    /// most [`SPI_WAIT_LOOPS`] times; `config` is read and written back with
    /// the enable bit clear; and the result is `Timeout`.
    pub fn wait_write_dma<B: FnMut(SpiDmaAccess) -> u32>(&mut self, ch: &DmaChannel, bus: &mut B) -> (r: Result<
        (),
        SpiError,
    >)
        requires
            forall|a: SpiDmaAccess| call_requires(*old(bus), (a,)),
        ensures
            final(self).idx == old(self).idx,
            exists|calls: Seq<SpiDmaAccess>, states: Seq<B>, answers: Seq<u32>|
                #[trigger] access_trace(*old(bus), calls, states, answers) && write_dma_wait_run(
                    ch.number(),
                    calls,
                    answers,
                    r,
                ),
    {
        let ghost start = *bus;
        let n = ch.logical();
        let mask = 1u32 << n as u32;
        if poll_bus(bus, SpiDmaAccess::EnChns, mask, false, SPI_WAIT_LOOPS) {
            return Ok(());
        }
        let ghost (c1, s1, a1) = choose|c: Seq<SpiDmaAccess>, st: Seq<B>, an: Seq<u32>|
            #[trigger] access_trace(start, c, st, an) && all_calls(c, SpiDmaAccess::EnChns) && bounded_poll(
                an,
                1u32 << ch.number() as u32,
                false,
                SPI_WAIT_LOOPS as nat,
            ) && an.len() > 0 && !poll_met(an, 1u32 << ch.number() as u32, false);
        let ghost p1 = *bus;
        let d = bus(SpiDmaAccess::ReadDcr);
        let ghost p2 = *bus;
        let x2 = bus(SpiDmaAccess::WriteDcr(d & !DCR_TDMAE));
        let ghost p3 = *bus;
        let c = bus(SpiDmaAccess::ReadConfig);
        let ghost p4 = *bus;
        let x4 = bus(SpiDmaAccess::WriteConfig(c | CHN_HALT));
        let ghost c2 = seq![
            SpiDmaAccess::ReadDcr,
            SpiDmaAccess::WriteDcr(d & !DCR_TDMAE),
            SpiDmaAccess::ReadConfig,
            SpiDmaAccess::WriteConfig(c | CHN_HALT),
        ];
        let ghost s2 = seq![p1, p2, p3, p4];
        let ghost a2 = seq![d, x2, c, x4];
        assert(access_trace(p1, c2, s2, a2));
        let ghost m = *bus;
        let _ = poll_bus(bus, SpiDmaAccess::ReadConfig, CHN_ACTIVE, false, SPI_WAIT_LOOPS);
        let ghost (c3, s3, a3) = choose|cc: Seq<SpiDmaAccess>, st: Seq<B>, an: Seq<u32>|
            #[trigger] access_trace(m, cc, st, an) && all_calls(cc, SpiDmaAccess::ReadConfig) && bounded_poll(
                an,
                CHN_ACTIVE,
                false,
                SPI_WAIT_LOOPS as nat,
            ) && an.len() > 0;
        let ghost p5 = *bus;
        let c5 = bus(SpiDmaAccess::ReadConfig);
        let ghost p6 = *bus;
        let x6 = bus(SpiDmaAccess::WriteConfig(c5 & !CHN_ENABLE));
        let ghost c4 = seq![SpiDmaAccess::ReadConfig, SpiDmaAccess::WriteConfig(c5 & !CHN_ENABLE)];
        let ghost s4 = seq![p5, p6];
        let ghost a4 = seq![c5, x6];
        assert(access_trace(p5, c4, s4, a4));
        proof {
            lemma_trace_append(start, c1, s1, a1, p1, c2, s2, a2);
            lemma_trace_append(start, c1 + c2, s1 + s2, a1 + a2, m, c3, s3, a3);
            lemma_trace_append(start, c1 + c2 + c3, s1 + s2 + s3, a1 + a2 + a3, p5, c4, s4, a4);
            let calls = c1 + c2 + c3 + c4;
            let answers = a1 + a2 + a3 + a4;
            let l = SPI_WAIT_LOOPS as int;
            let k = calls.len();
            assert(c1.len() == l);
            assert(calls.subrange(0, l) =~= c1);
            assert(answers.subrange(0, l) =~= a1);
            assert(calls.subrange(l + 4, k - 2) =~= c3);
            assert(answers.subrange(l + 4, k - 2) =~= a3);
            assert(calls[l] == SpiDmaAccess::ReadDcr && answers[l] == d);
            assert(calls[l + 1] == SpiDmaAccess::WriteDcr(d & !DCR_TDMAE));
            assert(calls[l + 2] == SpiDmaAccess::ReadConfig && answers[l + 2] == c);
            assert(calls[l + 3] == SpiDmaAccess::WriteConfig(c | CHN_HALT));
            assert(calls[k - 2] == SpiDmaAccess::ReadConfig && answers[k - 2] == c5);
            assert(calls[k - 1] == SpiDmaAccess::WriteConfig(c5 & !CHN_ENABLE));
        }
        Err(SpiError::Timeout)
    }

    /// Wait for a full-duplex DMA transfer on `tx_ch` and `rx_ch` to
    /// complete, through `bus`: `en_chns` is read until both channels' bits
    /// are clear, at most [`SPI_WAIT_LOOPS`] times, and then `Ok` (the receive
    /// buffer is invalidated next, then [`SpiDma::end_transfer_dma`]). When
    /// every read found one still set, `DCR` is read and written back with
    /// `tdmae` and `rdmae` clear, and the result is `Timeout`.
    pub fn wait_transfer_dma<B: FnMut(SpiDmaAccess) -> u32>(
        &mut self,
        tx_ch: &DmaChannel,
        rx_ch: &DmaChannel,
        bus: &mut B,
    ) -> (r: Result<(), SpiError>)
        requires
            forall|a: SpiDmaAccess| call_requires(*old(bus), (a,)),
        ensures
            final(self).idx == old(self).idx,
            exists|calls: Seq<SpiDmaAccess>, states: Seq<B>, answers: Seq<u32>|
                #[trigger] access_trace(*old(bus), calls, states, answers) && transfer_dma_wait_run(
                    (1u32 << tx_ch.number() as u32) | (1u32 << rx_ch.number() as u32),
                    calls,
                    answers,
                    r,
                ),
    {
        let ghost start = *bus;
        let mask = (1u32 << tx_ch.logical() as u32) | (1u32 << rx_ch.logical() as u32);
        if poll_bus(bus, SpiDmaAccess::EnChns, mask, false, SPI_WAIT_LOOPS) {
            return Ok(());
        }
        let ghost (c1, s1, a1) = choose|c: Seq<SpiDmaAccess>, st: Seq<B>, an: Seq<u32>|
            #[trigger] access_trace(start, c, st, an) && all_calls(c, SpiDmaAccess::EnChns) && bounded_poll(
                an,
                mask,
                false,
                SPI_WAIT_LOOPS as nat,
            ) && an.len() > 0 && !poll_met(an, mask, false);
        let ghost p1 = *bus;
        let d = bus(SpiDmaAccess::ReadDcr);
        let ghost p2 = *bus;
        let x2 = bus(SpiDmaAccess::WriteDcr(d & !(DCR_TDMAE | DCR_RDMAE)));
        let ghost c2 = seq![SpiDmaAccess::ReadDcr, SpiDmaAccess::WriteDcr(d & !(DCR_TDMAE | DCR_RDMAE))];
        let ghost s2 = seq![p1, p2];
        let ghost a2 = seq![d, x2];
        assert(access_trace(p1, c2, s2, a2));
        proof {
            lemma_trace_append(start, c1, s1, a1, p1, c2, s2, a2);
            let l = SPI_WAIT_LOOPS as int;
            assert(c1.len() == l);
            assert((c1 + c2).subrange(0, l) =~= c1);
            assert((a1 + a2).subrange(0, l) =~= a1);
        }
        Err(SpiError::Timeout)
    }

    /// The `DCR` word that ends a completed DMA write: `tdmae` clear.
    pub fn end_write_dma(&self, dcr: u32) -> (r: u32)
        ensures
            r == dcr & !DCR_TDMAE,
    {
        dcr & !DCR_TDMAE
    }

    /// The `DCR` word that ends a completed full-duplex DMA transfer:
    /// `tdmae` and `rdmae` clear.
    pub fn end_transfer_dma(&self, dcr: u32) -> (r: u32)
        ensures
            r == dcr & !(DCR_TDMAE | DCR_RDMAE),
    {
        dcr & !(DCR_TDMAE | DCR_RDMAE)
    }

    /// Give back the blocking master and the DMA driver, with the `DCR` word
    /// that clears both DMA enables.
    pub fn release(self, dcr: u32, setup: SpiSetup) -> (r: (Spi, DmaDriver<Dma0>, u32))
        ensures
            r.0.idx == self.idx,
            r.0.setup == setup,
            r.2 == dcr & !(DCR_TDMAE | DCR_RDMAE),
    {
        (Spi { idx: self.idx, setup }, self.dma, dcr & !(DCR_TDMAE | DCR_RDMAE))
    }
}

/// A register access of an SPI DMA completion wait.
#[derive(Debug, Clone, Copy, PartialEq, Eq, Structural)]
pub enum SpiDmaAccess {
    /// Read `dmac_en_chns`.
    EnChns,
    /// Read the SPI `DCR`.
    ReadDcr,
    /// Write the SPI `DCR`.
    WriteDcr(u32),
    /// Read the channel's `config`.
    ReadConfig,
    /// Write the channel's `config`.
    WriteConfig(u32),
}

/// The accesses and result of waiting for a DMA write on channel `ch`: a
/// bounded poll of `en_chns` for the channel's bit clear, of at most
/// [`SPI_WAIT_LOOPS`] reads; `Ok` exactly when it ended with the bit clear,
/// and then nothing else was accessed. Otherwise `Timeout`, after, in
/// order: `DCR` read and written back with `tdmae` clear; `config` read and
/// written back with the halt bit set; a bounded poll of `config` for
/// `active` clear of at most [`SPI_WAIT_LOOPS`] reads; `config` read and
/// written back with the enable bit clear.
pub open spec fn write_dma_wait_run(ch: u8, calls: Seq<SpiDmaAccess>, answers: Seq<u32>, r: Result<(), SpiError>) -> bool {
    let mask = 1u32 << ch as u32;
    let l = SPI_WAIT_LOOPS as int;
    let k = calls.len();
    match r {
        Ok(_) => {
            &&& all_calls(calls, SpiDmaAccess::EnChns)
            &&& bounded_poll(answers, mask, false, SPI_WAIT_LOOPS as nat)
            &&& poll_met(answers, mask, false)
        },
        Err(e) => {
            &&& e == SpiError::Timeout
            &&& k >= l + 7
            &&& all_calls(calls.subrange(0, l), SpiDmaAccess::EnChns)
            &&& bounded_poll(answers.subrange(0, l), mask, false, SPI_WAIT_LOOPS as nat)
            &&& !poll_met(answers.subrange(0, l), mask, false)
            &&& calls[l] == SpiDmaAccess::ReadDcr
            &&& calls[l + 1] == SpiDmaAccess::WriteDcr(answers[l] & !DCR_TDMAE)
            &&& calls[l + 2] == SpiDmaAccess::ReadConfig
            &&& calls[l + 3] == SpiDmaAccess::WriteConfig(answers[l + 2] | CHN_HALT)
            &&& all_calls(calls.subrange(l + 4, k - 2), SpiDmaAccess::ReadConfig)
            &&& bounded_poll(answers.subrange(l + 4, k - 2), CHN_ACTIVE, false, SPI_WAIT_LOOPS as nat)
            &&& calls[k - 2] == SpiDmaAccess::ReadConfig
            &&& calls[k - 1] == SpiDmaAccess::WriteConfig(answers[k - 2] & !CHN_ENABLE)
        },
    }
}

/// The accesses and result of waiting for a full-duplex DMA transfer whose
/// channels' `en_chns` bits are `mask`: a bounded poll of `en_chns` for
/// both bits clear, of at most [`SPI_WAIT_LOOPS`] reads; `Ok` exactly when it
/// ended with both clear, and then nothing else was accessed. Otherwise
/// `Timeout`, after `DCR` was read and written back with `tdmae` and `rdmae`
/// clear.
pub open spec fn transfer_dma_wait_run(mask: u32, calls: Seq<SpiDmaAccess>, answers: Seq<u32>, r: Result<
    (),
    SpiError,
>) -> bool {
    let l = SPI_WAIT_LOOPS as int;
    match r {
        Ok(_) => {
            &&& all_calls(calls, SpiDmaAccess::EnChns)
            &&& bounded_poll(answers, mask, false, SPI_WAIT_LOOPS as nat)
            &&& poll_met(answers, mask, false)
        },
        Err(e) => {
            &&& e == SpiError::Timeout
            &&& calls.len() == l + 2
            &&& all_calls(calls.subrange(0, l), SpiDmaAccess::EnChns)
            &&& bounded_poll(answers.subrange(0, l), mask, false, SPI_WAIT_LOOPS as nat)
            &&& !poll_met(answers.subrange(0, l), mask, false)
            &&& calls[l] == SpiDmaAccess::ReadDcr
            &&& calls[l + 1] == SpiDmaAccess::WriteDcr(answers[l] & !(DCR_TDMAE | DCR_RDMAE))
        },
    }
}

/// The CTRA word of a configuration: bit 3 is set exactly in modes 1 and
/// 3, bit 4 exactly in modes 2 and 3, the frame size minus one sits in bits
/// 16:13, and no other bit is set (transmit-and-receive mode).
pub proof fn law_ctra_fields(config: Config)
    requires
        4 <= config.data_bits.value() <= 16,
    ensures
        (setup_spec(config).ctra & 0x8 != 0) <==> (config.mode == SpiMode::Mode1 || config.mode
            == SpiMode::Mode3),
        (setup_spec(config).ctra & 0x10 != 0) <==> (config.mode == SpiMode::Mode2 || config.mode
            == SpiMode::Mode3),
        (setup_spec(config).ctra >> 13) & 0xF == config.data_bits.value() - 1,
        setup_spec(config).ctra & !0x1_E018u32 == 0,
{
    let f = (config.data_bits.value() - 1) as u32;
    assert(f <= 15 ==> {
        &&& (f * 8192) as u32 & 0x18 == 0
        &&& ((8 + f * 8192) as u32 & 0x18) == 0x8
        &&& ((16 + f * 8192) as u32 & 0x18) == 0x10
        &&& ((24 + f * 8192) as u32 & 0x18) == 0x18
        &&& ((f * 8192) as u32 >> 13) & 0xF == f
        &&& ((8 + f * 8192) as u32 >> 13) & 0xF == f
        &&& ((16 + f * 8192) as u32 >> 13) & 0xF == f
        &&& ((24 + f * 8192) as u32 >> 13) & 0xF == f
        &&& (f * 8192) as u32 & !0x1_E018u32 == 0
        &&& (8 + f * 8192) as u32 & !0x1_E018u32 == 0
        &&& (16 + f * 8192) as u32 & !0x1_E018u32 == 0
        &&& (24 + f * 8192) as u32 & !0x1_E018u32 == 0
    }) by (bit_vector);
    assert(forall|v: u32| (v & 0x18 == 0x8) ==> (v & 0x8 != 0 && v & 0x10 == 0)) by (bit_vector);
    assert(forall|v: u32| (v & 0x18 == 0x10) ==> (v & 0x8 == 0 && v & 0x10 != 0)) by (bit_vector);
    assert(forall|v: u32| (v & 0x18 == 0x18) ==> (v & 0x8 != 0 && v & 0x10 != 0)) by (bit_vector);
    assert(forall|v: u32| (v & 0x18 == 0) ==> (v & 0x8 == 0 && v & 0x10 == 0)) by (bit_vector);
}

/// SCKDV is always an even divider in `[2, 0xFFFE]`, and a higher
/// frequency never gets a larger divider.
pub proof fn law_sckdv_even_monotonic(pclk: u32, f1: u32, f2: u32)
    requires
        0 < f1 <= f2,
    ensures
        2 <= sckdv_spec(pclk, f1) <= 0xFFFE,
        sckdv_spec(pclk, f1) % 2 == 0,
        sckdv_spec(pclk, f2) <= sckdv_spec(pclk, f1),
{
    vstd::arithmetic::div_mod::lemma_div_is_ordered_by_denominator(pclk as int, f1 as int, f2 as int);
}

/// A full-duplex transfer of `n` bytes sends each write byte in order and
/// stores exactly the first `read_len` received bytes.
pub proof fn law_transfer_shape(write: Seq<u8>, read_len: nat, k: nat)
    ensures
        transfer_prefix(write, read_len, k).len() == 4 * k,
        forall|i: int|
            0 <= i < k ==> #[trigger] transfer_prefix(write, read_len, k)[4 * i + 1] == SpiStep::WriteDr(
                tx_word(write, i),
            ) && transfer_prefix(write, read_len, k)[4 * i + 3] == SpiStep::ReadDr(i < read_len),
    decreases k,
{
    if k > 0 {
        law_transfer_shape(write, read_len, (k - 1) as nat);
        let prev = transfer_prefix(write, read_len, (k - 1) as nat);
        let cur = transfer_prefix(write, read_len, k);
        assert forall|i: int| 0 <= i < k implies #[trigger] cur[4 * i + 1] == SpiStep::WriteDr(
            tx_word(write, i),
        ) && cur[4 * i + 3] == SpiStep::ReadDr(i < read_len) by {
            if i < k - 1 {
                assert(cur[4 * i + 1] == prev[4 * i + 1]);
                assert(cur[4 * i + 3] == prev[4 * i + 3]);
            }
        }
    }
}

} // verus!
