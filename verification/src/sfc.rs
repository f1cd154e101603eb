//! SFC (SPI flash controller): global, timing and bus configuration words,
//! flash command words, the 16-word command data buffer (little-endian byte
//! packing), bus DMA words and interrupt decode.
use vstd::prelude::*;

verus! {

/// SPI interface type of a flash operation.
#[derive(Debug, Clone, Copy, PartialEq, Eq, Structural)]
pub enum SpiIfType {
    /// Standard SPI (code 0).
    Standard,
    /// Dual I/O (code 1).
    DualIO,
    /// Dual I/O continuous (code 2).
    DualIOCont,
    /// Quad I/O (code 3).
    QuadIO,
    /// Quad I/O continuous (code 4).
    QuadIOCont,
}

/// Flash address mode.
#[derive(Debug, Clone, Copy, PartialEq, Eq, Structural)]
pub enum AddressMode {
    /// 3-byte addressing (code 0).
    ThreeByte,
    /// 4-byte addressing (code 1).
    FourByte,
}

/// SPI mode of the flash bus.
#[derive(Debug, Clone, Copy, PartialEq, Eq, Structural)]
pub enum FlashSpiMode {
    /// CPOL=0, CPHA=0 (code 0).
    Mode0,
    /// CPOL=1, CPHA=1 (code 1).
    Mode3,
}

/// Read data delay.
#[derive(Debug, Clone, Copy, PartialEq, Eq, Structural)]
pub enum ReadDelay {
    /// No delay (code 0).
    Delay0,
    /// Half a cycle (code 1).
    DelayHalf,
    /// One cycle (code 2).
    Delay1,
    /// One and a half cycles (code 3).
    Delay1_5,
}

/// The field code of an interface type.
pub open spec fn if_type_code(t: SpiIfType) -> u32 {
    match t {
        SpiIfType::Standard => 0u32,
        SpiIfType::DualIO => 1u32,
        SpiIfType::DualIOCont => 2u32,
        SpiIfType::QuadIO => 3u32,
        SpiIfType::QuadIOCont => 4u32,
    }
}

/// The field code of a read delay.
pub open spec fn read_delay_code(d: ReadDelay) -> u32 {
    match d {
        ReadDelay::Delay0 => 0u32,
        ReadDelay::DelayHalf => 1u32,
        ReadDelay::Delay1 => 2u32,
        ReadDelay::Delay1_5 => 3u32,
    }
}

impl SpiIfType {
    /// The field code (0-4).
    pub fn code(self) -> (r: u32)
        ensures
            r == if_type_code(self),
    {
        match self {
            SpiIfType::Standard => 0,
            SpiIfType::DualIO => 1,
            SpiIfType::DualIOCont => 2,
            SpiIfType::QuadIO => 3,
            SpiIfType::QuadIOCont => 4,
        }
    }
}

impl ReadDelay {
    /// The field code (0-3).
    pub fn code(self) -> (r: u32)
        ensures
            r == read_delay_code(self),
    {
        match self {
            ReadDelay::Delay0 => 0,
            ReadDelay::DelayHalf => 1,
            ReadDelay::Delay1 => 2,
            ReadDelay::Delay1_5 => 3,
        }
    }
}

/// Bus configuration for memory-mapped access.
#[derive(Debug, Clone, Copy, PartialEq, Eq, Structural)]
pub struct BusConfig {
    /// Interface type of reads.
    pub read_if_type: SpiIfType,
    /// Dummy bytes of reads (3-bit field).
    pub read_dummy_bytes: u8,
    /// Read instruction.
    pub read_instruction: u8,
    /// Read prefetch count (2-bit field).
    pub read_prefetch_cnt: u8,
    /// Interface type of writes.
    pub write_if_type: SpiIfType,
    /// Dummy bytes of writes (3-bit field).
    pub write_dummy_bytes: u8,
    /// Write instruction.
    pub write_instruction: u8,
}

impl Default for BusConfig {
    /// Standard read (0x03) and page program (0x02), no dummy bytes, no
    /// prefetch.
    fn default() -> (c: Self)
        ensures
            c == (BusConfig {
                read_if_type: SpiIfType::Standard,
                read_dummy_bytes: 0,
                read_instruction: 0x03,
                read_prefetch_cnt: 0,
                write_if_type: SpiIfType::Standard,
                write_dummy_bytes: 0,
                write_instruction: 0x02,
            }),
    {
        BusConfig {
            read_if_type: SpiIfType::Standard,
            read_dummy_bytes: 0,
            read_instruction: 0x03,
            read_prefetch_cnt: 0,
            write_if_type: SpiIfType::Standard,
            write_dummy_bytes: 0,
            write_instruction: 0x02,
        }
    }
}

/// SFC operation error.
#[derive(Debug, Clone, Copy, PartialEq, Eq, Structural)]
pub enum SfcError {
    /// Command timeout.
    Timeout,
    /// DMA transfer error.
    DmaError,
}

/// Minimum inter-operation delay in clock cycles.
pub const MIN_TSHSL: u32 = 5;
/// `INT_CLEAR` word that clears both interrupts.
pub const SFC_INT_CLEAR_ALL: u32 = 0x03;

/// The `GLOBAL_CONFIG` word: mode bit 0, write protect bit 1, 4-byte
/// address mode bit 2, read delay bits 5:3.
pub open spec fn global_config_spec(spi_mode: FlashSpiMode, addr_mode: AddressMode, read_delay: ReadDelay, wp: bool) -> u32 {
    ((if spi_mode == FlashSpiMode::Mode3 { 1nat } else { 0 }) + (if wp { 2nat } else { 0 }) + (if addr_mode
        == AddressMode::FourByte {
        4nat
    } else {
        0
    }) + read_delay_code(read_delay) * 8) as u32
}

/// The tSHSL field: the low nibble of `tshsl`, at least `MIN_TSHSL - 2`.
pub open spec fn tshsl_field(tshsl: u8) -> nat {
    if tshsl % 16 < 3 {
        3
    } else {
        (tshsl % 16) as nat
    }
}

/// The `TIMING` word: tSHSL [3:0], tCSS [10:8], tCSH [14:12].
pub open spec fn timing_spec(tshsl: u8, tcss: u8, tcsh: u8) -> u32 {
    (tshsl_field(tshsl) + (tcss % 8) as nat * 256 + (tcsh % 8) as nat * 4096) as u32
}

/// The `BUS_CONFIG1` word.
pub open spec fn bus_config1_spec(c: BusConfig) -> u32 {
    ((if_type_code(c.read_if_type) % 8) as nat + (c.read_dummy_bytes % 8) as nat * 8 + (c.read_prefetch_cnt
        % 4) as nat * 64 + c.read_instruction as nat * 256 + (if_type_code(c.write_if_type) % 8) as nat
        * 65536 + (c.write_dummy_bytes % 8) as nat * 0x8_0000 + c.write_instruction as nat * 0x40_0000) as u32
}

/// The little-endian word of bytes `4i..4i+4` of `data` (missing bytes 0).
pub open spec fn le_word(data: Seq<u8>, i: int) -> u32 {
    let b = |k: int| if 4 * i + k < data.len() { data[4 * i + k] as u32 } else { 0u32 };
    b(0) | (b(1) << 8u32) | (b(2) << 16u32) | (b(3) << 24u32)
}

/// Byte `k` (0-3) of a little-endian word.
pub open spec fn le_byte(w: u32, k: int) -> u8 {
    ((w >> (8 * k) as u32) & 0xFF) as u8
}

/// The command-config word of a data command of `data_len` bytes: start
/// bit 0, address enable bit 2, data enable bit 7, read bit 8, data count
/// `data_len - 1` (6 bits) at bits 14:9.
pub open spec fn data_cmd_config_spec(data_len: nat, read: bool) -> u32 {
    (0x85nat + (if read { 0x100nat } else { 0 }) + ((if data_len == 0 { 0 } else { data_len - 1 }) % 64) as nat
        * 512) as u32
}

/// The register writes of a command without data, in order: `CMD_INS`,
/// `CMD_ADDR` (when present), `CMD_CONFIG`; then the driver waits for
/// command done and clears the interrupts.
#[derive(Debug, Clone, Copy, PartialEq, Eq, Structural)]
pub struct SfcCommand {
    /// `CMD_INS`.
    pub ins: u32,
    /// `CMD_ADDR`, if the command has an address phase.
    pub addr: Option<u32>,
    /// `CMD_CONFIG`.
    pub cmd_config: u32,
}

/// The register writes of a command with data: the data-buffer words
/// (`CMD_DATABUF_0..`), `CMD_INS`, `CMD_ADDR`, `CMD_CONFIG`.
#[derive(Debug, Clone, PartialEq, Eq)]
pub struct SfcDataCommand {
    /// Words for `CMD_DATABUF_0..`, in order (empty for reads).
    pub databuf: Vec<u32>,
    /// `CMD_INS`.
    pub ins: u32,
    /// `CMD_ADDR`.
    pub addr: u32,
    /// `CMD_CONFIG`.
    pub cmd_config: u32,
    /// Number of data bytes (at most 64).
    pub data_len: usize,
}

/// The register writes of a bus DMA: memory address, flash address,
/// length, then the control word that starts it.
#[derive(Debug, Clone, Copy, PartialEq, Eq, Structural)]
pub struct SfcDmaSetup {
    /// `BUS_DMA_MEM_SADDR`.
    pub mem_saddr: u32,
    /// `BUS_DMA_FLASH_SADDR`.
    pub flash_saddr: u32,
    /// `BUS_DMA_LEN` (30 bits).
    pub len: u32,
    /// `BUS_DMA_CTRL`: start bit 0, read bit 1.
    pub ctrl: u32,
}

/// Pack `data` (at most 64 bytes) into little-endian words, one per four
/// bytes; a short tail leaves the upper bytes clear.
pub fn pack_databuf(data: &[u8]) -> (r: Vec<u32>)
    requires
        data@.len() <= 64,
    ensures
        r@.len() == (data@.len() + 3) / 4,
        forall|i: int| 0 <= i < r@.len() ==> r@[i] == le_word(data@, i),
{
    let len = data.len();
    let mut out: Vec<u32> = Vec::new();
    let mut i: usize = 0;
    while i * 4 < len
        invariant
            len == data@.len(),
            len <= 64,
            out@.len() == i,
            i <= (len + 3) / 4,
            forall|k: int| 0 <= k < i ==> out@[k] == le_word(data@, k),
        decreases 16 - i,
    {
        let base = i * 4;
        let b0: u32 = data[base] as u32;
        let b1: u32 = if base + 1 < len { data[base + 1] as u32 } else { 0 };
        let b2: u32 = if base + 2 < len { data[base + 2] as u32 } else { 0 };
        let b3: u32 = if base + 3 < len { data[base + 3] as u32 } else { 0 };
        let w = b0 | (b1 << 8u32) | (b2 << 16u32) | (b3 << 24u32);
        assert(w == le_word(data@, i as int));
        out.push(w);
        i += 1;
    }
    out
}

/// Unpack the first `data_len` bytes (at most 64) from little-endian data
/// buffer words into a 64-byte result; the rest stays 0.
pub fn unpack_databuf(words: &[u32], data_len: usize) -> (r: Vec<u8>)
    requires
        data_len <= 64,
        words@.len() * 4 >= data_len,
    ensures
        r@.len() == 64,
        forall|i: int| 0 <= i < data_len ==> r@[i] == le_byte(words@[i / 4], i % 4),
        forall|i: int| data_len <= i < 64 ==> r@[i] == 0,
{
    let mut out: Vec<u8> = Vec::new();
    let mut i: usize = 0;
    while i < 64
        invariant
            data_len <= 64,
            words@.len() * 4 >= data_len,
            out@.len() == i,
            i <= 64,
            forall|k: int| 0 <= k < i && k < data_len ==> out@[k] == le_byte(words@[k / 4], k % 4),
            forall|k: int| data_len <= k < i ==> out@[k] == 0,
        decreases 64 - i,
    {
        if i < data_len {
            let w = words[i / 4];
            let k = (i % 4) as u32;
            out.push(((w >> (8 * k)) & 0xFF) as u8);
        } else {
            out.push(0);
        }
        i += 1;
    }
    out
}

/// The SFC driver.
pub struct SfcDriver;

impl SfcDriver {
    /// The SFC driver.
    pub fn new() -> (d: Self) {
        SfcDriver
    }

    /// The `GLOBAL_CONFIG` word.
    pub fn configure_global(
        &mut self,
        spi_mode: FlashSpiMode,
        addr_mode: AddressMode,
        read_delay: ReadDelay,
        write_protect: bool,
    ) -> (r: u32)
        ensures
            r == global_config_spec(spi_mode, addr_mode, read_delay, write_protect),
    {
        let mode: u32 = match spi_mode {
            FlashSpiMode::Mode0 => 0,
            FlashSpiMode::Mode3 => 1,
        };
        let wp: u32 = if write_protect { 2 } else { 0 };
        let am: u32 = match addr_mode {
            AddressMode::ThreeByte => 0,
            AddressMode::FourByte => 4,
        };
        mode + wp + am + read_delay.code() * 8
    }

    /// The `TIMING` word: tSHSL masked to four bits then floored at
    /// `MIN_TSHSL - 2`, tCSS and tCSH masked to three bits.
    pub fn configure_timing(&mut self, tshsl: u8, tcss: u8, tcsh: u8) -> (r: u32)
        ensures
            *final(self) == *old(self),
            r == timing_spec(tshsl, tcss, tcsh),
    {
        let low = (tshsl % 16) as u32;
        let t = if low < MIN_TSHSL - 2 { MIN_TSHSL - 2 } else { low };
        t + ((tcss % 8) as u32) * 256 + ((tcsh % 8) as u32) * 4096
    }

    /// The `BUS_CONFIG1` word of `config`.
    pub fn configure_bus(&mut self, config: &BusConfig) -> (r: u32)
        ensures
            *final(self) == *old(self),
            r == bus_config1_spec(*config),
    {
        (config.read_if_type.code() % 8) + ((config.read_dummy_bytes % 8) as u32) * 8 + ((
        config.read_prefetch_cnt % 4) as u32) * 64 + (config.read_instruction as u32) * 256 + (
        config.write_if_type.code() % 8) * 65536 + ((config.write_dummy_bytes % 8) as u32) * 0x8_0000 + (
        config.write_instruction as u32) * 0x40_0000
    }

    /// The `SOFT_RST_MASK` word that releases the bus from reset.
    pub fn release_bus_reset(&mut self) -> (r: u32)
        ensures
            *final(self) == *old(self),
            r == 1,
    {
        1
    }

    /// The `SOFT_RST_MASK` word that holds the bus in reset.
    pub fn hold_bus_reset(&mut self) -> (r: u32)
        ensures
            *final(self) == *old(self),
            r == 0,
    {
        0
    }

    /// The writes of a flash command without data: start bit, address
    /// enable (bit 2) when `address_enable`, standard interface.
    pub fn send_command(&mut self, instruction: u8, address: u32, address_enable: bool) -> (c: SfcCommand)
        ensures
            c.ins == instruction,
            c.addr == if address_enable { Some(address) } else { None },
            c.cmd_config == if address_enable { 0x05u32 } else { 0x01u32 },
    {
        SfcCommand {
            ins: instruction as u32,
            addr: if address_enable { Some(address) } else { None },
            cmd_config: if address_enable { 0x05 } else { 0x01 },
        }
    }

    /// The writes of a flash command with a data phase of
    /// `min(write_data.len(), 64)` bytes: for a write the data packed into
    /// the buffer words, then instruction, address and command config.
    pub fn command_with_data(&mut self, instruction: u8, address: u32, write_data: &[u8], read: bool) -> (c:
        SfcDataCommand)
        ensures
            c.data_len == if write_data@.len() <= 64 { write_data@.len() } else { 64 },
            c.ins == instruction,
            c.addr == address,
            c.cmd_config == data_cmd_config_spec(c.data_len as nat, read),
            (read || write_data@.len() == 0) ==> c.databuf@.len() == 0,
            !read && write_data@.len() > 0 ==> c.databuf@.len() == (c.data_len + 3) / 4 && forall|i: int|
                0 <= i < c.databuf@.len() ==> c.databuf@[i] == le_word(write_data@.subrange(0, c.data_len as int), i),
    {
        let data_len = if write_data.len() <= 64 { write_data.len() } else { 64 };
        let databuf = if !read && write_data.len() > 0 {
            let mut prefix: Vec<u8> = Vec::new();
            let mut j: usize = 0;
            while j < data_len
                invariant
                    data_len <= write_data@.len(),
                    j <= data_len,
                    prefix@ == write_data@.subrange(0, j as int),
                decreases data_len - j,
            {
                prefix.push(write_data[j]);
                j += 1;
            }
            pack_databuf(prefix.as_slice())
        } else {
            Vec::new()
        };
        let count: u32 = if data_len == 0 { 0 } else { (data_len - 1) as u32 };
        let cmd_config = 0x85u32 + (if read { 0x100u32 } else { 0 }) + (count % 64) * 512;
        SfcDataCommand { databuf, ins: instruction as u32, addr: address, cmd_config, data_len }
    }

    /// The bus DMA writes: addresses, length masked to 30 bits, start (and
    /// read) control.
    pub fn bus_dma_start(&mut self, mem_addr: u32, flash_addr: u32, length: u32, read: bool) -> (s: SfcDmaSetup)
        ensures
            s.mem_saddr == mem_addr,
            s.flash_saddr == flash_addr,
            s.len == length & 0x3FFF_FFFF,
            s.ctrl == if read { 0x3u32 } else { 0x1u32 },
    {
        SfcDmaSetup {
            mem_saddr: mem_addr,
            flash_saddr: flash_addr,
            len: length & 0x3FFF_FFFF,
            ctrl: if read { 0x3 } else { 0x1 },
        }
    }

    /// One look of the bus DMA wait: `true` once DMA is done (the
    /// interrupts are then cleared with [`SFC_INT_CLEAR_ALL`]).
    pub fn bus_dma_wait(&self, int_status: u32) -> (r: bool)
        ensures
            r == (int_status & 0x02 != 0),
    {
        self.dma_done(int_status)
    }

    /// Whether the bus DMA is done (`INT_STATUS` bit 1).
    pub fn dma_done(&self, int_status: u32) -> (r: bool)
        ensures
            r == (int_status & 0x02 != 0),
    {
        int_status & 0x02 != 0
    }

    /// Whether the flash command is done (`INT_STATUS` bit 0).
    pub fn command_done(&self, int_status: u32) -> (r: bool)
        ensures
            r == (int_status & 0x01 != 0),
    {
        int_status & 0x01 != 0
    }

    /// The `INT_CLEAR` word that clears both interrupts.
    pub fn clear_interrupts(&self) -> (r: u32)
        ensures
            r == SFC_INT_CLEAR_ALL,
    {
        SFC_INT_CLEAR_ALL
    }

    /// The `INT_MASK` word: bit 0 for command done, bit 1 for DMA done.
    pub fn enable_interrupts(&mut self, cmd_done: bool, dma_done: bool) -> (r: u32)
        ensures
            r == (if cmd_done { 1u32 } else { 0u32 }) + (if dma_done { 2u32 } else { 0u32 }),
    {
        (if cmd_done { 1u32 } else { 0u32 }) + (if dma_done { 2u32 } else { 0u32 })
    }

    /// `(command done, DMA done)` from `INT_RAW_STATUS`.
    pub fn raw_interrupt_status(&self, sts: u32) -> (r: (bool, bool))
        ensures
            r == (sts & 0x01 != 0, sts & 0x02 != 0),
    {
        (sts & 0x01 != 0, sts & 0x02 != 0)
    }

    /// The `LEA_LP_EN` word that enables AES low-power mode.
    pub fn enable_aes_low_power(&mut self) -> (r: u32)
        ensures
            *final(self) == *old(self),
            r == 1,
    {
        1
    }

    /// The `LEA_LP_EN` word that disables AES low-power mode.
    pub fn disable_aes_low_power(&mut self) -> (r: u32)
        ensures
            *final(self) == *old(self),
            r == 0,
    {
        0
    }

    /// The `LEA_IV_VLD` word that marks the AES IV valid.
    pub fn set_iv_valid(&mut self) -> (r: u32)
        ensures
            *final(self) == *old(self),
            r == 1,
    {
        1
    }

    /// The AES debug information, from `LEA_DFX_INFO`.
    pub fn read_aes_dfx(&self, dfx: u32) -> (r: u32)
        ensures
            r == dfx,
    {
        dfx
    }
}

/// Packing four bytes little-endian and reading them back gives the same
/// bytes: what a write command loads is what a read command returns.
pub proof fn law_le_round_trip(b0: u8, b1: u8, b2: u8, b3: u8)
    ensures
        ({
            let w = (b0 as u32) | ((b1 as u32) << 8u32) | ((b2 as u32) << 16u32) | ((b3 as u32) << 24u32);
            &&& le_byte(w, 0) == b0
            &&& le_byte(w, 1) == b1
            &&& le_byte(w, 2) == b2
            &&& le_byte(w, 3) == b3
        }),
{
    let x0 = b0 as u32;
    let x1 = b1 as u32;
    let x2 = b2 as u32;
    let x3 = b3 as u32;
    let w = x0 | (x1 << 8u32) | (x2 << 16u32) | (x3 << 24u32);
    assert(((w >> 0u32) & 0xFF) == x0 && ((w >> 8u32) & 0xFF) == x1 && ((w >> 16u32) & 0xFF) == x2 && ((w
        >> 24u32) & 0xFF) == x3) by (bit_vector)
        requires
            x0 < 256,
            x1 < 256,
            x2 < 256,
            x3 < 256,
            w == x0 | (x1 << 8u32) | (x2 << 16u32) | (x3 << 24u32),
    ;
}

/// The timing word sets nothing outside its three fields and never puts
/// tSHSL below its floor.
pub proof fn law_timing_fields(tshsl: u8, tcss: u8, tcsh: u8)
    ensures
        ({
            let v = timing_spec(tshsl, tcss, tcsh) as nat;
            &&& v % 256 >= MIN_TSHSL - 2
            &&& v % 256 < 16
            &&& (v / 256) % 16 == tcss % 8
            &&& v / 4096 == tcsh % 8
        }),
{
}

/// The read-data delay in half SPI clock cycles.
pub open spec fn read_delay_half_cycles(d: ReadDelay) -> nat {
    match d {
        ReadDelay::Delay0 => 0,
        ReadDelay::DelayHalf => 1,
        ReadDelay::Delay1 => 2,
        ReadDelay::Delay1_5 => 3,
    }
}

/// The read-delay field code counts the delay in half clock cycles, so a
/// longer delay has a larger code.
pub proof fn law_read_delay_half_cycles(a: ReadDelay, b: ReadDelay)
    ensures
        read_delay_code(a) == read_delay_half_cycles(a),
        read_delay_half_cycles(a) < read_delay_half_cycles(b) <==> read_delay_code(a) < read_delay_code(b),
{
}

} // verus!
