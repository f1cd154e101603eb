//! System clock detection and the decisions of the clock-tree bring-up.
//!
//! The bring-up writes CLDO_CRG / CMU registers; this module computes what is
//! written (the clock-select and gate words, the busy-wait counts) and what the
//! resulting clock configuration is.
use vstd::prelude::*;
use crate::soc::SYSTEM_CLOCK_HZ;
use crate::poll::PollBudget;

verus! {

/// TCXO crystal frequency.
#[derive(Debug, Clone, Copy, PartialEq, Eq, Structural)]
pub enum TcxoFreq {
    /// 24 MHz crystal.
    MHz24,
    /// 40 MHz crystal.
    MHz40,
}

/// Frequency of a crystal in hertz.
pub open spec fn tcxo_hz(f: TcxoFreq) -> u32 {
    match f {
        TcxoFreq::MHz24 => 24_000_000u32,
        TcxoFreq::MHz40 => 40_000_000u32,
    }
}

impl TcxoFreq {
    /// The crystal from the `HW_CTL.refclk_freq_status` bit: clear means a
    /// 40 MHz crystal, set means 24 MHz.
    pub fn detect(refclk_freq_status: bool) -> (f: Self)
        ensures
            f == (if refclk_freq_status { TcxoFreq::MHz24 } else { TcxoFreq::MHz40 }),
    {
        if !refclk_freq_status {
            TcxoFreq::MHz40
        } else {
            TcxoFreq::MHz24
        }
    }

    /// The frequency in hertz.
    pub fn hz(&self) -> (r: u32)
        ensures
            r == tcxo_hz(*self),
    {
        match self {
            TcxoFreq::MHz24 => 24_000_000,
            TcxoFreq::MHz40 => 40_000_000,
        }
    }
}

/// Result of the PLL lock check.
#[derive(Debug, Clone, Copy, PartialEq, Eq, Structural)]
pub enum PllStatus {
    /// PLL is locked and stable.
    Locked,
    /// PLL is unlocked; the system runs from the TCXO.
    Unlocked,
}

/// System clock configuration.
#[derive(Debug, Clone, Copy)]
pub struct SystemClocks {
    /// CPU clock.
    pub cpu_clk: u32,
    /// Peripheral bus clock.
    pub pclk: u32,
    /// TCXO crystal frequency.
    pub tcxo_freq: TcxoFreq,
    /// Whether the PLL is locked.
    pub pll_locked: bool,
}

/// The clock the CPU and bus run at: the PLL output when it is locked, the
/// crystal otherwise.
pub open spec fn resolved_clk(pll_locked: bool, tcxo: TcxoFreq) -> u32 {
    if pll_locked { SYSTEM_CLOCK_HZ } else { tcxo_hz(tcxo) }
}

/// The clock configuration for a crystal and a PLL lock state.
pub open spec fn clocks_for(tcxo: TcxoFreq, pll_locked: bool) -> SystemClocks {
    SystemClocks {
        cpu_clk: resolved_clk(pll_locked, tcxo),
        pclk: resolved_clk(pll_locked, tcxo),
        tcxo_freq: tcxo,
        pll_locked,
    }
}

impl SystemClocks {
    /// The clocks the boot ROM is assumed to have set up: PLL locked at
    /// 240 MHz, 40 MHz crystal.
    pub fn assumed() -> (c: Self)
        ensures
            c == (SystemClocks {
                cpu_clk: SYSTEM_CLOCK_HZ,
                pclk: SYSTEM_CLOCK_HZ,
                tcxo_freq: TcxoFreq::MHz40,
                pll_locked: true,
            }),
    {
        SystemClocks {
            cpu_clk: SYSTEM_CLOCK_HZ,
            pclk: SYSTEM_CLOCK_HZ,
            tcxo_freq: TcxoFreq::MHz40,
            pll_locked: true,
        }
    }
}

fn resolve(pll_locked: bool, tcxo: TcxoFreq) -> (r: u32)
    ensures
        r == resolved_clk(pll_locked, tcxo),
{
    if pll_locked {
        SYSTEM_CLOCK_HZ
    } else {
        tcxo.hz()
    }
}

/// Detect the clocks without changing them: the crystal from the
/// `HW_CTL.refclk_freq_status` bit and the PLL from `REG_EXCEP_RO_RG` bit 12.
pub fn probe_clocks(refclk_freq_status: bool, fnpll_locked: bool) -> (c: SystemClocks)
    ensures
        c == clocks_for(TcxoFreq::detect_spec(refclk_freq_status), fnpll_locked),
{
    let tcxo_freq = TcxoFreq::detect(refclk_freq_status);
    SystemClocks {
        cpu_clk: resolve(fnpll_locked, tcxo_freq),
        pclk: resolve(fnpll_locked, tcxo_freq),
        tcxo_freq,
        pll_locked: fnpll_locked,
    }
}

impl TcxoFreq {
    /// The crystal that a `refclk_freq_status` bit stands for.
    pub open spec fn detect_spec(refclk_freq_status: bool) -> TcxoFreq {
        if refclk_freq_status { TcxoFreq::MHz24 } else { TcxoFreq::MHz40 }
    }
}

/// The clock configuration after the full bring-up, from the crystal and the
/// outcome of the PLL lock wait.
pub fn init_clocks(tcxo_freq: TcxoFreq, pll: PllStatus) -> (c: SystemClocks)
    ensures
        c == clocks_for(tcxo_freq, pll == PllStatus::Locked),
{
    let pll_locked = match pll {
        PllStatus::Locked => true,
        PllStatus::Unlocked => false,
    };
    SystemClocks {
        cpu_clk: resolve(pll_locked, tcxo_freq),
        pclk: resolve(pll_locked, tcxo_freq),
        tcxo_freq,
        pll_locked,
    }
}

/// `CLDO_CRG_CLK_SEL` bit that switches the flash controller to the PLL.
pub const CLK_SEL_FLASH: u32 = 0x4_0000;
/// `CLDO_CRG_CLK_SEL` bits that switch UART0/1/2 to the PLL.
pub const CLK_SEL_UART: u32 = 0b1110;
/// `CLDO_CRG_CLK_SEL` bit that switches the SPI clock to the PLL.
pub const CLK_SEL_SPI: u32 = 0x40;
/// `CKEN_CTL1` UART clock-gate field (bits 18..=20).
pub const UART_CKEN_FIELD: u32 = 0x1C_0000;

/// The `CLDO_CRG_CLK_SEL` word after the bring-up switched flash, UART0/1/2
/// and SPI to the PLL, from the word before it.
pub fn clk_sel_word(init: u32) -> (r: u32)
    ensures
        r == init | CLK_SEL_FLASH | CLK_SEL_UART | CLK_SEL_SPI,
{
    let mut sel = init;
    sel = sel | CLK_SEL_FLASH;
    sel = sel | CLK_SEL_UART;
    sel = sel | CLK_SEL_SPI;
    sel
}

/// The `CKEN_CTL1` word with the UART gates closed (before the source switch).
pub fn uart_gates_closed(cken_ctl1: u32) -> (r: u32)
    ensures
        r == cken_ctl1 & !UART_CKEN_FIELD,
{
    cken_ctl1 & !UART_CKEN_FIELD
}

/// The `CKEN_CTL1` word with the UART gates open again (after the switch).
pub fn uart_gates_open(cken_ctl1: u32) -> (r: u32)
    ensures
        r == cken_ctl1 | UART_CKEN_FIELD,
{
    cken_ctl1 | UART_CKEN_FIELD
}

/// Busy-wait iterations for the ~1 µs settle after releasing the flash
/// divider reset: `tcxo / 1 MHz / 3`.
pub fn flash_delay_iters(tcxo: TcxoFreq) -> (r: u32)
    ensures
        r == tcxo_hz(tcxo) / 1_000_000 / 3,
{
    tcxo.hz() / 1_000_000 / 3
}

/// Busy-wait iterations between PLL lock polls: `tcxo * delay_us / 1e6 / 3`.
pub fn pll_wait_cycles(tcxo_hz: u32, delay_us: u32) -> (r: u64)
    ensures
        r == (tcxo_hz as nat * delay_us as nat) / 1_000_000 / 3,
{
    assert(tcxo_hz as u64 * delay_us as u64 <= u64::MAX) by (nonlinear_arith)
        requires tcxo_hz <= u32::MAX, delay_us <= u32::MAX;
    let cycles = tcxo_hz as u64 * delay_us as u64 / 1_000_000;
    cycles / 3
}

/// What to do after one look at the PLL lock bit.
#[derive(Debug, Clone, Copy, PartialEq, Eq, Structural)]
pub enum PllWaitStep {
    /// The PLL is locked.
    Locked,
    /// Not locked yet: spin this many iterations, then look again.
    Delay(u64),
    /// Not locked after every retry.
    Unlocked,
}

/// The PLL lock wait: up to `retry_count` looks at the lock bit, with a
/// `retry_delay_us` busy-wait after each look that finds it unlocked.
pub struct PllLockWait {
    budget: PollBudget,
    retry_delay_us: u32,
}

impl PllLockWait {
    /// Invariant of the wait.
    pub closed spec fn wf(&self) -> bool {
        self.budget.wf()
    }

    /// Looks left before giving up.
    pub closed spec fn looks_left(&self) -> nat {
        (self.budget.limit_spec() - self.budget.used_spec()) as nat
    }

    /// The delay between looks, in microseconds.
    pub closed spec fn delay_spec(&self) -> u32 {
        self.retry_delay_us
    }

    /// Start a wait of `retry_count` looks (the bring-up uses 30 looks with
    /// 1000 µs between them).
    pub fn new(retry_count: u32, retry_delay_us: u32) -> (w: Self)
        ensures
            w.wf(),
            w.looks_left() == retry_count,
            w.delay_spec() == retry_delay_us,
    {
        PllLockWait { budget: PollBudget::new(retry_count), retry_delay_us }
    }

    /// Whether any look is left; a wait of zero looks answers `Unlocked`
    /// without looking.
    pub fn has_looks_left(&self) -> (r: bool)
        requires
            self.wf(),
        ensures
            r == (self.looks_left() > 0),
    {
        !self.budget.is_exhausted()
    }

    /// Record one look: `locked` is the lock bit, `tcxo` the crystal detected
    /// now (the delay is counted at the crystal rate).
    pub fn observe(&mut self, locked: bool, tcxo: TcxoFreq) -> (step: PllWaitStep)
        requires
            old(self).wf(),
            old(self).looks_left() > 0,
        ensures
            final(self).wf(),
            final(self).delay_spec() == old(self).delay_spec(),
            locked ==> step == PllWaitStep::Locked,
            !locked ==> final(self).looks_left() == old(self).looks_left() - 1,
            !locked && old(self).looks_left() == 1 ==> step == PllWaitStep::Unlocked,
            !locked && old(self).looks_left() > 1 ==> step == PllWaitStep::Delay(
                ((tcxo_hz(tcxo) as nat * old(self).delay_spec() as nat) / 1_000_000 / 3) as u64,
            ),
    {
        match self.budget.observe(locked) {
            crate::poll::PollStep::Ready => PllWaitStep::Locked,
            crate::poll::PollStep::Exhausted => PllWaitStep::Unlocked,
            crate::poll::PollStep::Retry => PllWaitStep::Delay(pll_wait_cycles(tcxo.hz(), self.retry_delay_us)),
        }
    }
}

/// The resolved CPU / bus clock is the PLL output when locked and the crystal
/// (24 or 40 MHz) otherwise.
pub proof fn law_resolved_clock(pll_locked: bool, tcxo: TcxoFreq)
    ensures
        pll_locked ==> resolved_clk(pll_locked, tcxo) == 240_000_000,
        !pll_locked ==> resolved_clk(pll_locked, tcxo) == 24_000_000 || resolved_clk(
            pll_locked,
            tcxo,
        ) == 40_000_000,
{
}

/// The clock-select word sets exactly the documented bits (1, 2, 3, 6, 18)
/// and keeps every other bit of the previous word.
pub proof fn law_clk_sel_only_documented_bits(init: u32)
    ensures
        (init | CLK_SEL_FLASH | CLK_SEL_UART | CLK_SEL_SPI) & 0x4004E == 0x4004E,
        (init | CLK_SEL_FLASH | CLK_SEL_UART | CLK_SEL_SPI) & !0x4004Eu32 == init & !0x4004Eu32,
        (init | CLK_SEL_FLASH | CLK_SEL_UART | CLK_SEL_SPI) & init == init,
{
    lemma_clk_sel_mask(init);
    crate::bits::lemma_mask_set_clear(init, 0x4004E);
}

proof fn lemma_clk_sel_mask(a: u32)
    by (bit_vector)
    ensures
        a | 0x4_0000u32 | 0b1110u32 | 0x40u32 == a | 0x4004Eu32,
{
}

/// Closing then reopening the UART gates leaves the gates open and every
/// other bit of `CKEN_CTL1` as it was.
pub proof fn law_uart_gate_round_trip(init: u32)
    ensures
        (init & !UART_CKEN_FIELD | UART_CKEN_FIELD) & UART_CKEN_FIELD == UART_CKEN_FIELD,
        (init & !UART_CKEN_FIELD | UART_CKEN_FIELD) & !UART_CKEN_FIELD == init & !UART_CKEN_FIELD,
{
    crate::bits::lemma_mask_set_clear(init, UART_CKEN_FIELD);
    crate::bits::lemma_mask_set_clear(init & !UART_CKEN_FIELD, UART_CKEN_FIELD);
}

/// A longer delay between PLL polls never spins fewer iterations.
pub proof fn law_pll_wait_monotonic(tcxo: nat, lo: nat, hi: nat)
    requires
        lo <= hi,
    ensures
        (tcxo * lo) / 1_000_000 / 3 <= (tcxo * hi) / 1_000_000 / 3,
{
    assert(tcxo * lo <= tcxo * hi) by (nonlinear_arith)
        requires lo <= hi;
    vstd::arithmetic::div_mod::lemma_div_is_ordered((tcxo * lo) as int, (tcxo * hi) as int, 1_000_000);
    vstd::arithmetic::div_mod::lemma_div_is_ordered(
        ((tcxo * lo) / 1_000_000) as int,
        ((tcxo * hi) / 1_000_000) as int,
        3,
    );
}

} // verus!
