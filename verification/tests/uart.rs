use hisi_hal::dma::{ChannelClaims, Dma0, DmaDriver};
use hisi_hal::uart::{UartDmaAccess, UartDmaError, FIFO_CTL_BLOCKING_LEVELS};
use hisi_hal::uart::Uart2;
use hisi_hal::soc::UART_CLOCK_HZ;
use hisi_hal::uart::{
    baud_divisor, configure_uart, line_control, BaudRate, Config, DataBits, Parity, StopBits, Uart,
    UartClock, UartDivisor, UartPort, FIFO_CTL_DMA_LEVELS, FIFO_CTL_RESET,
};

fn min_baud() -> u32 {
    (UART_CLOCK_HZ / (16 * 65535)) + 1
}

fn baud_regs(baud: u32) -> (u16, u16, u16) {
    let d: UartDivisor = baud_divisor(UART_CLOCK_HZ, baud);
    (d.div_l, d.div_h, d.div_fra)
}

fn build_ctl(c: &Config) -> u16 {
    line_control(c)
}

#[test]
fn default_config_is_115200_8n1() {
    let c = Config::default();
    assert_eq!(c.baudrate, BaudRate::baud_115200());
    assert_eq!(c.baudrate.baud(), 115200);
    assert_eq!(c.data_bits, DataBits::Eight);
    assert_eq!(c.parity, Parity::Disabled);
    assert_eq!(c.stop_bits, StopBits::One);
}

#[test]
fn baud_rate_rejects_out_of_range() {
    assert!(BaudRate::try_new(0).is_none());
    assert!(BaudRate::try_new(min_baud() - 1).is_none());
    assert!(BaudRate::try_new(min_baud()).is_some());
    assert!(BaudRate::try_new(UART_CLOCK_HZ).is_none());
    assert!(BaudRate::try_new(UART_CLOCK_HZ / 16 + 1).is_none());
    for &b in &[300u32, 9600, 115200, 921600, 1_000_000] {
        assert!(BaudRate::try_new(b).is_some(), "baud {b} should be valid");
        assert_eq!(BaudRate::try_new(b).unwrap().baud(), b);
    }
}

#[test]
fn baud_115200_known_divisor() {
    let div64 = (UART_CLOCK_HZ as u64) * 4 / 115200;
    assert_eq!(div64, 5555);
    let (div_l, div_h, div_fra) = baud_regs(115200);
    assert_eq!(div_l, 0x56);
    assert_eq!(div_h, 0x00);
    assert_eq!(div_fra, 51);
}

#[test]
fn frac_field_is_six_bits() {
    for &baud in &[300u32, 9600, 115200, 921600, 1_000_000, 10_000_000] {
        let (_, _, frac) = baud_regs(baud);
        assert!(frac <= 0x3F, "baud {baud} -> frac {frac} exceeds 6 bits");
    }
}

#[test]
fn divider_bytes_fit_in_eight_bits() {
    for &baud in &[min_baud(), 1200, 115200, 3_000_000] {
        let (div_l, div_h, _) = baud_regs(baud);
        assert!(div_l <= 0xFF);
        assert!(div_h <= 0xFF);
    }
}

#[test]
fn min_baud_divider_fits_sixteen_bits() {
    assert!(BaudRate::try_new(min_baud()).is_some());
    let (l, h, _) = baud_regs(min_baud());
    let div = ((h as u32) << 8) | (l as u32);
    assert!(div <= 0xFFFF, "div {div} overflows 16-bit divider at min_baud");
    let div64 = ((UART_CLOCK_HZ as u64) * 4 / (min_baud() as u64)) as u32;
    assert_eq!(div, div64 >> 6);
}

#[test]
fn divisor_monotonic_in_baud() {
    let div_of = |baud: u32| -> u32 {
        let (l, h, _) = baud_regs(baud);
        ((h as u32) << 8) | (l as u32)
    };
    let mut prev = u32::MAX;
    for &baud in &[1200u32, 9600, 19200, 57600, 115200, 230400, 460800] {
        let d = div_of(baud);
        assert!(d <= prev, "baud {baud} div {d} not <= prev {prev}");
        prev = d;
    }
}

#[test]
fn data_bits_encoding() {
    assert_eq!(DataBits::Five.field(), 0 << 2);
    assert_eq!(DataBits::Six.field(), 1 << 2);
    assert_eq!(DataBits::Seven.field(), 2 << 2);
    assert_eq!(DataBits::Eight.field(), 3 << 2);
}

#[test]
fn parity_encoding() {
    assert_eq!(Parity::Disabled.field(), 0);
    assert_eq!(Parity::Odd.field(), 1 << 5);
    assert_eq!(Parity::Even.field(), (1 << 5) | (1 << 4));
    assert_ne!(Parity::Odd.field() & (1 << 5), 0);
    assert_ne!(Parity::Even.field() & (1 << 5), 0);
    assert_eq!(Parity::Disabled.field() & (1 << 5), 0);
}

#[test]
fn stop_bits_encoding() {
    let mut c = Config::default();
    c.stop_bits = StopBits::One;
    assert_eq!(build_ctl(&c) & (1 << 7), 0);
    c.stop_bits = StopBits::Two;
    assert_eq!(build_ctl(&c) & (1 << 7), 1 << 7);
}

#[test]
fn ctl_8n1_known_value() {
    assert_eq!(build_ctl(&Config::default()), 0x0C);
}

#[test]
fn ctl_7e2_known_value() {
    let c = Config {
        baudrate: BaudRate::try_new(9600).unwrap(),
        data_bits: DataBits::Seven,
        parity: Parity::Even,
        stop_bits: StopBits::Two,
        clock: UartClock::Pll,
    };
    assert_eq!(build_ctl(&c), (2 << 2) | (1 << 5) | (1 << 4) | (1 << 7));
    assert_eq!(build_ctl(&c), 0xB8);
}

#[test]
fn uart_port_index_round_trip() {
    for i in 0u8..3 {
        assert_eq!(UartPort::from_index(i).unwrap().index(), i as usize);
    }
    assert!(UartPort::from_index(3).is_none());
}

#[test]
fn configure_boot_clock_uses_40mhz_base() {
    let c = Config { clock: UartClock::Boot, ..Config::default() };
    let s = configure_uart(&c);
    // 40 MHz * 4 / 115200 = 1388 -> div 21 (0x15), frac 44.
    assert_eq!(s.divisor.div_l, 0x15);
    assert_eq!(s.divisor.div_h, 0);
    assert_eq!(s.divisor.div_fra, 44);
    assert_eq!(s.ctl_div_access, 1);
    assert_eq!(s.fifo_reset, FIFO_CTL_RESET);
    assert_eq!(s.fifo_levels, FIFO_CTL_DMA_LEVELS);
}

#[test]
fn uart_byte_io_decisions() {
    let u = Uart::new_uart1(Config::default());
    assert_eq!(u.port, UartPort::Uart1);
    assert_eq!(u.write_byte(0x1, b'A'), None);
    assert_eq!(u.write_byte(0x2, b'A'), Some(0x41));
    assert!(u.tx_flushed(0x2));
    assert!(!u.tx_flushed(0x1));
    assert_eq!(u.read_byte(0, || panic!("must not pop an empty FIFO")), None);
    assert_eq!(u.read_byte(3, || 0x1_5A), Some(0x5A));
    assert_eq!(u.write(&[1, 2, 255]), vec![1u16, 2, 255]);
}

#[test]
fn instance_types_select_their_port() {
    let u = Uart::new_instance::<Uart2>(Config::default());
    assert_eq!(u.port, UartPort::Uart2);
    assert_eq!(u.setup, Uart::new_uart2(Config::default()).setup);
}

#[test]
fn uart_dma_wait_restores_levels_then_tears_down() {
    let dma = DmaDriver::<Dma0>::new_dma();
    let mut claims = ChannelClaims::new();
    let chs = dma.split_channels(&mut claims).unwrap();
    let mut ud = Uart::new(UartPort::Uart1, Config::default()).with_dma(DmaDriver::<Dma0>::new_dma());
    let mut log: Vec<UartDmaAccess> = Vec::new();
    let r = ud.wait_dma(&chs.ch0, &mut |a| {
        log.push(a);
        0
    });
    assert_eq!(r, Ok(()));
    assert_eq!(log, vec![UartDmaAccess::EnChns, UartDmaAccess::WriteFifoCtl(FIFO_CTL_BLOCKING_LEVELS)]);
    let mut log: Vec<UartDmaAccess> = Vec::new();
    let r = ud.wait_dma(&chs.ch0, &mut |a| {
        if a != UartDmaAccess::EnChns {
            log.push(a);
        }
        match a {
            UartDmaAccess::EnChns => 1,
            UartDmaAccess::ReadConfig => 0x1,
            _ => 0,
        }
    });
    assert_eq!(r, Err(UartDmaError::Timeout));
    assert_eq!(
        log,
        vec![
            UartDmaAccess::WriteFifoCtl(FIFO_CTL_BLOCKING_LEVELS),
            UartDmaAccess::ReadConfig,
            UartDmaAccess::WriteConfig(0x1_0001),
            UartDmaAccess::ReadConfig,
            UartDmaAccess::WriteConfig(0),
        ]
    );
}
