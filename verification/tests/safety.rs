use hisi_hal::safety::{GpioPinIndex, PeripheralIndex, MAX_SAFE_TIMER_US};
use hisi_hal::soc as chip;

#[test]
fn test_peripheral_index_bounds() {
    assert!(PeripheralIndex::try_from(0).is_ok());
    assert!(PeripheralIndex::try_from(16).is_ok());
    assert!(PeripheralIndex::try_from(17).is_err());
    assert_eq!(PeripheralIndex::try_from(9).unwrap().get(), 9);
    assert_eq!(PeripheralIndex::new_unchecked(4).get(), 4);
}

#[test]
fn test_gpio_pin_bounds() {
    assert!(GpioPinIndex::new(0).is_some());
    assert!(GpioPinIndex::new(18).is_some());
    assert!(GpioPinIndex::new(19).is_none());
    assert_eq!(GpioPinIndex::new(7).unwrap().get(), 7);
}

#[test]
fn test_soc_constants_consistency() {
    assert_eq!(chip::SYSTEM_CLOCK_HZ, 240_000_000);
    assert_eq!(chip::TIMER_COUNT, 3);
    assert_eq!(chip::PWM_CHANNEL_COUNT, 8);
    assert_eq!(chip::DMA_CHANNEL_COUNT, 4);
    assert_eq!(chip::SPI_COUNT, 2);
    assert_eq!(chip::UART_COUNT, 3);
    assert_eq!(chip::I2C_COUNT, 2);
    assert_eq!(chip::GPIO_COUNT, 19);
    assert_eq!(chip::ULP_GPIO_COUNT, 8);
    assert_eq!(chip::LSADC_CHANNEL_COUNT, 6);
}

#[test]
fn test_max_safe_timer_us() {
    let ticks_per_us = chip::TIMER_CLOCK_HZ as u64 / 1_000_000;
    let max_safe: u64 = u32::MAX as u64 / ticks_per_us;
    assert!(max_safe > 17_000_000);
    let overflow: u64 = chip::TIMER_CLOCK_HZ as u64 * (max_safe + 1) / 1_000_000;
    assert!(overflow > u32::MAX as u64);
    assert_eq!(MAX_SAFE_TIMER_US, max_safe);
}

#[test]
fn test_pwm_channel_count_fits_u8() {
    assert!(chip::PWM_CHANNEL_COUNT <= 8);
}

#[test]
fn test_dma_channel_bound_check() {
    assert!(chip::DMA_CHANNEL_COUNT == 4);
    for ch in 0u8..4 {
        assert!(ch < chip::DMA_CHANNEL_COUNT as u8);
    }
    assert!(4u8 >= chip::DMA_CHANNEL_COUNT as u8);
}
