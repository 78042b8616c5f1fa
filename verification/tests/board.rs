use pimoroni_pico_explorer::adc::{adc_fraction, ADC_FULL_SCALE};
use pimoroni_pico_explorer::buttons::{Button, ButtonLevels, PinLevel};
use pimoroni_pico_explorer::delay::delay_ns_to_us;
use pimoroni_pico_explorer::display::{spi_clocks, DISPLAY_HEIGHT, DISPLAY_WIDTH, SPI_BUFFER_LEN};
use pimoroni_pico_explorer::{Motor, XOSC_CRYSTAL_FREQ};

fn levels(a: PinLevel, b: PinLevel, x: PinLevel, y: PinLevel) -> ButtonLevels {
    ButtonLevels { a, b, x, y }
}

#[test]
fn released_switches_read_high_and_not_pressed() {
    let l = levels(PinLevel::High, PinLevel::High, PinLevel::High, PinLevel::High);
    for b in [Button::A, Button::B, Button::X, Button::Y] {
        assert!(!l.is_pressed(b));
    }
}

#[test]
fn pressed_switch_reads_low() {
    let l = levels(PinLevel::High, PinLevel::Low, PinLevel::High, PinLevel::High);
    assert!(!l.is_pressed(Button::A));
    assert!(l.is_pressed(Button::B));
    assert!(!l.is_pressed(Button::X));
    assert!(!l.is_pressed(Button::Y));
}

#[test]
fn each_button_reads_its_own_pin() {
    assert!(levels(PinLevel::Low, PinLevel::High, PinLevel::High, PinLevel::High).is_pressed(Button::A));
    assert!(levels(PinLevel::High, PinLevel::High, PinLevel::Low, PinLevel::High).is_pressed(Button::X));
    assert!(levels(PinLevel::High, PinLevel::High, PinLevel::High, PinLevel::Low).is_pressed(Button::Y));
    let l = levels(PinLevel::High, PinLevel::Low, PinLevel::Low, PinLevel::Low);
    assert!(!l.is_pressed(Button::A));
    assert_eq!(l.level(Button::A), PinLevel::High);
    assert_eq!(l.level(Button::Y), PinLevel::Low);
}

#[test]
fn pressed_state_of_one_button_ignores_the_others() {
    let before = levels(PinLevel::Low, PinLevel::High, PinLevel::High, PinLevel::High);
    let after = levels(PinLevel::Low, PinLevel::Low, PinLevel::Low, PinLevel::Low);
    assert_eq!(before.is_pressed(Button::A), after.is_pressed(Button::A));
}

#[test]
fn pin_level_from_is_low() {
    assert_eq!(PinLevel::from_is_low(true), PinLevel::Low);
    assert_eq!(PinLevel::from_is_low(false), PinLevel::High);
}

#[test]
fn adc_twelve_bit_samples_are_exact() {
    assert_eq!(ADC_FULL_SCALE, 4096);
    assert_eq!(adc_fraction(0), 0);
    assert_eq!(adc_fraction(1), 1);
    assert_eq!(adc_fraction(2048), 2048);
    assert_eq!(adc_fraction(4095), 4095);
}

#[test]
fn adc_values_above_full_scale_clamp_to_one() {
    assert_eq!(adc_fraction(4096), 4096);
    assert_eq!(adc_fraction(4097), 4096);
    assert_eq!(adc_fraction(u16::MAX), 4096);
}

#[test]
fn adc_fraction_as_float_matches_original_scaling() {
    for raw in [0u16, 1, 100, 2048, 4095, 4096, 5000, u16::MAX] {
        let expected = (f32::from(raw) / f32::from(1u16 << 12)).clamp(0.0, 1.0);
        let got = f32::from(adc_fraction(raw)) / f32::from(ADC_FULL_SCALE);
        assert_eq!(got, expected);
    }
}

#[test]
fn adc_is_monotonic() {
    let mut prev = 0u16;
    for raw in (0u16..=5000).step_by(7) {
        let v = adc_fraction(raw);
        assert!(v >= prev);
        prev = v;
    }
}

#[test]
fn delay_rounds_up_to_whole_microseconds() {
    assert_eq!(delay_ns_to_us(0), 0);
    assert_eq!(delay_ns_to_us(1), 1);
    assert_eq!(delay_ns_to_us(999), 1);
    assert_eq!(delay_ns_to_us(1000), 1);
    assert_eq!(delay_ns_to_us(1001), 2);
    assert_eq!(delay_ns_to_us(2500), 3);
    assert_eq!(delay_ns_to_us(u32::MAX), 4_294_968);
}

#[test]
fn delay_whole_microseconds_are_kept() {
    for k in [0u32, 1, 7, 1000, 4_294_967] {
        assert_eq!(delay_ns_to_us(k * 1000), k);
    }
}

#[test]
fn delay_never_shorter_and_least() {
    for ns in [0u32, 1, 500, 999, 1000, 1001, 123_456, u32::MAX - 1, u32::MAX] {
        let us = delay_ns_to_us(ns) as u64;
        assert!(us * 1000 >= ns as u64);
        assert!(us == 0 || (us - 1) * 1000 < ns as u64);
    }
}

#[test]
fn spi_clocks_are_in_hertz() {
    let c = spi_clocks();
    assert_eq!(c.peripheral_hz, 125_000_000);
    assert_eq!(c.baudrate_hz, 16_000_000);
}

#[test]
fn board_constants() {
    assert_eq!(XOSC_CRYSTAL_FREQ, 12_000_000);
    assert_eq!(DISPLAY_WIDTH, 240);
    assert_eq!(DISPLAY_HEIGHT, 240);
    assert_eq!(SPI_BUFFER_LEN, 1024);
    assert_ne!(Motor::_1, Motor::_2);
}
