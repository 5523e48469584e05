//! Behaviour of the value-level peripheral vocabulary: frequency
//! constructors, serial frame configuration, and GPIO drive strengths.

use ht32_hal::gpio::GpioCurrent;
use ht32_hal::serial::{Config, Parity, StopBits, WordLength};
use ht32_hal::time::{Bps, Hertz, U32Ext};

#[test]
fn frequency_constructors_scale_correctly() {
    assert_eq!(8u32.hz(), Hertz(8));
    assert_eq!(32u32.khz(), Hertz(32_000));
    assert_eq!(8u32.mhz(), Hertz(8_000_000));
    assert_eq!(9600u32.bps(), Bps(9600));
}

#[test]
fn frequencies_are_equal_by_value() {
    assert_eq!(Hertz(32_000), 32u32.khz());
    assert_ne!(Hertz(32_000), Hertz(32_001));
}

#[test]
fn frequencies_are_ordered_by_value() {
    assert!(Hertz(32_000) < Hertz(8_000_000));
    assert!(Hertz(48_000_000) > Hertz(24_000_000));
    assert!(Hertz(9_600) <= Hertz(9_600));
    assert!(Hertz(9_600) >= Hertz(9_600));
}

#[test]
fn serial_config_default_frame() {
    let c = Config::default();
    assert_eq!(c.baudrate, Bps(9600));
    assert!(matches!(c.wordlength, WordLength::DataBits8));
    assert!(matches!(c.parity, Parity::ParityNone));
    assert!(matches!(c.stopbits, StopBits::STOP1));
}

#[test]
fn serial_config_setters_chain() {
    let c = Config::default()
        .baudrate(115_200u32.bps())
        .parity_even()
        .wordlength_9()
        .stopbits(StopBits::STOP2);
    assert_eq!(c.baudrate, Bps(115_200));
    assert!(matches!(c.parity, Parity::ParityEven));
    assert!(matches!(c.wordlength, WordLength::DataBits9));
    assert!(matches!(c.stopbits, StopBits::STOP2));
}

#[test]
fn serial_config_parity_and_wordlength_variants() {
    let c = Config::default().parity_odd().wordlength_7();
    assert!(matches!(c.parity, Parity::ParityOdd));
    assert!(matches!(c.wordlength, WordLength::DataBits7));
    let c = c.parity_none().wordlength_8();
    assert!(matches!(c.parity, Parity::ParityNone));
    assert!(matches!(c.wordlength, WordLength::DataBits8));
}

#[test]
fn gpio_drive_currents_encode() {
    assert_eq!(GpioCurrent::MA4.to_bits(), 0b00);
    assert_eq!(GpioCurrent::MA8.to_bits(), 0b01);
    assert_eq!(GpioCurrent::MA12.to_bits(), 0b10);
    assert_eq!(GpioCurrent::MA16.to_bits(), 0b11);
}
