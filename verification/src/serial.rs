//! Serial bus UART and USART configuration.
//!
//! The serial drivers themselves consume the resolved clock tree to
//! program their peripherals; what lives here is the value-level
//! configuration they are handed: frame parameters accumulated through a
//! chainable builder, and the errors and events the ports report.

use vstd::prelude::*;

use crate::time::Bps;

verus! {

/// Errors a serial transfer can raise.
#[derive(Debug)]
#[non_exhaustive]
pub enum Error {
    Framing,
    Parity,
    Overrun,
}

/// Interrupt events a serial port can listen for.
#[derive(Debug)]
pub enum Event {
    FramingError,
    ParityError,
    OverrunError,
    TransmitComplete,
    TransmitRegisterEmpty,
    ReceiveDataReady,
}

/// Word length of one serial frame.
pub enum WordLength {
    /// 1 word = 7 bit
    DataBits7,
    /// 1 word = 8 bit
    DataBits8,
    /// 1 word = 9 bit
    DataBits9,
}

/// Parity of a serial frame.
pub enum Parity {
    /// No parity bit
    ParityNone,
    /// Even parity bit
    ParityEven,
    /// Odd parity bit
    ParityOdd,
}

/// Number of stop bits of a serial frame.
pub enum StopBits {
    /// 1 stop bit
    STOP1,
    /// 2 stop bits
    STOP2,
}

/// Serial port frame configuration, accumulated through chainable setters.
pub struct Config {
    pub baudrate: Bps,
    pub wordlength: WordLength,
    pub parity: Parity,
    pub stopbits: StopBits,
}

impl Config {
    /// Set the baud rate.
    pub fn baudrate(self, baudrate: Bps) -> (r: Self)
        ensures
            r == (Config { baudrate, ..self }),
    {
        Config { baudrate, ..self }
    }

    /// Disable the parity bit.
    pub fn parity_none(self) -> (r: Self)
        ensures
            r == (Config { parity: Parity::ParityNone, ..self }),
    {
        Config { parity: Parity::ParityNone, ..self }
    }

    /// Enable even parity.
    pub fn parity_even(self) -> (r: Self)
        ensures
            r == (Config { parity: Parity::ParityEven, ..self }),
    {
        Config { parity: Parity::ParityEven, ..self }
    }

    /// Enable odd parity.
    pub fn parity_odd(self) -> (r: Self)
        ensures
            r == (Config { parity: Parity::ParityOdd, ..self }),
    {
        Config { parity: Parity::ParityOdd, ..self }
    }

    /// Use words of 7 bits.
    pub fn wordlength_7(self) -> (r: Self)
        ensures
            r == (Config { wordlength: WordLength::DataBits7, ..self }),
    {
        Config { wordlength: WordLength::DataBits7, ..self }
    }

    /// Use words of 8 bits.
    pub fn wordlength_8(self) -> (r: Self)
        ensures
            r == (Config { wordlength: WordLength::DataBits8, ..self }),
    {
        Config { wordlength: WordLength::DataBits8, ..self }
    }

    /// Use words of 9 bits.
    pub fn wordlength_9(self) -> (r: Self)
        ensures
            r == (Config { wordlength: WordLength::DataBits9, ..self }),
    {
        Config { wordlength: WordLength::DataBits9, ..self }
    }

    /// Set the number of stop bits.
    pub fn stopbits(self, stopbits: StopBits) -> (r: Self)
        ensures
            r == (Config { stopbits, ..self }),
    {
        Config { stopbits, ..self }
    }
}

impl Default for Config {
    /// 9600 baud, 8 data bits, no parity, 1 stop bit.
    fn default() -> (r: Config)
        ensures
            r.baudrate.0 == 9600,
            r.wordlength is DataBits8,
            r.parity is ParityNone,
            r.stopbits is STOP1,
    {
        Config {
            baudrate: Bps(9600),
            wordlength: WordLength::DataBits8,
            parity: Parity::ParityNone,
            stopbits: StopBits::STOP1,
        }
    }
}

/// Rejections of a serial configuration.
#[derive(Debug)]
pub enum InvalidConfig {
    /// The word length in the configuration does not match the word width
    /// the port transfers.
    WordLengthMismatch,
}

} // verus!
