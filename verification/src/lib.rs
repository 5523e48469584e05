//! Hardware abstraction layer for the HT32F52342 microcontroller family,
//! centred on its clock control unit: a declarative clock-tree configuration
//! is resolved against the chip's oscillator and divider constraints and
//! turned into an ordered register-programming plan.

pub mod ckcu;
pub mod gpio;
pub mod serial;
pub mod time;
