//! General purpose input / output type states.
//!
//! The pin drivers themselves program hardware registers; what lives here
//! is the vocabulary they share: the type-state markers that encode a
//! pin's mode and alternate function at compile time, and the drive
//! current strengths with their register encoding.

use core::marker::PhantomData;
use vstd::prelude::*;

verus! {

/// Extension trait to split a GPIO peripheral in independent pins and
/// registers.
pub trait GpioExt {
    /// The parts to split the GPIO into.
    type Parts;

    /// Splits the GPIO block into independent pins and registers.
    fn split(self) -> Self::Parts;
}

/// Output mode (type state).
/// `MODE` describes the output type.
pub struct Output<MODE> {
    _mode: PhantomData<MODE>,
}

/// Open drain output (type state).
pub struct OpenDrain;

/// Push pull output (type state).
pub struct PushPull;

/// Input mode (type state).
/// `MODE` describes the input type.
pub struct Input<MODE> {
    _mode: PhantomData<MODE>,
}

/// Pulled up input (type state).
pub struct PullUp;

/// Pulled down input (type state).
pub struct PullDown;

/// Floating input (type state).
pub struct Floating;

/// Disabled input (type state).
/// These chips allow a pin to be configured as input without actually
/// reading any data.
pub struct Disabled;

/// Alternate function 0 (type state).
pub struct AF0;

/// Alternate function 1 (type state).
pub struct AF1;

/// Alternate function 2 (type state).
pub struct AF2;

/// Alternate function 3 (type state).
pub struct AF3;

/// Alternate function 4 (type state).
pub struct AF4;

/// Alternate function 5 (type state).
pub struct AF5;

/// Alternate function 6 (type state).
pub struct AF6;

/// Alternate function 7 (type state).
pub struct AF7;

/// Alternate function 8 (type state).
pub struct AF8;

/// Alternate function 9 (type state).
pub struct AF9;

/// Alternate function 10 (type state).
pub struct AF10;

/// Alternate function 11 (type state).
pub struct AF11;

/// Alternate function 12 (type state).
pub struct AF12;

/// Alternate function 13 (type state).
pub struct AF13;

/// Alternate function 14 (type state).
pub struct AF14;

/// Alternate function 15 (type state).
pub struct AF15;

/// The four drive current strengths that can be used for output pins.
#[derive(Copy, Clone, Debug)]
pub enum GpioCurrent {
    MA4,
    MA8,
    MA12,
    MA16,
}

impl GpioCurrent {
    /// The 2-bit register encoding of this drive strength.
    pub open spec fn spec_bits(self) -> u8 {
        match self {
            GpioCurrent::MA4 => 0b00,
            GpioCurrent::MA8 => 0b01,
            GpioCurrent::MA12 => 0b10,
            GpioCurrent::MA16 => 0b11,
        }
    }

    /// Encode this drive strength for the drive current register field.
    pub fn to_bits(&self) -> (r: u8)
        ensures
            r == self.spec_bits(),
    {
        match self {
            GpioCurrent::MA4 => 0b00,
            GpioCurrent::MA8 => 0b01,
            GpioCurrent::MA12 => 0b10,
            GpioCurrent::MA16 => 0b11,
        }
    }
}

} // verus!
