//! Frequency and bit-rate value types.
//!
//! Every frequency in the clock tree is carried as a [`Hertz`] value, a
//! unit-tagged 32-bit hertz count. [`Bps`] tags baud-rate style bit rates
//! for the serial consumers of the resolved clocks.

use core::cmp::Ordering;
use vstd::prelude::*;

verus! {

/// A frequency in hertz.
///
/// Ordering and equality are defined on the raw hertz count.
#[derive(Clone, Copy, Debug, PartialEq, Eq, Structural)]
pub struct Hertz(pub u32);

impl PartialOrd for Hertz {
    fn partial_cmp(&self, other: &Hertz) -> (r: Option<Ordering>) {
        if self.0 < other.0 {
            Some(Ordering::Less)
        } else if self.0 == other.0 {
            Some(Ordering::Equal)
        } else {
            Some(Ordering::Greater)
        }
    }
}

impl vstd::std_specs::cmp::PartialOrdSpecImpl for Hertz {
    open spec fn obeys_partial_cmp_spec() -> bool {
        true
    }

    open spec fn partial_cmp_spec(&self, other: &Hertz) -> Option<Ordering> {
        if self.0 < other.0 {
            Some(Ordering::Less)
        } else if self.0 == other.0 {
            Some(Ordering::Equal)
        } else {
            Some(Ordering::Greater)
        }
    }
}

/// A bit rate in bits per second.
#[derive(Clone, Copy, Debug, PartialEq, Eq, Structural)]
pub struct Bps(pub u32);

/// Convenience constructors turning raw integers into tagged frequency and
/// bit-rate values.
pub trait U32Ext {
    /// The raw integer the tagged value is built from.
    spec fn raw(self) -> int;

    /// Wrap as a frequency in hertz.
    fn hz(self) -> (r: Hertz)
        ensures
            r.0 == self.raw(),
    ;

    /// Wrap as a frequency in kilohertz.
    fn khz(self) -> (r: Hertz)
        requires
            self.raw() * 1_000 <= u32::MAX,
        ensures
            r.0 == self.raw() * 1_000,
    ;

    /// Wrap as a frequency in megahertz.
    fn mhz(self) -> (r: Hertz)
        requires
            self.raw() * 1_000_000 <= u32::MAX,
        ensures
            r.0 == self.raw() * 1_000_000,
    ;

    /// Wrap as a bit rate in bits per second.
    fn bps(self) -> (r: Bps)
        ensures
            r.0 == self.raw(),
    ;
}

impl U32Ext for u32 {
    open spec fn raw(self) -> int {
        self as int
    }

    fn hz(self) -> (r: Hertz) {
        Hertz(self)
    }

    fn khz(self) -> (r: Hertz) {
        Hertz(self * 1_000)
    }

    fn mhz(self) -> (r: Hertz) {
        Hertz(self * 1_000_000)
    }

    fn bps(self) -> (r: Bps) {
        Bps(self)
    }
}

} // verus!
