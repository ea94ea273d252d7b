//! Brightness, carried exactly.

use vstd::prelude::*;

verus! {

/// A brightness, as the bit pattern of the double-precision number it is stored
/// as. Nothing here does arithmetic on one; it is only carried from the store to
/// the screen and compared.
#[derive(Clone, Copy, Debug, PartialEq, Eq, Structural)]
pub struct Brightness {
    pub bits: u64,
}

/// The sign bit of a double.
pub const SIGN_BIT: u64 = 0x8000_0000_0000_0000;

/// The bit pattern of infinity: every magnitude above it is not a number.
pub const INFINITY_BITS: u64 = 0x7ff0_0000_0000_0000;

/// The bit pattern of one.
pub const ONE_BITS: u64 = 0x3ff0_0000_0000_0000;

/// A bit pattern without its sign.
pub open spec fn magnitude(bits: u64) -> int {
    if bits >= SIGN_BIT {
        bits - SIGN_BIT
    } else {
        bits as int
    }
}

/// Whether two bit patterns are equal as numbers: nothing equals a pattern that
/// is not a number, and the two zeros equal each other.
pub open spec fn equal_as_numbers(a: u64, b: u64) -> bool {
    magnitude(a) <= INFINITY_BITS && magnitude(b) <= INFINITY_BITS && (a == b || (magnitude(a) == 0
        && magnitude(b) == 0))
}

impl Brightness {
    /// Full brightness, `1.0`.
    pub fn full() -> (brightness: Brightness)
        ensures
            brightness.bits == ONE_BITS,
    {
        Brightness { bits: ONE_BITS }
    }

    /// Whether two brightnesses are equal as numbers.
    pub fn equals(self, other: Brightness) -> (equal: bool)
        ensures
            equal == equal_as_numbers(self.bits, other.bits),
    {
        let a: u64 = if self.bits >= SIGN_BIT {
            self.bits - SIGN_BIT
        } else {
            self.bits
        };
        let b: u64 = if other.bits >= SIGN_BIT {
            other.bits - SIGN_BIT
        } else {
            other.bits
        };
        a <= INFINITY_BITS && b <= INFINITY_BITS && (self.bits == other.bits || (a == 0 && b == 0))
    }
}

} // verus!
