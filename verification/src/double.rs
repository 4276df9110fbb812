//! Double precision numbers, held by their bit patterns.

use vstd::prelude::*;

verus! {

/// A double precision number, by its IEEE 754 bit pattern.
#[derive(Debug, Clone, Copy, PartialEq, Eq, Structural)]
pub struct Double {
    pub bits: u64,
}

/// The bit pattern of 0.
pub const ZERO_BITS: u64 = 0;

/// The bit pattern of 0.5.
pub const HALF_BITS: u64 = 0x3fe0_0000_0000_0000;

/// The bit pattern of 1.
pub const ONE_BITS: u64 = 0x3ff0_0000_0000_0000;

/// The bit pattern of positive infinity.
pub const INFINITY_BITS: u64 = 0x7ff0_0000_0000_0000;

/// The highest bit, which holds the sign.
pub const SIGN_BIT: u64 = 0x8000_0000_0000_0000;

impl Double {
    /// Whether the number has a minus sign.
    pub open spec fn negative(self) -> bool {
        self.bits >= SIGN_BIT
    }

    /// The bit pattern without the sign, which grows with the magnitude of the number.
    pub open spec fn magnitude(self) -> int {
        if self.negative() {
            self.bits - SIGN_BIT
        } else {
            self.bits as int
        }
    }

    /// Whether the bit pattern stands for no number.
    pub open spec fn nan(self) -> bool {
        self.magnitude() > INFINITY_BITS
    }

    /// The place of the number among all that are ordered: one number is less than another
    /// exactly when its place is. Zero has the same place with either sign.
    pub open spec fn place(self) -> int {
        if self.negative() {
            -self.magnitude()
        } else {
            self.magnitude()
        }
    }

    /// The number, or the nearer of 0 and 1 where it is not between them. What stands for no
    /// number is kept.
    pub open spec fn clamped_to_unit(self) -> Double {
        let zero = Double { bits: ZERO_BITS };
        let one = Double { bits: ONE_BITS };
        if self.nan() {
            self
        } else if self.place() < zero.place() {
            zero
        } else if self.place() > one.place() {
            one
        } else {
            self
        }
    }

    /// The number, restricted to the range from 0 to 1.
    pub fn clamp_to_unit(self) -> (clamped: Double)
        ensures
            clamped == self.clamped_to_unit(),
            clamped.bits == (if 0x3ff0_0000_0000_0000 < self.bits <= 0x7ff0_0000_0000_0000 {
                0x3ff0_0000_0000_0000
            } else if 0x8000_0000_0000_0000 < self.bits <= 0xfff0_0000_0000_0000 {
                0
            } else {
                self.bits
            }),
    {
        let negative = self.bits >= SIGN_BIT;
        let magnitude: u64 = if negative {
            self.bits - SIGN_BIT
        } else {
            self.bits
        };
        if magnitude > INFINITY_BITS {
            self
        } else if negative && magnitude > 0 {
            Double { bits: ZERO_BITS }
        } else if !negative && magnitude > ONE_BITS {
            Double { bits: ONE_BITS }
        } else {
            self
        }
    }
}

/// A number restricted to the range from 0 to 1 lies in it, and is kept when it is restricted
/// again.
pub proof fn clamping_leads_into_the_range(x: Double)
    ensures
        x.clamped_to_unit().clamped_to_unit() == x.clamped_to_unit(),
        !x.nan() ==> !x.clamped_to_unit().nan() && 0 <= x.clamped_to_unit().place() <= ONE_BITS,
        !x.nan() && 0 <= x.place() <= ONE_BITS ==> x.clamped_to_unit() == x,
{
}

/// What becomes of a bit pattern: those of the numbers from 0 to 1, of a zero with a minus sign and
/// of what is no number are kept; those of greater numbers, up to infinity, become that of 1; those
/// of numbers below zero, down to minus infinity, become that of 0.
pub proof fn clamping_by_bit_patterns(x: Double)
    ensures
        0 <= x.bits <= 0x3ff0_0000_0000_0000 ==> x.clamped_to_unit() == x,
        0x3ff0_0000_0000_0000 < x.bits <= 0x7ff0_0000_0000_0000 ==> x.clamped_to_unit().bits
            == 0x3ff0_0000_0000_0000,
        0x7ff0_0000_0000_0000 < x.bits <= 0x8000_0000_0000_0000 ==> x.clamped_to_unit() == x,
        0x8000_0000_0000_0000 < x.bits <= 0xfff0_0000_0000_0000 ==> x.clamped_to_unit().bits == 0,
        0xfff0_0000_0000_0000 < x.bits ==> x.clamped_to_unit() == x,
        x.nan() <==> 0x7ff0_0000_0000_0000 < x.bits < 0x8000_0000_0000_0000 || x.bits
            > 0xfff0_0000_0000_0000,
{
}

/// Restricting numbers to the range from 0 to 1 keeps their order.
pub proof fn clamping_keeps_the_order(x: Double, y: Double)
    requires
        !x.nan(),
        !y.nan(),
        x.place() <= y.place(),
    ensures
        x.clamped_to_unit().place() <= y.clamped_to_unit().place(),
{
}

} // verus!
