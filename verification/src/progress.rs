//! Playback progress in percent.
//!
//! A percentage is a double-precision number. It is held here by its bit
//! pattern, which is enough to order two of them and to bound one: the
//! arithmetic that produces them belongs to the caller.

use vstd::prelude::*;

verus! {

/// The sign bit of a double.
pub const SIGN: u64 = 0x8000_0000_0000_0000;

/// The bit pattern of positive infinity; larger magnitudes are no numbers.
pub const INFINITY: u64 = 0x7FF0_0000_0000_0000;

/// The bit pattern of the double 100.
pub const HUNDRED: u64 = 0x4059_0000_0000_0000;

/// A double, by its bit pattern.
#[derive(Clone, Copy, Debug, Default, PartialEq, Eq, Structural)]
pub struct Progress {
    pub bits: u64,
}

impl Progress {
    /// The magnitude part of the bit pattern.
    pub open spec fn magnitude(self) -> int {
        if self.bits >= SIGN {
            self.bits - SIGN
        } else {
            self.bits as int
        }
    }

    /// Neither finite nor infinite.
    pub open spec fn is_nan(self) -> bool {
        self.magnitude() > INFINITY
    }

    /// An integer that orders the numbers as their values do: the two zeros
    /// share rank 0, and the rank of a negative number is negative.
    pub open spec fn rank(self) -> int {
        if self.bits >= SIGN {
            -self.magnitude()
        } else {
            self.magnitude()
        }
    }

    /// Zero.
    pub open spec fn zero() -> Progress {
        Progress { bits: 0 }
    }

    /// One hundred.
    pub open spec fn hundred() -> Progress {
        Progress { bits: HUNDRED }
    }

    /// The value bounded to 0 from below and to 100 from above; what is no
    /// number stays as it is.
    pub open spec fn bounded(self) -> Progress {
        if self.is_nan() {
            self
        } else if self.rank() < 0 {
            Progress::zero()
        } else if self.rank() > HUNDRED {
            Progress::hundred()
        } else {
            self
        }
    }

    /// `self >= other` on numbers; false where either is none.
    pub open spec fn at_least(self, other: Progress) -> bool {
        !self.is_nan() && !other.is_nan() && self.rank() >= other.rank()
    }

    /// The larger of two numbers; the other one where one is no number.
    pub open spec fn larger(self, other: Progress) -> Progress {
        if self.is_nan() {
            other
        } else if other.is_nan() || self.rank() >= other.rank() {
            self
        } else {
            other
        }
    }

    /// A number from 0 to 100.
    pub open spec fn is_percentage(self) -> bool {
        !self.is_nan() && 0 <= self.rank() <= HUNDRED
    }

    fn is_nan_bits(&self) -> (r: bool)
        ensures
            r == self.is_nan(),
    {
        if self.bits >= SIGN {
            self.bits - SIGN > INFINITY
        } else {
            self.bits > INFINITY
        }
    }

    /// Bounds the value to the range from 0 to 100.
    pub fn clamp_percent(self) -> (r: Progress)
        ensures
            r == self.bounded(),
    {
        if self.is_nan_bits() {
            self
        } else if self.bits > SIGN {
            Progress { bits: 0 }
        } else if self.bits < SIGN && self.bits > HUNDRED {
            Progress { bits: HUNDRED }
        } else {
            self
        }
    }

    /// Whether the value is `other` or more.
    pub fn reaches(self, other: Progress) -> (r: bool)
        ensures
            r == self.at_least(other),
    {
        if self.is_nan_bits() || other.is_nan_bits() {
            false
        } else if self.bits >= SIGN {
            if other.bits >= SIGN {
                self.bits <= other.bits
            } else {
                self.bits == SIGN && other.bits == 0
            }
        } else if other.bits >= SIGN {
            true
        } else {
            self.bits >= other.bits
        }
    }

    /// The larger of two values.
    pub fn max(self, other: Progress) -> (r: Progress)
        ensures
            r == self.larger(other),
    {
        if self.is_nan_bits() {
            other
        } else if other.is_nan_bits() || self.reaches(other) {
            self
        } else {
            other
        }
    }
}

/// Bounding yields a percentage for every number, and bounding twice is
/// bounding once.
pub proof fn bounded_is_percentage(p: Progress)
    ensures
        !p.is_nan() ==> p.bounded().is_percentage(),
        p.is_percentage() ==> p.bounded() == p,
        p.bounded().bounded() == p.bounded(),
{
}

} // verus!
