//! Decimal numbers, as the evaluator orders them.

use vstd::prelude::*;

verus! {

/// The sign bit of a 64-bit binary floating-point bit pattern.
pub const SIGN_BIT: u64 = 0x8000_0000_0000_0000;

/// The bit pattern of positive infinity. A magnitude above it is no number.
pub const INFINITY_BITS: u64 = 0x7ff0_0000_0000_0000;

/// The numeric relation between two decimals.
#[derive(Clone, Copy, Debug, PartialEq, Eq, Structural)]
pub enum Relation {
    Less,
    Equal,
    Greater,
    /// At least one side is no number, so the two cannot be ordered.
    Unordered,
}

/// A decimal number.
///
/// `encoding` is the number's 128-bit decimal encoding; the evaluator carries
/// it and never reads it. `binary64` is the bit pattern of the 64-bit binary
/// floating-point value that the decimal reads as, and thresholds are compared
/// by that value alone. Two decimals that read as the same binary value are
/// therefore equal to the evaluator, whatever their encodings.
#[derive(Clone, Copy, Debug, PartialEq, Eq, Hash, Structural)]
pub struct Decimal {
    pub encoding: u128,
    pub binary64: u64,
}

impl Decimal {
    /// The sign bit is set.
    pub open spec fn sign(self) -> bool {
        self.binary64 >= SIGN_BIT
    }

    /// The bit pattern without its sign bit. Among numbers, a larger
    /// magnitude is a larger absolute value.
    pub open spec fn magnitude(self) -> int {
        if self.sign() {
            self.binary64 - SIGN_BIT
        } else {
            self.binary64 as int
        }
    }

    /// The value is no number: its exponent bits are all set and its
    /// fraction is not zero.
    pub open spec fn is_nan(self) -> bool {
        self.magnitude() > INFINITY_BITS
    }

    /// The position of the value on the number line: the magnitude, negated
    /// under a set sign bit. Both zeros have rank 0, and the infinities are
    /// the two ends. Meaningful only where the value is a number.
    pub open spec fn rank(self) -> int {
        if self.sign() {
            -self.magnitude()
        } else {
            self.magnitude()
        }
    }

    /// How `self` relates to `other` numerically.
    pub open spec fn relation_to(self, other: Decimal) -> Relation {
        if self.is_nan() || other.is_nan() {
            Relation::Unordered
        } else if self.rank() < other.rank() {
            Relation::Less
        } else if self.rank() == other.rank() {
            Relation::Equal
        } else {
            Relation::Greater
        }
    }

    /// The decimal with the given encoding and binary reading.
    pub fn new(encoding: u128, binary64: u64) -> (decimal: Decimal)
        ensures
            decimal.encoding == encoding,
            decimal.binary64 == binary64,
    {
        Decimal { encoding, binary64 }
    }

    /// The decimal with the given encoding that reads as `reading`, or as
    /// zero where its text could not be read as a binary value at all.
    pub fn from_reading(encoding: u128, reading: Option<u64>) -> (decimal: Decimal)
        ensures
            decimal.encoding == encoding,
            decimal.binary64 == match reading {
                Some(bits) => bits,
                None => 0,
            },
    {
        match reading {
            Some(bits) => Decimal { encoding, binary64: bits },
            None => Decimal { encoding, binary64: 0 },
        }
    }

    /// Whether the value is no number.
    pub fn is_not_a_number(&self) -> (r: bool)
        ensures
            r == self.is_nan(),
    {
        let magnitude: u64 = if self.binary64 >= SIGN_BIT {
            self.binary64 - SIGN_BIT
        } else {
            self.binary64
        };
        magnitude > INFINITY_BITS
    }

    /// Orders two decimals by the binary values they read as.
    pub fn relate(&self, other: &Decimal) -> (relation: Relation)
        ensures
            relation == self.relation_to(*other),
    {
        if self.is_not_a_number() || other.is_not_a_number() {
            return Relation::Unordered;
        }
        let left_negative = self.binary64 >= SIGN_BIT;
        let right_negative = other.binary64 >= SIGN_BIT;
        let left: u64 = if left_negative {
            self.binary64 - SIGN_BIT
        } else {
            self.binary64
        };
        let right: u64 = if right_negative {
            other.binary64 - SIGN_BIT
        } else {
            other.binary64
        };
        if left_negative && right_negative {
            if left > right {
                Relation::Less
            } else if left == right {
                Relation::Equal
            } else {
                Relation::Greater
            }
        } else if left_negative {
            if left == 0 && right == 0 {
                Relation::Equal
            } else {
                Relation::Less
            }
        } else if right_negative {
            if left == 0 && right == 0 {
                Relation::Equal
            } else {
                Relation::Greater
            }
        } else {
            if left < right {
                Relation::Less
            } else if left == right {
                Relation::Equal
            } else {
                Relation::Greater
            }
        }
    }
}

} // verus!
