//! Detection scores.

use vstd::prelude::*;

verus! {

/// Bit pattern of the score below which a statistical guess is discarded:
/// seven tenths, rounded to single precision.
pub const THRESHOLD_BITS: u32 = 0x3F33_3333;

/// Bit pattern of the score given to every heuristic answer: eight tenths,
/// rounded to single precision.
pub const HEURISTIC_BITS: u32 = 0x3F4C_CCCD;

/// Bit pattern of positive infinity. Every pattern whose magnitude is above it
/// is not a number.
pub const INFINITY_BITS: u32 = 0x7F80_0000;

/// The bit that holds the sign.
pub const SIGN_BIT: u32 = 0x8000_0000;

/// A detection score: a single-precision binary number, held as its 32-bit
/// pattern (sign, eight bits of exponent, twenty-three bits of fraction).
///
/// Scores are only ever compared, and the order of two such numbers can be
/// read off their patterns, so the pattern is all the library keeps.
#[derive(Clone, Copy, Debug, PartialEq, Eq, Structural)]
pub struct Confidence {
    pub bits: u32,
}

impl Confidence {
    /// The pattern without its sign bit.
    pub open spec fn magnitude(&self) -> int {
        self.bits as int % SIGN_BIT as int
    }

    /// True when the sign bit is set.
    pub open spec fn sign_set(&self) -> bool {
        self.bits >= SIGN_BIT
    }

    /// True when the pattern stands for no number at all.
    pub open spec fn is_nan(&self) -> bool {
        self.magnitude() > INFINITY_BITS as int
    }

    /// The position of the score on the number line, as an integer that grows
    /// with the number the pattern stands for. Both zeros are at 0.
    /// Meaningful only when the score is a number.
    pub open spec fn rank(&self) -> int {
        if self.sign_set() {
            -self.magnitude()
        } else {
            self.magnitude()
        }
    }

    /// The order of two scores as numbers: false whenever one of them is not
    /// a number, and otherwise the order of their ranks.
    pub open spec fn less_than(&self, other: Confidence) -> bool {
        !self.is_nan() && !other.is_nan() && self.rank() < other.rank()
    }

    /// The score below which a statistical guess is discarded.
    pub open spec fn spec_threshold() -> Confidence {
        Confidence { bits: THRESHOLD_BITS }
    }

    /// The score of a heuristic answer.
    pub open spec fn spec_heuristic() -> Confidence {
        Confidence { bits: HEURISTIC_BITS }
    }

    /// True when a statistical guess with this score is discarded.
    pub open spec fn spec_is_below_threshold(&self) -> bool {
        self.less_than(Self::spec_threshold())
    }

    /// The score with the given bit pattern.
    pub fn from_bits(bits: u32) -> (c: Confidence)
        ensures
            c.bits == bits,
    {
        Confidence { bits }
    }

    /// The bit pattern of the score.
    pub fn to_bits(&self) -> (bits: u32)
        ensures
            bits == self.bits,
    {
        self.bits
    }

    /// The score below which a statistical guess is discarded.
    #[verifier::when_used_as_spec(spec_threshold)]
    pub fn threshold() -> (c: Confidence)
        ensures
            c == Self::spec_threshold(),
    {
        Confidence { bits: THRESHOLD_BITS }
    }

    /// The score of a heuristic answer.
    #[verifier::when_used_as_spec(spec_heuristic)]
    pub fn heuristic() -> (c: Confidence)
        ensures
            c == Self::spec_heuristic(),
            !c.spec_is_below_threshold(),
    {
        Confidence { bits: HEURISTIC_BITS }
    }

    /// Tells whether the score is a number below the threshold.
    ///
    /// A score that is not a number is below nothing. Every negative number,
    /// negative zero included, is below the threshold.
    #[verifier::when_used_as_spec(spec_is_below_threshold)]
    pub fn is_below_threshold(&self) -> (below: bool)
        ensures
            below == self.spec_is_below_threshold(),
    {
        if self.bits < SIGN_BIT {
            self.bits < THRESHOLD_BITS
        } else {
            self.bits - SIGN_BIT <= INFINITY_BITS
        }
    }
}

} // verus!
