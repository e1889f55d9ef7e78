//! Harmonics of the circle and the two ways of reducing a position by one.
//!
//! A harmonic `h` divides the circle into `h` equal ranges of `360° / h`.
//! A position can be *folded* into the first of these ranges, which keeps
//! distances as they are and suits a dial whose face spans only that range;
//! or it can be *multiplied* by `h` and wrapped, which suits a dial whose
//! face still spans the full circle. The two are different operations and
//! each has its own name here.
//!
//! A harmonic is at least 1, and 0 is never taken for 1. A function that is
//! handed a harmonic requires it to be at least 1, so a caller rejects 0
//! before it calls; a setter refuses 0 and leaves what it was to change as it
//! was. Only [`multiply_angle`], the bare product, is defined for every
//! factor: it is what a dial or a position applies to the harmonic it holds.

use vstd::prelude::*;
use vstd::arithmetic::div_mod::{
    lemma_div_multiples_vanish, lemma_fundamental_div_mod, lemma_fundamental_div_mod_converse,
};
use vstd::string::StringExecFns;
use crate::models::planet::calculate_360_midpoint;
use crate::utils::angle::{circular_midpoint, wrap_degrees};

verus! {

/// The harmonics that the explorer offers.
#[derive(Debug, Clone, Copy, PartialEq, Eq, Structural)]
pub enum HarmonicType {
    Second,
    Third,
    Fourth,
    Fifth,
    Sixth,
    Seventh,
    Eighth,
    Ninth,
    Tenth,
    Eleventh,
    Twelfth,
    Sixteenth,
}

/// A position folded into the range of a harmonic: the remainder of the
/// position by `360° / harmonic`, rounded down to the unit. The range itself
/// need not be a whole number of units, so the remainder is taken of the
/// multiplied position and divided back.
pub open spec fn range_fold(position: int, harmonic: int) -> int {
    ((position * harmonic) % 360_000_000) / harmonic
}

/// A position multiplied by a harmonic and wrapped onto the full circle.
pub open spec fn angle_multiply(position: int, harmonic: int) -> int {
    (position * harmonic) % 360_000_000
}

/// The width of the range of a harmonic, `360° / harmonic`, rounded down to
/// the unit.
pub open spec fn range_width(harmonic: int) -> int {
    360_000_000int / harmonic
}

impl HarmonicType {
    /// The number of the harmonic.
    pub open spec fn number(self) -> int {
        match self {
            HarmonicType::Second => 2,
            HarmonicType::Third => 3,
            HarmonicType::Fourth => 4,
            HarmonicType::Fifth => 5,
            HarmonicType::Sixth => 6,
            HarmonicType::Seventh => 7,
            HarmonicType::Eighth => 8,
            HarmonicType::Ninth => 9,
            HarmonicType::Tenth => 10,
            HarmonicType::Eleventh => 11,
            HarmonicType::Twelfth => 12,
            HarmonicType::Sixteenth => 16,
        }
    }

    /// The ordinal of the harmonic, as text.
    pub open spec fn ordinal_text(self) -> Seq<char> {
        match self {
            HarmonicType::Second => "2nd"@,
            HarmonicType::Third => "3rd"@,
            HarmonicType::Fourth => "4th"@,
            HarmonicType::Fifth => "5th"@,
            HarmonicType::Sixth => "6th"@,
            HarmonicType::Seventh => "7th"@,
            HarmonicType::Eighth => "8th"@,
            HarmonicType::Ninth => "9th"@,
            HarmonicType::Tenth => "10th"@,
            HarmonicType::Eleventh => "11th"@,
            HarmonicType::Twelfth => "12th"@,
            HarmonicType::Sixteenth => "16th"@,
        }
    }

    /// The harmonics on offer, in ascending order.
    pub open spec fn offered() -> Seq<HarmonicType> {
        seq![
            HarmonicType::Second,
            HarmonicType::Third,
            HarmonicType::Fourth,
            HarmonicType::Fifth,
            HarmonicType::Sixth,
            HarmonicType::Seventh,
            HarmonicType::Eighth,
            HarmonicType::Ninth,
            HarmonicType::Tenth,
            HarmonicType::Eleventh,
            HarmonicType::Twelfth,
            HarmonicType::Sixteenth,
        ]
    }

    /// The number of the harmonic.
    pub fn value(&self) -> (r: u32)
        ensures
            r == self.number(),
            2 <= r <= 16,
    {
        match self {
            HarmonicType::Second => 2,
            HarmonicType::Third => 3,
            HarmonicType::Fourth => 4,
            HarmonicType::Fifth => 5,
            HarmonicType::Sixth => 6,
            HarmonicType::Seventh => 7,
            HarmonicType::Eighth => 8,
            HarmonicType::Ninth => 9,
            HarmonicType::Tenth => 10,
            HarmonicType::Eleventh => 11,
            HarmonicType::Twelfth => 12,
            HarmonicType::Sixteenth => 16,
        }
    }

    /// The ordinal of the harmonic, such as "2nd" or "3rd".
    pub fn display_name(&self) -> (r: String)
        ensures
            r@ == self.ordinal_text(),
    {
        match self {
            HarmonicType::Second => String::from_str("2nd"),
            HarmonicType::Third => String::from_str("3rd"),
            HarmonicType::Fourth => String::from_str("4th"),
            HarmonicType::Fifth => String::from_str("5th"),
            HarmonicType::Sixth => String::from_str("6th"),
            HarmonicType::Seventh => String::from_str("7th"),
            HarmonicType::Eighth => String::from_str("8th"),
            HarmonicType::Ninth => String::from_str("9th"),
            HarmonicType::Tenth => String::from_str("10th"),
            HarmonicType::Eleventh => String::from_str("11th"),
            HarmonicType::Twelfth => String::from_str("12th"),
            HarmonicType::Sixteenth => String::from_str("16th"),
        }
    }

    /// The width of the range of the harmonic, `360° / value`, rounded down
    /// to the unit.
    pub fn harmonic_range(&self) -> (r: i64)
        ensures
            r == range_width(self.number()),
    {
        360_000_000 / (self.value() as i64)
    }

    /// All harmonics on offer.
    pub fn all_types() -> (r: Vec<HarmonicType>)
        ensures
            r@ == HarmonicType::offered(),
    {
        let all = vec![
            HarmonicType::Second,
            HarmonicType::Third,
            HarmonicType::Fourth,
            HarmonicType::Fifth,
            HarmonicType::Sixth,
            HarmonicType::Seventh,
            HarmonicType::Eighth,
            HarmonicType::Ninth,
            HarmonicType::Tenth,
            HarmonicType::Eleventh,
            HarmonicType::Twelfth,
            HarmonicType::Sixteenth,
        ];
        assert(all@ =~= HarmonicType::offered());
        all
    }

    /// The ordinal of the harmonic, as [`HarmonicType::display_name`] gives it.
    pub fn to_string(&self) -> (r: String)
        ensures
            r@ == self.ordinal_text(),
    {
        self.display_name()
    }
}

/// Folds a position into the range of a harmonic.
pub fn fold_into_range(position: i64, harmonic: u32) -> (r: i64)
    requires
        harmonic >= 1,
    ensures
        r == range_fold(position as int, harmonic as int),
        0 <= r,
        r * harmonic < 360_000_000,
{
    proof {
        assert(-0x8000_0000_0000_0000 * 0xffff_ffff <= position * harmonic
            <= 0x7fff_ffff_ffff_ffff * 0xffff_ffff) by (nonlinear_arith)
            requires
                -0x8000_0000_0000_0000 <= position <= 0x7fff_ffff_ffff_ffff,
                0 <= harmonic <= 0xffff_ffff,
        ;
    }
    let multiplied: i128 = (position as i128) * (harmonic as i128);
    let truncated: i128 = multiplied % 360_000_000;
    let wrapped: i128 = if truncated < 0 {
        truncated + 360_000_000
    } else {
        truncated
    };
    let folded: i128 = wrapped / (harmonic as i128);
    proof {
        lemma_fundamental_div_mod(wrapped as int, harmonic as int);
        assert(harmonic * (wrapped / (harmonic as i128)) == (wrapped / (harmonic as i128))
            * harmonic) by (nonlinear_arith);
    }
    folded as i64
}

/// Multiplies a position by a factor and wraps it onto the full circle. The
/// factor is the harmonic that a dial or a position holds.
pub fn multiply_angle(position: i64, harmonic: u32) -> (r: i64)
    ensures
        r == angle_multiply(position as int, harmonic as int),
        0 <= r < 360_000_000,
{
    proof {
        assert(-0x8000_0000_0000_0000 * 0xffff_ffff <= position * harmonic
            <= 0x7fff_ffff_ffff_ffff * 0xffff_ffff) by (nonlinear_arith)
            requires
                -0x8000_0000_0000_0000 <= position <= 0x7fff_ffff_ffff_ffff,
                0 <= harmonic <= 0xffff_ffff,
        ;
    }
    let multiplied: i128 = (position as i128) * (harmonic as i128);
    let truncated: i128 = multiplied % 360_000_000;
    if truncated < 0 {
        (truncated + 360_000_000) as i64
    } else {
        truncated as i64
    }
}

/// The midpoint of two positions, folded into the range of a harmonic.
/// The fold comes after the mean: the midpoint is taken on the full circle
/// first.
pub fn calculate_harmonic_midpoint(pos1: i64, pos2: i64, harmonic_base: u32) -> (r: i64)
    requires
        harmonic_base >= 1,
    ensures
        r == range_fold(
            circular_midpoint(wrap_degrees(pos1 as int), wrap_degrees(pos2 as int)),
            harmonic_base as int,
        ),
{
    let midpoint_360: i64 = calculate_360_midpoint(pos1, pos2);
    fold_into_range(midpoint_360, harmonic_base)
}

/// Where the harmonic divides the circle into a whole number of units, the
/// fold is the plain remainder by the width of the range.
pub proof fn lemma_fold_is_remainder(position: int, harmonic: int)
    requires
        harmonic >= 1,
        360_000_000int % harmonic == 0,
    ensures
        range_fold(position, harmonic) == position % range_width(harmonic),
{
    let width = range_width(harmonic);
    lemma_fundamental_div_mod(360_000_000, harmonic);
    assert(harmonic * width == 360_000_000);
    assert(width >= 1) by (nonlinear_arith)
        requires
            harmonic * width == 360_000_000,
            harmonic >= 1,
    ;
    let q = position / width;
    let r = position % width;
    lemma_fundamental_div_mod(position, width);
    assert(position * harmonic == q * 360_000_000 + r * harmonic) by (nonlinear_arith)
        requires
            position == width * q + r,
            harmonic * width == 360_000_000,
    ;
    assert(0 <= r * harmonic < 360_000_000) by (nonlinear_arith)
        requires
            0 <= r < width,
            harmonic * width == 360_000_000,
            harmonic >= 1,
    ;
    lemma_fundamental_div_mod_converse(position * harmonic, 360_000_000, q, r * harmonic);
    lemma_div_multiples_vanish(r, harmonic);
    assert(harmonic * r == r * harmonic) by (nonlinear_arith);
}

/// A folded position lies in the range of the harmonic, and the multiplied
/// position is the folded one stretched back by the harmonic, up to the
/// rounding of the fold.
pub proof fn lemma_fold_and_multiply(position: int, harmonic: int)
    requires
        harmonic >= 1,
    ensures
        0 <= range_fold(position, harmonic),
        range_fold(position, harmonic) * harmonic <= angle_multiply(position, harmonic),
        angle_multiply(position, harmonic) < (range_fold(position, harmonic) + 1) * harmonic,
        angle_multiply(position, harmonic) < 360_000_000,
{
    let m = angle_multiply(position, harmonic);
    lemma_fundamental_div_mod(m, harmonic);
    let f = m / harmonic;
    assert(harmonic * f == f * harmonic) by (nonlinear_arith);
    assert((f + 1) * harmonic == f * harmonic + harmonic) by (nonlinear_arith);
    assert(0 <= f) by (nonlinear_arith)
        requires
            0 <= m,
            harmonic >= 1,
            m == harmonic * f + m % harmonic,
            0 <= m % harmonic < harmonic,
    ;
}

} // verus!
