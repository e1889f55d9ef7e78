//! The twelve signs of the zodiac, their elements and modalities.

use vstd::prelude::*;
use vstd::string::StringExecFns;
use crate::utils::angle::{normalize_degrees, wrap_degrees};

verus! {

/// The width of one sign, 30°.
pub const SIGN_WIDTH: i64 = 30_000_000;

/// The twelve zodiac signs, in the order of the ecliptic.
#[derive(Debug, Clone, Copy, PartialEq, Eq, Hash, Structural)]
pub enum ZodiacSign {
    Aries,
    Taurus,
    Gemini,
    Cancer,
    Leo,
    Virgo,
    Libra,
    Scorpio,
    Sagittarius,
    Capricorn,
    Aquarius,
    Pisces,
}

/// The four classical elements.
#[derive(Debug, Clone, Copy, PartialEq, Eq, Structural)]
pub enum Element {
    Fire,
    Earth,
    Air,
    Water,
}

/// The three modalities of the signs.
#[derive(Debug, Clone, Copy, PartialEq, Eq, Structural)]
pub enum Modality {
    Cardinal,
    Fixed,
    Mutable,
}

impl ZodiacSign {
    /// Place of the sign on the ecliptic, from 0 (Aries) to 11 (Pisces).
    pub open spec fn index(self) -> int {
        match self {
            ZodiacSign::Aries => 0,
            ZodiacSign::Taurus => 1,
            ZodiacSign::Gemini => 2,
            ZodiacSign::Cancer => 3,
            ZodiacSign::Leo => 4,
            ZodiacSign::Virgo => 5,
            ZodiacSign::Libra => 6,
            ZodiacSign::Scorpio => 7,
            ZodiacSign::Sagittarius => 8,
            ZodiacSign::Capricorn => 9,
            ZodiacSign::Aquarius => 10,
            ZodiacSign::Pisces => 11,
        }
    }

    /// The sign at a place of the ecliptic; Pisces for a place past the last.
    pub open spec fn at(index: int) -> ZodiacSign {
        if index == 0 {
            ZodiacSign::Aries
        } else if index == 1 {
            ZodiacSign::Taurus
        } else if index == 2 {
            ZodiacSign::Gemini
        } else if index == 3 {
            ZodiacSign::Cancer
        } else if index == 4 {
            ZodiacSign::Leo
        } else if index == 5 {
            ZodiacSign::Virgo
        } else if index == 6 {
            ZodiacSign::Libra
        } else if index == 7 {
            ZodiacSign::Scorpio
        } else if index == 8 {
            ZodiacSign::Sagittarius
        } else if index == 9 {
            ZodiacSign::Capricorn
        } else if index == 10 {
            ZodiacSign::Aquarius
        } else {
            ZodiacSign::Pisces
        }
    }

    /// The glyph of the sign, as text.
    pub open spec fn symbol_text(self) -> Seq<char> {
        match self {
            ZodiacSign::Aries => "♈"@,
            ZodiacSign::Taurus => "♉"@,
            ZodiacSign::Gemini => "♊"@,
            ZodiacSign::Cancer => "♋"@,
            ZodiacSign::Leo => "♌"@,
            ZodiacSign::Virgo => "♍"@,
            ZodiacSign::Libra => "♎"@,
            ZodiacSign::Scorpio => "♏"@,
            ZodiacSign::Sagittarius => "♐"@,
            ZodiacSign::Capricorn => "♑"@,
            ZodiacSign::Aquarius => "♒"@,
            ZodiacSign::Pisces => "♓"@,
        }
    }

    /// The English name of the sign, as text.
    pub open spec fn name_text(self) -> Seq<char> {
        match self {
            ZodiacSign::Aries => "Aries"@,
            ZodiacSign::Taurus => "Taurus"@,
            ZodiacSign::Gemini => "Gemini"@,
            ZodiacSign::Cancer => "Cancer"@,
            ZodiacSign::Leo => "Leo"@,
            ZodiacSign::Virgo => "Virgo"@,
            ZodiacSign::Libra => "Libra"@,
            ZodiacSign::Scorpio => "Scorpio"@,
            ZodiacSign::Sagittarius => "Sagittarius"@,
            ZodiacSign::Capricorn => "Capricorn"@,
            ZodiacSign::Aquarius => "Aquarius"@,
            ZodiacSign::Pisces => "Pisces"@,
        }
    }

    /// The longitude at which the sign starts: 0° for Aries, 30° for Taurus
    /// and so on.
    pub fn start_degree(&self) -> (r: i64)
        ensures
            r == self.index() * SIGN_WIDTH,
    {
        match self {
            ZodiacSign::Aries => 0,
            ZodiacSign::Taurus => 30_000_000,
            ZodiacSign::Gemini => 60_000_000,
            ZodiacSign::Cancer => 90_000_000,
            ZodiacSign::Leo => 120_000_000,
            ZodiacSign::Virgo => 150_000_000,
            ZodiacSign::Libra => 180_000_000,
            ZodiacSign::Scorpio => 210_000_000,
            ZodiacSign::Sagittarius => 240_000_000,
            ZodiacSign::Capricorn => 270_000_000,
            ZodiacSign::Aquarius => 300_000_000,
            ZodiacSign::Pisces => 330_000_000,
        }
    }

    /// The glyph of the sign.
    pub fn symbol(&self) -> (r: &'static str)
        ensures
            r@ == self.symbol_text(),
    {
        match self {
            ZodiacSign::Aries => "♈",
            ZodiacSign::Taurus => "♉",
            ZodiacSign::Gemini => "♊",
            ZodiacSign::Cancer => "♋",
            ZodiacSign::Leo => "♌",
            ZodiacSign::Virgo => "♍",
            ZodiacSign::Libra => "♎",
            ZodiacSign::Scorpio => "♏",
            ZodiacSign::Sagittarius => "♐",
            ZodiacSign::Capricorn => "♑",
            ZodiacSign::Aquarius => "♒",
            ZodiacSign::Pisces => "♓",
        }
    }

    /// The element of the sign: fire, earth, air and water follow each other
    /// round the zodiac.
    pub fn element(&self) -> (r: Element)
        ensures
            r == Element::at(self.index() % 4),
    {
        match self {
            ZodiacSign::Aries => Element::Fire,
            ZodiacSign::Taurus => Element::Earth,
            ZodiacSign::Gemini => Element::Air,
            ZodiacSign::Cancer => Element::Water,
            ZodiacSign::Leo => Element::Fire,
            ZodiacSign::Virgo => Element::Earth,
            ZodiacSign::Libra => Element::Air,
            ZodiacSign::Scorpio => Element::Water,
            ZodiacSign::Sagittarius => Element::Fire,
            ZodiacSign::Capricorn => Element::Earth,
            ZodiacSign::Aquarius => Element::Air,
            ZodiacSign::Pisces => Element::Water,
        }
    }

    /// The modality of the sign: cardinal, fixed and mutable follow each other
    /// round the zodiac.
    pub fn modality(&self) -> (r: Modality)
        ensures
            r == Modality::at(self.index() % 3),
    {
        match self {
            ZodiacSign::Aries => Modality::Cardinal,
            ZodiacSign::Taurus => Modality::Fixed,
            ZodiacSign::Gemini => Modality::Mutable,
            ZodiacSign::Cancer => Modality::Cardinal,
            ZodiacSign::Leo => Modality::Fixed,
            ZodiacSign::Virgo => Modality::Mutable,
            ZodiacSign::Libra => Modality::Cardinal,
            ZodiacSign::Scorpio => Modality::Fixed,
            ZodiacSign::Sagittarius => Modality::Mutable,
            ZodiacSign::Capricorn => Modality::Cardinal,
            ZodiacSign::Aquarius => Modality::Fixed,
            ZodiacSign::Pisces => Modality::Mutable,
        }
    }

    /// The sign in which a longitude falls, and the distance from the start
    /// of that sign. The longitude is brought into `[0, 360°)` first.
    pub fn from_degree(degree: i64) -> (r: (ZodiacSign, i64))
        ensures
            r.0 == ZodiacSign::at(wrap_degrees(degree as int) / 30_000_000),
            r.1 == wrap_degrees(degree as int) % 30_000_000,
            r.0.index() * SIGN_WIDTH + r.1 == wrap_degrees(degree as int),
    {
        let normalized_degree: i64 = normalize_degrees(degree);
        let sign_degree: i64 = normalized_degree % SIGN_WIDTH;
        let sign_idx: i64 = normalized_degree / SIGN_WIDTH;
        let sign = if sign_idx == 0 {
            ZodiacSign::Aries
        } else if sign_idx == 1 {
            ZodiacSign::Taurus
        } else if sign_idx == 2 {
            ZodiacSign::Gemini
        } else if sign_idx == 3 {
            ZodiacSign::Cancer
        } else if sign_idx == 4 {
            ZodiacSign::Leo
        } else if sign_idx == 5 {
            ZodiacSign::Virgo
        } else if sign_idx == 6 {
            ZodiacSign::Libra
        } else if sign_idx == 7 {
            ZodiacSign::Scorpio
        } else if sign_idx == 8 {
            ZodiacSign::Sagittarius
        } else if sign_idx == 9 {
            ZodiacSign::Capricorn
        } else if sign_idx == 10 {
            ZodiacSign::Aquarius
        } else {
            ZodiacSign::Pisces
        };
        (sign, sign_degree)
    }

    /// The English name of the sign.
    pub fn name(&self) -> (r: &'static str)
        ensures
            r@ == self.name_text(),
    {
        match self {
            ZodiacSign::Aries => "Aries",
            ZodiacSign::Taurus => "Taurus",
            ZodiacSign::Gemini => "Gemini",
            ZodiacSign::Cancer => "Cancer",
            ZodiacSign::Leo => "Leo",
            ZodiacSign::Virgo => "Virgo",
            ZodiacSign::Libra => "Libra",
            ZodiacSign::Scorpio => "Scorpio",
            ZodiacSign::Sagittarius => "Sagittarius",
            ZodiacSign::Capricorn => "Capricorn",
            ZodiacSign::Aquarius => "Aquarius",
            ZodiacSign::Pisces => "Pisces",
        }
    }

    /// The English name of the sign, as an owned string.
    pub fn to_string(&self) -> (r: String)
        ensures
            r@ == self.name_text(),
    {
        String::from_str(self.name())
    }
}

impl Element {
    /// The element at a place of the cycle fire, earth, air, water.
    pub open spec fn at(index: int) -> Element {
        if index == 0 {
            Element::Fire
        } else if index == 1 {
            Element::Earth
        } else if index == 2 {
            Element::Air
        } else {
            Element::Water
        }
    }

    /// The alchemical glyph of the element, as text.
    pub open spec fn symbol_text(self) -> Seq<char> {
        match self {
            Element::Fire => "🜂"@,
            Element::Earth => "🜃"@,
            Element::Air => "🜁"@,
            Element::Water => "🜄"@,
        }
    }

    /// The alchemical glyph of the element.
    pub fn symbol(&self) -> (r: &'static str)
        ensures
            r@ == self.symbol_text(),
    {
        match self {
            Element::Fire => "🜂",
            Element::Earth => "🜃",
            Element::Air => "🜁",
            Element::Water => "🜄",
        }
    }
}

impl Modality {
    /// The modality at a place of the cycle cardinal, fixed, mutable.
    pub open spec fn at(index: int) -> Modality {
        if index == 0 {
            Modality::Cardinal
        } else if index == 1 {
            Modality::Fixed
        } else {
            Modality::Mutable
        }
    }

    /// The glyph of the modality, as text.
    pub open spec fn symbol_text(self) -> Seq<char> {
        match self {
            Modality::Cardinal => "⯯"@,
            Modality::Fixed => "⯱"@,
            Modality::Mutable => "⯰"@,
        }
    }

    /// The glyph of the modality.
    pub fn symbol(&self) -> (r: &'static str)
        ensures
            r@ == self.symbol_text(),
    {
        match self {
            Modality::Cardinal => "⯯",
            Modality::Fixed => "⯱",
            Modality::Mutable => "⯰",
        }
    }
}

} // verus!
