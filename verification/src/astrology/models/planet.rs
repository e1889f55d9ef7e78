//! Celestial bodies, their constant data, and the position of a body in a
//! chart.
//!
//! Angles count millionths of a degree, distances millionths of an
//! astronomical unit, periods millionths of a year.

use vstd::prelude::*;
use vstd::string::StringExecFns;
use crate::astrology::models::table::{value_of, with_entry, PlanetTable};
use crate::astrology::models::zodiac::ZodiacSign;
use crate::models::harmonic::{angle_multiply, multiply_angle};
use crate::utils::angle::{in_circle, normalize_degrees, wrap_degrees};
use crate::utils::fixed::{clamp, clamped, trunc_div};
use crate::utils::text::{decimal_text, padded_text, push_decimal, push_padded};

verus! {

/// The number of kinds of bodies.
pub const BODY_TYPE_COUNT: usize = 10;

/// The highest harmonic that a position is shown in.
pub const MAX_HARMONIC: u32 = 90;

/// The kind of a celestial body.
#[derive(Debug, Clone, Copy, PartialEq, Eq, Hash, Structural)]
pub enum BodyType {
    Star,
    Planet,
    DwarfPlanet,
    Asteroid,
    Centaur,
    TransNeptunian,
    LunarNode,
    HouseCusp,
    Angle,
    Point,
}

/// A celestial body or point of the chart.
#[derive(Debug, Clone, Copy, PartialEq, Eq, Hash, Structural)]
pub enum Planet {
    Sun,
    Moon,
    Mercury,
    Venus,
    Mars,
    Jupiter,
    Saturn,
    Uranus,
    Neptune,
    Pluto,
    Ceres,
    Pallas,
    Juno,
    Vesta,
    Chiron,
    TrueNode,
    MeanNode,
    Cupido,
    Hades,
    Zeus,
    Kronos,
    Apollon,
    Admetos,
    Vulkanus,
    Poseidon,
    Vertex,
    EastPoint,
    Ascendant,
    MC,
    BlackMoonLilith,
    WhiteMoonSelena,
    Regulus,
    Spica,
    Antares,
    Aldebaran,
}

impl BodyType {
    /// The name of the kind, as text.
    pub open spec fn name_text(self) -> Seq<char> {
        match self {
            BodyType::Star => "Star"@,
            BodyType::Planet => "Planet"@,
            BodyType::DwarfPlanet => "DwarfPlanet"@,
            BodyType::Asteroid => "Asteroid"@,
            BodyType::Centaur => "Centaur"@,
            BodyType::TransNeptunian => "TransNeptunian"@,
            BodyType::LunarNode => "LunarNode"@,
            BodyType::HouseCusp => "HouseCusp"@,
            BodyType::Angle => "Angle"@,
            BodyType::Point => "Point"@,
        }
    }

    /// All kinds, in their order.
    pub open spec fn every() -> Seq<BodyType> {
        seq![
            BodyType::Star,
            BodyType::Planet,
            BodyType::DwarfPlanet,
            BodyType::Asteroid,
            BodyType::Centaur,
            BodyType::TransNeptunian,
            BodyType::LunarNode,
            BodyType::HouseCusp,
            BodyType::Angle,
            BodyType::Point,
        ]
    }

    /// The name of the kind.
    pub fn name(&self) -> (r: &'static str)
        ensures
            r@ == self.name_text(),
    {
        match self {
            BodyType::Star => "Star",
            BodyType::Planet => "Planet",
            BodyType::DwarfPlanet => "DwarfPlanet",
            BodyType::Asteroid => "Asteroid",
            BodyType::Centaur => "Centaur",
            BodyType::TransNeptunian => "TransNeptunian",
            BodyType::LunarNode => "LunarNode",
            BodyType::HouseCusp => "HouseCusp",
            BodyType::Angle => "Angle",
            BodyType::Point => "Point",
        }
    }

    /// The name of the kind, as an owned string.
    pub fn to_string(&self) -> (r: String)
        ensures
            r@ == self.name_text(),
    {
        String::from_str(self.name())
    }

    /// All kinds, in their order.
    pub fn all() -> (r: Vec<BodyType>)
        ensures
            r@ == BodyType::every(),
            r@.len() == BODY_TYPE_COUNT,
    {
        let all = vec![
            BodyType::Star,
            BodyType::Planet,
            BodyType::DwarfPlanet,
            BodyType::Asteroid,
            BodyType::Centaur,
            BodyType::TransNeptunian,
            BodyType::LunarNode,
            BodyType::HouseCusp,
            BodyType::Angle,
            BodyType::Point,
        ];
        assert(all@ =~= BodyType::every());
        all
    }
}

impl Planet {
    /// Place of the body in the list of all bodies.
    pub open spec fn index(self) -> int {
        match self {
            Planet::Sun => 0,
            Planet::Moon => 1,
            Planet::Mercury => 2,
            Planet::Venus => 3,
            Planet::Mars => 4,
            Planet::Jupiter => 5,
            Planet::Saturn => 6,
            Planet::Uranus => 7,
            Planet::Neptune => 8,
            Planet::Pluto => 9,
            Planet::Ceres => 10,
            Planet::Pallas => 11,
            Planet::Juno => 12,
            Planet::Vesta => 13,
            Planet::Chiron => 14,
            Planet::TrueNode => 15,
            Planet::MeanNode => 16,
            Planet::Cupido => 17,
            Planet::Hades => 18,
            Planet::Zeus => 19,
            Planet::Kronos => 20,
            Planet::Apollon => 21,
            Planet::Admetos => 22,
            Planet::Vulkanus => 23,
            Planet::Poseidon => 24,
            Planet::Vertex => 25,
            Planet::EastPoint => 26,
            Planet::Ascendant => 27,
            Planet::MC => 28,
            Planet::BlackMoonLilith => 29,
            Planet::WhiteMoonSelena => 30,
            Planet::Regulus => 31,
            Planet::Spica => 32,
            Planet::Antares => 33,
            Planet::Aldebaran => 34,
        }
    }

    /// All bodies, in their order.
    pub open spec fn every() -> Seq<Planet> {
        seq![
            Planet::Sun,
            Planet::Moon,
            Planet::Mercury,
            Planet::Venus,
            Planet::Mars,
            Planet::Jupiter,
            Planet::Saturn,
            Planet::Uranus,
            Planet::Neptune,
            Planet::Pluto,
            Planet::Ceres,
            Planet::Pallas,
            Planet::Juno,
            Planet::Vesta,
            Planet::Chiron,
            Planet::TrueNode,
            Planet::MeanNode,
            Planet::Cupido,
            Planet::Hades,
            Planet::Zeus,
            Planet::Kronos,
            Planet::Apollon,
            Planet::Admetos,
            Planet::Vulkanus,
            Planet::Poseidon,
            Planet::Vertex,
            Planet::EastPoint,
            Planet::Ascendant,
            Planet::MC,
            Planet::BlackMoonLilith,
            Planet::WhiteMoonSelena,
            Planet::Regulus,
            Planet::Spica,
            Planet::Antares,
            Planet::Aldebaran,
        ]
    }

    /// The kind of the body.
    pub open spec fn kind(self) -> BodyType {
        match self {
            Planet::Sun => BodyType::Star,
            Planet::Moon => BodyType::Star,
            Planet::Mercury => BodyType::Planet,
            Planet::Venus => BodyType::Planet,
            Planet::Mars => BodyType::Planet,
            Planet::Jupiter => BodyType::Planet,
            Planet::Saturn => BodyType::Planet,
            Planet::Uranus => BodyType::Planet,
            Planet::Neptune => BodyType::Planet,
            Planet::Pluto => BodyType::DwarfPlanet,
            Planet::Ceres => BodyType::DwarfPlanet,
            Planet::Pallas => BodyType::Asteroid,
            Planet::Juno => BodyType::Asteroid,
            Planet::Vesta => BodyType::Asteroid,
            Planet::Chiron => BodyType::Centaur,
            Planet::TrueNode => BodyType::LunarNode,
            Planet::MeanNode => BodyType::LunarNode,
            Planet::Cupido => BodyType::TransNeptunian,
            Planet::Hades => BodyType::TransNeptunian,
            Planet::Zeus => BodyType::TransNeptunian,
            Planet::Kronos => BodyType::TransNeptunian,
            Planet::Apollon => BodyType::TransNeptunian,
            Planet::Admetos => BodyType::TransNeptunian,
            Planet::Vulkanus => BodyType::TransNeptunian,
            Planet::Poseidon => BodyType::TransNeptunian,
            Planet::Vertex => BodyType::Angle,
            Planet::EastPoint => BodyType::Angle,
            Planet::Ascendant => BodyType::HouseCusp,
            Planet::MC => BodyType::HouseCusp,
            Planet::BlackMoonLilith => BodyType::Point,
            Planet::WhiteMoonSelena => BodyType::Point,
            Planet::Regulus => BodyType::Star,
            Planet::Spica => BodyType::Star,
            Planet::Antares => BodyType::Star,
            Planet::Aldebaran => BodyType::Star,
        }
    }

    /// The glyph of the body, as text.
    pub open spec fn symbol_text(self) -> Seq<char> {
        match self {
            Planet::Sun => "☉"@,
            Planet::Moon => "☽"@,
            Planet::Mercury => "☿"@,
            Planet::Venus => "♀"@,
            Planet::Mars => "♂"@,
            Planet::Jupiter => "♃"@,
            Planet::Saturn => "♄"@,
            Planet::Uranus => "♅"@,
            Planet::Neptune => "♆"@,
            Planet::Pluto => "♇"@,
            Planet::Ceres => "⚳"@,
            Planet::Pallas => "⚴"@,
            Planet::Juno => "⚵"@,
            Planet::Vesta => "⚶"@,
            Planet::Chiron => "⚷"@,
            Planet::TrueNode => "☊"@,
            Planet::MeanNode => "☊"@,
            Planet::Cupido => "C"@,
            Planet::Hades => "H"@,
            Planet::Zeus => "Z"@,
            Planet::Kronos => "K"@,
            Planet::Apollon => "A"@,
            Planet::Admetos => "D"@,
            Planet::Vulkanus => "V"@,
            Planet::Poseidon => "P"@,
            Planet::Vertex => "Vx"@,
            Planet::EastPoint => "EP"@,
            Planet::Ascendant => "AC"@,
            Planet::MC => "MC"@,
            Planet::BlackMoonLilith => "⚸"@,
            Planet::WhiteMoonSelena => "⚪"@,
            Planet::Regulus => "★"@,
            Planet::Spica => "✧"@,
            Planet::Antares => "☆"@,
            Planet::Aldebaran => "✫"@,
        }
    }

    /// The colour of the body, as text.
    pub open spec fn color_text(self) -> Seq<char> {
        match self {
            Planet::Sun => "#FFD700"@,
            Planet::Moon => "#C0C0C0"@,
            Planet::Mercury => "#A9A9A9"@,
            Planet::Venus => "#FFA500"@,
            Planet::Mars => "#FF4500"@,
            Planet::Jupiter => "#DAA520"@,
            Planet::Saturn => "#8B4513"@,
            Planet::Uranus => "#00BFFF"@,
            Planet::Neptune => "#1E90FF"@,
            Planet::Pluto => "#9932CC"@,
            Planet::Ceres => "#8B4513"@,
            Planet::Pallas => "#228B22"@,
            Planet::Juno => "#FF69B4"@,
            Planet::Vesta => "#FF8C00"@,
            Planet::Chiron => "#32CD32"@,
            Planet::TrueNode => "#8A2BE2"@,
            Planet::MeanNode => "#8A2BE2"@,
            Planet::Cupido => "#4B0082"@,
            Planet::Hades => "#4B0082"@,
            Planet::Zeus => "#4B0082"@,
            Planet::Kronos => "#4B0082"@,
            Planet::Apollon => "#4B0082"@,
            Planet::Admetos => "#4B0082"@,
            Planet::Vulkanus => "#4B0082"@,
            Planet::Poseidon => "#4B0082"@,
            Planet::Vertex => "#000000"@,
            Planet::EastPoint => "#000000"@,
            Planet::Ascendant => "#000000"@,
            Planet::MC => "#000000"@,
            Planet::BlackMoonLilith => "#000000"@,
            Planet::WhiteMoonSelena => "#FFFFFF"@,
            Planet::Regulus => "#FFD700"@,
            Planet::Spica => "#FFD700"@,
            Planet::Antares => "#FFD700"@,
            Planet::Aldebaran => "#FFD700"@,
        }
    }

    /// The name of the body in lower case, words joined by underscores, as
    /// text.
    pub open spec fn name_text(self) -> Seq<char> {
        match self {
            Planet::Sun => "sun"@,
            Planet::Moon => "moon"@,
            Planet::Mercury => "mercury"@,
            Planet::Venus => "venus"@,
            Planet::Mars => "mars"@,
            Planet::Jupiter => "jupiter"@,
            Planet::Saturn => "saturn"@,
            Planet::Uranus => "uranus"@,
            Planet::Neptune => "neptune"@,
            Planet::Pluto => "pluto"@,
            Planet::Ceres => "ceres"@,
            Planet::Pallas => "pallas"@,
            Planet::Juno => "juno"@,
            Planet::Vesta => "vesta"@,
            Planet::Chiron => "chiron"@,
            Planet::TrueNode => "true_node"@,
            Planet::MeanNode => "mean_node"@,
            Planet::Cupido => "cupido"@,
            Planet::Hades => "hades"@,
            Planet::Zeus => "zeus"@,
            Planet::Kronos => "kronos"@,
            Planet::Apollon => "apollon"@,
            Planet::Admetos => "admetos"@,
            Planet::Vulkanus => "vulkanus"@,
            Planet::Poseidon => "poseidon"@,
            Planet::Vertex => "vertex"@,
            Planet::EastPoint => "east_point"@,
            Planet::Ascendant => "ascendant"@,
            Planet::MC => "mc"@,
            Planet::BlackMoonLilith => "black_moon_lilith"@,
            Planet::WhiteMoonSelena => "white_moon_selena"@,
            Planet::Regulus => "regulus"@,
            Planet::Spica => "spica"@,
            Planet::Antares => "antares"@,
            Planet::Aldebaran => "aldebaran"@,
        }
    }

    /// The orbital period of the body in millionths of a year, where it has
    /// one.
    pub open spec fn period(self) -> Option<i64> {
        match self {
            Planet::Sun => None,
            Planet::Moon => Some(74_800),
            Planet::Mercury => Some(240_800),
            Planet::Venus => Some(615_200),
            Planet::Mars => Some(1_880_900),
            Planet::Jupiter => Some(11_862_600),
            Planet::Saturn => Some(29_447_500),
            Planet::Uranus => Some(84_016_800),
            Planet::Neptune => Some(164_791_300),
            Planet::Pluto => Some(247_920_700),
            Planet::Ceres => None,
            Planet::Pallas => None,
            Planet::Juno => None,
            Planet::Vesta => None,
            Planet::Chiron => Some(50_700_000),
            Planet::TrueNode => None,
            Planet::MeanNode => None,
            Planet::Cupido => None,
            Planet::Hades => None,
            Planet::Zeus => None,
            Planet::Kronos => None,
            Planet::Apollon => None,
            Planet::Admetos => None,
            Planet::Vulkanus => None,
            Planet::Poseidon => None,
            Planet::Vertex => None,
            Planet::EastPoint => None,
            Planet::Ascendant => None,
            Planet::MC => None,
            Planet::BlackMoonLilith => None,
            Planet::WhiteMoonSelena => None,
            Planet::Regulus => None,
            Planet::Spica => None,
            Planet::Antares => None,
            Planet::Aldebaran => None,
        }
    }

    /// Whether the body is one of the ten from the Sun to Pluto.
    pub open spec fn is_main(self) -> bool {
        self.index() < 10
    }

    /// Whether the body is one of the eight points of the Hamburg School.
    pub open spec fn is_uranian(self) -> bool {
        17 <= self.index() < 25
    }

    /// The kind of the body.
    pub fn body_type(&self) -> (r: BodyType)
        ensures
            r == self.kind(),
    {
        match self {
            Planet::Sun => BodyType::Star,
            Planet::Moon => BodyType::Star,
            Planet::Mercury => BodyType::Planet,
            Planet::Venus => BodyType::Planet,
            Planet::Mars => BodyType::Planet,
            Planet::Jupiter => BodyType::Planet,
            Planet::Saturn => BodyType::Planet,
            Planet::Uranus => BodyType::Planet,
            Planet::Neptune => BodyType::Planet,
            Planet::Pluto => BodyType::DwarfPlanet,
            Planet::Ceres => BodyType::DwarfPlanet,
            Planet::Pallas => BodyType::Asteroid,
            Planet::Juno => BodyType::Asteroid,
            Planet::Vesta => BodyType::Asteroid,
            Planet::Chiron => BodyType::Centaur,
            Planet::TrueNode => BodyType::LunarNode,
            Planet::MeanNode => BodyType::LunarNode,
            Planet::Cupido => BodyType::TransNeptunian,
            Planet::Hades => BodyType::TransNeptunian,
            Planet::Zeus => BodyType::TransNeptunian,
            Planet::Kronos => BodyType::TransNeptunian,
            Planet::Apollon => BodyType::TransNeptunian,
            Planet::Admetos => BodyType::TransNeptunian,
            Planet::Vulkanus => BodyType::TransNeptunian,
            Planet::Poseidon => BodyType::TransNeptunian,
            Planet::Vertex => BodyType::Angle,
            Planet::EastPoint => BodyType::Angle,
            Planet::Ascendant => BodyType::HouseCusp,
            Planet::MC => BodyType::HouseCusp,
            Planet::BlackMoonLilith => BodyType::Point,
            Planet::WhiteMoonSelena => BodyType::Point,
            Planet::Regulus => BodyType::Star,
            Planet::Spica => BodyType::Star,
            Planet::Antares => BodyType::Star,
            Planet::Aldebaran => BodyType::Star,
        }
    }

    /// The glyph of the body.
    pub fn symbol(&self) -> (r: &'static str)
        ensures
            r@ == self.symbol_text(),
    {
        match self {
            Planet::Sun => "☉",
            Planet::Moon => "☽",
            Planet::Mercury => "☿",
            Planet::Venus => "♀",
            Planet::Mars => "♂",
            Planet::Jupiter => "♃",
            Planet::Saturn => "♄",
            Planet::Uranus => "♅",
            Planet::Neptune => "♆",
            Planet::Pluto => "♇",
            Planet::Ceres => "⚳",
            Planet::Pallas => "⚴",
            Planet::Juno => "⚵",
            Planet::Vesta => "⚶",
            Planet::Chiron => "⚷",
            Planet::TrueNode => "☊",
            Planet::MeanNode => "☊",
            Planet::Cupido => "C",
            Planet::Hades => "H",
            Planet::Zeus => "Z",
            Planet::Kronos => "K",
            Planet::Apollon => "A",
            Planet::Admetos => "D",
            Planet::Vulkanus => "V",
            Planet::Poseidon => "P",
            Planet::Vertex => "Vx",
            Planet::EastPoint => "EP",
            Planet::Ascendant => "AC",
            Planet::MC => "MC",
            Planet::BlackMoonLilith => "⚸",
            Planet::WhiteMoonSelena => "⚪",
            Planet::Regulus => "★",
            Planet::Spica => "✧",
            Planet::Antares => "☆",
            Planet::Aldebaran => "✫",
        }
    }

    /// The colour of the body, as `#RRGGBB`.
    pub fn color(&self) -> (r: &'static str)
        ensures
            r@ == self.color_text(),
    {
        match self {
            Planet::Sun => "#FFD700",
            Planet::Moon => "#C0C0C0",
            Planet::Mercury => "#A9A9A9",
            Planet::Venus => "#FFA500",
            Planet::Mars => "#FF4500",
            Planet::Jupiter => "#DAA520",
            Planet::Saturn => "#8B4513",
            Planet::Uranus => "#00BFFF",
            Planet::Neptune => "#1E90FF",
            Planet::Pluto => "#9932CC",
            Planet::Ceres => "#8B4513",
            Planet::Pallas => "#228B22",
            Planet::Juno => "#FF69B4",
            Planet::Vesta => "#FF8C00",
            Planet::Chiron => "#32CD32",
            Planet::TrueNode => "#8A2BE2",
            Planet::MeanNode => "#8A2BE2",
            Planet::Cupido => "#4B0082",
            Planet::Hades => "#4B0082",
            Planet::Zeus => "#4B0082",
            Planet::Kronos => "#4B0082",
            Planet::Apollon => "#4B0082",
            Planet::Admetos => "#4B0082",
            Planet::Vulkanus => "#4B0082",
            Planet::Poseidon => "#4B0082",
            Planet::Vertex => "#000000",
            Planet::EastPoint => "#000000",
            Planet::Ascendant => "#000000",
            Planet::MC => "#000000",
            Planet::BlackMoonLilith => "#000000",
            Planet::WhiteMoonSelena => "#FFFFFF",
            Planet::Regulus => "#FFD700",
            Planet::Spica => "#FFD700",
            Planet::Antares => "#FFD700",
            Planet::Aldebaran => "#FFD700",
        }
    }

    /// The orbital period in millionths of a year. The Sun, the fixed stars
    /// and the points have none.
    pub fn orbital_period_years(&self) -> (r: Option<i64>)
        ensures
            r == self.period(),
    {
        match self {
            Planet::Sun => None,
            Planet::Moon => Some(74_800),
            Planet::Mercury => Some(240_800),
            Planet::Venus => Some(615_200),
            Planet::Mars => Some(1_880_900),
            Planet::Jupiter => Some(11_862_600),
            Planet::Saturn => Some(29_447_500),
            Planet::Uranus => Some(84_016_800),
            Planet::Neptune => Some(164_791_300),
            Planet::Pluto => Some(247_920_700),
            Planet::Ceres => None,
            Planet::Pallas => None,
            Planet::Juno => None,
            Planet::Vesta => None,
            Planet::Chiron => Some(50_700_000),
            Planet::TrueNode => None,
            Planet::MeanNode => None,
            Planet::Cupido => None,
            Planet::Hades => None,
            Planet::Zeus => None,
            Planet::Kronos => None,
            Planet::Apollon => None,
            Planet::Admetos => None,
            Planet::Vulkanus => None,
            Planet::Poseidon => None,
            Planet::Vertex => None,
            Planet::EastPoint => None,
            Planet::Ascendant => None,
            Planet::MC => None,
            Planet::BlackMoonLilith => None,
            Planet::WhiteMoonSelena => None,
            Planet::Regulus => None,
            Planet::Spica => None,
            Planet::Antares => None,
            Planet::Aldebaran => None,
        }
    }

    /// Whether the body is one of the ten from the Sun to Pluto.
    pub fn is_main_planet(&self) -> (r: bool)
        ensures
            r == self.is_main(),
    {
        matches!(
            self,
            Planet::Sun | Planet::Moon | Planet::Mercury | Planet::Venus | Planet::Mars |
            Planet::Jupiter | Planet::Saturn | Planet::Uranus | Planet::Neptune | Planet::Pluto
        )
    }

    /// Whether the body is one of the eight points of the Hamburg School.
    pub fn is_uranian_point(&self) -> (r: bool)
        ensures
            r == self.is_uranian(),
    {
        matches!(
            self,
            Planet::Cupido | Planet::Hades | Planet::Zeus | Planet::Kronos | Planet::Apollon |
            Planet::Admetos | Planet::Vulkanus | Planet::Poseidon
        )
    }

    /// The name of the body in lower case, words joined by underscores.
    pub fn name(&self) -> (r: &'static str)
        ensures
            r@ == self.name_text(),
    {
        match self {
            Planet::Sun => "sun",
            Planet::Moon => "moon",
            Planet::Mercury => "mercury",
            Planet::Venus => "venus",
            Planet::Mars => "mars",
            Planet::Jupiter => "jupiter",
            Planet::Saturn => "saturn",
            Planet::Uranus => "uranus",
            Planet::Neptune => "neptune",
            Planet::Pluto => "pluto",
            Planet::Ceres => "ceres",
            Planet::Pallas => "pallas",
            Planet::Juno => "juno",
            Planet::Vesta => "vesta",
            Planet::Chiron => "chiron",
            Planet::TrueNode => "true_node",
            Planet::MeanNode => "mean_node",
            Planet::Cupido => "cupido",
            Planet::Hades => "hades",
            Planet::Zeus => "zeus",
            Planet::Kronos => "kronos",
            Planet::Apollon => "apollon",
            Planet::Admetos => "admetos",
            Planet::Vulkanus => "vulkanus",
            Planet::Poseidon => "poseidon",
            Planet::Vertex => "vertex",
            Planet::EastPoint => "east_point",
            Planet::Ascendant => "ascendant",
            Planet::MC => "mc",
            Planet::BlackMoonLilith => "black_moon_lilith",
            Planet::WhiteMoonSelena => "white_moon_selena",
            Planet::Regulus => "regulus",
            Planet::Spica => "spica",
            Planet::Antares => "antares",
            Planet::Aldebaran => "aldebaran",
        }
    }

    /// The name of the body, as an owned string.
    pub fn to_string(&self) -> (r: String)
        ensures
            r@ == self.name_text(),
    {
        String::from_str(self.name())
    }

    /// All bodies, in their order.
    pub fn all() -> (r: Vec<Planet>)
        ensures
            r@ == Planet::every(),
    {
        let all = vec![
            Planet::Sun,
            Planet::Moon,
            Planet::Mercury,
            Planet::Venus,
            Planet::Mars,
            Planet::Jupiter,
            Planet::Saturn,
            Planet::Uranus,
            Planet::Neptune,
            Planet::Pluto,
            Planet::Ceres,
            Planet::Pallas,
            Planet::Juno,
            Planet::Vesta,
            Planet::Chiron,
            Planet::TrueNode,
            Planet::MeanNode,
            Planet::Cupido,
            Planet::Hades,
            Planet::Zeus,
            Planet::Kronos,
            Planet::Apollon,
            Planet::Admetos,
            Planet::Vulkanus,
            Planet::Poseidon,
            Planet::Vertex,
            Planet::EastPoint,
            Planet::Ascendant,
            Planet::MC,
            Planet::BlackMoonLilith,
            Planet::WhiteMoonSelena,
            Planet::Regulus,
            Planet::Spica,
            Planet::Antares,
            Planet::Aldebaran,
        ];
        assert(all@ =~= Planet::every());
        all
    }

    /// The body that a text names, if it names one.
    pub open spec fn named(text: Seq<char>) -> Option<Planet> {
        if exists|planet: Planet| planet.name_text() == text {
            Some(choose|planet: Planet| planet.name_text() == text)
        } else {
            None
        }
    }

    /// The body of a name, as [`Planet::name`] gives it; `None` for a text
    /// that names no body.
    pub fn from_name(name: &str) -> (r: Option<Planet>)
        ensures
            r == Planet::named(name@),
            r matches Some(planet) ==> planet.name_text() == name@,
            r is None ==> forall|planet: Planet| planet.name_text() != name@,
    {
        let given = String::from_str(name);
        let all = Planet::all();
        let mut i: usize = 0;
        while i < all.len()
            invariant
                all@ == Planet::every(),
                given@ == name@,
                i <= all@.len(),
                forall|k: int| 0 <= k < i ==> (#[trigger] all@[k]).name_text() != name@,
            decreases all@.len() - i,
        {
            let candidate = String::from_str(all[i].name());
            if candidate == given {
                proof {
                    let chosen = choose|planet: Planet| planet.name_text() == name@;
                    lemma_names_distinct(chosen, all@[i as int]);
                }
                return Some(all[i]);
            }
            i = i + 1;
        }
        proof {
            assert forall|planet: Planet| planet.name_text() != name@ by {
                assert(Planet::every()[planet.index()] == planet);
            }
        }
        None
    }
}

/// The position of a body in a chart, with what is derived from it.
#[derive(Debug, Clone, Copy, PartialEq, Eq, Structural)]
pub struct PlanetPosition {
    /// The body.
    pub planet: Planet,
    /// Ecliptic longitude, in `[0, 360°)`.
    pub longitude: i64,
    /// Ecliptic latitude, between -90° and 90°.
    pub latitude: i64,
    /// Distance from Earth; the same as `distance_au`.
    pub distance: i64,
    /// Distance from Earth, in millionths of an astronomical unit.
    pub distance_au: i64,
    /// Distance from Earth, in millionths of a kilometre.
    pub distance_km: i128,
    /// Daily motion in longitude.
    pub speed: i64,
    /// Daily motion in latitude.
    pub speed_latitude: i64,
    /// Whether the body moves backwards.
    pub is_retrograde: bool,
    /// Apparent size, in millionths of a second of arc.
    pub apparent_size: i64,
    /// Apparent magnitude, in millionths.
    pub magnitude: i64,
    /// Phase, between 0 and 1.
    pub phase: i64,
    /// Elongation from the Sun, between 0° and 180°.
    pub elongation: i64,
    /// Altitude above the horizon, between -90° and 90°.
    pub altitude: i64,
    /// Azimuth, in `[0, 360°)`.
    pub azimuth: i64,
    /// The house, from 1 to 12, once it is known.
    pub house: Option<u8>,
    /// The sign, from 0 for Aries to 11 for Pisces.
    pub zodiac_sign: u8,
    /// Distance from the start of the sign, under 30°.
    pub zodiac_degree: i64,
    /// The longitude multiplied by the harmonic, in `[0, 360°)`.
    pub harmonic_position: i64,
    /// The harmonic, at least 1.
    pub harmonic: u32,
}

/// An elongation brought between 0° and 180°: wrapped, and taken the other
/// way round where it exceeds half a turn.
pub open spec fn folded_elongation(elongation: int) -> int {
    let wrapped = wrap_degrees(elongation);
    if wrapped > 180_000_000 {
        360_000_000 - wrapped
    } else {
        wrapped
    }
}

/// Kilometres, in millionths, of a distance in millionths of an astronomical
/// unit of 149 597 870.7 km, rounded toward zero.
pub open spec fn kilometres(distance_au: int) -> int {
    trunc_div(distance_au * 1_495_978_707, 10)
}

/// A value limited to what a byte holds.
pub open spec fn byte_of(x: int) -> int {
    clamped(x, 0, 255)
}

impl PlanetPosition {
    /// Whether the position keeps its rules: longitude and azimuth on the
    /// circle, latitude and altitude between the poles, the sign and the
    /// degree in it made of the longitude, and the harmonic position made of
    /// longitude and harmonic.
    pub open spec fn wf(self) -> bool {
        &&& in_circle(self.longitude as int)
        &&& -90_000_000 <= self.latitude <= 90_000_000
        &&& 0 <= self.phase <= 1_000_000
        &&& 0 <= self.elongation <= 180_000_000
        &&& -90_000_000 <= self.altitude <= 90_000_000
        &&& in_circle(self.azimuth as int)
        &&& self.zodiac_sign == self.longitude / 30_000_000
        &&& self.zodiac_degree == self.longitude % 30_000_000
        &&& self.harmonic >= 1
        &&& self.harmonic_position == angle_multiply(self.longitude as int, self.harmonic as int)
        &&& self.distance == self.distance_au
        &&& self.distance_km == kilometres(self.distance_au as int)
        &&& self.house matches Some(house) ==> 1 <= house <= 12
    }

    /// This position with the measured quantities replaced and the derived
    /// ones made anew; the body, the harmonic, the house and the horizontal
    /// coordinates stay.
    pub open spec fn updated(
        self,
        longitude: int,
        latitude: int,
        distance_au: i64,
        speed: i64,
        speed_latitude: i64,
        is_retrograde: bool,
        apparent_size: i64,
        magnitude: i64,
        phase: int,
        elongation: int,
    ) -> PlanetPosition {
        PlanetPosition {
            planet: self.planet,
            longitude: wrap_degrees(longitude) as i64,
            latitude: clamped(latitude, -90_000_000, 90_000_000) as i64,
            distance: distance_au,
            distance_au,
            distance_km: kilometres(distance_au as int) as i128,
            speed,
            speed_latitude,
            is_retrograde,
            apparent_size,
            magnitude,
            phase: clamped(phase, 0, 1_000_000) as i64,
            elongation: folded_elongation(elongation) as i64,
            altitude: self.altitude,
            azimuth: self.azimuth,
            house: self.house,
            zodiac_sign: (wrap_degrees(longitude) / 30_000_000) as u8,
            zodiac_degree: (wrap_degrees(longitude) % 30_000_000) as i64,
            harmonic_position: angle_multiply(wrap_degrees(longitude), self.harmonic as int) as i64,
            harmonic: self.harmonic,
        }
    }

    /// A position of a body in a harmonic, with nothing measured yet.
    pub open spec fn blank(planet: Planet, harmonic: u32) -> PlanetPosition {
        PlanetPosition {
            planet,
            longitude: 0,
            latitude: 0,
            distance: 0,
            distance_au: 0,
            distance_km: 0,
            speed: 0,
            speed_latitude: 0,
            is_retrograde: false,
            apparent_size: 0,
            magnitude: 0,
            phase: 0,
            elongation: 0,
            altitude: 0,
            azimuth: 0,
            house: None,
            zodiac_sign: 0,
            zodiac_degree: 0,
            harmonic_position: 0,
            harmonic,
        }
    }

    /// The position written as degrees and minutes in its sign, such as
    /// `15°30' Aries`, with `(R)` after it for a body that moves backwards.
    pub open spec fn formatted_text(self) -> Seq<char> {
        let degrees = byte_of(self.zodiac_degree as int / 1_000_000);
        let minutes = byte_of(((self.zodiac_degree - degrees * 1_000_000) * 60) / 1_000_000);
        decimal_text(degrees as nat) + "°"@ + padded_text(minutes) + "' "@ + ZodiacSign::at(
            self.zodiac_sign as int % 12,
        ).name_text() + if self.is_retrograde {
            " (R)"@
        } else {
            ""@
        }
    }

    /// The position in a harmonic: the longitude multiplied by it and wrapped
    /// onto the circle.
    pub open spec fn in_harmonic(self, harmonic: int) -> int {
        angle_multiply(self.longitude as int, harmonic)
    }

    /// This position in another harmonic: the harmonic is capped at 90 and
    /// the harmonic position derived from it; all else stays.
    pub open spec fn with_harmonic(self, harmonic: u32) -> PlanetPosition {
        let capped = if harmonic > 90 {
            90u32
        } else {
            harmonic
        };
        PlanetPosition {
            harmonic: capped,
            harmonic_position: angle_multiply(self.longitude as int, capped as int) as i64,
            ..self
        }
    }

    /// The position of a body. The longitude is wrapped onto the circle, the
    /// latitude limited to the poles, the phase to `[0, 1]` and the elongation
    /// brought between 0° and 180°. The sign, the degree in it and the
    /// harmonic position are derived from these. Altitude, azimuth and house
    /// are not known yet.
    ///
    /// A harmonic is at least 1; callers reject 0 before they get here.
    pub fn new(
        planet: Planet,
        longitude: i64,
        latitude: i64,
        distance_au: i64,
        speed: i64,
        speed_latitude: i64,
        is_retrograde: bool,
        apparent_size: i64,
        magnitude: i64,
        phase: i64,
        elongation: i64,
        harmonic: u32,
    ) -> (r: PlanetPosition)
        requires
            harmonic >= 1,
        ensures
            r == PlanetPosition::blank(planet, harmonic).updated(
                longitude as int,
                latitude as int,
                distance_au,
                speed,
                speed_latitude,
                is_retrograde,
                apparent_size,
                magnitude,
                phase as int,
                elongation as int,
            ),
            r.wf(),
    {
        let mut position = PlanetPosition {
            planet,
            longitude: 0,
            latitude: 0,
            distance: 0,
            distance_au: 0,
            distance_km: 0,
            speed: 0,
            speed_latitude: 0,
            is_retrograde: false,
            apparent_size: 0,
            magnitude: 0,
            phase: 0,
            elongation: 0,
            altitude: 0,
            azimuth: 0,
            house: None,
            zodiac_sign: 0,
            zodiac_degree: 0,
            harmonic_position: 0,
            harmonic,
        };
        position.update_position(
            longitude,
            latitude,
            distance_au,
            speed,
            speed_latitude,
            is_retrograde,
            apparent_size,
            magnitude,
            phase,
            elongation,
        );
        position
    }

    /// The name of the sign of the position.
    pub fn zodiac_sign_name(&self) -> (r: &'static str)
        ensures
            r@ == ZodiacSign::at(self.zodiac_sign as int % 12).name_text(),
    {
        let index: u8 = self.zodiac_sign % 12;
        let sign = if index == 0 {
            ZodiacSign::Aries
        } else if index == 1 {
            ZodiacSign::Taurus
        } else if index == 2 {
            ZodiacSign::Gemini
        } else if index == 3 {
            ZodiacSign::Cancer
        } else if index == 4 {
            ZodiacSign::Leo
        } else if index == 5 {
            ZodiacSign::Virgo
        } else if index == 6 {
            ZodiacSign::Libra
        } else if index == 7 {
            ZodiacSign::Scorpio
        } else if index == 8 {
            ZodiacSign::Sagittarius
        } else if index == 9 {
            ZodiacSign::Capricorn
        } else if index == 10 {
            ZodiacSign::Aquarius
        } else {
            ZodiacSign::Pisces
        };
        sign.name()
    }

    /// The position as degrees and minutes in its sign.
    pub fn to_formatted_string(&self) -> (r: String)
        ensures
            r@ == self.formatted_text(),
    {
        let degrees: i64 = if self.zodiac_degree < 0 {
            0
        } else if self.zodiac_degree / 1_000_000 > 255 {
            255
        } else {
            self.zodiac_degree / 1_000_000
        };
        let rest: i128 = (self.zodiac_degree as i128 - (degrees as i128) * 1_000_000) * 60;
        let minutes: i64 = if rest < 0 {
            0
        } else if rest / 1_000_000 > 255 {
            255
        } else {
            (rest / 1_000_000) as i64
        };
        let mut out = String::new();
        push_decimal(&mut out, degrees as u64);
        out.append("°");
        push_padded(&mut out, minutes);
        out.append("' ");
        out.append(self.zodiac_sign_name());
        if self.is_retrograde {
            out.append(" (R)");
        } else {
            out.append("");
        }
        assert(out@ =~= self.formatted_text());
        out
    }

    /// Replaces what was measured and derives the rest anew.
    pub fn update_position(
        &mut self,
        longitude: i64,
        latitude: i64,
        distance_au: i64,
        speed: i64,
        speed_latitude: i64,
        is_retrograde: bool,
        apparent_size: i64,
        magnitude: i64,
        phase: i64,
        elongation: i64,
    )
        ensures
            *final(self) == old(self).updated(
                longitude as int,
                latitude as int,
                distance_au,
                speed,
                speed_latitude,
                is_retrograde,
                apparent_size,
                magnitude,
                phase as int,
                elongation as int,
            ),
            in_circle(final(self).longitude as int),
            final(self).zodiac_sign < 12,
            0 <= final(self).zodiac_degree < 30_000_000,
    {
        self.longitude = normalize_degrees(longitude);
        self.latitude = clamp(latitude as i128, -90_000_000, 90_000_000);
        self.distance = distance_au;
        self.distance_au = distance_au;
        self.distance_km = ((distance_au as i128) * 1_495_978_707) / 10;
        self.speed = speed;
        self.speed_latitude = speed_latitude;
        self.is_retrograde = is_retrograde;
        self.apparent_size = apparent_size;
        self.magnitude = magnitude;
        self.phase = clamp(phase as i128, 0, 1_000_000);
        let normalized_elongation: i64 = normalize_degrees(elongation);
        self.elongation = if normalized_elongation > 180_000_000 {
            360_000_000 - normalized_elongation
        } else {
            normalized_elongation
        };
        self.zodiac_sign = (self.longitude / 30_000_000) as u8;
        self.zodiac_degree = self.longitude % 30_000_000;
        self.harmonic_position = multiply_angle(self.longitude, self.harmonic);
    }

    /// Sets the harmonic and derives the harmonic position anew. A harmonic
    /// of 0 is refused: the position stays as it was. A harmonic over 90 is
    /// taken as 90.
    pub fn set_harmonic(&mut self, harmonic: u32)
        ensures
            harmonic == 0 ==> *final(self) == *old(self),
            harmonic != 0 ==> *final(self) == old(self).with_harmonic(harmonic),
            harmonic != 0 ==> 1 <= final(self).harmonic <= MAX_HARMONIC,
    {
        if harmonic == 0 {
            return ;
        }
        self.harmonic = if harmonic > MAX_HARMONIC {
            MAX_HARMONIC
        } else {
            harmonic
        };
        self.harmonic_position = multiply_angle(self.longitude, self.harmonic);
    }

    /// Sets the house, if it is one of the twelve; another number is ignored.
    pub fn set_house(&mut self, house: u8)
        ensures
            1 <= house <= 12 ==> *final(self) == (PlanetPosition {
                house: Some(house),
                ..*old(self)
            }),
            !(1 <= house <= 12) ==> *final(self) == *old(self),
    {
        if 1 <= house && house <= 12 {
            self.house = Some(house);
        }
    }

    /// Sets the horizontal coordinates: the altitude limited to the poles,
    /// the azimuth wrapped onto the circle.
    pub fn set_horizontal_coords(&mut self, altitude: i64, azimuth: i64)
        ensures
            *final(self) == (PlanetPosition {
                altitude: clamped(altitude as int, -90_000_000, 90_000_000) as i64,
                azimuth: wrap_degrees(azimuth as int) as i64,
                ..*old(self)
            }),
    {
        self.altitude = clamp(altitude as i128, -90_000_000, 90_000_000);
        self.azimuth = normalize_degrees(azimuth);
    }

    /// The position in a harmonic.
    ///
    /// A harmonic is at least 1; callers reject 0 before they get here.
    pub fn get_harmonic_position(&self, harmonic: u32) -> (r: i64)
        requires
            harmonic >= 1,
        ensures
            r == self.in_harmonic(harmonic as int),
            in_circle(r as int),
    {
        multiply_angle(self.longitude, harmonic)
    }
}

/// The positions of the bodies at one moment and place.
#[derive(Debug)]
pub struct ChartPositions {
    /// One position for each body entered, in the order of entry.
    pub positions: PlanetTable<PlanetPosition>,
    /// The moment, in seconds since the start of 1970.
    pub datetime: i64,
    /// The place, as latitude and longitude.
    pub location: (i64, i64),
}

impl Clone for ChartPositions {
    /// A chart with the same positions, moment and place.
    fn clone(&self) -> (r: ChartPositions)
        ensures
            r.positions@ == self.positions@,
            r.datetime == self.datetime,
            r.location == self.location,
    {
        ChartPositions {
            positions: self.positions.clone(),
            datetime: self.datetime,
            location: (self.location.0, self.location.1),
        }
    }
}

impl Default for ChartPositions {
    /// An empty chart at the start of 1970, at latitude and longitude 0.
    fn default() -> (r: ChartPositions)
        ensures
            r.positions@.len() == 0,
            r.datetime == 0,
            r.location == (0i64, 0i64),
    {
        ChartPositions { positions: PlanetTable::new(), datetime: 0, location: (0, 0) }
    }
}

impl ChartPositions {
    /// An empty chart for a moment and a place.
    pub fn new(datetime: i64, location: (i64, i64)) -> (r: ChartPositions)
        ensures
            r.positions@.len() == 0,
            r.datetime == datetime,
            r.location == location,
    {
        ChartPositions { positions: PlanetTable::new(), datetime, location }
    }

    /// Enters the position of a body; a position entered before for the same
    /// body is replaced.
    pub fn add_position(&mut self, position: PlanetPosition)
        ensures
            final(self).positions@ == with_entry(
                old(self).positions@,
                position.planet,
                position,
            ),
            value_of(final(self).positions@, position.planet) == Some(position),
            final(self).datetime == old(self).datetime,
            final(self).location == old(self).location,
    {
        self.positions.insert(position.planet, position);
    }

    /// The position entered for a body, if there is one.
    pub fn get_position(&self, planet: &Planet) -> (r: Option<&PlanetPosition>)
        ensures
            r matches Some(position) ==> value_of(self.positions@, *planet) == Some(*position),
            r is None ==> value_of(self.positions@, *planet) is None,
    {
        self.positions.get(planet)
    }
}

/// A position made by [`PlanetPosition::new`] keeps its rules under every
/// later update, change of harmonic, house or horizontal coordinates.
pub proof fn lemma_updated_position_is_valid(
    position: PlanetPosition,
    longitude: int,
    latitude: int,
    distance_au: i64,
    phase: int,
    elongation: int,
)
    requires
        position.harmonic >= 1,
        -90_000_000 <= position.altitude <= 90_000_000,
        in_circle(position.azimuth as int),
        position.house matches Some(house) ==> 1 <= house <= 12,
    ensures
        position.updated(
            longitude,
            latitude,
            distance_au,
            position.speed,
            position.speed_latitude,
            position.is_retrograde,
            position.apparent_size,
            position.magnitude,
            phase,
            elongation,
        ).wf(),
{
}

/// What tells the names of the bodies apart: the length of a name with its
/// first, second and last character.
pub open spec fn name_mark(text: Seq<char>) -> (nat, char, char, char) {
    (text.len(), text[0], text[1], text.last())
}

/// No two bodies share a name: a body is known by its name.
pub proof fn lemma_names_distinct(first: Planet, second: Planet)
    requires
        first.name_text() == second.name_text(),
    ensures
        first == second,
{
    reveal_strlit("sun");
    reveal_strlit("moon");
    reveal_strlit("mercury");
    reveal_strlit("venus");
    reveal_strlit("mars");
    reveal_strlit("jupiter");
    reveal_strlit("saturn");
    reveal_strlit("uranus");
    reveal_strlit("neptune");
    reveal_strlit("pluto");
    reveal_strlit("ceres");
    reveal_strlit("pallas");
    reveal_strlit("juno");
    reveal_strlit("vesta");
    reveal_strlit("chiron");
    reveal_strlit("true_node");
    reveal_strlit("mean_node");
    reveal_strlit("cupido");
    reveal_strlit("hades");
    reveal_strlit("zeus");
    reveal_strlit("kronos");
    reveal_strlit("apollon");
    reveal_strlit("admetos");
    reveal_strlit("vulkanus");
    reveal_strlit("poseidon");
    reveal_strlit("vertex");
    reveal_strlit("east_point");
    reveal_strlit("ascendant");
    reveal_strlit("mc");
    reveal_strlit("black_moon_lilith");
    reveal_strlit("white_moon_selena");
    reveal_strlit("regulus");
    reveal_strlit("spica");
    reveal_strlit("antares");
    reveal_strlit("aldebaran");
    assert(name_mark(Planet::Sun.name_text()) == (3nat, 's', 'u', 'n'));
    assert(name_mark(Planet::Moon.name_text()) == (4nat, 'm', 'o', 'n'));
    assert(name_mark(Planet::Mercury.name_text()) == (7nat, 'm', 'e', 'y'));
    assert(name_mark(Planet::Venus.name_text()) == (5nat, 'v', 'e', 's'));
    assert(name_mark(Planet::Mars.name_text()) == (4nat, 'm', 'a', 's'));
    assert(name_mark(Planet::Jupiter.name_text()) == (7nat, 'j', 'u', 'r'));
    assert(name_mark(Planet::Saturn.name_text()) == (6nat, 's', 'a', 'n'));
    assert(name_mark(Planet::Uranus.name_text()) == (6nat, 'u', 'r', 's'));
    assert(name_mark(Planet::Neptune.name_text()) == (7nat, 'n', 'e', 'e'));
    assert(name_mark(Planet::Pluto.name_text()) == (5nat, 'p', 'l', 'o'));
    assert(name_mark(Planet::Ceres.name_text()) == (5nat, 'c', 'e', 's'));
    assert(name_mark(Planet::Pallas.name_text()) == (6nat, 'p', 'a', 's'));
    assert(name_mark(Planet::Juno.name_text()) == (4nat, 'j', 'u', 'o'));
    assert(name_mark(Planet::Vesta.name_text()) == (5nat, 'v', 'e', 'a'));
    assert(name_mark(Planet::Chiron.name_text()) == (6nat, 'c', 'h', 'n'));
    assert(name_mark(Planet::TrueNode.name_text()) == (9nat, 't', 'r', 'e'));
    assert(name_mark(Planet::MeanNode.name_text()) == (9nat, 'm', 'e', 'e'));
    assert(name_mark(Planet::Cupido.name_text()) == (6nat, 'c', 'u', 'o'));
    assert(name_mark(Planet::Hades.name_text()) == (5nat, 'h', 'a', 's'));
    assert(name_mark(Planet::Zeus.name_text()) == (4nat, 'z', 'e', 's'));
    assert(name_mark(Planet::Kronos.name_text()) == (6nat, 'k', 'r', 's'));
    assert(name_mark(Planet::Apollon.name_text()) == (7nat, 'a', 'p', 'n'));
    assert(name_mark(Planet::Admetos.name_text()) == (7nat, 'a', 'd', 's'));
    assert(name_mark(Planet::Vulkanus.name_text()) == (8nat, 'v', 'u', 's'));
    assert(name_mark(Planet::Poseidon.name_text()) == (8nat, 'p', 'o', 'n'));
    assert(name_mark(Planet::Vertex.name_text()) == (6nat, 'v', 'e', 'x'));
    assert(name_mark(Planet::EastPoint.name_text()) == (10nat, 'e', 'a', 't'));
    assert(name_mark(Planet::Ascendant.name_text()) == (9nat, 'a', 's', 't'));
    assert(name_mark(Planet::MC.name_text()) == (2nat, 'm', 'c', 'c'));
    assert(name_mark(Planet::BlackMoonLilith.name_text()) == (17nat, 'b', 'l', 'h'));
    assert(name_mark(Planet::WhiteMoonSelena.name_text()) == (17nat, 'w', 'h', 'a'));
    assert(name_mark(Planet::Regulus.name_text()) == (7nat, 'r', 'e', 's'));
    assert(name_mark(Planet::Spica.name_text()) == (5nat, 's', 'p', 'a'));
    assert(name_mark(Planet::Antares.name_text()) == (7nat, 'a', 'n', 's'));
    assert(name_mark(Planet::Aldebaran.name_text()) == (9nat, 'a', 'l', 'n'));
}

} // verus!
