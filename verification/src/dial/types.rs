//! The data that the two dials share: bodies, midpoints, axis points,
//! alignments and the state of a dial.

use vstd::prelude::*;
use vstd::string::StringExecFns;
use crate::models::harmonic::{fold_into_range, range_fold};
use crate::utils::angle::{circular_midpoint, in_circle, wrap_degrees, Angle};
use crate::utils::text::{push_tenths, tenths_text};

verus! {

/// The width of the face of the quarter dial, 90°.
pub const DIAL_RANGE: i64 = 90_000_000;

/// The harmonic whose range the quarter dial spans.
pub const DIAL_HARMONIC: u32 = 4;

/// The bodies that the dials show.
#[derive(Debug, Clone, Copy, PartialEq, Eq, Structural)]
pub enum Planet {
    Sun,
    Moon,
    Mercury,
    Venus,
    Mars,
    Jupiter,
    Saturn,
    Uranus,
    Neptune,
    Pluto,
    NorthNode,
    SouthNode,
    Chiron,
    Ascendant,
    Midheaven,
}

impl Planet {
    /// The glyph of the body, as text.
    pub open spec fn glyph_text(self) -> Seq<char> {
        match self {
            Planet::Sun => "☉"@,
            Planet::Moon => "☽"@,
            Planet::Mercury => "☿"@,
            Planet::Venus => "♀"@,
            Planet::Mars => "♂"@,
            Planet::Jupiter => "♃"@,
            Planet::Saturn => "♄"@,
            Planet::Uranus => "♅"@,
            Planet::Neptune => "♆"@,
            Planet::Pluto => "♇"@,
            Planet::NorthNode => "☊"@,
            Planet::SouthNode => "☋"@,
            Planet::Chiron => "⚷"@,
            Planet::Ascendant => "AC"@,
            Planet::Midheaven => "MC"@,
        }
    }

    /// The bodies that a chart lists, in their usual order.
    pub open spec fn listed() -> Seq<Planet> {
        seq![
            Planet::Sun,
            Planet::Moon,
            Planet::Mercury,
            Planet::Venus,
            Planet::Mars,
            Planet::Jupiter,
            Planet::Saturn,
            Planet::Uranus,
            Planet::Neptune,
            Planet::Pluto,
            Planet::NorthNode,
            Planet::Chiron,
            Planet::Ascendant,
            Planet::Midheaven,
        ]
    }

    /// The glyph of the body.
    pub fn glyph(&self) -> (r: &'static str)
        ensures
            r@ == self.glyph_text(),
    {
        match self {
            Planet::Sun => "☉",
            Planet::Moon => "☽",
            Planet::Mercury => "☿",
            Planet::Venus => "♀",
            Planet::Mars => "♂",
            Planet::Jupiter => "♃",
            Planet::Saturn => "♄",
            Planet::Uranus => "♅",
            Planet::Neptune => "♆",
            Planet::Pluto => "♇",
            Planet::NorthNode => "☊",
            Planet::SouthNode => "☋",
            Planet::Chiron => "⚷",
            Planet::Ascendant => "AC",
            Planet::Midheaven => "MC",
        }
    }

    /// The bodies that a chart lists. The south node is not among them: it
    /// lies opposite the north node.
    pub fn all() -> (r: Vec<Planet>)
        ensures
            r@ == Planet::listed(),
    {
        let all = vec![
            Planet::Sun,
            Planet::Moon,
            Planet::Mercury,
            Planet::Venus,
            Planet::Mars,
            Planet::Jupiter,
            Planet::Saturn,
            Planet::Uranus,
            Planet::Neptune,
            Planet::Pluto,
            Planet::NorthNode,
            Planet::Chiron,
            Planet::Ascendant,
            Planet::Midheaven,
        ];
        assert(all@ =~= Planet::listed());
        all
    }
}

/// A body with its place on the ecliptic. All three quantities count
/// millionths of a degree (the speed: per day).
#[derive(Debug, Clone, Copy, PartialEq, Eq, Structural)]
pub struct PlanetPosition {
    pub planet: Planet,
    pub longitude: i64,
    pub latitude: i64,
    pub speed: i64,
}

impl PlanetPosition {
    /// The position of a body.
    pub fn new(planet: Planet, longitude: i64, latitude: i64, speed: i64) -> (r: PlanetPosition)
        ensures
            r == (PlanetPosition { planet, longitude, latitude, speed }),
    {
        PlanetPosition { planet, longitude, latitude, speed }
    }

    /// The position on the quarter dial: the longitude folded into 90°.
    pub open spec fn dial_position_spec(self) -> int {
        range_fold(self.longitude as int, 4)
    }

    /// The position on the quarter dial: the longitude folded into 90°.
    pub fn dial_position(&self) -> (r: i64)
        ensures
            r == self.dial_position_spec(),
            0 <= r < DIAL_RANGE,
    {
        fold_into_range(self.longitude, DIAL_HARMONIC)
    }
}

/// The midpoint of two bodies.
#[derive(Debug, Clone, Copy, PartialEq, Eq, Structural)]
pub struct Midpoint {
    pub planet1: Planet,
    pub planet2: Planet,
    /// The midpoint on the full circle.
    pub position: i64,
    /// The midpoint folded into the quarter dial.
    pub dial_position: i64,
}

impl Midpoint {
    /// The midpoint that two bodies at the given longitudes have: its place on
    /// the full circle is the circular midpoint of the two, its place on the
    /// quarter dial that midpoint folded into 90°.
    pub open spec fn between(planet1: Planet, pos1: int, planet2: Planet, pos2: int) -> Midpoint {
        let position = circular_midpoint(wrap_degrees(pos1), wrap_degrees(pos2));
        Midpoint {
            planet1,
            planet2,
            position: position as i64,
            dial_position: range_fold(position, 4) as i64,
        }
    }

    /// The label of the midpoint, as text: the two glyphs with a stroke
    /// between them.
    pub open spec fn label_text(self) -> Seq<char> {
        self.planet1.glyph_text() + "/"@ + self.planet2.glyph_text()
    }

    /// The midpoint of two bodies. The mean is taken on the full circle, on
    /// the shorter arc between the two; only then is it folded.
    pub fn new(planet1: Planet, pos1: i64, planet2: Planet, pos2: i64) -> (r: Midpoint)
        ensures
            r == Midpoint::between(planet1, pos1 as int, planet2, pos2 as int),
            in_circle(r.position as int),
            0 <= r.dial_position < DIAL_RANGE,
    {
        let position: i64 = Angle::from_degrees(pos1).midpoint(Angle::from_degrees(pos2)).degrees();
        let dial_position: i64 = fold_into_range(position, DIAL_HARMONIC);
        Midpoint { planet1, planet2, position, dial_position }
    }

    /// The two glyphs with a stroke between them.
    pub fn label(&self) -> (r: String)
        ensures
            r@ == self.label_text(),
    {
        let mut out = String::from_str(self.planet1.glyph());
        out.append("/");
        out.append(self.planet2.glyph());
        out
    }
}

/// The four points of the axis of the quarter dial.
#[derive(Debug, Clone, Copy, PartialEq, Eq, Structural)]
pub enum AxisPoint {
    Zero,
    TwentyTwoFive,
    FortyFive,
    SixtySevenFive,
}

impl AxisPoint {
    /// Place of the point on the axis, from 0 to 3.
    pub open spec fn index(self) -> int {
        match self {
            AxisPoint::Zero => 0,
            AxisPoint::TwentyTwoFive => 1,
            AxisPoint::FortyFive => 2,
            AxisPoint::SixtySevenFive => 3,
        }
    }

    /// The name of the point, as text.
    pub open spec fn name_text(self) -> Seq<char> {
        match self {
            AxisPoint::Zero => "Cardinal (0°)"@,
            AxisPoint::TwentyTwoFive => "Semi-Square (22.5°)"@,
            AxisPoint::FortyFive => "Semi-Square (45°)"@,
            AxisPoint::SixtySevenFive => "Sesquisquare (67.5°)"@,
        }
    }

    /// The four points in their order on the axis.
    pub open spec fn points() -> Seq<AxisPoint> {
        seq![
            AxisPoint::Zero,
            AxisPoint::TwentyTwoFive,
            AxisPoint::FortyFive,
            AxisPoint::SixtySevenFive,
        ]
    }

    /// The dial position of the point: 0°, 22.5°, 45° or 67.5°.
    pub open spec fn position(self) -> int {
        self.index() * 22_500_000
    }

    /// The dial position of the point.
    pub fn degrees(&self) -> (r: i64)
        ensures
            r == self.position(),
    {
        match self {
            AxisPoint::Zero => 0,
            AxisPoint::TwentyTwoFive => 22_500_000,
            AxisPoint::FortyFive => 45_000_000,
            AxisPoint::SixtySevenFive => 67_500_000,
        }
    }

    /// The four points in their order on the axis.
    pub fn all() -> (r: Vec<AxisPoint>)
        ensures
            r@ == AxisPoint::points(),
    {
        let all = vec![
            AxisPoint::Zero,
            AxisPoint::TwentyTwoFive,
            AxisPoint::FortyFive,
            AxisPoint::SixtySevenFive,
        ];
        assert(all@ =~= AxisPoint::points());
        all
    }

    /// The name of the point.
    pub fn name(&self) -> (r: &'static str)
        ensures
            r@ == self.name_text(),
    {
        match self {
            AxisPoint::Zero => "Cardinal (0°)",
            AxisPoint::TwentyTwoFive => "Semi-Square (22.5°)",
            AxisPoint::FortyFive => "Semi-Square (45°)",
            AxisPoint::SixtySevenFive => "Sesquisquare (67.5°)",
        }
    }
}

/// A midpoint or a body that stands on an axis point, with its distance from
/// the point.
#[derive(Debug, Clone, Copy, PartialEq, Eq, Structural)]
pub struct AxisAlignment {
    pub axis: AxisPoint,
    pub midpoint: Option<Midpoint>,
    pub planet: Option<PlanetPosition>,
    /// Distance from the axis point, in millionths of a degree.
    pub orb: i64,
}

impl AxisAlignment {
    /// What stands on the axis point, as text: the label of the midpoint, or
    /// else the glyph of the body.
    pub open spec fn subject_text(self) -> Seq<char> {
        match self.midpoint {
            Some(midpoint) => midpoint.label_text(),
            None => match self.planet {
                Some(planet) => planet.planet.glyph_text(),
                None => Seq::empty(),
            },
        }
    }

    /// The label of the alignment, as text.
    pub open spec fn label_text(self) -> Seq<char> {
        if self.midpoint is None && self.planet is None {
            "Unknown alignment"@
        } else {
            self.subject_text() + " on "@ + self.axis.name_text() + " (±"@ + tenths_text(
                self.orb as int,
            ) + "°)"@
        }
    }

    /// The alignment of a midpoint.
    pub fn new_midpoint(axis: AxisPoint, midpoint: Midpoint, orb: i64) -> (r: AxisAlignment)
        ensures
            r == (AxisAlignment { axis, midpoint: Some(midpoint), planet: None, orb }),
    {
        AxisAlignment { axis, midpoint: Some(midpoint), planet: None, orb }
    }

    /// The alignment of a body.
    pub fn new_planet(axis: AxisPoint, planet: PlanetPosition, orb: i64) -> (r: AxisAlignment)
        ensures
            r == (AxisAlignment { axis, midpoint: None, planet: Some(planet), orb }),
    {
        AxisAlignment { axis, midpoint: None, planet: Some(planet), orb }
    }

    /// The label of the alignment: what stands where, and the orb with one
    /// decimal place.
    pub fn label(&self) -> (r: String)
        ensures
            r@ == self.label_text(),
    {
        let mut out = match self.midpoint {
            Some(midpoint) => midpoint.label(),
            None => match self.planet {
                Some(planet) => String::from_str(planet.planet.glyph()),
                None => {
                    return String::from_str("Unknown alignment");
                },
            },
        };
        out.append(" on ");
        out.append(self.axis.name());
        out.append(" (±");
        push_tenths(&mut out, self.orb);
        out.append("°)");
        assert(out@ =~= self.label_text());
        out
    }
}

/// What stands on one axis point of the quarter dial at the present rotation.
#[derive(Debug, Clone)]
pub struct LiveAlignment {
    /// Where the axis point is drawn on the canvas.
    pub axis_canvas_angle: i64,
    pub axis_label: String,
    pub axis_point: AxisPoint,
    /// The dial position to which the axis point points now.
    pub target_dial_position: i64,
    /// The midpoints within the orb, each with its distance.
    pub aligned_midpoints: Vec<(Midpoint, i64)>,
    /// The bodies within the orb, each with its distance.
    pub aligned_planets: Vec<(PlanetPosition, i64)>,
}

/// The four cardinal points of the full dial.
#[derive(Debug, Clone, Copy, PartialEq, Eq, Structural)]
pub enum Cardinal360 {
    Aries,
    Cancer,
    Libra,
    Capricorn,
}

impl Cardinal360 {
    /// Place of the point on the circle, from 0 to 3.
    pub open spec fn index(self) -> int {
        match self {
            Cardinal360::Aries => 0,
            Cardinal360::Cancer => 1,
            Cardinal360::Libra => 2,
            Cardinal360::Capricorn => 3,
        }
    }

    /// The four points in their order on the circle.
    pub open spec fn points() -> Seq<Cardinal360> {
        seq![Cardinal360::Aries, Cardinal360::Cancer, Cardinal360::Libra, Cardinal360::Capricorn]
    }

    /// The longitude of the point: 0°, 90°, 180° or 270°.
    pub open spec fn position(self) -> int {
        self.index() * 90_000_000
    }

    /// The label of the point, as text.
    pub open spec fn label_text(self) -> Seq<char> {
        match self {
            Cardinal360::Aries => "0° (Aries)"@,
            Cardinal360::Cancer => "90° (Cancer)"@,
            Cardinal360::Libra => "180° (Libra)"@,
            Cardinal360::Capricorn => "270° (Capricorn)"@,
        }
    }
}

/// What stands on one cardinal point of the full dial at the present rotation.
#[derive(Debug, Clone)]
pub struct Live360Alignment {
    pub axis_angle: i64,
    pub axis_label: String,
    pub cardinal: Cardinal360,
    /// The longitude to which the point points now.
    pub target_position: i64,
    /// The midpoints within the orb, each with its distance.
    pub aligned_midpoints: Vec<(Midpoint, i64)>,
    /// The bodies within the orb, each with its distance.
    pub aligned_planets: Vec<(PlanetPosition, i64)>,
}

/// Where the pointer was last seen, in millionths of a pixel.
#[derive(Debug, Clone, Copy, PartialEq, Eq, Structural)]
pub struct PointerPosition {
    pub x: i64,
    pub y: i64,
}

/// The state of a dial: its rotation, what it shows, and the drag in course.
#[derive(Debug, Clone)]
pub struct DialState {
    /// Rotation of the dial, in `[0, 360°)`.
    pub rotation: i64,
    pub planets: Vec<PlanetPosition>,
    pub midpoints: Vec<Midpoint>,
    pub alignments: Vec<AxisAlignment>,
    /// The orb within which a position counts as aligned.
    pub orb_tolerance: i64,
    pub is_dragging: bool,
    /// Where the pointer was last seen during a drag.
    pub last_mouse_pos: Option<PointerPosition>,
}

impl Default for DialState {
    /// An empty dial at rest: no rotation, nothing shown, an orb of 1°.
    fn default() -> (r: DialState)
        ensures
            r.rotation == 0,
            r.planets@.len() == 0,
            r.midpoints@.len() == 0,
            r.alignments@.len() == 0,
            r.orb_tolerance == 1_000_000,
            r.is_idle(),
    {
        DialState {
            rotation: 0,
            planets: Vec::new(),
            midpoints: Vec::new(),
            alignments: Vec::new(),
            orb_tolerance: 1_000_000,
            is_dragging: false,
            last_mouse_pos: None,
        }
    }
}

impl DialState {
    /// At rest: no drag in course and no pointer position kept.
    pub open spec fn is_idle(self) -> bool {
        !self.is_dragging && self.last_mouse_pos is None
    }

    /// In a drag that started or last moved at `at`.
    pub open spec fn is_dragging_from(self, at: PointerPosition) -> bool {
        self.is_dragging && self.last_mouse_pos == Some(at)
    }

    /// The same state with another rotation.
    pub open spec fn with_rotation(self, rotation: int) -> DialState {
        DialState { rotation: rotation as i64, ..self }
    }

    /// An empty dial at rest.
    pub fn new() -> (r: DialState)
        ensures
            r.rotation == 0,
            r.planets@.len() == 0,
            r.midpoints@.len() == 0,
            r.alignments@.len() == 0,
            r.orb_tolerance == 1_000_000,
            r.is_idle(),
    {
        DialState::default()
    }

    /// Sets the rotation, wrapped into `[0, 360°)`.
    pub fn set_rotation(&mut self, rotation: i64)
        ensures
            *final(self) == old(self).with_rotation(wrap_degrees(rotation as int)),
            in_circle(final(self).rotation as int),
    {
        self.rotation = Angle::from_degrees(rotation).degrees();
    }

    /// Turns the dial by `delta`, which may be negative; the sum wraps into
    /// `[0, 360°)`.
    pub fn add_rotation(&mut self, delta: i64)
        ensures
            *final(self) == old(self).with_rotation(wrap_degrees(old(self).rotation + delta)),
            in_circle(final(self).rotation as int),
    {
        self.rotation = Angle::from_wide(self.rotation as i128 + delta as i128).degrees();
    }
}

} // verus!
