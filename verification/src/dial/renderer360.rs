//! What the full dial shows: the alignments with the four cardinal points at
//! the present rotation, and the geometry of its face. Painting itself is
//! left to the host.

use vstd::prelude::*;
use vstd::string::StringExecFns;
use crate::dial::alignment::{
    aligned_midpoints, aligned_planets, collect_aligned_midpoints, collect_aligned_planets,
    orb_difference, range_distance,
};
use crate::dial::renderer::{TickKind, LIVE_ORB_TOLERANCE};
use crate::dial::types::{Cardinal360, Live360Alignment, Midpoint, Planet, PlanetPosition};
use crate::utils::angle::{normalize_wide, wrap_degrees};

verus! {

/// Works out what the full dial shows. It holds no state.
pub struct DialRenderer360;

/// The longitude to which a cardinal point points when the dial is rotated.
pub open spec fn cardinal_target(cardinal: Cardinal360, rotation: int) -> int {
    wrap_degrees(cardinal.position() + rotation)
}

/// Whether `alignment` says what stands on `cardinal` of the full dial at the
/// given rotation: the midpoints and the bodies within `orb` of the longitude
/// to which the point points, each in the order of its list.
pub open spec fn is_live_360_alignment(
    alignment: Live360Alignment,
    cardinal: Cardinal360,
    planets: Seq<PlanetPosition>,
    midpoints: Seq<Midpoint>,
    rotation: int,
    orb: int,
) -> bool {
    &&& alignment.cardinal == cardinal
    &&& alignment.axis_angle == cardinal.position()
    &&& alignment.axis_label@ == cardinal.label_text()
    &&& alignment.target_position == cardinal_target(cardinal, rotation)
    &&& alignment.aligned_midpoints@ == aligned_midpoints(
        midpoints,
        true,
        cardinal_target(cardinal, rotation),
        orb,
    )
    &&& alignment.aligned_planets@ == aligned_planets(
        planets,
        true,
        cardinal_target(cardinal, rotation),
        orb,
    )
}

/// The weight of the mark at a whole degree of the full dial: long at the
/// start of every sign, middle every 10°.
pub open spec fn full_tick(degree: int) -> TickKind {
    if degree % 30 == 0 {
        TickKind::Major
    } else if degree % 10 == 0 {
        TickKind::Medium
    } else {
        TickKind::Minor
    }
}

/// The longitude at which the connection lines look for a body of the Sibley
/// chart. Only the first six bodies are drawn.
pub open spec fn sibley_longitude(planet: Planet) -> Option<int> {
    match planet {
        Planet::Sun => Some(103_190_000),
        Planet::Moon => Some(327_100_000),
        Planet::Mercury => Some(114_120_000),
        Planet::Venus => Some(63_060_000),
        Planet::Mars => Some(81_220_000),
        Planet::Jupiter => Some(95_560_000),
        _ => None,
    }
}

/// The four cardinal points in their order on the circle.
fn cardinal_points() -> (r: Vec<Cardinal360>)
    ensures
        r@ == Cardinal360::points(),
{
    let all = vec![
        Cardinal360::Aries,
        Cardinal360::Cancer,
        Cardinal360::Libra,
        Cardinal360::Capricorn,
    ];
    assert(all@ =~= Cardinal360::points());
    all
}

/// The longitude of a cardinal point.
fn angle_of_cardinal(cardinal: Cardinal360) -> (r: i64)
    ensures
        r == cardinal.position(),
{
    match cardinal {
        Cardinal360::Aries => 0,
        Cardinal360::Cancer => 90_000_000,
        Cardinal360::Libra => 180_000_000,
        Cardinal360::Capricorn => 270_000_000,
    }
}

/// The label of a cardinal point.
fn label_of_cardinal(cardinal: Cardinal360) -> (r: &'static str)
    ensures
        r@ == cardinal.label_text(),
{
    match cardinal {
        Cardinal360::Aries => "0° (Aries)",
        Cardinal360::Cancer => "90° (Cancer)",
        Cardinal360::Libra => "180° (Libra)",
        Cardinal360::Capricorn => "270° (Capricorn)",
    }
}

impl DialRenderer360 {
    /// A renderer.
    pub fn new() -> (r: DialRenderer360)
        ensures
            r == DialRenderer360,
    {
        DialRenderer360
    }

    /// What stands on each of the four cardinal points at the present
    /// rotation, within an orb of 1°. The result has one entry for each point,
    /// in the order of the points; an entry may be empty.
    pub fn calculate_360_alignments(
        &self,
        planets: &[PlanetPosition],
        midpoints: &[Midpoint],
        current_rotation: i64,
    ) -> (r: Vec<Live360Alignment>)
        ensures
            r@.len() == 4,
            forall|k: int|
                0 <= k < 4 ==> is_live_360_alignment(
                    #[trigger] r@[k],
                    Cardinal360::points()[k],
                    planets@,
                    midpoints@,
                    current_rotation as int,
                    LIVE_ORB_TOLERANCE as int,
                ),
    {
        self.calculate_360_alignments_within(
            planets,
            midpoints,
            current_rotation,
            LIVE_ORB_TOLERANCE,
        )
    }

    /// What stands on each of the four cardinal points at the present
    /// rotation, within the given orb. An orb of zero asks for exact
    /// alignment.
    pub fn calculate_360_alignments_within(
        &self,
        planets: &[PlanetPosition],
        midpoints: &[Midpoint],
        current_rotation: i64,
        orb_tolerance: i64,
    ) -> (r: Vec<Live360Alignment>)
        ensures
            r@.len() == 4,
            forall|k: int|
                0 <= k < 4 ==> is_live_360_alignment(
                    #[trigger] r@[k],
                    Cardinal360::points()[k],
                    planets@,
                    midpoints@,
                    current_rotation as int,
                    orb_tolerance as int,
                ),
    {
        let mut alignments: Vec<Live360Alignment> = Vec::new();
        let cardinals = cardinal_points();
        let mut i: usize = 0;
        while i < cardinals.len()
            invariant
                cardinals@ == Cardinal360::points(),
                i <= 4,
                alignments@.len() == i,
                forall|k: int|
                    0 <= k < i ==> is_live_360_alignment(
                        #[trigger] alignments@[k],
                        Cardinal360::points()[k],
                        planets@,
                        midpoints@,
                        current_rotation as int,
                        orb_tolerance as int,
                    ),
            decreases cardinals@.len() - i,
        {
            let cardinal: Cardinal360 = cardinals[i];
            let axis_angle: i64 = angle_of_cardinal(cardinal);
            let target_position: i64 = normalize_wide(
                axis_angle as i128 + current_rotation as i128,
            );
            let aligned_midpoints = collect_aligned_midpoints(
                midpoints,
                true,
                target_position,
                orb_tolerance,
            );
            let aligned_planets = collect_aligned_planets(
                planets,
                true,
                target_position,
                orb_tolerance,
            );
            alignments.push(
                Live360Alignment {
                    axis_angle,
                    axis_label: String::from_str(label_of_cardinal(cardinal)),
                    cardinal,
                    target_position,
                    aligned_midpoints,
                    aligned_planets,
                },
            );
            i = i + 1;
        }
        alignments
    }

    /// The distance between two longitudes, round the full circle.
    pub fn calculate_orb_difference_360(&self, position1: i64, position2: i64) -> (r: i64)
        requires
            0 <= position2 <= 360_000_000,
        ensures
            r == range_distance(position1 as int, position2 as int, 360_000_000),
    {
        orb_difference(position1, position2, 360_000_000)
    }

    /// The weight of the mark at a whole degree of the face.
    pub fn tick_kind(&self, degree: u32) -> (r: TickKind)
        ensures
            r == full_tick(degree as int),
    {
        if degree % 30 == 0 {
            TickKind::Major
        } else if degree % 10 == 0 {
            TickKind::Medium
        } else {
            TickKind::Minor
        }
    }

    /// The longitude of a body of the Sibley chart, for the connection lines;
    /// `None` for a body that is not drawn.
    pub fn find_planet_longitude(&self, planet: &Planet) -> (r: Option<i64>)
        ensures
            r is Some == sibley_longitude(*planet) is Some,
            r matches Some(longitude) ==> sibley_longitude(*planet) == Some(longitude as int),
    {
        match planet {
            Planet::Sun => Some(103_190_000),
            Planet::Moon => Some(327_100_000),
            Planet::Mercury => Some(114_120_000),
            Planet::Venus => Some(63_060_000),
            Planet::Mars => Some(81_220_000),
            Planet::Jupiter => Some(95_560_000),
            _ => None,
        }
    }

    /// Whether the marker of a cardinal point is lit: something stands on it.
    pub fn is_active(&self, alignment: &Live360Alignment) -> (r: bool)
        ensures
            r == (alignment.aligned_midpoints@.len() > 0 || alignment.aligned_planets@.len() > 0),
    {
        alignment.aligned_midpoints.len() > 0 || alignment.aligned_planets.len() > 0
    }
}

} // verus!
