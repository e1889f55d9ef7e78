//! Positions, midpoints and alignments of the quarter dial.

use vstd::prelude::*;
use crate::dial::alignment::{
    axis_target, midpoint_place, orb_difference, planet_place, range_distance, target_of_axis,
};
use crate::models::harmonic::fold_into_range;
use crate::dial::types::{AxisAlignment, AxisPoint, Midpoint, Planet, PlanetPosition};
use crate::utils::fixed::{trunc_div, trunc_rem};
use crate::utils::pairs::{index_pairs, pair_count, pair_indices};

verus! {

/// The seconds of a day.
pub const SECONDS_PER_DAY: i64 = 86_400;

/// Computes the positions of the bodies, their midpoints and what of them
/// stands on the axis of the quarter dial.
pub struct AstrologyCalculator;

/// The Sibley chart of the United States (4 July 1776, Philadelphia), as
/// longitudes on the full circle.
pub open spec fn us_sibley_chart() -> Seq<PlanetPosition> {
    seq![
        PlanetPosition { planet: Planet::Sun, longitude: 103_190_000, latitude: 0, speed: 0 },
        PlanetPosition { planet: Planet::Moon, longitude: 327_100_000, latitude: 0, speed: 0 },
        PlanetPosition { planet: Planet::Mercury, longitude: 114_120_000, latitude: 0, speed: 0 },
        PlanetPosition { planet: Planet::Venus, longitude: 63_060_000, latitude: 0, speed: 0 },
        PlanetPosition { planet: Planet::Mars, longitude: 81_220_000, latitude: 0, speed: 0 },
        PlanetPosition { planet: Planet::Jupiter, longitude: 95_560_000, latitude: 0, speed: 0 },
        PlanetPosition { planet: Planet::Saturn, longitude: 194_480_000, latitude: 0, speed: 0 },
        PlanetPosition { planet: Planet::Uranus, longitude: 68_550_000, latitude: 0, speed: 0 },
        PlanetPosition { planet: Planet::Neptune, longitude: 172_250_000, latitude: 0, speed: 0 },
        PlanetPosition { planet: Planet::Pluto, longitude: 297_330_000, latitude: 0, speed: 0 },
        PlanetPosition { planet: Planet::NorthNode, longitude: 126_350_000, latitude: 0, speed: 0 },
        PlanetPosition { planet: Planet::SouthNode, longitude: 306_350_000, latitude: 0, speed: 0 },
        PlanetPosition { planet: Planet::Ascendant, longitude: 252_210_000, latitude: 0, speed: 0 },
        PlanetPosition { planet: Planet::Midheaven, longitude: 181_190_000, latitude: 0, speed: 0 },
    ]
}

/// The mean daily motion that the sample positions give a body, in millionths
/// of a degree.
pub open spec fn daily_motion(planet: Planet) -> int {
    match planet {
        Planet::Sun => 985_600,
        Planet::Moon => 13_176_000,
        Planet::Mercury => 4_092_000,
        Planet::Venus => 1_602_000,
        Planet::Mars => 524_000,
        Planet::Jupiter => 83_000,
        Planet::Saturn => 33_000,
        Planet::Uranus => 12_000,
        Planet::Neptune => 6_000,
        Planet::Pluto => 4_000,
        Planet::NorthNode => 53_000,
        Planet::SouthNode => 53_000,
        Planet::Chiron => 20_000,
        Planet::Ascendant => 4_000_000,
        Planet::Midheaven => 4_000_000,
    }
}

/// The way a body has gone at its mean motion from the start of 1970 to the
/// second `timestamp`, rounded toward zero. It is negative before 1970.
pub open spec fn mean_travel(planet: Planet, timestamp: int) -> int {
    trunc_div(timestamp * daily_motion(planet), 86_400)
}

/// The sample longitude of a body at the second `timestamp`. Whole turns are
/// taken off and the sign is kept, so a moment before 1970 may give a negative
/// longitude. The nodes run backwards, from 360° and from 180°; the ascendant
/// runs a quarter turn ahead of the midheaven; every other body starts at 0°.
pub open spec fn sample_longitude(planet: Planet, timestamp: int) -> int {
    let travel = trunc_rem(mean_travel(planet, timestamp), 360_000_000);
    match planet {
        Planet::NorthNode => trunc_rem(360_000_000 - travel, 360_000_000),
        Planet::SouthNode => trunc_rem(180_000_000 - travel, 360_000_000),
        Planet::Ascendant => trunc_rem(mean_travel(planet, timestamp) + 90_000_000, 360_000_000),
        _ => travel,
    }
}

/// The sample position of a body at the second `timestamp`.
pub open spec fn sample_position(planet: Planet, timestamp: int) -> PlanetPosition {
    PlanetPosition {
        planet,
        longitude: sample_longitude(planet, timestamp) as i64,
        latitude: 0,
        speed: 0,
    }
}

/// The midpoint of the pair `(i, j)` of a list of positions.
pub open spec fn midpoint_of_pair(planets: Seq<PlanetPosition>, pair: (int, int)) -> Midpoint {
    Midpoint::between(
        planets[pair.0].planet,
        planets[pair.0].longitude as int,
        planets[pair.1].planet,
        planets[pair.1].longitude as int,
    )
}

/// The alignments of one midpoint with the first `count` axis points of a
/// dial turned by `rotation`, in the order of the points. The midpoint stands
/// on a point when it lies within `orb` of the position to which the point
/// points.
pub open spec fn midpoint_hits(midpoint: Midpoint, rotation: int, count: int, orb: int) -> Seq<
    AxisAlignment,
>
    decreases count,
{
    if count <= 0 {
        Seq::empty()
    } else {
        let before = midpoint_hits(midpoint, rotation, count - 1, orb);
        let axis = AxisPoint::points()[count - 1];
        let distance = range_distance(
            midpoint_place(midpoint, false),
            axis_target(axis.position(), rotation, 90_000_000),
            90_000_000,
        );
        if distance <= orb {
            before.push(
                AxisAlignment {
                    axis,
                    midpoint: Some(midpoint),
                    planet: None,
                    orb: distance as i64,
                },
            )
        } else {
            before
        }
    }
}

/// The alignments of one body with the first `count` axis points of a dial
/// turned by `rotation`, in the order of the points.
pub open spec fn planet_hits(planet: PlanetPosition, rotation: int, count: int, orb: int) -> Seq<
    AxisAlignment,
>
    decreases count,
{
    if count <= 0 {
        Seq::empty()
    } else {
        let before = planet_hits(planet, rotation, count - 1, orb);
        let axis = AxisPoint::points()[count - 1];
        let distance = range_distance(
            planet_place(planet, false),
            axis_target(axis.position(), rotation, 90_000_000),
            90_000_000,
        );
        if distance <= orb {
            before.push(
                AxisAlignment {
                    axis,
                    midpoint: None,
                    planet: Some(planet),
                    orb: distance as i64,
                },
            )
        } else {
            before
        }
    }
}

/// The alignments of a list of midpoints with the four axis points of a dial
/// turned by `rotation`: midpoint by midpoint, and for each midpoint point by
/// point.
pub open spec fn midpoint_alignments(midpoints: Seq<Midpoint>, rotation: int, orb: int) -> Seq<
    AxisAlignment,
>
    decreases midpoints.len(),
{
    if midpoints.len() == 0 {
        Seq::empty()
    } else {
        midpoint_alignments(midpoints.drop_last(), rotation, orb) + midpoint_hits(
            midpoints.last(),
            rotation,
            4,
            orb,
        )
    }
}

/// The alignments of a list of bodies with the four axis points of a dial
/// turned by `rotation`: body by body, and for each body point by point.
pub open spec fn planet_alignments(planets: Seq<PlanetPosition>, rotation: int, orb: int) -> Seq<
    AxisAlignment,
>
    decreases planets.len(),
{
    if planets.len() == 0 {
        Seq::empty()
    } else {
        planet_alignments(planets.drop_last(), rotation, orb) + planet_hits(
            planets.last(),
            rotation,
            4,
            orb,
        )
    }
}

/// What stands on the axis of the quarter dial turned by `rotation`: the
/// alignments of the midpoints, then those of the bodies.
pub open spec fn axis_alignments(
    planets: Seq<PlanetPosition>,
    midpoints: Seq<Midpoint>,
    rotation: int,
    orb: int,
) -> Seq<AxisAlignment> {
    midpoint_alignments(midpoints, rotation, orb) + planet_alignments(planets, rotation, orb)
}

/// The mean daily motion of a body, in millionths of a degree.
fn motion_per_day(planet: Planet) -> (r: i64)
    ensures
        r == daily_motion(planet),
        0 < r <= 13_176_000,
{
    match planet {
        Planet::Sun => 985_600,
        Planet::Moon => 13_176_000,
        Planet::Mercury => 4_092_000,
        Planet::Venus => 1_602_000,
        Planet::Mars => 524_000,
        Planet::Jupiter => 83_000,
        Planet::Saturn => 33_000,
        Planet::Uranus => 12_000,
        Planet::Neptune => 6_000,
        Planet::Pluto => 4_000,
        Planet::NorthNode => 53_000,
        Planet::SouthNode => 53_000,
        Planet::Chiron => 20_000,
        Planet::Ascendant => 4_000_000,
        Planet::Midheaven => 4_000_000,
    }
}

impl AstrologyCalculator {
    /// A calculator. It holds no state.
    pub fn new() -> (r: AstrologyCalculator)
        ensures
            r == AstrologyCalculator,
    {
        AstrologyCalculator
    }

    /// The Sibley chart of the United States.
    pub fn get_us_sibley_chart(&self) -> (r: Vec<PlanetPosition>)
        ensures
            r@ == us_sibley_chart(),
    {
        let chart = vec![
            PlanetPosition::new(Planet::Sun, 103_190_000, 0, 0),
            PlanetPosition::new(Planet::Moon, 327_100_000, 0, 0),
            PlanetPosition::new(Planet::Mercury, 114_120_000, 0, 0),
            PlanetPosition::new(Planet::Venus, 63_060_000, 0, 0),
            PlanetPosition::new(Planet::Mars, 81_220_000, 0, 0),
            PlanetPosition::new(Planet::Jupiter, 95_560_000, 0, 0),
            PlanetPosition::new(Planet::Saturn, 194_480_000, 0, 0),
            PlanetPosition::new(Planet::Uranus, 68_550_000, 0, 0),
            PlanetPosition::new(Planet::Neptune, 172_250_000, 0, 0),
            PlanetPosition::new(Planet::Pluto, 297_330_000, 0, 0),
            PlanetPosition::new(Planet::NorthNode, 126_350_000, 0, 0),
            PlanetPosition::new(Planet::SouthNode, 306_350_000, 0, 0),
            PlanetPosition::new(Planet::Ascendant, 252_210_000, 0, 0),
            PlanetPosition::new(Planet::Midheaven, 181_190_000, 0, 0),
        ];
        assert(chart@ =~= us_sibley_chart());
        chart
    }

    /// Sample positions of the listed bodies at a moment given as seconds
    /// since the start of 1970: each body moves at its mean daily motion.
    pub fn calculate_positions(&self, timestamp: i64) -> (r: Vec<PlanetPosition>)
        ensures
            r@.len() == Planet::listed().len(),
            forall|k: int|
                0 <= k < r@.len() ==> #[trigger] r@[k] == sample_position(
                    Planet::listed()[k],
                    timestamp as int,
                ),
    {
        let bodies = Planet::all();
        let mut positions: Vec<PlanetPosition> = Vec::new();
        let mut i: usize = 0;
        while i < bodies.len()
            invariant
                bodies@ == Planet::listed(),
                i <= bodies@.len(),
                positions@.len() == i,
                forall|k: int|
                    0 <= k < i ==> #[trigger] positions@[k] == sample_position(
                        bodies@[k],
                        timestamp as int,
                    ),
            decreases bodies@.len() - i,
        {
            let planet: Planet = bodies[i];
            let rate: i64 = motion_per_day(planet);
            proof {
                assert(-0x8000_0000_0000_0000 * 13_176_000 <= timestamp * rate
                    <= 0x8000_0000_0000_0000 * 13_176_000) by (nonlinear_arith)
                    requires
                        -0x8000_0000_0000_0000 <= timestamp <= 0x7fff_ffff_ffff_ffff,
                        0 < rate <= 13_176_000,
                ;
            }
            let travelled: i128 = ((timestamp as i128) * (rate as i128)) / (SECONDS_PER_DAY
                as i128);
            let travel: i128 = travelled % 360_000_000;
            let base_longitude: i128 = match planet {
                Planet::NorthNode => (360_000_000 - travel) % 360_000_000,
                Planet::SouthNode => (180_000_000 - travel) % 360_000_000,
                Planet::Ascendant => (travelled + 90_000_000) % 360_000_000,
                _ => travel,
            };
            positions.push(PlanetPosition::new(planet, base_longitude as i64, 0, 0));
            i = i + 1;
        }
        positions
    }

    /// The midpoints of all pairs of bodies: for each pair `(i, j)` with
    /// `i < j`, in ascending order, the midpoint of the two.
    pub fn calculate_midpoints(&self, planets: &[PlanetPosition]) -> (r: Vec<Midpoint>)
        ensures
            r@.len() == pair_count(planets@.len() as int),
            r@.len() == pair_indices(planets@.len() as int).len(),
            forall|k: int|
                0 <= k < r@.len() ==> #[trigger] r@[k] == midpoint_of_pair(
                    planets@,
                    pair_indices(planets@.len() as int)[k],
                ),
    {
        let pairs = index_pairs(planets.len());
        let mut midpoints: Vec<Midpoint> = Vec::new();
        let mut k: usize = 0;
        while k < pairs.len()
            invariant
                k <= pairs@.len(),
                pairs@.len() == pair_indices(planets@.len() as int).len(),
                forall|t: int|
                    0 <= t < pairs@.len() ==> (#[trigger] pairs@[t]).0 < pairs@[t].1
                        < planets@.len() && (pairs@[t].0 as int, pairs@[t].1 as int)
                        == pair_indices(planets@.len() as int)[t],
                midpoints@.len() == k,
                forall|t: int|
                    0 <= t < k ==> #[trigger] midpoints@[t] == midpoint_of_pair(
                        planets@,
                        pair_indices(planets@.len() as int)[t],
                    ),
            decreases pairs@.len() - k,
        {
            let (i, j) = pairs[k];
            let midpoint = Midpoint::new(
                planets[i].planet,
                planets[i].longitude,
                planets[j].planet,
                planets[j].longitude,
            );
            midpoints.push(midpoint);
            k = k + 1;
        }
        midpoints
    }

    /// What stands on the four axis points of the quarter dial that is not
    /// turned: first the midpoints within `orb` of a point, then the bodies.
    /// Each list goes item by item, and for each item point by point; an item
    /// near two points is reported for both.
    pub fn check_alignments(
        &self,
        planets: &[PlanetPosition],
        midpoints: &[Midpoint],
        orb: i64,
    ) -> (r: Vec<AxisAlignment>)
        ensures
            r@ == axis_alignments(planets@, midpoints@, 0, orb as int),
    {
        self.check_alignments_at(planets, midpoints, 0, orb)
    }

    /// What stands on the four axis points of the quarter dial turned by
    /// `rotation`: first the midpoints within `orb` of the position to which a
    /// point points, then the bodies. Each list goes item by item, and for
    /// each item point by point; an item near two points is reported for
    /// both.
    pub fn check_alignments_at(
        &self,
        planets: &[PlanetPosition],
        midpoints: &[Midpoint],
        rotation: i64,
        orb: i64,
    ) -> (r: Vec<AxisAlignment>)
        ensures
            r@ == axis_alignments(planets@, midpoints@, rotation as int, orb as int),
    {
        let mut alignments: Vec<AxisAlignment> = Vec::new();
        let axis_points = AxisPoint::all();
        let mut i: usize = 0;
        while i < midpoints.len()
            invariant
                axis_points@ == AxisPoint::points(),
                i <= midpoints@.len(),
                alignments@ == midpoint_alignments(
                    midpoints@.take(i as int),
                    rotation as int,
                    orb as int,
                ),
            decreases midpoints@.len() - i,
        {
            let midpoint: Midpoint = midpoints[i];
            let ghost before = alignments@;
            let mut k: usize = 0;
            while k < axis_points.len()
                invariant
                    axis_points@ == AxisPoint::points(),
                    k <= 4,
                    alignments@ == before + midpoint_hits(
                        midpoint,
                        rotation as int,
                        k as int,
                        orb as int,
                    ),
                decreases axis_points@.len() - k,
            {
                let axis: AxisPoint = axis_points[k];
                let target: i64 = target_of_axis(axis.degrees(), rotation, 90_000_000);
                let orb_diff: i64 = self.calculate_orb_difference(
                    fold_into_range(midpoint.dial_position, 4),
                    target,
                );
                if orb_diff <= orb {
                    alignments.push(AxisAlignment::new_midpoint(axis, midpoint, orb_diff));
                }
                k = k + 1;
                assert(alignments@ =~= before + midpoint_hits(
                    midpoint,
                    rotation as int,
                    k as int,
                    orb as int,
                ));
            }
            proof {
                assert(midpoints@.take(i + 1).drop_last() =~= midpoints@.take(i as int));
            }
            i = i + 1;
        }
        proof {
            assert(midpoints@.take(midpoints@.len() as int) =~= midpoints@);
        }
        let ghost from_midpoints = alignments@;
        let mut i: usize = 0;
        while i < planets.len()
            invariant
                axis_points@ == AxisPoint::points(),
                i <= planets@.len(),
                alignments@ == from_midpoints + planet_alignments(
                    planets@.take(i as int),
                    rotation as int,
                    orb as int,
                ),
            decreases planets@.len() - i,
        {
            let planet: PlanetPosition = planets[i];
            let ghost before = alignments@;
            let mut k: usize = 0;
            while k < axis_points.len()
                invariant
                    axis_points@ == AxisPoint::points(),
                    k <= 4,
                    alignments@ == before + planet_hits(
                        planet,
                        rotation as int,
                        k as int,
                        orb as int,
                    ),
                decreases axis_points@.len() - k,
            {
                let axis: AxisPoint = axis_points[k];
                let target: i64 = target_of_axis(axis.degrees(), rotation, 90_000_000);
                let orb_diff: i64 = self.calculate_orb_difference(planet.dial_position(), target);
                if orb_diff <= orb {
                    alignments.push(AxisAlignment::new_planet(axis, planet, orb_diff));
                }
                k = k + 1;
                assert(alignments@ =~= before + planet_hits(
                    planet,
                    rotation as int,
                    k as int,
                    orb as int,
                ));
            }
            proof {
                assert(planets@.take(i + 1).drop_last() =~= planets@.take(i as int));
                assert(alignments@ =~= from_midpoints + planet_alignments(
                    planets@.take(i + 1),
                    rotation as int,
                    orb as int,
                ));
            }
            i = i + 1;
        }
        proof {
            assert(planets@.take(planets@.len() as int) =~= planets@);
        }
        alignments
    }

    /// The distance between a dial position and an axis point, round the 90°
    /// of the quarter dial.
    pub fn calculate_orb_difference(&self, position: i64, axis_degrees: i64) -> (r: i64)
        requires
            0 <= axis_degrees <= 90_000_000,
        ensures
            r == range_distance(position as int, axis_degrees as int, 90_000_000),
    {
        orb_difference(position, axis_degrees, 90_000_000)
    }
}

/// A list of `n` bodies has `n * (n - 1) / 2` midpoints, and the midpoint of
/// the bodies at the places `i < j` is one of them.
pub proof fn lemma_midpoint_count(planets: Seq<PlanetPosition>, i: int, j: int)
    requires
        0 <= i < j < planets.len(),
    ensures
        pair_indices(planets.len() as int).len() == pair_count(planets.len() as int),
        exists|k: int|
            0 <= k < pair_indices(planets.len() as int).len() && midpoint_of_pair(
                planets,
                #[trigger] pair_indices(planets.len() as int)[k],
            ) == Midpoint::between(
                planets[i].planet,
                planets[i].longitude as int,
                planets[j].planet,
                planets[j].longitude as int,
            ),
{
    let n = planets.len() as int;
    crate::utils::pairs::lemma_pairs_once(n, i, j);
    let k = choose|k: int| 0 <= k < pair_indices(n).len() && pair_indices(n)[k] == (i, j);
    assert(midpoint_of_pair(planets, pair_indices(n)[k]) == Midpoint::between(
        planets[i].planet,
        planets[i].longitude as int,
        planets[j].planet,
        planets[j].longitude as int,
    ));
}

/// On a dial that is not turned every axis point points to its own position,
/// so what stands on the axis is then measured against the points
/// themselves.
pub proof fn lemma_axis_not_turned(axis: AxisPoint)
    ensures
        axis_target(axis.position(), 0, 90_000_000) == axis.position(),
{
}

} // verus!
