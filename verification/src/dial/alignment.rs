//! Detection of what stands on an axis point.
//!
//! A position is aligned with a target when the distance between the two,
//! measured round a face of a given range, is within the orb. On the quarter
//! dial the range is 90° and positions are folded into it; on the full dial
//! it is 360° and positions are wrapped onto it. A position is always reduced
//! to the face before it is measured.

use vstd::prelude::*;
use vstd::math::{abs, min};
use crate::dial::types::{Midpoint, PlanetPosition};
use crate::models::harmonic::{fold_into_range, range_fold};
use crate::utils::angle::{normalize_degrees, wrap_degrees};
use crate::utils::fixed::lemma_remainder;

verus! {

/// The distance between a position and a target on a face that spans
/// `range`: the smaller of their difference and what the difference lacks to
/// the range. For two positions inside the range this is the shorter way
/// round the face.
pub open spec fn range_distance(position: int, target: int, range: int) -> int {
    let diff = abs(position - target) as int;
    min(diff, range - diff)
}

/// The range of a face: 360° for the full dial, 90° for the quarter dial.
pub open spec fn face_range(full_circle: bool) -> int {
    if full_circle {
        360_000_000
    } else {
        90_000_000
    }
}

/// The place of a midpoint on a face, reduced to the face: its position
/// wrapped onto the full dial, or its dial position folded into the quarter
/// dial.
pub open spec fn midpoint_place(midpoint: Midpoint, full_circle: bool) -> int {
    if full_circle {
        wrap_degrees(midpoint.position as int)
    } else {
        range_fold(midpoint.dial_position as int, 4)
    }
}

/// The place of a body on a face, reduced to the face: its longitude wrapped
/// onto the full dial, or folded into the quarter dial.
pub open spec fn planet_place(planet: PlanetPosition, full_circle: bool) -> int {
    if full_circle {
        wrap_degrees(planet.longitude as int)
    } else {
        range_fold(planet.longitude as int, 4)
    }
}

/// The midpoints of a list that lie within `orb` of `target`, in the order of
/// the list, each with its distance from the target.
pub open spec fn aligned_midpoints(
    midpoints: Seq<Midpoint>,
    full_circle: bool,
    target: int,
    orb: int,
) -> Seq<(Midpoint, i64)>
    decreases midpoints.len(),
{
    if midpoints.len() == 0 {
        Seq::empty()
    } else {
        let before = aligned_midpoints(midpoints.drop_last(), full_circle, target, orb);
        let distance = range_distance(
            midpoint_place(midpoints.last(), full_circle),
            target,
            face_range(full_circle),
        );
        if distance <= orb {
            before.push((midpoints.last(), distance as i64))
        } else {
            before
        }
    }
}

/// The bodies of a list that lie within `orb` of `target`, in the order of
/// the list, each with its distance from the target.
pub open spec fn aligned_planets(
    planets: Seq<PlanetPosition>,
    full_circle: bool,
    target: int,
    orb: int,
) -> Seq<(PlanetPosition, i64)>
    decreases planets.len(),
{
    if planets.len() == 0 {
        Seq::empty()
    } else {
        let before = aligned_planets(planets.drop_last(), full_circle, target, orb);
        let distance = range_distance(
            planet_place(planets.last(), full_circle),
            target,
            face_range(full_circle),
        );
        if distance <= orb {
            before.push((planets.last(), distance as i64))
        } else {
            before
        }
    }
}

/// The position to which an axis point points on a face that spans `range`
/// when the dial is turned by `rotation`: the base angle of the point moved
/// by the rotation, folded into the range.
pub open spec fn axis_target(base_angle: int, rotation: int, range: int) -> int {
    (base_angle + rotation) % range
}

/// A position reduced to a face that spans `range`: its remainder by the
/// range.
pub open spec fn face_position(position: int, range: int) -> int {
    position % range
}

/// The positions of a list that, reduced to a face that spans `range`, lie
/// within `orb` of `target`, in the order of the list: for each its place in
/// the list and its distance from the target.
pub open spec fn aligned_positions(positions: Seq<i64>, target: int, range: int, orb: int) -> Seq<
    (usize, i64),
>
    decreases positions.len(),
{
    if positions.len() == 0 {
        Seq::empty()
    } else {
        let before = aligned_positions(positions.drop_last(), target, range, orb);
        let distance = range_distance(
            face_position(positions.last() as int, range),
            target,
            range,
        );
        if distance <= orb {
            before.push(((positions.len() - 1) as usize, distance as i64))
        } else {
            before
        }
    }
}

/// The distance between a position and a target on a face that spans `range`.
/// The target lies on the face.
pub fn orb_difference(position: i64, target: i64, range: i64) -> (r: i64)
    requires
        0 <= target <= range,
    ensures
        r == range_distance(position as int, target as int, range as int),
{
    let wide: i128 = position as i128 - target as i128;
    let diff: i128 = if wide < 0 {
        -wide
    } else {
        wide
    };
    let rest: i128 = range as i128 - diff;
    if diff <= rest {
        diff as i64
    } else {
        rest as i64
    }
}

/// The position to which an axis point points on a face that spans `range`
/// when the dial is turned by `rotation`.
pub fn target_of_axis(base_angle: i64, rotation: i64, range: i64) -> (r: i64)
    requires
        range > 0,
    ensures
        r == axis_target(base_angle as int, rotation as int, range as int),
        0 <= r < range,
{
    let sum: i128 = base_angle as i128 + rotation as i128;
    let remainder: i128 = sum % (range as i128);
    proof {
        lemma_remainder(sum as int, range as int);
    }
    if remainder < 0 {
        (remainder + range as i128) as i64
    } else {
        remainder as i64
    }
}

/// What stands on each axis point of a face that spans `range` when the dial
/// is turned by `rotation`: for each point, in the order of the points, the
/// places of the positions within `orb` of where the point points, with
/// their distances. The positions are those of the midpoints or of the
/// bodies; each is reduced to the face before it is measured. A point on
/// which nothing stands has an empty list; an orb of zero asks for exact
/// alignment.
pub fn detect_alignments(
    positions: &[i64],
    axis_points: &[i64],
    rotation: i64,
    range: i64,
    orb: i64,
) -> (r: Vec<Vec<(usize, i64)>>)
    requires
        range > 0,
    ensures
        r@.len() == axis_points@.len(),
        forall|a: int|
            0 <= a < r@.len() ==> (#[trigger] r@[a])@ == aligned_positions(
                positions@,
                axis_target(axis_points@[a] as int, rotation as int, range as int),
                range as int,
                orb as int,
            ),
{
    let mut found: Vec<Vec<(usize, i64)>> = Vec::new();
    let mut a: usize = 0;
    while a < axis_points.len()
        invariant
            range > 0,
            a <= axis_points@.len(),
            found@.len() == a,
            forall|k: int|
                0 <= k < a ==> (#[trigger] found@[k])@ == aligned_positions(
                    positions@,
                    axis_target(axis_points@[k] as int, rotation as int, range as int),
                    range as int,
                    orb as int,
                ),
        decreases axis_points@.len() - a,
    {
        let target: i64 = target_of_axis(axis_points[a], rotation, range);
        let mut aligned: Vec<(usize, i64)> = Vec::new();
        let mut i: usize = 0;
        while i < positions.len()
            invariant
                0 <= target < range,
                i <= positions@.len(),
                aligned@ == aligned_positions(
                    positions@.take(i as int),
                    target as int,
                    range as int,
                    orb as int,
                ),
            decreases positions@.len() - i,
        {
            let place: i64 = target_of_axis(positions[i], 0, range);
            let orb_diff: i64 = orb_difference(place, target, range);
            proof {
                assert(positions@.take(i + 1).drop_last() =~= positions@.take(i as int));
            }
            if orb_diff <= orb {
                aligned.push((i, orb_diff));
            }
            i = i + 1;
        }
        proof {
            assert(positions@.take(positions@.len() as int) =~= positions@);
        }
        found.push(aligned);
        a = a + 1;
    }
    found
}

/// The midpoints that lie within `orb` of `target` on the full dial or on the
/// quarter dial.
pub fn collect_aligned_midpoints(
    midpoints: &[Midpoint],
    full_circle: bool,
    target: i64,
    orb: i64,
) -> (r: Vec<(Midpoint, i64)>)
    requires
        0 <= target <= face_range(full_circle),
    ensures
        r@ == aligned_midpoints(midpoints@, full_circle, target as int, orb as int),
{
    let range: i64 = if full_circle {
        360_000_000
    } else {
        90_000_000
    };
    let mut aligned: Vec<(Midpoint, i64)> = Vec::new();
    let mut i: usize = 0;
    while i < midpoints.len()
        invariant
            i <= midpoints@.len(),
            range == face_range(full_circle),
            0 <= target <= range,
            aligned@ == aligned_midpoints(
                midpoints@.take(i as int),
                full_circle,
                target as int,
                orb as int,
            ),
        decreases midpoints@.len() - i,
    {
        let midpoint: Midpoint = midpoints[i];
        let place: i64 = if full_circle {
            normalize_degrees(midpoint.position)
        } else {
            fold_into_range(midpoint.dial_position, 4)
        };
        let orb_diff: i64 = orb_difference(place, target, range);
        proof {
            assert(midpoints@.take(i + 1).drop_last() =~= midpoints@.take(i as int));
        }
        if orb_diff <= orb {
            aligned.push((midpoint, orb_diff));
        }
        i = i + 1;
    }
    proof {
        assert(midpoints@.take(midpoints@.len() as int) =~= midpoints@);
    }
    aligned
}

/// The bodies that lie within `orb` of `target` on the full dial or on the
/// quarter dial.
pub fn collect_aligned_planets(
    planets: &[PlanetPosition],
    full_circle: bool,
    target: i64,
    orb: i64,
) -> (r: Vec<(PlanetPosition, i64)>)
    requires
        0 <= target <= face_range(full_circle),
    ensures
        r@ == aligned_planets(planets@, full_circle, target as int, orb as int),
{
    let range: i64 = if full_circle {
        360_000_000
    } else {
        90_000_000
    };
    let mut aligned: Vec<(PlanetPosition, i64)> = Vec::new();
    let mut i: usize = 0;
    while i < planets.len()
        invariant
            i <= planets@.len(),
            range == face_range(full_circle),
            0 <= target <= range,
            aligned@ == aligned_planets(
                planets@.take(i as int),
                full_circle,
                target as int,
                orb as int,
            ),
        decreases planets@.len() - i,
    {
        let planet: PlanetPosition = planets[i];
        let place: i64 = if full_circle {
            normalize_degrees(planet.longitude)
        } else {
            planet.dial_position()
        };
        let orb_diff: i64 = orb_difference(place, target, range);
        proof {
            assert(planets@.take(i + 1).drop_last() =~= planets@.take(i as int));
        }
        if orb_diff <= orb {
            aligned.push((planet, orb_diff));
        }
        i = i + 1;
    }
    proof {
        assert(planets@.take(planets@.len() as int) =~= planets@);
    }
    aligned
}

/// The distance round a face does not depend on the order of the two
/// positions; between two positions of the face it lies between zero and half
/// the range.
pub proof fn lemma_range_distance_symmetric(position: int, target: int, range: int)
    requires
        0 <= position < range,
        0 <= target < range,
    ensures
        range_distance(position, target, range) == range_distance(target, position, range),
        0 <= range_distance(position, target, range),
        2 * range_distance(position, target, range) <= range,
{
}

/// A position that lies `offset` before or after the target, round the face,
/// has the distance `offset` from it, as long as `offset` is no more than half
/// the range. So such a position is aligned exactly when `offset` is within
/// the orb: at the orb itself it is, one unit further it is not.
pub proof fn lemma_orb_boundary(target: int, offset: int, range: int, orb: int)
    requires
        0 <= target < range,
        0 <= offset,
        2 * offset <= range,
    ensures
        range_distance((target + offset) % range, target, range) == offset,
        range_distance((target - offset) % range, target, range) == offset,
        (range_distance((target + offset) % range, target, range) <= orb) == (offset <= orb),
        (range_distance((target - offset) % range, target, range) <= orb) == (offset <= orb),
{
    if target + offset >= range {
        vstd::arithmetic::div_mod::lemma_fundamental_div_mod_converse(
            target + offset,
            range,
            1,
            target + offset - range,
        );
    } else {
        vstd::arithmetic::div_mod::lemma_small_mod((target + offset) as nat, range as nat);
    }
    if target - offset < 0 {
        vstd::arithmetic::div_mod::lemma_fundamental_div_mod_converse(
            target - offset,
            range,
            -1,
            target - offset + range,
        );
    } else {
        vstd::arithmetic::div_mod::lemma_small_mod((target - offset) as nat, range as nat);
    }
}

/// Nothing is aligned in an empty list, and an entry of the result is an entry
/// of the list within the orb, at a distance between zero and half the range:
/// the result is never longer than the list.
pub proof fn lemma_aligned_midpoints_bounded(
    midpoints: Seq<Midpoint>,
    full_circle: bool,
    target: int,
    orb: int,
)
    requires
        0 <= target < face_range(full_circle),
    ensures
        aligned_midpoints(midpoints, full_circle, target, orb).len() <= midpoints.len(),
        midpoints.len() == 0 ==> aligned_midpoints(midpoints, full_circle, target, orb).len() == 0,
        forall|k: int|
            0 <= k < aligned_midpoints(midpoints, full_circle, target, orb).len() ==> {
                let entry = #[trigger] aligned_midpoints(midpoints, full_circle, target, orb)[k];
                &&& midpoints.contains(entry.0)
                &&& entry.1 == range_distance(
                    midpoint_place(entry.0, full_circle),
                    target,
                    face_range(full_circle),
                )
                &&& entry.1 <= orb
                &&& 0 <= entry.1 && 2 * entry.1 <= face_range(full_circle)
            },
    decreases midpoints.len(),
{
    if midpoints.len() > 0 {
        let before = midpoints.drop_last();
        lemma_aligned_midpoints_bounded(before, full_circle, target, orb);
        let all = aligned_midpoints(midpoints, full_circle, target, orb);
        assert forall|k: int| 0 <= k < all.len() implies {
            let entry = #[trigger] all[k];
            &&& midpoints.contains(entry.0)
            &&& entry.1 == range_distance(
                midpoint_place(entry.0, full_circle),
                target,
                face_range(full_circle),
            )
            &&& entry.1 <= orb
            &&& 0 <= entry.1 && 2 * entry.1 <= face_range(full_circle)
        } by {
            let prior = aligned_midpoints(before, full_circle, target, orb);
            if k < prior.len() {
                assert(all[k] == prior[k]);
                assert(before.contains(prior[k].0));
                let at = choose|at: int| 0 <= at < before.len() && before[at] == prior[k].0;
                assert(midpoints[at] == prior[k].0);
            } else {
                assert(all[k].0 == midpoints.last());
                assert(midpoints[midpoints.len() - 1] == midpoints.last());
            }
        }
    }
}

} // verus!
