//! Label steps, active midpoints and display positions of the two dials.

use vstd::prelude::*;
use vstd::math::abs;
use crate::models::harmonic::{fold_into_range, range_fold, HarmonicType};
use crate::models::planet::Planet;

verus! {

/// The distance between two labels of a dial whose face spans
/// `harmonic_range`: 1° up to a range of 30°, 5° up to 90°, 10° up to 120°,
/// and 15° beyond.
pub open spec fn label_step(harmonic_range: int) -> int {
    if harmonic_range <= 30_000_000 {
        1_000_000
    } else if harmonic_range <= 90_000_000 {
        5_000_000
    } else if harmonic_range <= 120_000_000 {
        10_000_000
    } else {
        15_000_000
    }
}

/// The distance between a midpoint and an arm of the axis: the remainder of
/// their difference by a full turn, taken the shorter way round.
pub open spec fn arm_distance(midpoint_angle: int, arm_angle: int) -> int {
    let diff = abs(midpoint_angle - arm_angle) as int % 360_000_000;
    if diff > 180_000_000 {
        360_000_000 - diff
    } else {
        diff
    }
}

/// Whether a midpoint lies within the threshold of one of the arms.
pub open spec fn near_an_arm(midpoint_angle: int, arm_angles: Seq<i64>, threshold: int) -> bool {
    exists|k: int|
        0 <= k < arm_angles.len() && arm_distance(midpoint_angle, #[trigger] arm_angles[k] as int)
            <= threshold
}

/// The midpoints of a list that lie within the threshold of one of the arms,
/// in the order of the list.
pub open spec fn active_midpoints(
    midpoints: Seq<(i64, usize, usize)>,
    arm_angles: Seq<i64>,
    threshold: int,
) -> Seq<(i64, usize, usize)>
    decreases midpoints.len(),
{
    if midpoints.len() == 0 {
        Seq::empty()
    } else {
        let before = active_midpoints(midpoints.drop_last(), arm_angles, threshold);
        if near_an_arm(midpoints.last().0 as int, arm_angles, threshold) {
            before.push(midpoints.last())
        } else {
            before
        }
    }
}

/// Where a body is shown: folded into the range of the harmonic on a harmonic
/// dial, at its longitude on the full dial.
pub open spec fn shown_position(longitude: int, harmonic: Option<HarmonicType>) -> int {
    match harmonic {
        Some(h) => range_fold(longitude, h.number()),
        None => longitude,
    }
}

/// The distance between two labels of a dial whose face spans
/// `harmonic_range`.
pub fn calculate_label_step(harmonic_range: i64) -> (r: i64)
    ensures
        r == label_step(harmonic_range as int),
{
    if harmonic_range <= 30_000_000 {
        1_000_000
    } else if harmonic_range <= 60_000_000 {
        5_000_000
    } else if harmonic_range <= 90_000_000 {
        5_000_000
    } else if harmonic_range <= 120_000_000 {
        10_000_000
    } else {
        15_000_000
    }
}

/// The distance between a midpoint and an arm of the axis.
fn distance_to_arm(midpoint_angle: i64, arm_angle: i64) -> (r: i64)
    ensures
        r == arm_distance(midpoint_angle as int, arm_angle as int),
        0 <= r <= 180_000_000,
{
    let wide: i128 = midpoint_angle as i128 - arm_angle as i128;
    let apart: i128 = if wide < 0 {
        -wide
    } else {
        wide
    };
    let diff: i128 = apart % 360_000_000;
    if diff > 180_000_000 {
        (360_000_000 - diff) as i64
    } else {
        diff as i64
    }
}

/// The midpoints that are active: those within `activation_threshold` of one
/// of the arms of the axis.
pub fn filter_active_midpoints(
    midpoints: &[(i64, usize, usize)],
    arm_angles: &[i64],
    activation_threshold: i64,
) -> (r: Vec<(i64, usize, usize)>)
    ensures
        r@ == active_midpoints(midpoints@, arm_angles@, activation_threshold as int),
{
    let mut active: Vec<(i64, usize, usize)> = Vec::new();
    let mut i: usize = 0;
    while i < midpoints.len()
        invariant
            i <= midpoints@.len(),
            active@ == active_midpoints(
                midpoints@.take(i as int),
                arm_angles@,
                activation_threshold as int,
            ),
        decreases midpoints@.len() - i,
    {
        let entry: (i64, usize, usize) = midpoints[i];
        let mut near: bool = false;
        let mut k: usize = 0;
        while k < arm_angles.len()
            invariant
                k <= arm_angles@.len(),
                near == exists|a: int|
                    0 <= a < k && arm_distance(entry.0 as int, #[trigger] arm_angles@[a] as int)
                        <= activation_threshold,
            decreases arm_angles@.len() - k,
        {
            if distance_to_arm(entry.0, arm_angles[k]) <= activation_threshold {
                near = true;
            }
            k = k + 1;
        }
        proof {
            assert(midpoints@.take(i + 1).drop_last() =~= midpoints@.take(i as int));
            assert(midpoints@.take(i + 1).last() == entry);
        }
        if near {
            active.push(entry);
        }
        i = i + 1;
    }
    proof {
        assert(midpoints@.take(midpoints@.len() as int) =~= midpoints@);
    }
    active
}

/// Where a body is shown on a dial: folded by the harmonic, if the dial has
/// one.
pub fn display_position(planet: &Planet, harmonic: Option<HarmonicType>) -> (r: i64)
    ensures
        r == shown_position(planet.longitude as int, harmonic),
{
    match harmonic {
        Some(h) => fold_into_range(planet.longitude, h.value()),
        None => planet.longitude,
    }
}

/// The label step is one of four, and it never grows as the harmonic does:
/// a narrower face is labelled at least as finely.
pub proof fn lemma_label_step_monotone(narrow: int, wide: int)
    requires
        narrow <= wide,
    ensures
        label_step(narrow) <= label_step(wide),
        label_step(narrow) == 1_000_000 || label_step(narrow) == 5_000_000 || label_step(narrow)
            == 10_000_000 || label_step(narrow) == 15_000_000,
{
}

} // verus!
