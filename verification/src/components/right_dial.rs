//! The right dial of the explorer: the circle folded by a harmonic.
//!
//! The face spans `360° / harmonic`. The axis has four arms for each range
//! of the harmonic, and a midpoint is active when, folded into the range, it
//! lies near a folded arm. Bodies, midpoints and arms are all folded by the
//! one fold of the harmonic.

use vstd::prelude::*;
use vstd::math::abs;
use crate::components::dial::renderer::{axis_line_angles, degree_labels, labels_from};
use crate::components::dial::utils::{calculate_label_step, label_step};
use crate::components::dial::{Dial, DragTracker};
use crate::dial::alignment::range_distance;
use crate::models::harmonic::{
    fold_into_range, lemma_fold_is_remainder, range_fold, range_width, HarmonicType,
};
use crate::models::planet::Planet;
use crate::utils::angle::wrap_degrees;

verus! {

/// How near an arm a folded midpoint must lie to be active, 3°.
pub const HARMONIC_ACTIVATION_THRESHOLD: i64 = 3_000_000;

/// The harmonic dial with the drag that it keeps track of.
#[derive(Debug, Clone, Copy)]
pub struct RightDial {
    pub dial: Dial,
    pub drag: DragTracker,
}

/// Whether a midpoint lies within `threshold` of an arm on the face of a
/// harmonic. Both are folded into the range of the harmonic, and their
/// difference is taken the shorter way round the face, which spans
/// `360° / harmonic`. The range need not be a whole number of units, so what
/// the difference lacks to the range is compared after both sides have been
/// multiplied by the harmonic.
pub open spec fn near_folded_arm(
    midpoint_angle: int,
    arm_angle: int,
    harmonic: int,
    threshold: int,
) -> bool {
    let diff = abs(range_fold(midpoint_angle, harmonic) - range_fold(arm_angle, harmonic)) as int;
    diff <= threshold || 360_000_000 - diff * harmonic <= threshold * harmonic
}

/// Whether a folded midpoint lies within the threshold of one of the folded
/// arms.
pub open spec fn near_a_folded_arm(
    midpoint_angle: int,
    arm_angles: Seq<i64>,
    harmonic: int,
    threshold: int,
) -> bool {
    exists|k: int|
        0 <= k < arm_angles.len() && near_folded_arm(
            midpoint_angle,
            #[trigger] arm_angles[k] as int,
            harmonic,
            threshold,
        )
}

/// The midpoints of a list that, folded, lie within the threshold of one of
/// the folded arms, in the order of the list.
pub open spec fn active_harmonic_midpoints(
    midpoints: Seq<(i64, usize, usize)>,
    arm_angles: Seq<i64>,
    harmonic: int,
    threshold: int,
) -> Seq<(i64, usize, usize)>
    decreases midpoints.len(),
{
    if midpoints.len() == 0 {
        Seq::empty()
    } else {
        let before = active_harmonic_midpoints(
            midpoints.drop_last(),
            arm_angles,
            harmonic,
            threshold,
        );
        if near_a_folded_arm(midpoints.last().0 as int, arm_angles, harmonic, threshold) {
            before.push(midpoints.last())
        } else {
            before
        }
    }
}

/// The angles of the arms of the axis of a harmonic at a rotation: four arms
/// to each range, spread evenly round the circle.
pub open spec fn harmonic_arms(harmonic: HarmonicType, rotation: int) -> Seq<i64> {
    Seq::new(
        (harmonic.number() * 4) as nat,
        |i: int| wrap_degrees((i * 360_000_000) / (harmonic.number() * 4) + rotation) as i64,
    )
}

/// Whether a midpoint lies within `threshold` of an arm on the face of a
/// harmonic.
fn is_near_folded_arm(midpoint_angle: i64, arm_angle: i64, harmonic: u32, threshold: i64) -> (r:
    bool)
    requires
        harmonic >= 1,
    ensures
        r == near_folded_arm(
            midpoint_angle as int,
            arm_angle as int,
            harmonic as int,
            threshold as int,
        ),
{
    let midpoint_harm: i64 = fold_into_range(midpoint_angle, harmonic);
    let axis_harm: i64 = fold_into_range(arm_angle, harmonic);
    proof {
        assert(midpoint_harm < 360_000_000 && axis_harm < 360_000_000) by (nonlinear_arith)
            requires
                0 <= midpoint_harm,
                0 <= axis_harm,
                midpoint_harm * harmonic < 360_000_000,
                axis_harm * harmonic < 360_000_000,
                harmonic >= 1,
        ;
    }
    let diff: i64 = if midpoint_harm >= axis_harm {
        midpoint_harm - axis_harm
    } else {
        axis_harm - midpoint_harm
    };
    proof {
        assert(0 <= diff * harmonic <= 360_000_000 * 0xffff_ffff) by (nonlinear_arith)
            requires
                0 <= diff < 360_000_000,
                0 <= harmonic <= 0xffff_ffff,
        ;
        assert(-0x8000_0000_0000_0000 * 0xffff_ffff <= threshold * harmonic
            <= 0x8000_0000_0000_0000 * 0xffff_ffff) by (nonlinear_arith)
            requires
                -0x8000_0000_0000_0000 <= threshold <= 0x7fff_ffff_ffff_ffff,
                0 <= harmonic <= 0xffff_ffff,
        ;
    }
    let lacking: i128 = 360_000_000 - (diff as i128) * (harmonic as i128);
    diff <= threshold || lacking <= (threshold as i128) * (harmonic as i128)
}

/// The midpoints that are active on the face of a harmonic: those that,
/// folded, lie within `activation_threshold` of one of the folded arms.
pub fn filter_harmonic_midpoints(
    midpoints: &[(i64, usize, usize)],
    arm_angles: &[i64],
    harmonic: u32,
    activation_threshold: i64,
) -> (r: Vec<(i64, usize, usize)>)
    requires
        harmonic >= 1,
    ensures
        r@ == active_harmonic_midpoints(
            midpoints@,
            arm_angles@,
            harmonic as int,
            activation_threshold as int,
        ),
{
    let mut active: Vec<(i64, usize, usize)> = Vec::new();
    let mut i: usize = 0;
    while i < midpoints.len()
        invariant
            harmonic >= 1,
            i <= midpoints@.len(),
            active@ == active_harmonic_midpoints(
                midpoints@.take(i as int),
                arm_angles@,
                harmonic as int,
                activation_threshold as int,
            ),
        decreases midpoints@.len() - i,
    {
        let entry: (i64, usize, usize) = midpoints[i];
        let mut near: bool = false;
        let mut k: usize = 0;
        while k < arm_angles.len()
            invariant
                harmonic >= 1,
                k <= arm_angles@.len(),
                near == exists|a: int|
                    0 <= a < k && near_folded_arm(
                        entry.0 as int,
                        #[trigger] arm_angles@[a] as int,
                        harmonic as int,
                        activation_threshold as int,
                    ),
            decreases arm_angles@.len() - k,
        {
            if is_near_folded_arm(entry.0, arm_angles[k], harmonic, activation_threshold) {
                near = true;
            }
            k = k + 1;
        }
        proof {
            assert(midpoints@.take(i + 1).drop_last() =~= midpoints@.take(i as int));
            assert(midpoints@.take(i + 1).last() == entry);
        }
        if near {
            active.push(entry);
        }
        i = i + 1;
    }
    proof {
        assert(midpoints@.take(midpoints@.len() as int) =~= midpoints@);
    }
    active
}

/// The ticks that carry a label on a face that spans `harmonic_range`, on a
/// dial turned by `rot`: from 0° up to the range, as far apart as the range
/// asks; for each the angle at which it is drawn and the degrees it shows.
pub fn label_ticks(rot: i64, harmonic_range: i64) -> (r: Vec<(i64, i64)>)
    ensures
        r@ == labels_from(
            rot as int,
            0,
            harmonic_range as int,
            label_step(harmonic_range as int),
        ),
{
    degree_labels(rot, 0, harmonic_range, calculate_label_step(harmonic_range))
}

impl RightDial {
    /// The right dial on its canvas, at rest.
    pub fn new() -> (r: RightDial)
        ensures
            r.dial == Dial::on_canvas("right-dial-canvas"),
            r.drag == DragTracker::at_rest(),
    {
        RightDial { dial: Dial::new("right-dial-canvas"), drag: DragTracker::new() }
    }

    /// The number of arms of the axis of a harmonic.
    pub fn arm_count(&self, harmonic: HarmonicType) -> (r: usize)
        ensures
            r == harmonic.number() * 4,
    {
        (harmonic.value() * 4) as usize
    }

    /// The angles of the arms of the axis of a harmonic at a rotation.
    pub fn arm_angles(&self, harmonic: HarmonicType, rotation: i64) -> (r: Vec<i64>)
        ensures
            r@ == harmonic_arms(harmonic, rotation as int),
    {
        let arms = axis_line_angles(rotation, self.arm_count(harmonic));
        proof {
            assert(arms@ =~= harmonic_arms(harmonic, rotation as int));
        }
        arms
    }

    /// Whether the arm at a place of the axis carries an arrow: every fourth
    /// does.
    pub fn has_arrow(&self, arm: usize) -> (r: bool)
        ensures
            r == (arm % 4 == 0),
    {
        arm % 4 == 0
    }

    /// The labelled ticks of the face of a harmonic at a rotation.
    pub fn label_ticks(&self, harmonic: HarmonicType, rotation: i64) -> (r: Vec<(i64, i64)>)
        ensures
            r@ == labels_from(
                rotation as int,
                0,
                range_width(harmonic.number()),
                label_step(range_width(harmonic.number())),
            ),
    {
        label_ticks(rotation, harmonic.harmonic_range())
    }

    /// The midpoints that are active for a harmonic at a rotation: those
    /// that, folded into the range of the harmonic, lie within 3° of a folded
    /// arm.
    pub fn active_midpoints(
        &self,
        midpoints: &[(i64, usize, usize)],
        harmonic: HarmonicType,
        rotation: i64,
    ) -> (r: Vec<(i64, usize, usize)>)
        ensures
            r@ == active_harmonic_midpoints(
                midpoints@,
                harmonic_arms(harmonic, rotation as int),
                harmonic.number(),
                HARMONIC_ACTIVATION_THRESHOLD as int,
            ),
    {
        let arm_angles = self.arm_angles(harmonic, rotation);
        filter_harmonic_midpoints(
            midpoints,
            arm_angles.as_slice(),
            harmonic.value(),
            HARMONIC_ACTIVATION_THRESHOLD,
        )
    }

    /// Where a body is drawn on the face of a harmonic: its longitude folded
    /// into the range of the harmonic.
    pub fn harmonic_position(&self, planet: &Planet, harmonic: HarmonicType) -> (r: i64)
        ensures
            r == range_fold(planet.longitude as int, harmonic.number()),
    {
        fold_into_range(planet.longitude, harmonic.value())
    }
}

/// Where the harmonic divides the circle into a whole number of units, a
/// midpoint is near an arm exactly when the two, each taken by its remainder
/// by the range, lie within the threshold of each other round the face.
pub proof fn lemma_near_folded_arm(
    midpoint_angle: int,
    arm_angle: int,
    harmonic: int,
    threshold: int,
)
    requires
        harmonic >= 1,
        360_000_000int % harmonic == 0,
    ensures
        near_folded_arm(midpoint_angle, arm_angle, harmonic, threshold) == (range_distance(
            midpoint_angle % range_width(harmonic),
            arm_angle % range_width(harmonic),
            range_width(harmonic),
        ) <= threshold),
{
    let width = range_width(harmonic);
    lemma_fold_is_remainder(midpoint_angle, harmonic);
    lemma_fold_is_remainder(arm_angle, harmonic);
    vstd::arithmetic::div_mod::lemma_fundamental_div_mod(360_000_000, harmonic);
    assert(harmonic * width == 360_000_000);
    assert(width >= 1) by (nonlinear_arith)
        requires
            harmonic * width == 360_000_000,
            harmonic >= 1,
    ;
    let diff = abs(midpoint_angle % width - arm_angle % width) as int;
    assert(360_000_000 - diff * harmonic == (width - diff) * harmonic) by (nonlinear_arith)
        requires
            harmonic * width == 360_000_000,
    ;
    assert(((width - diff) * harmonic <= threshold * harmonic) == (width - diff <= threshold))
        by (nonlinear_arith)
        requires
            harmonic >= 1,
    ;
}

} // verus!
