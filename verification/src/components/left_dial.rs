//! The left dial of the explorer: the full circle with its four axis arms.

use vstd::prelude::*;
use crate::components::dial::renderer::axis_line_angles;
use crate::components::dial::utils::{active_midpoints, filter_active_midpoints};
use crate::components::dial::{Dial, DragTracker};
use crate::utils::angle::{in_circle, normalize_wide, wrap_degrees};

verus! {

/// How near an arm a midpoint must lie to be active, 3°.
pub const ACTIVATION_THRESHOLD: i64 = 3_000_000;

/// The number of arms of the axis.
pub const AXIS_ARMS: usize = 4;

/// The full dial with the drag that it keeps track of.
#[derive(Debug, Clone, Copy)]
pub struct LeftDial {
    pub dial: Dial,
    pub drag: DragTracker,
}

/// The label of an arm of the axis, as text.
pub open spec fn arm_label_text(arm: int) -> Seq<char> {
    if arm == 0 {
        "0°"@
    } else if arm == 1 {
        "90°"@
    } else if arm == 2 {
        "180°"@
    } else if arm == 3 {
        "270°"@
    } else {
        ""@
    }
}

/// The angles of the four arms of the axis at a rotation: a quarter turn
/// apart, starting at the rotation itself.
pub open spec fn axis_arms(rotation: int) -> Seq<i64> {
    Seq::new(4, |i: int| wrap_degrees(i * 90_000_000 + rotation) as i64)
}

impl LeftDial {
    /// The left dial on its canvas, at rest.
    pub fn new() -> (r: LeftDial)
        ensures
            r.dial == Dial::on_canvas("left-dial-canvas"),
            r.drag == DragTracker::at_rest(),
    {
        LeftDial { dial: Dial::new("left-dial-canvas"), drag: DragTracker::new() }
    }

    /// The angles of the four arms of the axis at a rotation.
    pub fn arm_angles(&self, rotation: i64) -> (r: Vec<i64>)
        ensures
            r@ == axis_arms(rotation as int),
    {
        let arms = axis_line_angles(rotation, AXIS_ARMS);
        proof {
            assert forall|i: int| 0 <= i < 4 implies #[trigger] arms@[i] == wrap_degrees(
                i * 90_000_000 + rotation,
            ) by {
                assert((i * 360_000_000) / 4 == i * 90_000_000);
            }
            assert(arms@ =~= axis_arms(rotation as int));
        }
        arms
    }

    /// The label of an arm of the axis.
    pub fn arm_label(&self, arm: usize) -> (r: &'static str)
        ensures
            r@ == arm_label_text(arm as int),
    {
        match arm {
            0 => "0°",
            1 => "90°",
            2 => "180°",
            3 => "270°",
            _ => "",
        }
    }

    /// The angle at which the arrow of an arm is drawn: opposite the arm.
    pub fn arrow_angle(&self, arm_angle: i64) -> (r: i64)
        ensures
            r == wrap_degrees(arm_angle + 180_000_000),
            in_circle(r as int),
    {
        normalize_wide(arm_angle as i128 + 180_000_000)
    }

    /// The midpoints that are active at a rotation: those within 3° of one of
    /// the four arms.
    pub fn active_midpoints(&self, midpoints: &[(i64, usize, usize)], rotation: i64) -> (r: Vec<
        (i64, usize, usize),
    >)
        ensures
            r@ == active_midpoints(
                midpoints@,
                axis_arms(rotation as int),
                ACTIVATION_THRESHOLD as int,
            ),
    {
        let arm_angles_visual = self.arm_angles(rotation);
        filter_active_midpoints(midpoints, arm_angles_visual.as_slice(), ACTIVATION_THRESHOLD)
    }
}

} // verus!
