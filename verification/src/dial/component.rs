//! The two synchronized dials: one state, turned from either face.
//!
//! The quarter dial and the full dial show the same chart and share one
//! rotation. A gesture on the quarter dial counts four times: its face is
//! compressed, so the same move of the pointer must turn it four times as
//! far. After every turn the alignments are worked out afresh, at the new
//! rotation.

use vstd::prelude::*;
use crate::dial::alignment::{axis_target, target_of_axis};
use crate::dial::calculator::{
    axis_alignments, midpoint_of_pair, us_sibley_chart, AstrologyCalculator,
};
use crate::dial::interaction::InteractionHandler;
use crate::dial::types::{DialState, PointerPosition};
use crate::utils::angle::{
    angle_difference, in_circle, normalize_wide, signed_difference, wrap_degrees, Angle,
};
use crate::utils::fixed::trunc_div;
use crate::utils::pairs::pair_indices;

verus! {

/// The two dials with the state that they share.
#[derive(Debug, Clone)]
pub struct DialComponent {
    pub state: DialState,
}

/// How many times a gesture counts: once on the full dial, four times on the
/// quarter dial.
pub open spec fn gesture_multiplier(is_360_dial: bool) -> int {
    if is_360_dial {
        1
    } else {
        4
    }
}

/// The sensitivity that the modifier keys select: 0.01 with both Shift and
/// Ctrl, 0.1 with either, 1.0 with none.
pub open spec fn sensitivity_tier(shift: bool, ctrl: bool) -> int {
    if shift && ctrl {
        10_000
    } else if shift || ctrl {
        100_000
    } else {
        1_000_000
    }
}

/// The rotation that a move of the pointer asks for on one of the two dials.
pub open spec fn component_drag_delta(
    last_angle: int,
    current_angle: int,
    shift: bool,
    ctrl: bool,
    is_360_dial: bool,
) -> int {
    trunc_div(
        signed_difference(last_angle, current_angle) * sensitivity_tier(shift, ctrl)
            * gesture_multiplier(is_360_dial),
        1_000_000,
    )
}

/// The rotation that a turn of the wheel asks for on one of the two dials.
pub open spec fn component_wheel_delta(
    delta_y: int,
    shift: bool,
    ctrl: bool,
    is_360_dial: bool,
) -> int {
    trunc_div(
        -(delta_y * sensitivity_tier(shift, ctrl) * gesture_multiplier(is_360_dial)),
        10_000_000,
    )
}

/// Whether `after` is `before` turned by `delta`, with the alignments worked
/// out afresh at the new rotation and everything else as it was but the
/// pointer position.
pub open spec fn is_turned(before: DialState, after: DialState, delta: int) -> bool {
    &&& after.rotation == wrap_degrees(before.rotation + delta)
    &&& after.planets == before.planets
    &&& after.midpoints == before.midpoints
    &&& after.orb_tolerance == before.orb_tolerance
    &&& after.is_dragging == before.is_dragging
    &&& after.alignments@ == axis_alignments(
        before.planets@,
        before.midpoints@,
        wrap_degrees(before.rotation + delta),
        before.orb_tolerance as int,
    )
}

/// The position that the quarter dial shows for a rotation: the dial position
/// to which its 0° point points, which is the rotation folded into 90°.
pub open spec fn quarter_readout(rotation: int) -> int {
    axis_target(0, rotation, 90_000_000)
}

impl DialComponent {
    /// The two dials with the Sibley chart, its midpoints and what of them
    /// stands on the axis within 1°, not turned and at rest.
    pub fn new() -> (r: DialComponent)
        ensures
            r.state.rotation == 0,
            r.state.orb_tolerance == 1_000_000,
            r.state.is_idle(),
            r.state.planets@ == us_sibley_chart(),
            r.state.midpoints@.len() == pair_indices(14).len(),
            forall|k: int|
                0 <= k < r.state.midpoints@.len() ==> #[trigger] r.state.midpoints@[k]
                    == midpoint_of_pair(us_sibley_chart(), pair_indices(14)[k]),
            r.state.alignments@ == axis_alignments(
                r.state.planets@,
                r.state.midpoints@,
                0,
                1_000_000,
            ),
    {
        let calc = AstrologyCalculator::new();
        let positions = calc.get_us_sibley_chart();
        let midpoints = calc.calculate_midpoints(positions.as_slice());
        let alignments = calc.check_alignments(
            positions.as_slice(),
            midpoints.as_slice(),
            1_000_000,
        );
        DialComponent {
            state: DialState {
                rotation: 0,
                planets: positions,
                midpoints,
                alignments,
                orb_tolerance: 1_000_000,
                is_dragging: false,
                last_mouse_pos: None,
            },
        }
    }

    /// A press of the pointer on either dial: the drag starts at `position`.
    pub fn on_mouse_down(&mut self, position: PointerPosition)
        ensures
            final(self).state == (DialState {
                is_dragging: true,
                last_mouse_pos: Some(position),
                ..old(self).state
            }),
    {
        self.state.is_dragging = true;
        self.state.last_mouse_pos = Some(position);
    }

    /// A move of the pointer on one of the dials. Outside a drag nothing
    /// happens. In a drag the shared rotation turns by the signed angle
    /// between the two pointer angles, scaled by the sensitivity that the
    /// modifier keys select, four times as far on the quarter dial; the new
    /// place is kept and the alignments are worked out afresh at the new
    /// rotation.
    pub fn on_mouse_move(
        &mut self,
        position: PointerPosition,
        last_angle: Angle,
        current_angle: Angle,
        shift_key: bool,
        ctrl_key: bool,
        is_360_dial: bool,
    )
        ensures
            !old(self).state.is_dragging || old(self).state.last_mouse_pos is None ==> final(
                self
            ).state == old(self).state,
            old(self).state.is_dragging && old(self).state.last_mouse_pos is Some ==> is_turned(
                old(self).state,
                final(self).state,
                component_drag_delta(
                    last_angle@,
                    current_angle@,
                    shift_key,
                    ctrl_key,
                    is_360_dial,
                ),
            ) && final(self).state.last_mouse_pos == Some(position),
    {
        if !self.state.is_dragging {
            return ;
        }
        if self.state.last_mouse_pos.is_some() {
            let angle_delta: i64 = angle_difference(last_angle.degrees(), current_angle.degrees());
            let sensitivity: i64 = InteractionHandler::new().get_sensitivity_for_modifiers(
                shift_key,
                ctrl_key,
            );
            let multiplier: i64 = if is_360_dial {
                1
            } else {
                4
            };
            let rotation_delta: i64 = (angle_delta * sensitivity * multiplier) / 1_000_000;
            self.state.rotation = normalize_wide(
                self.state.rotation as i128 + rotation_delta as i128,
            );
            self.state.last_mouse_pos = Some(position);
            self.refresh_alignments();
        }
    }

    /// A release of the pointer on either dial: the drag ends.
    pub fn on_mouse_up(&mut self)
        ensures
            final(self).state == (DialState {
                is_dragging: false,
                last_mouse_pos: None,
                ..old(self).state
            }),
    {
        self.state.is_dragging = false;
        self.state.last_mouse_pos = None;
    }

    /// A turn of the wheel over one of the dials: the shared rotation turns
    /// against the scroll by a tenth of it, scaled by the sensitivity that the
    /// modifier keys select, four times as far on the quarter dial; the
    /// alignments are worked out afresh at the new rotation.
    pub fn on_wheel(&mut self, delta_y: i64, shift_key: bool, ctrl_key: bool, is_360_dial: bool)
        ensures
            is_turned(
                old(self).state,
                final(self).state,
                component_wheel_delta(delta_y as int, shift_key, ctrl_key, is_360_dial),
            ),
            final(self).state.last_mouse_pos == old(self).state.last_mouse_pos,
    {
        let sensitivity: i64 = InteractionHandler::new().get_sensitivity_for_modifiers(
            shift_key,
            ctrl_key,
        );
        let multiplier: i128 = if is_360_dial {
            1
        } else {
            4
        };
        proof {
            assert(-0x8000_0000_0000_0000 * 1_000_000 <= delta_y * sensitivity
                <= 0x8000_0000_0000_0000 * 1_000_000) by (nonlinear_arith)
                requires
                    -0x8000_0000_0000_0000 <= delta_y <= 0x7fff_ffff_ffff_ffff,
                    0 < sensitivity <= 1_000_000,
            ;
        }
        let rotation_delta: i128 = (-((delta_y as i128) * (sensitivity as i128) * multiplier))
            / 10_000_000;
        self.state.rotation = normalize_wide(self.state.rotation as i128 + rotation_delta);
        self.refresh_alignments();
    }

    /// The position that the quarter dial shows for the present rotation.
    pub fn quarter_position(&self) -> (r: i64)
        ensures
            r == quarter_readout(self.state.rotation as int),
            0 <= r < 90_000_000,
    {
        target_of_axis(0, self.state.rotation, 90_000_000)
    }

    /// What the readout of the axis point at a place of the quarter dial
    /// shows: the dial position to which the point points now. The points
    /// lie 22.5° apart.
    pub fn axis_readout(&self, place: u8) -> (r: i64)
        requires
            place < 4,
        ensures
            r == axis_target(place * 22_500_000, self.state.rotation as int, 90_000_000),
            0 <= r < 90_000_000,
    {
        target_of_axis((place as i64) * 22_500_000, self.state.rotation, 90_000_000)
    }

    /// The longitude to which the cardinal point at a place of the full dial
    /// points now.
    pub fn cardinal_readout(&self, place: u8) -> (r: i64)
        requires
            place < 4,
        ensures
            r == wrap_degrees(self.state.rotation + place * 90_000_000),
            in_circle(r as int),
    {
        normalize_wide(self.state.rotation as i128 + (place as i128) * 90_000_000)
    }

    /// Works out the alignments of the present chart afresh, at the present
    /// rotation.
    fn refresh_alignments(&mut self)
        ensures
            final(self).state == (DialState {
                alignments: final(self).state.alignments,
                ..old(self).state
            }),
            final(self).state.alignments@ == axis_alignments(
                old(self).state.planets@,
                old(self).state.midpoints@,
                old(self).state.rotation as int,
                old(self).state.orb_tolerance as int,
            ),
    {
        let calc = AstrologyCalculator::new();
        let alignments = calc.check_alignments_at(
            self.state.planets.as_slice(),
            self.state.midpoints.as_slice(),
            self.state.rotation,
            self.state.orb_tolerance,
        );
        self.state.alignments = alignments;
    }
}

/// A gesture on the quarter dial turns the shared rotation four times as far
/// as the same gesture on the full dial, up to the rounding of the two.
pub proof fn lemma_quarter_dial_counts_fourfold(
    last_angle: int,
    current_angle: int,
    shift: bool,
    ctrl: bool,
)
    ensures
        ({
            let quarter = component_drag_delta(last_angle, current_angle, shift, ctrl, false);
            let full = component_drag_delta(last_angle, current_angle, shift, ctrl, true);
            4 * full - 4 < quarter < 4 * full + 4
        }),
{
    let product = signed_difference(last_angle, current_angle) * sensitivity_tier(shift, ctrl);
    assert(product * 4 == 4 * product);
    assert(product * 1 == product);
}

} // verus!
