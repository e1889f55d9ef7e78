//! Pointer, wheel and touch gestures turned into rotation of the dial.
//!
//! A dial is either at rest or in a drag. A press starts a drag and keeps the
//! place of the pointer; each move of the drag turns the dial by the angle
//! that the pointer has gone round the centre, scaled by a sensitivity; a
//! release ends the drag. The wheel turns the dial without touching the drag.
//!
//! The host measures the angles from the centre of the dial to the pointer
//! and hands them over as [`Angle`]s.

use vstd::prelude::*;
use crate::dial::types::{DialState, PointerPosition};
use crate::utils::angle::{
    angle_difference, in_circle, normalize_wide, signed_difference, wrap_degrees, Angle,
};
use crate::utils::fixed::{lemma_product_bounds, scale, scaled, trunc_div};

verus! {

/// The sensitivities of the three tiers of a gesture, as fixed-point factors.
#[derive(Debug, Clone, Copy, PartialEq, Eq, Structural)]
pub struct InteractionHandler {
    /// Factor with no modifier key held.
    pub sensitivity: i64,
    /// Factor with either Shift or Ctrl held.
    pub fine_sensitivity: i64,
    /// Factor with both Shift and Ctrl held.
    pub extra_fine_sensitivity: i64,
}

/// The rotation that a turn of the wheel asks for: a tenth of the scroll
/// distance, scaled by the sensitivity, against the direction of the scroll,
/// rounded toward zero.
pub open spec fn wheel_delta(delta_y: int, sensitivity: int) -> int {
    trunc_div(-(delta_y * sensitivity), 10_000_000)
}

/// The rotation that a move of the pointer asks for: the signed angle from
/// the last place of the pointer to the present one, scaled by the
/// sensitivity.
pub open spec fn drag_delta(last_angle: int, current_angle: int, sensitivity: int) -> int {
    scaled(signed_difference(last_angle, current_angle), sensitivity)
}

impl Default for InteractionHandler {
    /// The usual tiers: 1.0, 0.1 and 0.01.
    fn default() -> (r: InteractionHandler)
        ensures
            r.sensitivity == 1_000_000,
            r.fine_sensitivity == 100_000,
            r.extra_fine_sensitivity == 10_000,
    {
        InteractionHandler {
            sensitivity: 1_000_000,
            fine_sensitivity: 100_000,
            extra_fine_sensitivity: 10_000,
        }
    }
}

impl InteractionHandler {
    /// The sensitivity that the modifier keys select: the extra fine one with
    /// both keys, the fine one with either, the coarse one with none.
    pub open spec fn sensitivity_for(self, shift: bool, ctrl: bool) -> int {
        if shift && ctrl {
            self.extra_fine_sensitivity as int
        } else if shift || ctrl {
            self.fine_sensitivity as int
        } else {
            self.sensitivity as int
        }
    }

    /// The state after a move of the pointer that asks for the rotation
    /// `delta` and ends at `position`.
    pub open spec fn moved(state: DialState, delta: int, position: PointerPosition) -> DialState {
        DialState {
            rotation: wrap_degrees(state.rotation + delta) as i64,
            last_mouse_pos: Some(position),
            ..state
        }
    }

    /// A handler with the usual tiers.
    pub fn new() -> (r: InteractionHandler)
        ensures
            r.sensitivity == 1_000_000,
            r.fine_sensitivity == 100_000,
            r.extra_fine_sensitivity == 10_000,
    {
        InteractionHandler::default()
    }

    /// A press of the pointer: the drag starts at `position`.
    pub fn handle_mouse_down(&self, state: &mut DialState, position: PointerPosition)
        ensures
            *final(state) == (DialState {
                is_dragging: true,
                last_mouse_pos: Some(position),
                ..*old(state)
            }),
            final(state).is_dragging_from(position),
    {
        state.is_dragging = true;
        state.last_mouse_pos = Some(position);
    }

    /// A move of the pointer to `position`. Outside a drag nothing happens.
    /// In a drag the dial turns by the signed angle between `last_angle`, the
    /// angle from the centre to the place kept in the state, and
    /// `current_angle`, the angle from the centre to `position`, scaled by the
    /// sensitivity that the modifier keys select; the new place is kept.
    pub fn handle_mouse_move(
        &self,
        state: &mut DialState,
        position: PointerPosition,
        last_angle: Angle,
        current_angle: Angle,
        shift_key: bool,
        ctrl_key: bool,
    )
        ensures
            !old(state).is_dragging || old(state).last_mouse_pos is None ==> *final(state)
                == *old(state),
            old(state).is_dragging && old(state).last_mouse_pos is Some ==> *final(state)
                == InteractionHandler::moved(
                *old(state),
                drag_delta(last_angle@, current_angle@, self.sensitivity_for(shift_key, ctrl_key)),
                position,
            ),
    {
        if !state.is_dragging {
            return ;
        }
        if state.last_mouse_pos.is_some() {
            let sensitivity: i64 = self.get_sensitivity_for_modifiers(shift_key, ctrl_key);
            self.turn_by_drag(state, last_angle, current_angle, sensitivity);
            state.last_mouse_pos = Some(position);
        }
    }

    /// A release of the pointer: the drag ends.
    pub fn handle_mouse_up(&self, state: &mut DialState)
        ensures
            *final(state) == (DialState {
                is_dragging: false,
                last_mouse_pos: None,
                ..*old(state)
            }),
            final(state).is_idle(),
    {
        state.is_dragging = false;
        state.last_mouse_pos = None;
    }

    /// A turn of the wheel by `delta_y`: the dial turns against the scroll by
    /// a tenth of it, scaled by the sensitivity that the modifier keys select.
    /// A drag in course is left as it is.
    pub fn handle_wheel(&self, state: &mut DialState, delta_y: i64, shift_key: bool, ctrl_key: bool)
        ensures
            *final(state) == old(state).with_rotation(
                wrap_degrees(
                    old(state).rotation + wheel_delta(
                        delta_y as int,
                        self.sensitivity_for(shift_key, ctrl_key),
                    ),
                ),
            ),
            in_circle(final(state).rotation as int),
    {
        let sensitivity: i64 = self.get_sensitivity_for_modifiers(shift_key, ctrl_key);
        proof {
            lemma_product_bounds(delta_y, sensitivity);
        }
        let product: i128 = (delta_y as i128) * (sensitivity as i128);
        let rotation_delta: i128 = (-product) / 10_000_000;
        state.rotation = normalize_wide(state.rotation as i128 + rotation_delta);
    }

    /// The start of a touch: the drag starts at the first touch point, if
    /// there is one.
    pub fn handle_touch_start(&self, state: &mut DialState, touch: Option<PointerPosition>)
        ensures
            touch is None ==> *final(state) == *old(state),
            touch matches Some(position) ==> *final(state) == (DialState {
                is_dragging: true,
                last_mouse_pos: Some(position),
                ..*old(state)
            }),
    {
        if let Some(position) = touch {
            state.is_dragging = true;
            state.last_mouse_pos = Some(position);
        }
    }

    /// A move of the first touch point. It turns the dial as a move of the
    /// pointer does, always at the coarse sensitivity.
    pub fn handle_touch_move(
        &self,
        state: &mut DialState,
        touch: Option<PointerPosition>,
        last_angle: Angle,
        current_angle: Angle,
    )
        ensures
            !old(state).is_dragging || old(state).last_mouse_pos is None || touch is None
                ==> *final(state) == *old(state),
            old(state).is_dragging && old(state).last_mouse_pos is Some ==> (touch matches Some(
                position,
            ) ==> *final(state) == InteractionHandler::moved(
                *old(state),
                drag_delta(last_angle@, current_angle@, self.sensitivity as int),
                position,
            )),
    {
        if !state.is_dragging {
            return ;
        }
        if let Some(position) = touch {
            if state.last_mouse_pos.is_some() {
                self.turn_by_drag(state, last_angle, current_angle, self.sensitivity);
                state.last_mouse_pos = Some(position);
            }
        }
    }

    /// The end of a touch: the drag ends.
    pub fn handle_touch_end(&self, state: &mut DialState)
        ensures
            *final(state) == (DialState {
                is_dragging: false,
                last_mouse_pos: None,
                ..*old(state)
            }),
            final(state).is_idle(),
    {
        state.is_dragging = false;
        state.last_mouse_pos = None;
    }

    /// The sensitivity that the modifier keys select.
    pub fn get_sensitivity_for_modifiers(&self, shift: bool, ctrl: bool) -> (r: i64)
        ensures
            r == self.sensitivity_for(shift, ctrl),
    {
        match (shift, ctrl) {
            (true, true) => self.extra_fine_sensitivity,
            (true, false) => self.fine_sensitivity,
            (false, true) => self.fine_sensitivity,
            (false, false) => self.sensitivity,
        }
    }

    /// Turns the dial by the signed angle between two pointer angles, scaled
    /// by `sensitivity`.
    fn turn_by_drag(
        &self,
        state: &mut DialState,
        last_angle: Angle,
        current_angle: Angle,
        sensitivity: i64,
    )
        ensures
            *final(state) == old(state).with_rotation(
                wrap_degrees(
                    old(state).rotation + drag_delta(
                        last_angle@,
                        current_angle@,
                        sensitivity as int,
                    ),
                ),
            ),
    {
        let angle_delta: i64 = angle_difference(last_angle.degrees(), current_angle.degrees());
        let rotation_delta: i128 = scale(angle_delta, sensitivity);
        proof {
            lemma_product_bounds(angle_delta, sensitivity);
        }
        state.rotation = normalize_wide(state.rotation as i128 + rotation_delta);
    }
}

/// Between two angles of the circle the signed difference is their plain
/// difference, brought to the shorter side: a difference over 180° loses a
/// full turn, one under -180° gains one.
pub proof fn lemma_drag_wraps(last_angle: Angle, current_angle: Angle)
    requires
        last_angle.wf(),
        current_angle.wf(),
    ensures
        -180_000_000 <= signed_difference(last_angle@, current_angle@) <= 180_000_000,
        signed_difference(last_angle@, current_angle@) == if current_angle@ - last_angle@
            > 180_000_000 {
            current_angle@ - last_angle@ - 360_000_000
        } else if current_angle@ - last_angle@ < -180_000_000 {
            current_angle@ - last_angle@ + 360_000_000
        } else {
            current_angle@ - last_angle@
        },
        wrap_degrees(last_angle@ + signed_difference(last_angle@, current_angle@))
            == current_angle@,
{
    crate::utils::angle::lemma_angle_in_circle(last_angle);
    crate::utils::angle::lemma_angle_in_circle(current_angle);
}

/// The three tiers of the usual handler: the same gesture turns the dial by
/// its full angle, by a tenth or by a hundredth of it.
pub proof fn lemma_sensitivity_tiers(handler: InteractionHandler, delta: int)
    requires
        handler.sensitivity == 1_000_000,
        handler.fine_sensitivity == 100_000,
        handler.extra_fine_sensitivity == 10_000,
    ensures
        scaled(delta, handler.sensitivity_for(false, false)) == delta,
        scaled(delta, handler.sensitivity_for(true, false)) == trunc_div(delta, 10),
        scaled(delta, handler.sensitivity_for(false, true)) == trunc_div(delta, 10),
        scaled(delta, handler.sensitivity_for(true, true)) == trunc_div(delta, 100),
{
    let m = if delta >= 0 { delta } else { -delta };
    assert(m * 1_000_000 / 1_000_000 == m);
    assert(m * 100_000 / 1_000_000 == m / 10);
    assert(m * 10_000 / 1_000_000 == m / 100);
}

} // verus!
