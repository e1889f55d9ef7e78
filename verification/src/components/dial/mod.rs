//! What the two dials of the explorer have in common.

pub mod renderer;
pub mod utils;

use vstd::prelude::*;
use crate::utils::angle::{in_circle, normalize_wide, wrap_degrees};
use crate::utils::constants::{CENTER_X, CENTER_Y, RADIUS};

verus! {

/// A dial on a canvas: where it is drawn and how far it is turned.
#[derive(Debug, Clone, Copy)]
pub struct Dial {
    pub canvas_id: &'static str,
    /// Horizontal centre, in pixels.
    pub center_x: i64,
    /// Vertical centre, in pixels.
    pub center_y: i64,
    /// Radius of the face, in pixels.
    pub radius: i64,
    /// Rotation, in millionths of a degree.
    pub rotation: i64,
}

impl Dial {
    /// The dial of the usual size on the canvas of the given name, not turned.
    pub open spec fn on_canvas(canvas_id: &'static str) -> Dial {
        Dial { canvas_id, center_x: CENTER_X, center_y: CENTER_Y, radius: RADIUS, rotation: 0 }
    }

    /// A dial of the usual size on the canvas of the given name, not turned.
    pub fn new(canvas_id: &'static str) -> (r: Dial)
        ensures
            r == Dial::on_canvas(canvas_id),
    {
        Dial { canvas_id, center_x: CENTER_X, center_y: CENTER_Y, radius: RADIUS, rotation: 0 }
    }
}

/// The drag that one dial keeps track of. Each dial has its own; the
/// rotation that a drag changes is shared between the dials.
#[derive(Debug, Clone, Copy, PartialEq, Eq, Structural)]
pub struct DragTracker {
    pub dragging: bool,
    /// Where the pointer was last seen, in pixels of the window.
    pub last_x: i32,
    pub last_y: i32,
}

/// The shared rotation after the pointer has gone from the angle
/// `prev_angle` to `curr_angle` round the centre: the dial turns against the
/// pointer, and the result is wrapped into `[0, 360°)`.
pub open spec fn dragged_rotation(shared_rotation: int, prev_angle: int, curr_angle: int) -> int {
    wrap_degrees(shared_rotation - (curr_angle - prev_angle))
}

impl DragTracker {
    /// The tracker at rest.
    pub open spec fn at_rest() -> DragTracker {
        DragTracker { dragging: false, last_x: 0, last_y: 0 }
    }

    /// A tracker at rest.
    pub fn new() -> (r: DragTracker)
        ensures
            r == DragTracker::at_rest(),
    {
        DragTracker { dragging: false, last_x: 0, last_y: 0 }
    }

    /// A press of the pointer at `(x, y)`: the drag starts there.
    pub fn press(&mut self, x: i32, y: i32)
        ensures
            *final(self) == (DragTracker { dragging: true, last_x: x, last_y: y }),
    {
        self.dragging = true;
        self.last_x = x;
        self.last_y = y;
    }

    /// A move of the pointer to `(x, y)`. In a drag it gives the new shared
    /// rotation and keeps the new place; outside a drag it gives nothing and
    /// changes nothing. The host has measured the angles from the centre to
    /// the place kept before and to the new one.
    pub fn drag(
        &mut self,
        shared_rotation: i64,
        x: i32,
        y: i32,
        prev_angle: i64,
        curr_angle: i64,
    ) -> (r: Option<i64>)
        ensures
            !old(self).dragging ==> r is None && *final(self) == *old(self),
            old(self).dragging ==> r == Some(
                dragged_rotation(shared_rotation as int, prev_angle as int, curr_angle as int)
                    as i64,
            ) && *final(self) == (DragTracker { dragging: true, last_x: x, last_y: y }),
            r matches Some(rotation) ==> in_circle(rotation as int),
    {
        if !self.dragging {
            return None;
        }
        let delta: i128 = curr_angle as i128 - prev_angle as i128;
        let new_rotation: i64 = normalize_wide(shared_rotation as i128 - delta);
        self.last_x = x;
        self.last_y = y;
        Some(new_rotation)
    }

    /// A release of the pointer, or its leaving the canvas: the drag ends.
    pub fn release(&mut self)
        ensures
            *final(self) == (DragTracker { dragging: false, ..*old(self) }),
    {
        self.dragging = false;
    }
}

} // verus!
