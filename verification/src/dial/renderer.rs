//! What the quarter dial shows: the alignments at the present rotation and
//! the geometry of its face. Painting itself is left to the host.
//!
//! The face of the quarter dial spans 90°, drawn round a full turn of the
//! canvas and counted counter-clockwise from the top, so one degree of the
//! dial takes four degrees of the canvas. The rotation of the dial counts
//! degrees of the dial: an axis point turned by 8° points 8° further along
//! the face, and a turn by 90° brings it back to where it was.

use vstd::prelude::*;
use vstd::string::StringExecFns;
use crate::dial::alignment::{
    aligned_midpoints, aligned_planets, axis_target, collect_aligned_midpoints,
    collect_aligned_planets, orb_difference, range_distance, target_of_axis,
};
use crate::dial::types::{AxisPoint, LiveAlignment, Midpoint, Planet, PlanetPosition};

verus! {

/// The orb within which the live display counts a position as aligned, 1°.
pub const LIVE_ORB_TOLERANCE: i64 = 1_000_000;

/// How many alignments the list beside the dial shows at most.
pub const LISTED_ALIGNMENTS: usize = 10;

/// How many bodies the dial draws at most.
pub const DRAWN_PLANETS: usize = 6;

/// The weight of a mark on the rim.
#[derive(Debug, Clone, Copy, PartialEq, Eq, Structural)]
pub enum TickKind {
    /// A long mark with a label.
    Major,
    /// A mark of middle length.
    Medium,
    /// A short mark.
    Minor,
}

/// Works out what the quarter dial shows. It holds no state.
pub struct DialRenderer;

/// Where an axis point is drawn on the canvas. The points lie a quarter turn
/// apart, counter-clockwise.
pub open spec fn axis_canvas_angle(axis: AxisPoint) -> int {
    match axis {
        AxisPoint::Zero => 0,
        AxisPoint::TwentyTwoFive => 270_000_000,
        AxisPoint::FortyFive => 180_000_000,
        AxisPoint::SixtySevenFive => 90_000_000,
    }
}

/// The short label of an axis point, as text.
pub open spec fn axis_label_text(axis: AxisPoint) -> Seq<char> {
    match axis {
        AxisPoint::Zero => "0°"@,
        AxisPoint::TwentyTwoFive => "22.5°"@,
        AxisPoint::FortyFive => "45°"@,
        AxisPoint::SixtySevenFive => "67.5°"@,
    }
}

/// The dial position to which an axis point points when the dial is rotated:
/// the position of the point, moved by the rotation, folded into 90°.
pub open spec fn quarter_target(axis: AxisPoint, rotation: int) -> int {
    axis_target(axis.position(), rotation, 90_000_000)
}

/// Whether `alignment` says what stands on `axis` of the quarter dial at the
/// given rotation: the midpoints and the bodies within `orb` of the position
/// to which the point points, each in the order of its list.
pub open spec fn is_live_alignment(
    alignment: LiveAlignment,
    axis: AxisPoint,
    planets: Seq<PlanetPosition>,
    midpoints: Seq<Midpoint>,
    rotation: int,
    orb: int,
) -> bool {
    &&& alignment.axis_point == axis
    &&& alignment.axis_canvas_angle == axis_canvas_angle(axis)
    &&& alignment.axis_label@ == axis_label_text(axis)
    &&& alignment.target_dial_position == quarter_target(axis, rotation)
    &&& alignment.aligned_midpoints@ == aligned_midpoints(
        midpoints,
        false,
        quarter_target(axis, rotation),
        orb,
    )
    &&& alignment.aligned_planets@ == aligned_planets(
        planets,
        false,
        quarter_target(axis, rotation),
        orb,
    )
}

/// The canvas angle at which a dial position is drawn: four canvas degrees to
/// the degree, counter-clockwise from the top.
pub open spec fn canvas_angle_of(dial_angle: int) -> int {
    if dial_angle == 0 {
        0
    } else {
        360_000_000 - dial_angle * 4
    }
}

/// The weight of the mark at a whole degree of the quarter dial: long every
/// 15°, middle every 5°.
pub open spec fn quarter_tick(degree: int) -> TickKind {
    if degree % 15 == 0 {
        TickKind::Major
    } else if degree % 5 == 0 {
        TickKind::Medium
    } else {
        TickKind::Minor
    }
}

/// The dial position at which the connection lines look for a body of the
/// Sibley chart. Only the first six bodies are drawn.
pub open spec fn sibley_dial_position(planet: Planet) -> Option<int> {
    match planet {
        Planet::Sun => Some(13_190_000),
        Planet::Moon => Some(27_100_000),
        Planet::Mercury => Some(24_120_000),
        Planet::Venus => Some(3_060_000),
        Planet::Mars => Some(21_220_000),
        Planet::Jupiter => Some(5_560_000),
        _ => None,
    }
}

/// The colour in which an alignment is listed, as text: red for an orb under
/// half a degree, yellow under one degree, green from there on.
pub open spec fn orb_color_text(orb: int) -> Seq<char> {
    if orb < 500_000 {
        "#ff6b6b"@
    } else if orb < 1_000_000 {
        "#ffd93d"@
    } else {
        "#2cb67d"@
    }
}

/// Where an axis point is drawn on the canvas.
fn canvas_angle_of_axis(axis: AxisPoint) -> (r: i64)
    ensures
        r == axis_canvas_angle(axis),
{
    match axis {
        AxisPoint::Zero => 0,
        AxisPoint::TwentyTwoFive => 270_000_000,
        AxisPoint::FortyFive => 180_000_000,
        AxisPoint::SixtySevenFive => 90_000_000,
    }
}

/// The short label of an axis point.
fn label_of_axis(axis: AxisPoint) -> (r: &'static str)
    ensures
        r@ == axis_label_text(axis),
{
    match axis {
        AxisPoint::Zero => "0°",
        AxisPoint::TwentyTwoFive => "22.5°",
        AxisPoint::FortyFive => "45°",
        AxisPoint::SixtySevenFive => "67.5°",
    }
}

impl DialRenderer {
    /// A renderer.
    pub fn new() -> (r: DialRenderer)
        ensures
            r == DialRenderer,
    {
        DialRenderer
    }

    /// The dial position to which an axis point points at a rotation.
    pub fn target_dial_position(&self, axis: AxisPoint, current_rotation: i64) -> (r: i64)
        ensures
            r == quarter_target(axis, current_rotation as int),
            0 <= r < 90_000_000,
    {
        target_of_axis(axis.degrees(), current_rotation, 90_000_000)
    }

    /// The angle by which the canvas is turned to paint the axis of the
    /// rotated dial: the canvas angle of the position to which the 0° point
    /// points. Turned by it, every arm of the axis lies at the canvas angle
    /// of the position to which its point points.
    pub fn canvas_rotation(&self, current_rotation: i64) -> (r: i64)
        ensures
            r == canvas_angle_of(quarter_target(AxisPoint::Zero, current_rotation as int)),
            0 <= r < 360_000_000,
            forall|axis: AxisPoint|
                (#[trigger] axis_canvas_angle(axis) + r) % 360_000_000 == canvas_angle_of(
                    quarter_target(axis, current_rotation as int),
                ),
    {
        proof {
            assert forall|axis: AxisPoint|
                (#[trigger] axis_canvas_angle(axis) + canvas_angle_of(
                    quarter_target(AxisPoint::Zero, current_rotation as int),
                )) % 360_000_000 == canvas_angle_of(
                    quarter_target(axis, current_rotation as int),
                ) by {
                lemma_canvas_rotation(axis, current_rotation as int);
            }
        }
        self.canvas_angle(self.target_dial_position(AxisPoint::Zero, current_rotation))
    }

    /// What stands on each of the four axis points at the present rotation,
    /// within an orb of 1°. The result has one entry for each point, in the
    /// order of the points; an entry may be empty.
    pub fn calculate_live_alignments(
        &self,
        planets: &[PlanetPosition],
        midpoints: &[Midpoint],
        current_rotation: i64,
    ) -> (r: Vec<LiveAlignment>)
        ensures
            r@.len() == 4,
            forall|k: int|
                0 <= k < 4 ==> is_live_alignment(
                    #[trigger] r@[k],
                    AxisPoint::points()[k],
                    planets@,
                    midpoints@,
                    current_rotation as int,
                    LIVE_ORB_TOLERANCE as int,
                ),
    {
        self.calculate_live_alignments_within(
            planets,
            midpoints,
            current_rotation,
            LIVE_ORB_TOLERANCE,
        )
    }

    /// What stands on each of the four axis points at the present rotation,
    /// within the given orb. An orb of zero asks for exact alignment.
    pub fn calculate_live_alignments_within(
        &self,
        planets: &[PlanetPosition],
        midpoints: &[Midpoint],
        current_rotation: i64,
        orb_tolerance: i64,
    ) -> (r: Vec<LiveAlignment>)
        ensures
            r@.len() == 4,
            forall|k: int|
                0 <= k < 4 ==> is_live_alignment(
                    #[trigger] r@[k],
                    AxisPoint::points()[k],
                    planets@,
                    midpoints@,
                    current_rotation as int,
                    orb_tolerance as int,
                ),
    {
        let mut alignments: Vec<LiveAlignment> = Vec::new();
        let axis_points = AxisPoint::all();
        let mut i: usize = 0;
        while i < axis_points.len()
            invariant
                axis_points@ == AxisPoint::points(),
                i <= 4,
                alignments@.len() == i,
                forall|k: int|
                    0 <= k < i ==> is_live_alignment(
                        #[trigger] alignments@[k],
                        AxisPoint::points()[k],
                        planets@,
                        midpoints@,
                        current_rotation as int,
                        orb_tolerance as int,
                    ),
            decreases axis_points@.len() - i,
        {
            let axis_point: AxisPoint = axis_points[i];
            let target_dial_position: i64 = self.target_dial_position(axis_point, current_rotation);
            let aligned_midpoints = collect_aligned_midpoints(
                midpoints,
                false,
                target_dial_position,
                orb_tolerance,
            );
            let aligned_planets = collect_aligned_planets(
                planets,
                false,
                target_dial_position,
                orb_tolerance,
            );
            alignments.push(
                LiveAlignment {
                    axis_canvas_angle: canvas_angle_of_axis(axis_point),
                    axis_label: String::from_str(label_of_axis(axis_point)),
                    axis_point,
                    target_dial_position,
                    aligned_midpoints,
                    aligned_planets,
                },
            );
            i = i + 1;
        }
        alignments
    }

    /// The distance between two positions of the quarter dial, round its 90°.
    pub fn calculate_orb_difference_90(&self, position1: i64, position2: i64) -> (r: i64)
        requires
            0 <= position2 <= 90_000_000,
        ensures
            r == range_distance(position1 as int, position2 as int, 90_000_000),
    {
        orb_difference(position1, position2, 90_000_000)
    }

    /// The canvas angle at which a position of the quarter dial is drawn.
    pub fn canvas_angle(&self, dial_angle: i64) -> (r: i64)
        requires
            0 <= dial_angle <= 90_000_000,
        ensures
            r == canvas_angle_of(dial_angle as int),
            0 <= r < 360_000_000,
    {
        let canvas_angle: i64 = 360_000_000 - dial_angle * 4;
        if canvas_angle == 360_000_000 {
            0
        } else {
            canvas_angle
        }
    }

    /// The weight of the mark at a whole degree of the face.
    pub fn tick_kind(&self, degree: u32) -> (r: TickKind)
        ensures
            r == quarter_tick(degree as int),
    {
        if degree % 15 == 0 {
            TickKind::Major
        } else if degree % 5 == 0 {
            TickKind::Medium
        } else {
            TickKind::Minor
        }
    }

    /// The dial position of a body of the Sibley chart, for the connection
    /// lines; `None` for a body that is not drawn.
    pub fn find_planet_dial_position(&self, planet: &Planet) -> (r: Option<i64>)
        ensures
            r is Some == sibley_dial_position(*planet) is Some,
            r matches Some(position) ==> sibley_dial_position(*planet) == Some(position as int),
    {
        match planet {
            Planet::Sun => Some(13_190_000),
            Planet::Moon => Some(27_100_000),
            Planet::Mercury => Some(24_120_000),
            Planet::Venus => Some(3_060_000),
            Planet::Mars => Some(21_220_000),
            Planet::Jupiter => Some(5_560_000),
            _ => None,
        }
    }

    /// The colour in which an alignment of the given orb is listed.
    pub fn orb_color(&self, orb: i64) -> (r: &'static str)
        ensures
            r@ == orb_color_text(orb as int),
    {
        if orb < 500_000 {
            "#ff6b6b"
        } else if orb < 1_000_000 {
            "#ffd93d"
        } else {
            "#2cb67d"
        }
    }

    /// Whether the marker of an axis point is lit: something stands on it.
    pub fn is_active(&self, alignment: &LiveAlignment) -> (r: bool)
        ensures
            r == (alignment.aligned_midpoints@.len() > 0 || alignment.aligned_planets@.len() > 0),
    {
        alignment.aligned_midpoints.len() > 0 || alignment.aligned_planets.len() > 0
    }
}

/// With nothing to show, every axis point has an empty alignment.
pub proof fn lemma_empty_dial_has_no_alignment(
    alignment: LiveAlignment,
    axis: AxisPoint,
    rotation: int,
    orb: int,
)
    requires
        is_live_alignment(alignment, axis, Seq::empty(), Seq::empty(), rotation, orb),
    ensures
        alignment.aligned_midpoints@.len() == 0,
        alignment.aligned_planets@.len() == 0,
{
}

/// An axis point always points to a position of the face. On a dial that is
/// not turned it points to its own position, the 0° point of a dial turned by
/// less than 90° points to the rotation itself, and a turn by the 90° of the
/// face brings every point back to where it was.
pub proof fn lemma_quarter_target(axis: AxisPoint, rotation: int)
    ensures
        0 <= quarter_target(axis, rotation) < 90_000_000,
        quarter_target(axis, 0) == axis.position(),
        0 <= rotation < 90_000_000 ==> quarter_target(AxisPoint::Zero, rotation) == rotation,
        quarter_target(axis, rotation + 90_000_000) == quarter_target(axis, rotation),
{
}

/// The arms of the axis lie a quarter turn of the canvas apart, and the canvas
/// rotation moves each to the canvas angle of the position to which its point
/// points.
pub proof fn lemma_canvas_rotation(axis: AxisPoint, rotation: int)
    ensures
        (axis_canvas_angle(axis) + canvas_angle_of(quarter_target(AxisPoint::Zero, rotation)))
            % 360_000_000 == canvas_angle_of(quarter_target(axis, rotation)),
{
}

} // verus!
