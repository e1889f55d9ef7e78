//! Dimensions, colours and angles shared by the dials.
//!
//! Lengths are whole pixels; angles are millionths of a degree.

use vstd::prelude::*;

verus! {

/// Side of the square canvas.
pub const CANVAS_SIZE: i64 = 400;

/// Horizontal centre of the dial.
pub const CENTER_X: i64 = 200;

/// Vertical centre of the dial.
pub const CENTER_Y: i64 = 200;

/// Radius of the dial face.
pub const RADIUS: i64 = 170;

/// Radius at which bodies are drawn.
pub const PLANET_RADIUS: i64 = 150;

/// Colour of the main strokes.
pub const BASE_STROKE_COLOR: &'static str = "#FFFFFF";

/// Colour of ticks and axis lines.
pub const SECONDARY_STROKE_COLOR: &'static str = "#666666";

/// Colour of the lines that join the two bodies of a midpoint.
pub const MIDPOINT_STROKE_COLOR: &'static str = "rgba(255,255,255,0.3)";

/// Colour of the tick drawn at a body.
pub const PLANET_TICK_COLOR: &'static str = "#999999";

/// Font family of all labels.
pub const DEFAULT_FONT: &'static str = "Arial";

/// Font of the glyph of a body.
pub const PLANET_SYMBOL_FONT_SIZE: &'static str = "14px Arial";

/// Font of the degree labels.
pub const DEGREE_LABEL_FONT_SIZE: &'static str = "10px Arial";

/// A full turn, 360°.
pub const FULL_CIRCLE_DEGREES: i64 = 360_000_000;

/// A quarter turn, 90°.
pub const QUARTER_CIRCLE_DEGREES: i64 = 90_000_000;

/// Distance between two ticks of the full dial, 5°.
pub const DEGREE_TICK_INCREMENT: i64 = 5_000_000;

} // verus!
