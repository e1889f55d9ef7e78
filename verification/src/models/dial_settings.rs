//! Display settings of a dial.

use vstd::prelude::*;
use vstd::string::StringExecFns;

verus! {

/// What a dial shows and how it is stroked.
#[derive(Debug, Clone)]
pub struct DialSettings {
    pub show_degree_marks: bool,
    pub show_planet_labels: bool,
    pub show_midpoints: bool,
    /// Stroke width in millionths of a pixel.
    pub line_thickness: i64,
    pub base_color: String,
}

impl Default for DialSettings {
    /// Everything shown, strokes one pixel wide and white.
    fn default() -> (r: DialSettings)
        ensures
            r.show_degree_marks,
            r.show_planet_labels,
            r.show_midpoints,
            r.line_thickness == 1_000_000,
            r.base_color@ == "#FFFFFF"@,
    {
        DialSettings {
            show_degree_marks: true,
            show_planet_labels: true,
            show_midpoints: true,
            line_thickness: 1_000_000,
            base_color: String::from_str("#FFFFFF"),
        }
    }
}

impl DialSettings {
    /// Settings made of the given options.
    pub fn new(
        show_degree_marks: bool,
        show_planet_labels: bool,
        show_midpoints: bool,
        line_thickness: i64,
        base_color: String,
    ) -> (r: DialSettings)
        ensures
            r.show_degree_marks == show_degree_marks,
            r.show_planet_labels == show_planet_labels,
            r.show_midpoints == show_midpoints,
            r.line_thickness == line_thickness,
            r.base_color == base_color,
    {
        DialSettings {
            show_degree_marks,
            show_planet_labels,
            show_midpoints,
            line_thickness,
            base_color,
        }
    }
}

} // verus!
