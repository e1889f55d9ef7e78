//! Bodies of the two-dial explorer and the midpoints between them.

use vstd::prelude::*;
use vstd::string::StringExecFns;
use crate::utils::angle::{circular_midpoint, in_circle, normalize_degrees, wrap_degrees};
use crate::utils::fixed::{trunc_div, trunc_rem};
use crate::utils::pairs::{index_pairs, pair_count, pair_indices};
use crate::utils::text::{int_text, padded_text, push_int, push_padded};

verus! {

/// A celestial body with its position and the way it is drawn.
#[derive(Debug, Clone, Copy)]
pub struct Planet {
    pub name: &'static str,
    pub symbol: &'static str,
    /// Ecliptic longitude in millionths of a degree.
    pub longitude: i64,
    pub color: &'static str,
}

/// A longitude as whole degrees and minutes of arc, such as `13°05'`. Both
/// parts are rounded toward zero and carry the sign of the longitude.
pub open spec fn degree_text(degree: int) -> Seq<char> {
    int_text(trunc_div(degree, 1_000_000)) + "°"@ + padded_text(
        trunc_div(trunc_rem(degree, 1_000_000) * 60, 1_000_000),
    ) + "'"@
}

/// The bodies of the Sibley chart of the United States.
pub open spec fn sibley_chart() -> Seq<Planet> {
    seq![
        Planet { name: "Sun", symbol: "☉", longitude: 13_000_000, color: "#FFD700" },
        Planet { name: "Moon", symbol: "☽", longitude: 76_000_000, color: "#C0C0C0" },
        Planet { name: "Mercury", symbol: "☿", longitude: 95_000_000, color: "#FFA500" },
        Planet { name: "Venus", symbol: "♀", longitude: 63_000_000, color: "#90EE90" },
        Planet { name: "Mars", symbol: "♂", longitude: 52_000_000, color: "#FF6347" },
        Planet { name: "Jupiter", symbol: "♃", longitude: 18_000_000, color: "#1E90FF" },
        Planet { name: "Saturn", symbol: "♄", longitude: 350_000_000, color: "#8B4513" },
        Planet { name: "Uranus", symbol: "♅", longitude: 56_000_000, color: "#00CED1" },
        Planet { name: "Neptune", symbol: "♆", longitude: 162_000_000, color: "#4169E1" },
        Planet { name: "Pluto", symbol: "♇", longitude: 274_000_000, color: "#8B0000" },
    ]
}

/// The midpoint entry of the pair `(i, j)` of a list of bodies: the circular
/// midpoint of the two normalized longitudes, and the two places.
pub open spec fn midpoint_entry(planets: Seq<Planet>, pair: (int, int)) -> (i64, usize, usize) {
    (
        circular_midpoint(
            wrap_degrees(planets[pair.0].longitude as int),
            wrap_degrees(planets[pair.1].longitude as int),
        ) as i64,
        pair.0 as usize,
        pair.1 as usize,
    )
}

impl Planet {
    /// A body with the given name, glyph, longitude and colour.
    pub fn new(name: &'static str, symbol: &'static str, longitude: i64, color: &'static str) -> (r:
        Planet)
        ensures
            r.name == name,
            r.symbol == symbol,
            r.longitude == longitude,
            r.color == color,
    {
        Planet { name, symbol, longitude, color }
    }

    /// The longitude as degrees and minutes of arc.
    pub fn formatted_longitude(&self) -> (r: String)
        ensures
            r@ == degree_text(self.longitude as int),
    {
        format_degree(self.longitude)
    }
}

/// The Sibley chart of the United States, a natal chart in common use.
pub fn get_sibley_chart() -> (r: Vec<Planet>)
    ensures
        r@ == sibley_chart(),
{
    let chart = vec![
        Planet { name: "Sun", symbol: "☉", longitude: 13_000_000, color: "#FFD700" },
        Planet { name: "Moon", symbol: "☽", longitude: 76_000_000, color: "#C0C0C0" },
        Planet { name: "Mercury", symbol: "☿", longitude: 95_000_000, color: "#FFA500" },
        Planet { name: "Venus", symbol: "♀", longitude: 63_000_000, color: "#90EE90" },
        Planet { name: "Mars", symbol: "♂", longitude: 52_000_000, color: "#FF6347" },
        Planet { name: "Jupiter", symbol: "♃", longitude: 18_000_000, color: "#1E90FF" },
        Planet { name: "Saturn", symbol: "♄", longitude: 350_000_000, color: "#8B4513" },
        Planet { name: "Uranus", symbol: "♅", longitude: 56_000_000, color: "#00CED1" },
        Planet { name: "Neptune", symbol: "♆", longitude: 162_000_000, color: "#4169E1" },
        Planet { name: "Pluto", symbol: "♇", longitude: 274_000_000, color: "#8B0000" },
    ];
    assert(chart@ =~= sibley_chart());
    chart
}

/// The midpoint of two raw positions on the full circle, on the shorter arc
/// between them.
pub fn calculate_360_midpoint(pos1: i64, pos2: i64) -> (r: i64)
    ensures
        r == circular_midpoint(wrap_degrees(pos1 as int), wrap_degrees(pos2 as int)),
        in_circle(r as int),
{
    let p1: i64 = normalize_degrees(pos1);
    let p2: i64 = normalize_degrees(pos2);
    let mut midpoint: i64 = (p1 + p2) / 2;
    let apart: i64 = if p1 >= p2 {
        p1 - p2
    } else {
        p2 - p1
    };
    if apart > 180_000_000 {
        midpoint = (midpoint + 180_000_000) % 360_000_000;
    }
    midpoint
}

/// The midpoints of all pairs of bodies: for each pair `(i, j)` with `i < j`,
/// in ascending order, the midpoint and the two places in the list.
pub fn calculate_all_midpoints(planets: &[Planet]) -> (r: Vec<(i64, usize, usize)>)
    ensures
        r@.len() == pair_count(planets@.len() as int),
        r@.len() == pair_indices(planets@.len() as int).len(),
        forall|k: int|
            0 <= k < r@.len() ==> #[trigger] r@[k] == midpoint_entry(
                planets@,
                pair_indices(planets@.len() as int)[k],
            ),
{
    let pairs = index_pairs(planets.len());
    let mut midpoints: Vec<(i64, usize, usize)> = Vec::new();
    let mut k: usize = 0;
    while k < pairs.len()
        invariant
            k <= pairs@.len(),
            pairs@.len() == pair_indices(planets@.len() as int).len(),
            forall|t: int|
                0 <= t < pairs@.len() ==> (#[trigger] pairs@[t]).0 < pairs@[t].1 < planets@.len()
                    && (pairs@[t].0 as int, pairs@[t].1 as int) == pair_indices(
                    planets@.len() as int,
                )[t],
            midpoints@.len() == k,
            forall|t: int|
                0 <= t < k ==> #[trigger] midpoints@[t] == midpoint_entry(
                    planets@,
                    pair_indices(planets@.len() as int)[t],
                ),
        decreases pairs@.len() - k,
    {
        let (i, j) = pairs[k];
        let midpoint_360: i64 = calculate_360_midpoint(planets[i].longitude, planets[j].longitude);
        midpoints.push((midpoint_360, i, j));
        k = k + 1;
    }
    midpoints
}

/// The pairs of bodies with their midpoints; the same as
/// [`calculate_all_midpoints`].
pub fn get_planet_pairs_for_midpoints(planets: &[Planet]) -> (r: Vec<(i64, usize, usize)>)
    ensures
        r@.len() == pair_count(planets@.len() as int),
        r@.len() == pair_indices(planets@.len() as int).len(),
        forall|k: int|
            0 <= k < r@.len() ==> #[trigger] r@[k] == midpoint_entry(
                planets@,
                pair_indices(planets@.len() as int)[k],
            ),
{
    calculate_all_midpoints(planets)
}

/// A position as whole degrees and minutes of arc.
pub fn format_degree(degree: i64) -> (r: String)
    ensures
        r@ == degree_text(degree as int),
{
    let d: i64 = degree / 1_000_000;
    let m: i64 = ((degree % 1_000_000) * 60) / 1_000_000;
    let mut out = String::new();
    push_int(&mut out, d);
    out.append("°");
    push_padded(&mut out, m);
    out.append("'");
    assert(out@ =~= degree_text(degree as int));
    out
}

} // verus!
