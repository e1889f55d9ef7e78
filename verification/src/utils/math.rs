//! Circle arithmetic on raw positions.

use vstd::prelude::*;
use crate::utils::angle::{arc_distance, in_circle, normalize_wide, wrap_degrees};

verus! {

/// Whether a position lies on the arc that runs from `start` to `end` in the
/// direction of growing degrees, ends included. All three are normalized
/// first; an arc whose start is not before its end passes through 0°.
pub open spec fn on_arc(angle: int, start: int, end: int) -> bool {
    let a = wrap_degrees(angle);
    let s = wrap_degrees(start);
    let e = wrap_degrees(end);
    if s < e {
        s <= a <= e
    } else {
        a >= s || a <= e
    }
}

/// Normalizes a raw position to `[0, 360°)`.
pub fn normalize_degrees(degrees: i64) -> (r: i64)
    ensures
        r == wrap_degrees(degrees as int),
        in_circle(r as int),
{
    let once: i128 = (degrees as i128) % 360_000_000;
    normalize_wide(once + 360_000_000)
}

/// The shortest arc between two raw positions, between 0° and 180°.
pub fn angle_distance(angle1: i64, angle2: i64) -> (r: i64)
    ensures
        r == arc_distance(wrap_degrees(angle1 as int), wrap_degrees(angle2 as int)),
        0 <= r <= 180_000_000,
{
    let a1: i64 = normalize_degrees(angle1);
    let a2: i64 = normalize_degrees(angle2);
    let diff: i64 = if a1 >= a2 {
        a1 - a2
    } else {
        a2 - a1
    };
    if diff > 180_000_000 {
        360_000_000 - diff
    } else {
        diff
    }
}

/// Whether `angle` lies on the arc from `start` to `end`.
pub fn is_angle_between(angle: i64, start: i64, end: i64) -> (r: bool)
    ensures
        r == on_arc(angle as int, start as int, end as int),
{
    let a: i64 = normalize_degrees(angle);
    let s: i64 = normalize_degrees(start);
    let e: i64 = normalize_degrees(end);
    if s < e {
        a >= s && a <= e
    } else {
        a >= s || a <= e
    }
}

} // verus!
