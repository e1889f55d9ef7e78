//! The angles at which the explorer draws its ticks, axis lines, labels and
//! bodies. Painting itself is left to the host.

use vstd::prelude::*;
use crate::utils::angle::{in_circle, lemma_wrap_add, normalize_wide, wrap_degrees};
use crate::utils::fixed::trunc_div;

verus! {

/// The labels from `degree` up to but without `end_deg`, `step` apart: for
/// each the angle at which it is drawn on a dial turned by `rot`, and the
/// whole degrees that it shows.
pub open spec fn labels_from(rot: int, degree: int, end_deg: int, step: int) -> Seq<(i64, i64)>
    decreases end_deg - degree + step,
{
    if step <= 0 {
        Seq::empty()
    } else if degree >= end_deg {
        Seq::empty()
    } else {
        seq![(wrap_degrees(rot + degree) as i64, trunc_div(degree, 1_000_000) as i64)]
            + labels_from(rot, degree + step, end_deg, step)
    }
}

/// Where a body is drawn on a dial that may be turned: at its longitude, or
/// moved by the rotation and wrapped.
pub open spec fn turned_position(longitude: int, rotation: Option<i64>) -> int {
    match rotation {
        Some(rot) => wrap_degrees(longitude + rot),
        None => longitude,
    }
}

/// The angles of `count` ticks, `interval` apart, on a dial turned by `rot`.
pub fn tick_mark_angles(rot: i64, interval: i64, count: usize) -> (r: Vec<i64>)
    ensures
        r@.len() == count,
        forall|i: int| 0 <= i < count ==> #[trigger] r@[i] == wrap_degrees(i * interval + rot),
{
    let mut angles: Vec<i64> = Vec::new();
    let mut i: usize = 0;
    while i < count
        invariant
            i <= count,
            angles@.len() == i,
            forall|k: int| 0 <= k < i ==> #[trigger] angles@[k] == wrap_degrees(k * interval + rot),
        decreases count - i,
    {
        proof {
            assert(0xffff_ffff_ffff_ffff * -0x8000_0000_0000_0000 <= i * interval
                <= 0xffff_ffff_ffff_ffff * 0x7fff_ffff_ffff_ffff) by (nonlinear_arith)
                requires
                    0 <= i <= 0xffff_ffff_ffff_ffff,
                    -0x8000_0000_0000_0000 <= interval <= 0x7fff_ffff_ffff_ffff,
            ;
            lemma_wrap_add(i * interval, rot as int);
        }
        let degree: i128 = (i as i128) * (interval as i128);
        let turned: i64 = normalize_wide(normalize_wide(degree) as i128 + rot as i128);
        angles.push(turned);
        i = i + 1;
    }
    angles
}

/// The angles of `count` axis lines, spread evenly round a dial turned by
/// `rot`. Each share of the circle is rounded down to the unit.
pub fn axis_line_angles(rot: i64, count: usize) -> (r: Vec<i64>)
    ensures
        r@.len() == count,
        forall|i: int|
            0 <= i < count ==> #[trigger] r@[i] == wrap_degrees(
                (i * 360_000_000) / (count as int) + rot,
            ),
{
    let mut angles: Vec<i64> = Vec::new();
    let mut i: usize = 0;
    while i < count
        invariant
            i <= count,
            angles@.len() == i,
            forall|k: int|
                0 <= k < i ==> #[trigger] angles@[k] == wrap_degrees(
                    (k * 360_000_000) / (count as int) + rot,
                ),
        decreases count - i,
    {
        let share: i128 = ((i as i128) * 360_000_000) / (count as i128);
        angles.push(normalize_wide(share + rot as i128));
        i = i + 1;
    }
    angles
}

/// The degree labels from `start_deg` up to but without `end_deg`, `step`
/// apart, on a dial turned by `rot`: for each the angle at which it is drawn
/// and the whole degrees that it shows.
pub fn degree_labels(rot: i64, start_deg: i64, end_deg: i64, step: i64) -> (r: Vec<(i64, i64)>)
    requires
        step > 0,
    ensures
        r@ == labels_from(rot as int, start_deg as int, end_deg as int, step as int),
{
    let mut labels: Vec<(i64, i64)> = Vec::new();
    let mut deg: i128 = start_deg as i128;
    while deg < end_deg as i128
        invariant
            step > 0,
            start_deg <= deg,
            labels@ + labels_from(rot as int, deg as int, end_deg as int, step as int)
                == labels_from(rot as int, start_deg as int, end_deg as int, step as int),
        decreases end_deg - deg + step,
    {
        let angle: i64 = normalize_wide(rot as i128 + deg);
        let label: i64 = (deg / 1_000_000) as i64;
        proof {
            let rest = labels_from(rot as int, deg + step, end_deg as int, step as int);
            assert(labels@.push((angle, label)) + rest =~= labels@ + (seq![(angle, label)] + rest));
        }
        labels.push((angle, label));
        deg = deg + step as i128;
    }
    proof {
        assert(labels@ + Seq::<(i64, i64)>::empty() =~= labels@);
    }
    labels
}

/// Where a body is drawn on a dial that may be turned.
pub fn rotated_position(longitude: i64, rotation: Option<i64>) -> (r: i64)
    ensures
        r == turned_position(longitude as int, rotation),
        rotation is Some ==> in_circle(r as int),
{
    match rotation {
        Some(rot) => normalize_wide(longitude as i128 + rot as i128),
        None => longitude,
    }
}

} // verus!
