//! A normalized angle and the circular arithmetic built on it.
//!
//! Angles count millionths of a degree. An [`Angle`] always lies in
//! `[0, 360°)`; every constructor and every operation brings its result back
//! into that range.

use vstd::prelude::*;
use vstd::math::abs;
use vstd::string::StringExecFns;
use crate::astrology::models::zodiac::ZodiacSign;
use crate::utils::fixed::{lemma_product_bounds, trunc_div, trunc_rem};
use crate::utils::text::{
    decimal_text, padded_tenths_text, padded_text, push_decimal, push_padded, push_padded_tenths,
};

verus! {

/// A full turn, 360°.
pub const FULL_CIRCLE: i64 = 360_000_000;

/// Half a turn, 180°.
pub const HALF_CIRCLE: i64 = 180_000_000;

/// A raw position brought into `[0, 360°)`: the Euclidean remainder by a full turn.
pub open spec fn wrap_degrees(x: int) -> int {
    x % 360_000_000
}

/// Whether a raw position already lies in `[0, 360°)`.
pub open spec fn in_circle(x: int) -> bool {
    0 <= x < 360_000_000
}

/// Length of the shorter arc between two positions of the circle.
pub open spec fn arc_distance(a: int, b: int) -> int {
    let diff = abs(b - a) as int;
    if diff > 180_000_000 {
        360_000_000 - diff
    } else {
        diff
    }
}

/// Midpoint of two positions on the shorter arc between them, rounded down to
/// the unit: the plain mean, moved half a turn when the positions lie more
/// than 180° apart.
pub open spec fn circular_midpoint(a: int, b: int) -> int {
    let sum = if abs(b - a) > 180_000_000 {
        a + b + 360_000_000
    } else {
        a + b
    };
    wrap_degrees(sum / 2)
}

/// A position multiplied by a harmonic and wrapped onto the full circle.
pub open spec fn harmonic_position(a: int, harmonic: int) -> int {
    wrap_degrees(a * harmonic)
}

/// Signed way from `a` to `b`, in `[-180°, 180°]`: the remainder of `b - a`
/// by a full turn, keeping the sign of `b - a`, brought to the shorter side.
pub open spec fn signed_difference(a: int, b: int) -> int {
    let diff = trunc_rem(b - a, 360_000_000);
    if diff < -180_000_000 {
        diff + 360_000_000
    } else if diff > 180_000_000 {
        diff - 360_000_000
    } else {
        diff
    }
}

/// Degrees, minutes of arc and millionths of a second of arc of a
/// non-negative position.
pub open spec fn dms_parts(x: int) -> (int, int, int) {
    let fraction = x % 1_000_000;
    (x / 1_000_000, (fraction * 60) / 1_000_000, ((fraction * 60) % 1_000_000) * 60)
}

/// A non-negative position written as degrees, minutes and seconds of arc
/// with the name of its sign, such as `15°27'43.2" Aries`. Seconds are
/// rounded to the nearest tenth.
pub open spec fn dms_text(x: int) -> Seq<char> {
    let parts = dms_parts(x);
    decimal_text(parts.0 as nat) + "°"@ + padded_text(parts.1) + "'"@ + padded_tenths_text(parts.2)
        + "\" "@ + ZodiacSign::at(x / 30_000_000).name_text()
}

/// Normalizes a raw position to `[0, 360°)`.
pub fn normalize_degrees(degrees: i64) -> (r: i64)
    ensures
        r == wrap_degrees(degrees as int),
        in_circle(r as int),
{
    let normalized: i64 = degrees % FULL_CIRCLE;
    if normalized < 0 {
        normalized + FULL_CIRCLE
    } else {
        normalized
    }
}

/// Normalizes a position too wide for 64 bits to `[0, 360°)`.
pub fn normalize_wide(degrees: i128) -> (r: i64)
    ensures
        r == wrap_degrees(degrees as int),
        in_circle(r as int),
{
    let normalized: i128 = degrees % 360_000_000;
    if normalized < 0 {
        (normalized + 360_000_000) as i64
    } else {
        normalized as i64
    }
}

/// Signed difference from `a` to `b`, in `[-180°, 180°]`.
pub fn angle_difference(a: i64, b: i64) -> (r: i64)
    ensures
        r == signed_difference(a as int, b as int),
        -HALF_CIRCLE <= r <= HALF_CIRCLE,
{
    let diff: i128 = (b as i128 - a as i128) % 360_000_000;
    if diff < -180_000_000 {
        (diff + 360_000_000) as i64
    } else if diff > 180_000_000 {
        (diff - 360_000_000) as i64
    } else {
        diff as i64
    }
}

/// An angle in `[0, 360°)`, counted in millionths of a degree.
#[derive(Clone, Copy, Debug, PartialEq, Eq, PartialOrd, Structural)]
pub struct Angle(i64);

impl View for Angle {
    type V = int;

    /// The position in millionths of a degree.
    closed spec fn view(&self) -> int {
        self.0 as int
    }
}

impl Angle {
    /// The invariant of the type: the position lies in `[0, 360°)`.
    #[verifier::type_invariant]
    pub closed spec fn wf(self) -> bool {
        0 <= self.0 < 360_000_000
    }

    /// The angle at a position of the circle.
    pub closed spec fn at(position: int) -> Angle {
        Angle(position as i64)
    }

    /// Creates an angle from a raw position, which may be negative or exceed a
    /// full turn.
    pub fn from_degrees(degrees: i64) -> (r: Angle)
        ensures
            r.wf(),
            r@ == wrap_degrees(degrees as int),
            r == Angle::at(wrap_degrees(degrees as int)),
            in_circle(r@),
    {
        Angle(normalize_degrees(degrees))
    }

    /// Creates an angle from a raw position wider than 64 bits.
    pub fn from_wide(degrees: i128) -> (r: Angle)
        ensures
            r.wf(),
            r@ == wrap_degrees(degrees as int),
            r == Angle::at(wrap_degrees(degrees as int)),
            in_circle(r@),
    {
        Angle(normalize_wide(degrees))
    }

    /// The position in millionths of a degree.
    pub fn degrees(&self) -> (r: i64)
        ensures
            r == self@,
            in_circle(r as int),
    {
        proof {
            use_type_invariant(self);
        }
        self.0
    }

    /// The shortest distance to `other`, between 0° and 180°.
    pub fn distance_to(&self, other: Angle) -> (r: Angle)
        ensures
            r.wf(),
            r@ == arc_distance(self@, other@),
            0 <= r@ <= HALF_CIRCLE,
    {
        proof {
            use_type_invariant(self);
            use_type_invariant(&other);
        }
        let diff: i64 = if other.0 >= self.0 {
            other.0 - self.0
        } else {
            self.0 - other.0
        };
        Angle::from_degrees(
            if diff > HALF_CIRCLE {
                FULL_CIRCLE - diff
            } else {
                diff
            },
        )
    }

    /// Whether `other` lies within `orb` of this angle along the shorter arc.
    pub fn within_orb(&self, other: Angle, orb: i64) -> (r: bool)
        ensures
            r == (arc_distance(self@, other@) <= orb),
    {
        self.distance_to(other).degrees() <= orb
    }

    /// The angle multiplied by `harmonic` and wrapped onto the circle.
    ///
    /// A harmonic is at least 1; callers reject 0 before they get here.
    pub fn harmonic(&self, harmonic: u32) -> (r: Angle)
        requires
            harmonic >= 1,
        ensures
            r.wf(),
            r@ == harmonic_position(self@, harmonic as int),
    {
        proof {
            use_type_invariant(self);
            assert(0 <= self.0 * harmonic <= 360_000_000 * 0xffff_ffff) by (nonlinear_arith)
                requires
                    0 <= self.0 < 360_000_000,
                    0 <= harmonic <= 0xffff_ffff,
            ;
        }
        Angle::from_degrees(self.0 * (harmonic as i64))
    }

    /// The point half a turn away.
    pub fn opposite(&self) -> (r: Angle)
        ensures
            r.wf(),
            r@ == wrap_degrees(self@ + HALF_CIRCLE),
    {
        proof {
            use_type_invariant(self);
        }
        Angle::from_degrees(self.0 + HALF_CIRCLE)
    }

    /// The midpoint with `other` on the shorter arc between the two.
    pub fn midpoint(&self, other: Angle) -> (r: Angle)
        ensures
            r.wf(),
            r@ == circular_midpoint(self@, other@),
            r == Angle::at(circular_midpoint(self@, other@)),
    {
        proof {
            use_type_invariant(self);
            use_type_invariant(&other);
        }
        let diff: i64 = if other.0 >= self.0 {
            other.0 - self.0
        } else {
            self.0 - other.0
        };
        let sum: i64 = if diff > HALF_CIRCLE {
            self.0 + other.0 + FULL_CIRCLE
        } else {
            self.0 + other.0
        };
        Angle::from_degrees(sum / 2)
    }

    /// Degrees, minutes of arc, and millionths of a second of arc.
    pub fn to_dms(&self) -> (r: (i32, u32, i64))
        ensures
            (r.0 as int, r.1 as int, r.2 as int) == dms_parts(self@),
            0 <= r.0 < 360,
            r.1 < 60,
            0 <= r.2 < 60_000_000,
    {
        proof {
            use_type_invariant(self);
        }
        let degrees: i64 = self.0 / 1_000_000;
        let minutes_fract: i64 = (self.0 % 1_000_000) * 60;
        let minutes: i64 = minutes_fract / 1_000_000;
        let seconds: i64 = (minutes_fract % 1_000_000) * 60;
        (degrees as i32, minutes as u32, seconds)
    }

    /// The sign in which the angle falls, and the distance from the start of
    /// that sign.
    pub fn zodiac_sign(&self) -> (r: (ZodiacSign, i64))
        ensures
            r.0 == ZodiacSign::at(self@ / 30_000_000),
            r.1 == self@ % 30_000_000,
    {
        proof {
            use_type_invariant(self);
        }
        ZodiacSign::from_degree(self.0)
    }

    /// The angle as degrees, minutes and seconds with the name of its sign.
    pub fn to_dms_string(&self) -> (r: String)
        ensures
            r@ == dms_text(self@),
    {
        let (degrees, minutes, seconds) = self.to_dms();
        let (sign, _) = self.zodiac_sign();
        let mut out = String::new();
        push_decimal(&mut out, degrees as u64);
        out.append("°");
        push_padded(&mut out, minutes as i64);
        out.append("'");
        push_padded_tenths(&mut out, seconds);
        out.append("\" ");
        out.append(sign.name());
        assert(out@ =~= dms_text(self@));
        out
    }

    /// The sum of the two angles, wrapped. The same as `self + other`.
    pub fn plus(self, other: Angle) -> (r: Angle)
        ensures
            r.wf(),
            r@ == wrap_degrees(self@ + other@),
    {
        proof {
            use_type_invariant(&self);
            use_type_invariant(&other);
        }
        Angle::from_degrees(self.0 + other.0)
    }

    /// The difference of the two angles, wrapped. The same as `self - other`.
    pub fn minus(self, other: Angle) -> (r: Angle)
        ensures
            r.wf(),
            r@ == wrap_degrees(self@ - other@),
    {
        proof {
            use_type_invariant(&self);
            use_type_invariant(&other);
        }
        Angle::from_degrees(self.0 - other.0)
    }

    /// The angle scaled by a fixed-point factor, rounded toward zero, then
    /// wrapped. The same as `self * scalar`.
    pub fn times(self, scalar: i64) -> (r: Angle)
        ensures
            r.wf(),
            r@ == wrap_degrees(trunc_div(self@ * scalar, 1_000_000)),
    {
        proof {
            use_type_invariant(&self);
            lemma_product_bounds(self.0, scalar);
        }
        let product: i128 = (self.0 as i128) * (scalar as i128);
        Angle::from_wide(product / 1_000_000)
    }

    /// The angle divided by a fixed-point divisor other than zero, rounded
    /// toward zero, then wrapped. The same as `self / scalar`.
    pub fn divided_by(self, scalar: i64) -> (r: Angle)
        requires
            scalar != 0,
        ensures
            r.wf(),
            r@ == wrap_degrees(
                if scalar > 0 {
                    trunc_div(self@ * 1_000_000, scalar as int)
                } else {
                    -trunc_div(self@ * 1_000_000, -scalar)
                },
            ),
    {
        proof {
            use_type_invariant(&self);
        }
        let numerator: i128 = (self.0 as i128) * 1_000_000;
        let quotient: i128 = if scalar > 0 {
            numerator / (scalar as i128)
        } else {
            -(numerator / (-(scalar as i128)))
        };
        Angle::from_wide(quotient)
    }

    /// Adds `other` in place.
    pub fn add_assign(&mut self, other: Angle)
        ensures
            final(self).wf(),
            final(self)@ == wrap_degrees(old(self)@ + other@),
    {
        *self = self.plus(other);
    }

    /// Subtracts `other` in place.
    pub fn sub_assign(&mut self, other: Angle)
        ensures
            final(self).wf(),
            final(self)@ == wrap_degrees(old(self)@ - other@),
    {
        *self = self.minus(other);
    }

    /// Scales in place by a fixed-point factor.
    pub fn mul_assign(&mut self, scalar: i64)
        ensures
            final(self).wf(),
            final(self)@ == wrap_degrees(trunc_div(old(self)@ * scalar, 1_000_000)),
    {
        *self = self.times(scalar);
    }

    /// Divides in place by a fixed-point divisor other than zero.
    pub fn div_assign(&mut self, scalar: i64)
        requires
            scalar != 0,
        ensures
            final(self).wf(),
            final(self)@ == wrap_degrees(
                if scalar > 0 {
                    trunc_div(old(self)@ * 1_000_000, scalar as int)
                } else {
                    -trunc_div(old(self)@ * 1_000_000, -scalar)
                },
            ),
    {
        *self = self.divided_by(scalar);
    }
}

impl core::ops::Add for Angle {
    type Output = Angle;

    /// The sum of the two angles, wrapped.
    fn add(self, other: Angle) -> (r: Angle)
        ensures
            r.wf(),
            r@ == wrap_degrees(self@ + other@),
    {
        self.plus(other)
    }
}

impl vstd::std_specs::ops::AddSpecImpl for Angle {
    open spec fn obeys_add_spec() -> bool {
        true
    }

    open spec fn add_req(self, other: Angle) -> bool {
        true
    }

    closed spec fn add_spec(self, other: Angle) -> Angle {
        Angle(wrap_degrees(self.0 + other.0) as i64)
    }
}

impl core::ops::Sub for Angle {
    type Output = Angle;

    /// The difference of the two angles, wrapped.
    fn sub(self, other: Angle) -> (r: Angle)
        ensures
            r.wf(),
            r@ == wrap_degrees(self@ - other@),
    {
        self.minus(other)
    }
}

impl vstd::std_specs::ops::SubSpecImpl for Angle {
    open spec fn obeys_sub_spec() -> bool {
        true
    }

    open spec fn sub_req(self, other: Angle) -> bool {
        true
    }

    closed spec fn sub_spec(self, other: Angle) -> Angle {
        Angle(wrap_degrees(self.0 - other.0) as i64)
    }
}

impl core::ops::Mul<i64> for Angle {
    type Output = Angle;

    /// The angle scaled by a fixed-point factor, rounded toward zero, then
    /// wrapped.
    fn mul(self, scalar: i64) -> (r: Angle)
        ensures
            r.wf(),
            r@ == wrap_degrees(trunc_div(self@ * scalar, 1_000_000)),
    {
        self.times(scalar)
    }
}

impl vstd::std_specs::ops::MulSpecImpl<i64> for Angle {
    open spec fn obeys_mul_spec() -> bool {
        true
    }

    open spec fn mul_req(self, scalar: i64) -> bool {
        true
    }

    closed spec fn mul_spec(self, scalar: i64) -> Angle {
        Angle(wrap_degrees(trunc_div(self.0 * scalar, 1_000_000)) as i64)
    }
}

impl core::ops::Div<i64> for Angle {
    type Output = Angle;

    /// The angle divided by a fixed-point divisor other than zero, rounded
    /// toward zero, then wrapped.
    fn div(self, scalar: i64) -> (r: Angle)
        ensures
            r.wf(),
            r@ == wrap_degrees(
                if scalar > 0 {
                    trunc_div(self@ * 1_000_000, scalar as int)
                } else {
                    -trunc_div(self@ * 1_000_000, -scalar)
                },
            ),
    {
        self.divided_by(scalar)
    }
}

impl vstd::std_specs::ops::DivSpecImpl<i64> for Angle {
    open spec fn obeys_div_spec() -> bool {
        true
    }

    open spec fn div_req(self, scalar: i64) -> bool {
        scalar != 0
    }

    closed spec fn div_spec(self, scalar: i64) -> Angle {
        Angle(
            wrap_degrees(
                if scalar > 0 {
                    trunc_div(self.0 * 1_000_000, scalar as int)
                } else {
                    -trunc_div(self.0 * 1_000_000, -scalar)
                },
            ) as i64,
        )
    }
}

/// Every raw position normalizes into `[0, 360°)`, and a position already in
/// that range is left as it is.
pub proof fn lemma_wrap_in_circle(x: int)
    ensures
        in_circle(wrap_degrees(x)),
        in_circle(x) ==> wrap_degrees(x) == x,
        wrap_degrees(wrap_degrees(x)) == wrap_degrees(x),
{
}

/// The position of a valid angle lies in `[0, 360°)`, and an angle is known
/// by its position: there is one valid angle at each position of the circle.
pub proof fn lemma_angle_in_circle(a: Angle)
    requires
        a.wf(),
    ensures
        in_circle(a@),
        a == Angle::at(a@),
{
}

/// The angle at a position of the circle is valid and lies there.
pub proof fn lemma_angle_at(position: int)
    requires
        in_circle(position),
    ensures
        Angle::at(position).wf(),
        Angle::at(position)@ == position,
{
}

/// The shortest distance between two angles does not depend on their order
/// and lies between 0° and 180°.
pub proof fn lemma_distance_symmetric(a: Angle, b: Angle)
    requires
        a.wf(),
        b.wf(),
    ensures
        arc_distance(a@, b@) == arc_distance(b@, a@),
        0 <= arc_distance(a@, b@) <= HALF_CIRCLE,
{
}

/// The midpoint does not depend on the order of the two angles, and lies no
/// farther from either than half their distance, rounded up.
pub proof fn lemma_midpoint_on_shorter_arc(a: Angle, b: Angle)
    requires
        a.wf(),
        b.wf(),
    ensures
        circular_midpoint(a@, b@) == circular_midpoint(b@, a@),
        in_circle(circular_midpoint(a@, b@)),
        2 * arc_distance(a@, circular_midpoint(a@, b@)) <= arc_distance(a@, b@) + 1,
        2 * arc_distance(b@, circular_midpoint(a@, b@)) <= arc_distance(a@, b@) + 1,
{
}

/// Adding whole turns to a raw position does not change the angle it names.
pub proof fn lemma_wrap_ignores_turns(x: int, turns: int)
    ensures
        wrap_degrees(x + turns * 360_000_000) == wrap_degrees(x),
{
    vstd::arithmetic::div_mod::lemma_mod_multiples_vanish(turns, x, 360_000_000);
}

/// Wrapping may be done before or after an addition.
pub proof fn lemma_wrap_add(x: int, y: int)
    ensures
        wrap_degrees(wrap_degrees(x) + y) == wrap_degrees(x + y),
        wrap_degrees(x + wrap_degrees(y)) == wrap_degrees(x + y),
        wrap_degrees(x + trunc_rem(y, 360_000_000)) == wrap_degrees(x + y),
{
    vstd::arithmetic::div_mod::lemma_add_mod_noop(x, y, 360_000_000);
    vstd::arithmetic::div_mod::lemma_add_mod_noop(wrap_degrees(x), y, 360_000_000);
    vstd::arithmetic::div_mod::lemma_add_mod_noop(x, wrap_degrees(y), 360_000_000);
    vstd::arithmetic::div_mod::lemma_add_mod_noop(x, trunc_rem(y, 360_000_000), 360_000_000);
}

/// Rotation accumulates without leaving the circle: turning by one angle and
/// then by another leaves a dial where turning by their sum does, inside
/// `[0, 360°)`, whatever the signs and sizes of the two.
pub proof fn lemma_rotation_accumulates(rotation: int, first: int, second: int)
    ensures
        wrap_degrees(wrap_degrees(rotation + first) + second) == wrap_degrees(
            rotation + first + second,
        ),
        in_circle(wrap_degrees(rotation + first)),
        in_circle(wrap_degrees(wrap_degrees(rotation + first) + second)),
{
    lemma_wrap_add(rotation + first, second);
}

} // verus!
