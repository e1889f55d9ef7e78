//! The Uranian dial: the bodies entered on it, its harmonic, its rotation and
//! its zoom.

use vstd::prelude::*;
use vstd::string::StringExecFns;
use crate::astrology::models::planet::Planet;
use crate::astrology::models::table::{value_of, with_entry, without_entry, PlanetTable};
use crate::models::harmonic::{angle_multiply, multiply_angle};
use crate::utils::angle::{circular_midpoint, in_circle, normalize_wide, wrap_degrees, Angle};
use crate::utils::fixed::{clamp, clamped, scale, scaled};
use crate::utils::pairs::{index_pairs, pair_count, pair_indices};

verus! {

/// The smallest zoom, 0.5.
pub const MIN_ZOOM: i64 = 500_000;

/// The largest zoom, 2.0.
pub const MAX_ZOOM: i64 = 2_000_000;

/// The highest harmonic of the dial.
pub const MAX_DIAL_HARMONIC: u32 = 90;

/// A Uranian dial with all that it shows.
#[derive(Debug, Clone)]
pub struct UranianDial {
    /// The whole degrees of the zodiac, from 0° to 359°.
    pub degrees: Vec<i64>,
    /// The bodies on the dial, each with its position, in the order in which
    /// they were entered.
    pub planets: PlanetTable<Angle>,
    /// The harmonic: 1 for the plain dial, 2 for the half dial and so on.
    pub harmonic: u32,
    /// The rotation of the dial.
    pub rotation: i64,
    /// The zoom, between 0.5 and 2.0.
    pub zoom: i64,
    /// Whether the bodies are shown.
    pub show_planets: bool,
    /// Whether the midpoints are shown.
    pub show_midpoints: bool,
    /// Whether the signs are shown.
    pub show_zodiac: bool,
    /// Whether the degree marks are shown.
    pub show_degrees: bool,
}

/// The midpoint of two bodies of the dial.
#[derive(Debug, Clone, Copy)]
pub struct Midpoint {
    pub point1: Planet,
    pub point2: Planet,
    pub angle: Angle,
}

/// The text with which a harmonic of 0 is refused.
pub open spec fn invalid_harmonic_text() -> Seq<char> {
    "Harmonic must be greater than 0"@
}

/// The midpoint of the pair `(i, j)` of the entries of a dial: it names the
/// two bodies in their order and lies at the circular midpoint of their
/// positions.
pub open spec fn midpoint_of_entries(entries: Seq<(Planet, Angle)>, pair: (int, int)) -> Midpoint {
    Midpoint {
        point1: entries[pair.0].0,
        point2: entries[pair.1].0,
        angle: Angle::at(circular_midpoint(entries[pair.0].1@, entries[pair.1].1@)),
    }
}

impl Default for UranianDial {
    /// A plain dial: no body, harmonic 1, not turned, zoom 1.0, everything
    /// shown.
    fn default() -> (r: UranianDial)
        ensures
            r.is_plain(),
    {
        let mut degrees: Vec<i64> = Vec::new();
        let mut i: i64 = 0;
        while i < 360
            invariant
                0 <= i <= 360,
                degrees@.len() == i,
                forall|k: int| 0 <= k < i ==> #[trigger] degrees@[k] == k * 1_000_000,
            decreases 360 - i,
        {
            degrees.push(i * 1_000_000);
            i = i + 1;
        }
        UranianDial {
            degrees,
            planets: PlanetTable::new(),
            harmonic: 1,
            rotation: 0,
            zoom: 1_000_000,
            show_planets: true,
            show_midpoints: true,
            show_zodiac: true,
            show_degrees: true,
        }
    }
}

impl UranianDial {
    /// Whether this is the plain dial: the 360 whole degrees, no body,
    /// harmonic 1, not turned, zoom 1.0, everything shown.
    pub open spec fn is_plain(self) -> bool {
        &&& self.degrees@.len() == 360
        &&& forall|i: int| 0 <= i < 360 ==> #[trigger] self.degrees@[i] == i * 1_000_000
        &&& self.planets@.len() == 0
        &&& self.harmonic == 1
        &&& self.rotation == 0
        &&& self.zoom == 1_000_000
        &&& self.show_planets && self.show_midpoints && self.show_zodiac && self.show_degrees
    }

    /// The position that the dial shows for a raw position: multiplied by the
    /// harmonic and wrapped onto the circle.
    pub open spec fn effective(self, angle: int) -> int {
        angle_multiply(angle, self.harmonic as int)
    }

    /// A plain dial.
    pub fn new() -> (r: UranianDial)
        ensures
            r.is_plain(),
    {
        UranianDial::default()
    }

    /// Sets the harmonic. A harmonic of 0 is refused and the dial stays as it
    /// was; a harmonic over 90 is taken as 90.
    pub fn set_harmonic(&mut self, harmonic: u32) -> (r: Result<(), String>)
        ensures
            harmonic == 0 ==> r is Err && r->Err_0@ == invalid_harmonic_text() && *final(self)
                == *old(self),
            harmonic != 0 ==> r is Ok && *final(self) == (UranianDial {
                harmonic: if harmonic > 90 {
                    90u32
                } else {
                    harmonic
                },
                ..*old(self)
            }),
    {
        if harmonic == 0 {
            return Err(String::from_str("Harmonic must be greater than 0"));
        }
        self.harmonic = if harmonic > MAX_DIAL_HARMONIC {
            MAX_DIAL_HARMONIC
        } else {
            harmonic
        };
        Ok(())
    }

    /// The position that the dial shows for a raw position.
    pub fn get_effective_angle(&self, angle: i64) -> (r: i64)
        ensures
            r == self.effective(angle as int),
            in_circle(r as int),
    {
        multiply_angle(angle, self.harmonic)
    }

    /// Turns the dial by `degrees`, which may be negative. The rotation stays
    /// in `[0, 360°)`.
    pub fn rotate_by(&mut self, degrees: i64)
        ensures
            *final(self) == (UranianDial {
                rotation: wrap_degrees(old(self).rotation + degrees) as i64,
                ..*old(self)
            }),
            in_circle(final(self).rotation as int),
    {
        self.rotation = normalize_wide(self.rotation as i128 + degrees as i128);
    }

    /// Sets the rotation, wrapped into `[0, 360°)`.
    pub fn set_rotation(&mut self, degrees: i64)
        ensures
            *final(self) == (UranianDial {
                rotation: wrap_degrees(degrees as int) as i64,
                ..*old(self)
            }),
            in_circle(final(self).rotation as int),
    {
        self.rotation = normalize_wide(degrees as i128);
    }

    /// Multiplies the zoom by a fixed-point factor and limits it to the range
    /// from 0.5 to 2.0. Gives the new zoom.
    pub fn zoom_by(&mut self, factor: i64) -> (r: i64)
        ensures
            r == clamped(scaled(old(self).zoom as int, factor as int), 500_000, 2_000_000),
            MIN_ZOOM <= r <= MAX_ZOOM,
            *final(self) == (UranianDial { zoom: r, ..*old(self) }),
    {
        self.zoom = clamp(scale(self.zoom, factor), MIN_ZOOM, MAX_ZOOM);
        self.zoom
    }

    /// Sets the zoom, limited to the range from 0.5 to 2.0. Gives the new
    /// zoom.
    pub fn set_zoom(&mut self, zoom: i64) -> (r: i64)
        ensures
            r == clamped(zoom as int, 500_000, 2_000_000),
            MIN_ZOOM <= r <= MAX_ZOOM,
            *final(self) == (UranianDial { zoom: r, ..*old(self) }),
    {
        self.zoom = clamp(zoom as i128, MIN_ZOOM, MAX_ZOOM);
        self.zoom
    }

    /// Enters a body at a position, or moves a body that is on the dial.
    pub fn update_planet_position(&mut self, planet: Planet, position: i64)
        ensures
            final(self).planets@ == with_entry(
                old(self).planets@,
                planet,
                Angle::at(wrap_degrees(position as int)),
            ),
            value_of(final(self).planets@, planet) == Some(
                Angle::at(wrap_degrees(position as int)),
            ),
            *final(self) == (UranianDial { planets: final(self).planets, ..*old(self) }),
    {
        let angle = Angle::from_degrees(position);
        self.planets.insert(planet, angle);
    }

    /// Takes a body off the dial and gives the position it had.
    pub fn remove_planet(&mut self, planet: &Planet) -> (r: Option<Angle>)
        ensures
            r == value_of(old(self).planets@, *planet),
            final(self).planets@ == without_entry(old(self).planets@, *planet),
            value_of(final(self).planets@, *planet) is None,
            *final(self) == (UranianDial { planets: final(self).planets, ..*old(self) }),
    {
        self.planets.remove(planet)
    }

    /// The position that the dial shows for a body, if the body is on it.
    pub fn get_planet_position(&self, planet: &Planet) -> (r: Option<i64>)
        ensures
            r is Some == value_of(self.planets@, *planet) is Some,
            r matches Some(shown) ==> shown == self.effective(
                value_of(self.planets@, *planet)->Some_0@,
            ),
    {
        match self.planets.get(planet) {
            Some(angle) => Some(self.get_effective_angle(angle.degrees())),
            None => None,
        }
    }

    /// Every body of the dial with the position that the dial shows for it,
    /// in the order in which the bodies were entered.
    pub fn get_planet_positions(&self) -> (r: Vec<(Planet, i64)>)
        ensures
            r@.len() == self.planets@.len(),
            forall|k: int|
                0 <= k < r@.len() ==> (#[trigger] r@[k]).0 == self.planets@[k].0 && r@[k].1
                    == self.effective(self.planets@[k].1@),
    {
        let mut positions: Vec<(Planet, i64)> = Vec::new();
        let mut i: usize = 0;
        while i < self.planets.len()
            invariant
                i <= self.planets@.len(),
                positions@.len() == i,
                forall|k: int|
                    0 <= k < i ==> (#[trigger] positions@[k]).0 == self.planets@[k].0
                        && positions@[k].1 == self.effective(self.planets@[k].1@),
            decreases self.planets@.len() - i,
        {
            let entry = self.planets.entry(i);
            positions.push((entry.0, self.get_effective_angle(entry.1.degrees())));
            i = i + 1;
        }
        positions
    }

    /// The midpoints of all pairs of bodies of the dial: for each pair
    /// `(i, j)` with `i < j` in the order of entry, in ascending order, the
    /// circular midpoint of the two positions.
    pub fn calculate_midpoints(&self) -> (r: Vec<Midpoint>)
        ensures
            r@.len() == pair_count(self.planets@.len() as int),
            r@.len() == pair_indices(self.planets@.len() as int).len(),
            forall|k: int|
                0 <= k < r@.len() ==> #[trigger] r@[k] == midpoint_of_entries(
                    self.planets@,
                    pair_indices(self.planets@.len() as int)[k],
                ),
    {
        let pairs = index_pairs(self.planets.len());
        let mut midpoints: Vec<Midpoint> = Vec::new();
        let mut k: usize = 0;
        while k < pairs.len()
            invariant
                k <= pairs@.len(),
                pairs@.len() == pair_indices(self.planets@.len() as int).len(),
                forall|t: int|
                    0 <= t < pairs@.len() ==> (#[trigger] pairs@[t]).0 < pairs@[t].1
                        < self.planets@.len() && (pairs@[t].0 as int, pairs@[t].1 as int)
                        == pair_indices(self.planets@.len() as int)[t],
                midpoints@.len() == k,
                forall|t: int|
                    0 <= t < k ==> #[trigger] midpoints@[t] == midpoint_of_entries(
                        self.planets@,
                        pair_indices(self.planets@.len() as int)[t],
                    ),
            decreases pairs@.len() - k,
        {
            let (i, j) = pairs[k];
            let first = self.planets.entry(i);
            let second = self.planets.entry(j);
            let midpoint = first.1.midpoint(second.1);
            midpoints.push(Midpoint { point1: first.0, point2: second.0, angle: midpoint });
            k = k + 1;
        }
        midpoints
    }

    /// The zoom of the dial.
    pub fn zoom_factor(&self) -> (r: i64)
        ensures
            r == self.zoom,
    {
        self.zoom
    }
}

impl Midpoint {
    /// The position that a dial of the given harmonic shows for the midpoint:
    /// multiplied by the harmonic and wrapped onto the circle.
    ///
    /// A harmonic is at least 1; callers reject 0 before they get here.
    pub fn get_effective_angle(&self, harmonic: u32) -> (r: i64)
        requires
            harmonic >= 1,
        ensures
            r == angle_multiply(self.angle@, harmonic as int),
            in_circle(r as int),
    {
        multiply_angle(self.angle.degrees(), harmonic)
    }
}

/// The zoom stays between 0.5 and 2.0 whatever factors follow each other,
/// and a factor of 1.0 leaves a zoom of that range as it is.
pub proof fn lemma_zoom_stays_in_range(zoom: int, factor: int)
    ensures
        500_000 <= clamped(scaled(zoom, factor), 500_000, 2_000_000) <= 2_000_000,
        500_000 <= clamped(zoom, 500_000, 2_000_000) <= 2_000_000,
        500_000 <= zoom <= 2_000_000 ==> clamped(scaled(zoom, 1_000_000), 500_000, 2_000_000)
            == zoom,
{
}

} // verus!
