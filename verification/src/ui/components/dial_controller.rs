//! The controller that a user interface talks to.
//!
//! The controller owns a Uranian dial and one view model for each body that
//! the ephemeris has reported. It decides; the host asks the ephemeris and
//! paints. A moment arrives as text, is parsed here, and is refused as a whole
//! when it cannot be parsed: nothing of the controller changes then.

use vstd::prelude::*;
use vstd::string::StringExecFns;
use crate::astrology::models::planet::Planet;
use crate::astrology::models::table::{value_of, with_entry, without_entry, PlanetTable};
use crate::astrology::uranian::dial::UranianDial;
use crate::utils::angle::{circular_midpoint, wrap_degrees, Angle};
use crate::utils::fixed::{clamped, scaled};
use crate::utils::pairs::{index_pairs, pair_count, pair_indices};

verus! {

/// The format in which a moment is written: `YYYY-MM-DD HH:MM:SS`.
pub const DATETIME_FORMAT: &'static str = "%Y-%m-%d %H:%M:%S";

/// What the ephemeris reports of a body.
#[derive(Debug, Clone)]
pub struct CelestialBody {
    pub name: String,
    pub symbol: String,
    pub longitude: i64,
    pub latitude: i64,
    pub distance: i64,
    pub speed: i64,
    pub color: String,
    pub is_retrograde: bool,
    pub is_dignified: bool,
    pub house: Option<u8>,
}

/// What the user interface shows of a body. Name, glyph and colour are those
/// of the body.
#[derive(Debug, Clone, Copy, PartialEq, Eq, Structural)]
pub struct CelestialBodyViewModel {
    pub planet: Planet,
    pub longitude: i64,
    pub latitude: i64,
    pub distance: i64,
    pub speed: i64,
    pub is_retrograde: bool,
    pub is_dignified: bool,
    /// The house, or -1 where it is not known.
    pub house: i32,
    /// The position at which the body is displayed.
    pub display_position: i64,
}

/// An aspect between two bodies, as the user interface shows it.
#[derive(Debug, Clone)]
pub struct AspectInfo {
    pub aspect_type: &'static str,
    /// The orb, in millionths of a degree.
    pub orb: i64,
    pub exact: bool,
    pub planet1: String,
    pub planet2: String,
}

/// The controller of a dial.
#[derive(Debug, Clone)]
pub struct DialController {
    /// The dial.
    pub dial: UranianDial,
    /// The rotation of the dial, as the user interface sees it.
    pub rotation: i64,
    /// The zoom of the dial, as the user interface sees it.
    pub zoom: i64,
    /// The harmonic of the dial, as the user interface sees it.
    pub harmonic: u32,
    /// The moment of the chart, as it was written.
    pub current_time: String,
    pub location_latitude: i64,
    pub location_longitude: i64,
    /// One view model for each body reported, in the order of the reports.
    pub celestial_body_models: PlanetTable<CelestialBodyViewModel>,
    pub is_initialized: bool,
}

/// What `chrono::NaiveDateTime::parse_from_str` makes of a text under a
/// format: the moment that the text names, as seconds since the start of 1970
/// in UTC, or nothing where the text does not follow the format or names no
/// moment.
pub uninterp spec fn parsed_timestamp(text: Seq<char>, format: Seq<char>) -> Option<int>;

/// Calls `chrono::NaiveDateTime::parse_from_str` on the text and the format
/// and, where a moment comes back, `NaiveDateTime::and_utc` and
/// `DateTime::timestamp` on it. The contract claims only that the outcome is
/// the one that these calls give for this text and format, every time.
#[verifier::external_body]
fn parse_timestamp(text: &str, format: &str) -> (r: Option<i64>)
    ensures
        r is Some == parsed_timestamp(text@, format@) is Some,
        r matches Some(seconds) ==> parsed_timestamp(text@, format@) == Some(seconds as int),
{
    match chrono::NaiveDateTime::parse_from_str(text, format) {
        Ok(moment) => Some(moment.and_utc().timestamp()),
        Err(_) => None,
    }
}

/// The house as the user interface shows it: its number, or -1 where it is
/// not known.
pub open spec fn shown_house(house: Option<u8>) -> int {
    match house {
        Some(number) => number as int,
        None => -1,
    }
}

/// The view models after the ephemeris has reported a body: a model that was
/// there takes the new position, a new one is made.
pub open spec fn with_report(
    models: Seq<(Planet, CelestialBodyViewModel)>,
    planet: Planet,
    body: CelestialBody,
) -> Seq<(Planet, CelestialBodyViewModel)> {
    match value_of(models, planet) {
        Some(model) => with_entry(models, planet, model.positioned(body)),
        None => with_entry(models, planet, CelestialBodyViewModel::of_planet(planet, body)),
    }
}

/// The view models after the ephemeris has reported a list of bodies, one
/// after the other.
pub open spec fn with_reports(
    models: Seq<(Planet, CelestialBodyViewModel)>,
    bodies: Seq<(Planet, CelestialBody)>,
) -> Seq<(Planet, CelestialBodyViewModel)>
    decreases bodies.len(),
{
    if bodies.len() == 0 {
        models
    } else {
        with_report(with_reports(models, bodies.drop_last()), bodies.last().0, bodies.last().1)
    }
}

/// The midpoint of the pair `(i, j)` of the view models: the two bodies and
/// the circular midpoint of their normalized longitudes.
pub open spec fn model_midpoint(
    models: Seq<(Planet, CelestialBodyViewModel)>,
    pair: (int, int),
) -> (Planet, Planet, i64) {
    (
        models[pair.0].0,
        models[pair.1].0,
        circular_midpoint(
            wrap_degrees(models[pair.0].1.longitude as int),
            wrap_degrees(models[pair.1].1.longitude as int),
        ) as i64,
    )
}

impl Default for CelestialBody {
    /// A body of which nothing is known, drawn in white.
    fn default() -> (r: CelestialBody)
        ensures
            r.name@.len() == 0,
            r.symbol@.len() == 0,
            r.longitude == 0 && r.latitude == 0 && r.distance == 0 && r.speed == 0,
            r.color@ == "#FFFFFF"@,
            !r.is_retrograde && !r.is_dignified,
            r.house is None,
    {
        CelestialBody {
            name: String::new(),
            symbol: String::new(),
            longitude: 0,
            latitude: 0,
            distance: 0,
            speed: 0,
            color: String::from_str("#FFFFFF"),
            is_retrograde: false,
            is_dignified: false,
            house: None,
        }
    }
}

impl CelestialBodyViewModel {
    /// This model with the position of a report; the body stays. The body is
    /// displayed at its longitude.
    pub open spec fn positioned(self, body: CelestialBody) -> CelestialBodyViewModel {
        CelestialBodyViewModel {
            planet: self.planet,
            longitude: body.longitude,
            latitude: body.latitude,
            distance: body.distance,
            speed: body.speed,
            is_retrograde: body.is_retrograde,
            is_dignified: body.is_dignified,
            house: shown_house(body.house) as i32,
            display_position: body.longitude,
        }
    }

    /// The model of a body with the position of a report.
    pub open spec fn of_planet(planet: Planet, body: CelestialBody) -> CelestialBodyViewModel {
        CelestialBodyViewModel {
            planet,
            longitude: body.longitude,
            latitude: body.latitude,
            distance: body.distance,
            speed: body.speed,
            is_retrograde: body.is_retrograde,
            is_dignified: body.is_dignified,
            house: shown_house(body.house) as i32,
            display_position: body.longitude,
        }
    }

    /// The model of a body with the position of a report.
    pub fn from_planet(planet: &Planet, body: &CelestialBody) -> (r: CelestialBodyViewModel)
        ensures
            r == CelestialBodyViewModel::of_planet(*planet, *body),
    {
        let mut model = CelestialBodyViewModel {
            planet: *planet,
            longitude: 0,
            latitude: 0,
            distance: 0,
            speed: 0,
            is_retrograde: false,
            is_dignified: false,
            house: -1,
            display_position: 0,
        };
        model.update_from_planet(planet, body);
        model
    }

    /// Makes this the model of a body with the position of a report.
    pub fn update_from_planet(&mut self, planet: &Planet, body: &CelestialBody)
        ensures
            *final(self) == CelestialBodyViewModel::of_planet(*planet, *body),
    {
        self.planet = *planet;
        self.update_position(body);
    }

    /// Takes the position of a report. The body is displayed at its
    /// longitude until a harmonic says otherwise.
    pub fn update_position(&mut self, body: &CelestialBody)
        ensures
            *final(self) == old(self).positioned(*body),
    {
        self.longitude = body.longitude;
        self.latitude = body.latitude;
        self.distance = body.distance;
        self.speed = body.speed;
        self.is_retrograde = body.is_retrograde;
        self.is_dignified = body.is_dignified;
        self.house = match body.house {
            Some(number) => number as i32,
            None => -1,
        };
        self.display_position = body.longitude;
    }

    /// Sets the position at which the body is displayed.
    pub fn update_display_position(&mut self, position: i64)
        ensures
            *final(self) == (CelestialBodyViewModel { display_position: position, ..*old(self) }),
    {
        self.display_position = position;
    }

    /// The name of the body.
    pub fn name(&self) -> (r: &'static str)
        ensures
            r@ == self.planet.name_text(),
    {
        self.planet.name()
    }

    /// The glyph of the body.
    pub fn symbol(&self) -> (r: &'static str)
        ensures
            r@ == self.planet.symbol_text(),
    {
        self.planet.symbol()
    }

    /// The colour of the body.
    pub fn color(&self) -> (r: &'static str)
        ensures
            r@ == self.planet.color_text(),
    {
        self.planet.color()
    }
}

impl DialController {
    /// Whether the user interface sees the dial as it is: rotation, zoom and
    /// harmonic of the controller are those of its dial.
    pub open spec fn in_step(self) -> bool {
        &&& self.rotation == self.dial.rotation
        &&& self.zoom == self.dial.zoom
        &&& self.harmonic == self.dial.harmonic
    }

    /// The controller after a moment and a place have been accepted and the
    /// ephemeris has reported the bodies.
    pub open spec fn started(
        self,
        datetime: Seq<char>,
        lat: i64,
        lng: i64,
        bodies: Seq<(Planet, CelestialBody)>,
        after: DialController,
    ) -> bool {
        &&& after.is_initialized
        &&& after.current_time@ == datetime
        &&& after.location_latitude == lat
        &&& after.location_longitude == lng
        &&& after.celestial_body_models@ == with_reports(self.celestial_body_models@, bodies)
        &&& after.dial == self.dial
        &&& after.rotation == self.rotation
        &&& after.zoom == self.zoom
        &&& after.harmonic == self.harmonic
    }

    /// The controller after a body has been taken off the dial and out of the
    /// view models; nothing else changes.
    pub open spec fn without_body(self, body: Planet, after: DialController) -> bool {
        &&& after.celestial_body_models@ == without_entry(self.celestial_body_models@, body)
        &&& after.dial.planets@ == without_entry(self.dial.planets@, body)
        &&& after.dial == (UranianDial { planets: after.dial.planets, ..self.dial })
        &&& after.rotation == self.rotation
        &&& after.zoom == self.zoom
        &&& after.harmonic == self.harmonic
        &&& after.current_time == self.current_time
        &&& after.location_latitude == self.location_latitude
        &&& after.location_longitude == self.location_longitude
        &&& after.is_initialized == self.is_initialized
    }

    /// A controller of a plain dial, not initialized.
    pub fn new() -> (r: DialController)
        ensures
            r.in_step(),
            r.rotation == 0,
            r.zoom == 1_000_000,
            r.harmonic == 1,
            r.dial.is_plain(),
            r.current_time@.len() == 0,
            r.location_latitude == 0 && r.location_longitude == 0,
            r.celestial_body_models@.len() == 0,
            !r.is_initialized,
    {
        DialController {
            dial: UranianDial::new(),
            rotation: 0,
            zoom: 1_000_000,
            harmonic: 1,
            current_time: String::new(),
            location_latitude: 0,
            location_longitude: 0,
            celestial_body_models: PlanetTable::new(),
            is_initialized: false,
        }
    }

    /// The moment that a text names, as seconds since the start of 1970, or
    /// nothing where the text is not a moment written as
    /// `YYYY-MM-DD HH:MM:SS`. The host asks the ephemeris for this moment.
    pub fn parse_datetime(datetime: &str) -> (r: Option<i64>)
        ensures
            r is Some == parsed_timestamp(datetime@, DATETIME_FORMAT@) is Some,
            r matches Some(seconds) ==> parsed_timestamp(datetime@, DATETIME_FORMAT@) == Some(
                seconds as int,
            ),
    {
        parse_timestamp(datetime, DATETIME_FORMAT)
    }

    /// Starts the controller for a moment and a place. `bodies` is what the
    /// ephemeris reports for them, or nothing where it could not be set up.
    /// Where the moment cannot be parsed or the ephemeris has failed, the
    /// answer is `false` and the controller stays as it was.
    pub fn initialize(
        &mut self,
        datetime: &str,
        lat: i64,
        lng: i64,
        bodies: Option<Vec<(Planet, CelestialBody)>>,
    ) -> (r: bool)
        ensures
            r == (parsed_timestamp(datetime@, DATETIME_FORMAT@) is Some && bodies is Some),
            !r ==> *final(self) == *old(self),
            r ==> old(self).started(datetime@, lat, lng, bodies->Some_0@, *final(self)),
    {
        let parsed = DialController::parse_datetime(datetime);
        self.initialize_at(parsed, datetime, lat, lng, bodies)
    }

    /// Starts the controller once the moment has been parsed: `parsed` is the
    /// outcome of the parse. Where it is nothing, or the ephemeris has failed,
    /// the answer is `false` and the controller stays as it was.
    pub fn initialize_at(
        &mut self,
        parsed: Option<i64>,
        datetime: &str,
        lat: i64,
        lng: i64,
        bodies: Option<Vec<(Planet, CelestialBody)>>,
    ) -> (r: bool)
        ensures
            r == (parsed is Some && bodies is Some),
            !r ==> *final(self) == *old(self),
            r ==> old(self).started(datetime@, lat, lng, bodies->Some_0@, *final(self)),
    {
        if parsed.is_none() {
            return false;
        }
        match bodies {
            Some(reported) => {
                self.location_latitude = lat;
                self.location_longitude = lng;
                self.current_time = String::from_str(datetime);
                self.is_initialized = true;
                self.update_celestial_bodies(reported.as_slice());
                true
            },
            None => false,
        }
    }

    /// Moves the controller to another moment. Before the controller has been
    /// started, where the moment cannot be parsed, or where the ephemeris has
    /// failed, the answer is `false` and the controller stays as it was.
    pub fn update_time(
        &mut self,
        datetime: &str,
        bodies: Option<Vec<(Planet, CelestialBody)>>,
    ) -> (r: bool)
        ensures
            r == (old(self).is_initialized && parsed_timestamp(datetime@, DATETIME_FORMAT@) is Some
                && bodies is Some),
            !r ==> *final(self) == *old(self),
            r ==> old(self).started(
                datetime@,
                old(self).location_latitude,
                old(self).location_longitude,
                bodies->Some_0@,
                *final(self),
            ),
    {
        if !self.is_initialized {
            return false;
        }
        let parsed = DialController::parse_datetime(datetime);
        let lat = self.location_latitude;
        let lng = self.location_longitude;
        self.initialize_at(parsed, datetime, lat, lng, bodies)
    }

    /// Moves the controller to another place. Before the controller has been
    /// started, or where the ephemeris has failed, the answer is `false` and
    /// the controller stays as it was.
    pub fn update_location(
        &mut self,
        lat: i64,
        lng: i64,
        bodies: Option<Vec<(Planet, CelestialBody)>>,
    ) -> (r: bool)
        ensures
            r == (old(self).is_initialized && bodies is Some),
            !r ==> *final(self) == *old(self),
            r ==> old(self).started(
                old(self).current_time@,
                lat,
                lng,
                bodies->Some_0@,
                *final(self),
            ),
    {
        if !self.is_initialized {
            return false;
        }
        match bodies {
            Some(reported) => {
                self.location_latitude = lat;
                self.location_longitude = lng;
                self.update_celestial_bodies(reported.as_slice());
                true
            },
            None => false,
        }
    }

    /// Turns the dial by `degrees`.
    pub fn rotate_by(&mut self, degrees: i64)
        ensures
            final(self).rotation == wrap_degrees(old(self).dial.rotation + degrees),
            final(self).dial == (UranianDial { rotation: final(self).rotation, ..old(self).dial }),
            *final(self) == (DialController {
                rotation: final(self).rotation,
                dial: final(self).dial,
                ..*old(self)
            }),
    {
        self.dial.rotate_by(degrees);
        self.rotation = self.dial.rotation;
    }

    /// Sets the rotation of the dial.
    pub fn set_rotation(&mut self, degrees: i64)
        ensures
            final(self).rotation == wrap_degrees(degrees as int),
            final(self).dial == (UranianDial { rotation: final(self).rotation, ..old(self).dial }),
            *final(self) == (DialController {
                rotation: final(self).rotation,
                dial: final(self).dial,
                ..*old(self)
            }),
    {
        self.dial.set_rotation(degrees);
        self.rotation = self.dial.rotation;
    }

    /// Multiplies the zoom of the dial by a factor; gives the new zoom.
    pub fn zoom_by(&mut self, factor: i64) -> (r: i64)
        ensures
            r == clamped(scaled(old(self).dial.zoom as int, factor as int), 500_000, 2_000_000),
            final(self).zoom == r,
            final(self).dial == (UranianDial { zoom: r, ..old(self).dial }),
            *final(self) == (DialController { zoom: r, dial: final(self).dial, ..*old(self) }),
    {
        let zoom = self.dial.zoom_by(factor);
        self.zoom = zoom;
        zoom
    }

    /// Sets the zoom of the dial; gives the new zoom.
    pub fn set_zoom(&mut self, zoom: i64) -> (r: i64)
        ensures
            r == clamped(zoom as int, 500_000, 2_000_000),
            final(self).zoom == r,
            final(self).dial == (UranianDial { zoom: r, ..old(self).dial }),
            *final(self) == (DialController { zoom: r, dial: final(self).dial, ..*old(self) }),
    {
        let new_zoom = self.dial.set_zoom(zoom);
        self.zoom = new_zoom;
        new_zoom
    }

    /// Sets the harmonic of the dial. A harmonic outside the range from 1 to
    /// 90 is refused: the controller stays as it was.
    pub fn set_harmonic(&mut self, harmonic: u32)
        ensures
            1 <= harmonic <= 90 ==> final(self).harmonic == harmonic && final(self).dial == (
            UranianDial { harmonic, ..old(self).dial }) && *final(self) == (DialController {
                harmonic,
                dial: final(self).dial,
                ..*old(self)
            }),
            !(1 <= harmonic <= 90) ==> *final(self) == *old(self),
    {
        if harmonic >= 1 && harmonic <= 90 {
            self.harmonic = harmonic;
            let _ = self.dial.set_harmonic(harmonic);
        }
    }

    /// The view models of all bodies once the controller has been started, in
    /// the order of the reports; nothing before.
    pub fn get_planet_positions(&self) -> (r: Vec<CelestialBodyViewModel>)
        ensures
            !self.is_initialized ==> r@.len() == 0,
            self.is_initialized ==> r@.len() == self.celestial_body_models@.len() && forall|
                k: int,
            |
                0 <= k < r@.len() ==> #[trigger] r@[k] == self.celestial_body_models@[k].1,
    {
        let mut result: Vec<CelestialBodyViewModel> = Vec::new();
        if self.is_initialized {
            let mut i: usize = 0;
            while i < self.celestial_body_models.len()
                invariant
                    i <= self.celestial_body_models@.len(),
                    result@.len() == i,
                    forall|k: int|
                        0 <= k < i ==> #[trigger] result@[k] == self.celestial_body_models@[k].1,
                decreases self.celestial_body_models@.len() - i,
            {
                result.push(self.celestial_body_models.entry(i).1);
                i = i + 1;
            }
        }
        result
    }

    /// The aspect between two bodies once the controller has been started.
    /// There is no table of aspects yet: every pair is shown as a wide trine.
    pub fn calculate_aspects(&self, planet1: &str, planet2: &str) -> (r: Option<AspectInfo>)
        ensures
            r is Some == self.is_initialized,
            r matches Some(aspect) ==> aspect.aspect_type@ == "trine"@ && aspect.orb == 2_500_000
                && !aspect.exact && aspect.planet1@ == planet1@ && aspect.planet2@ == planet2@,
    {
        if self.is_initialized {
            Some(
                AspectInfo {
                    aspect_type: "trine",
                    orb: 2_500_000,
                    exact: false,
                    planet1: String::from_str(planet1),
                    planet2: String::from_str(planet2),
                },
            )
        } else {
            None
        }
    }

    /// The midpoints of all pairs of bodies once the controller has been
    /// started: for each pair `(i, j)` with `i < j` in the order of the
    /// reports, the two bodies and the circular midpoint of their longitudes.
    pub fn calculate_midpoints(&self) -> (r: Vec<(Planet, Planet, i64)>)
        ensures
            !self.is_initialized ==> r@.len() == 0,
            self.is_initialized ==> r@.len() == pair_count(
                self.celestial_body_models@.len() as int,
            ) && r@.len() == pair_indices(self.celestial_body_models@.len() as int).len()
                && forall|k: int|
                0 <= k < r@.len() ==> #[trigger] r@[k] == model_midpoint(
                    self.celestial_body_models@,
                    pair_indices(self.celestial_body_models@.len() as int)[k],
                ),
    {
        let mut midpoints: Vec<(Planet, Planet, i64)> = Vec::new();
        if !self.is_initialized {
            return midpoints;
        }
        let pairs = index_pairs(self.celestial_body_models.len());
        let mut k: usize = 0;
        while k < pairs.len()
            invariant
                k <= pairs@.len(),
                pairs@.len() == pair_indices(self.celestial_body_models@.len() as int).len(),
                forall|t: int|
                    0 <= t < pairs@.len() ==> (#[trigger] pairs@[t]).0 < pairs@[t].1
                        < self.celestial_body_models@.len() && (
                        pairs@[t].0 as int,
                        pairs@[t].1 as int,
                    ) == pair_indices(self.celestial_body_models@.len() as int)[t],
                midpoints@.len() == k,
                forall|t: int|
                    0 <= t < k ==> #[trigger] midpoints@[t] == model_midpoint(
                        self.celestial_body_models@,
                        pair_indices(self.celestial_body_models@.len() as int)[t],
                    ),
            decreases pairs@.len() - k,
        {
            let (i, j) = pairs[k];
            let b1 = self.celestial_body_models.entry(i);
            let b2 = self.celestial_body_models.entry(j);
            let midpoint: i64 = Angle::from_degrees(b1.1.longitude).midpoint(
                Angle::from_degrees(b2.1.longitude),
            ).degrees();
            midpoints.push((b1.0, b2.0, midpoint));
            k = k + 1;
        }
        midpoints
    }

    /// Takes a body, given by its name, off the dial and out of the view
    /// models. A text that names no body changes nothing and is answered with
    /// `false`.
    pub fn remove_planet(&mut self, planet: &str) -> (r: bool)
        ensures
            r == Planet::named(planet@) is Some,
            !r ==> *final(self) == *old(self),
            Planet::named(planet@) matches Some(body) ==> old(self).without_body(
                body,
                *final(self),
            ),
    {
        match Planet::from_name(planet) {
            Some(planet_enum) => {
                self.dial.remove_planet(&planet_enum);
                self.celestial_body_models.remove(&planet_enum);
                true
            },
            None => false,
        }
    }

    /// The view model of a body, given by its name, if the body has been
    /// reported.
    pub fn get_planet_info(&self, planet: &str) -> (r: Option<CelestialBodyViewModel>)
        ensures
            r == match Planet::named(planet@) {
                Some(body) => value_of(self.celestial_body_models@, body),
                None => None,
            },
    {
        match Planet::from_name(planet) {
            Some(planet_enum) => {
                match self.celestial_body_models.get(&planet_enum) {
                    Some(model) => Some(*model),
                    None => None,
                }
            },
            None => None,
        }
    }

    /// Takes in what the ephemeris reports: each body reported gets the new
    /// position, in the order of the reports. Before the controller has been
    /// started nothing happens.
    pub fn update_celestial_bodies(&mut self, bodies: &[(Planet, CelestialBody)])
        ensures
            !old(self).is_initialized ==> *final(self) == *old(self),
            old(self).is_initialized ==> final(self).celestial_body_models@ == with_reports(
                old(self).celestial_body_models@,
                bodies@,
            ) && *final(self) == (DialController {
                celestial_body_models: final(self).celestial_body_models,
                ..*old(self)
            }),
    {
        if !self.is_initialized {
            return ;
        }
        let mut i: usize = 0;
        while i < bodies.len()
            invariant
                i <= bodies@.len(),
                self.celestial_body_models@ == with_reports(
                    old(self).celestial_body_models@,
                    bodies@.take(i as int),
                ),
                *self == (DialController {
                    celestial_body_models: self.celestial_body_models,
                    ..*old(self)
                }),
            decreases bodies@.len() - i,
        {
            let planet: Planet = bodies[i].0;
            let model = match self.celestial_body_models.get(&planet) {
                Some(known) => {
                    let mut model = *known;
                    model.update_position(&bodies[i].1);
                    model
                },
                None => CelestialBodyViewModel::from_planet(&planet, &bodies[i].1),
            };
            self.celestial_body_models.insert(planet, model);
            proof {
                assert(bodies@.take(i + 1).drop_last() =~= bodies@.take(i as int));
            }
            i = i + 1;
        }
        proof {
            assert(bodies@.take(bodies@.len() as int) =~= bodies@);
        }
    }
}

} // verus!
