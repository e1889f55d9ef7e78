use rust_astrology::astrology::models::planet::Planet;
use rust_astrology::ui::components::dial_controller::{
    CelestialBody, CelestialBodyViewModel, DialController, DATETIME_FORMAT,
};

fn deg(degrees: f64) -> i64 {
    (degrees * 1_000_000.0).round() as i64
}

fn body(longitude: i64) -> CelestialBody {
    let mut body = CelestialBody::default();
    body.longitude = longitude;
    body
}

fn report() -> Vec<(Planet, CelestialBody)> {
    vec![(Planet::Sun, body(deg(10.0))), (Planet::Moon, body(deg(350.0))), (Planet::Mars, body(deg(100.0)))]
}

#[test]
fn a_moment_is_parsed_from_its_text() {
    assert_eq!(DATETIME_FORMAT, "%Y-%m-%d %H:%M:%S");
    assert_eq!(DialController::parse_datetime("1970-01-01 00:00:00"), Some(0));
    assert_eq!(DialController::parse_datetime("2015-05-15 00:00:00"), Some(1_431_648_000));
    assert_eq!(DialController::parse_datetime("2001-09-09 01:46:40"), Some(1_000_000_000));
    assert_eq!(DialController::parse_datetime("1969-12-31 23:59:59"), Some(-1));
    assert_eq!(DialController::parse_datetime("1776-07-04 17:10:00"), Some(-6_105_999_000));
    assert_eq!(DialController::parse_datetime(""), None);
    assert_eq!(DialController::parse_datetime("yesterday"), None);
    assert_eq!(DialController::parse_datetime("2015-05-15"), None);
    assert_eq!(DialController::parse_datetime("2015-13-15 00:00:00"), None);
    assert_eq!(DialController::parse_datetime("2015-05-15 24:00:00"), None);
    assert_eq!(DialController::parse_datetime("2015-05-15 00:00:00 UTC"), None);
    assert_eq!(DialController::parse_datetime("%Y-%m-%d %H:%M:%S"), None);
}

#[test]
fn a_new_controller_is_not_started() {
    let controller = DialController::new();
    assert!(!controller.is_initialized);
    assert_eq!(controller.rotation, 0);
    assert_eq!(controller.zoom, 1_000_000);
    assert_eq!(controller.harmonic, 1);
    assert_eq!(controller.current_time, "");
    assert_eq!((controller.location_latitude, controller.location_longitude), (0, 0));
    assert!(controller.celestial_body_models.is_empty());
    assert!(controller.get_planet_positions().is_empty());
    assert!(controller.calculate_midpoints().is_empty());
    assert!(controller.calculate_aspects("sun", "moon").is_none());
}

#[test]
fn a_moment_that_cannot_be_parsed_changes_nothing() {
    let mut controller = DialController::new();
    assert!(!controller.initialize("not a moment", deg(40.0), deg(-75.0), Some(report())));
    assert!(!controller.is_initialized);
    assert_eq!(controller.current_time, "");
    assert_eq!((controller.location_latitude, controller.location_longitude), (0, 0));
    assert!(controller.celestial_body_models.is_empty());

    assert!(!controller.initialize("2015-05-15 00:00:00", deg(40.0), deg(-75.0), None));
    assert!(!controller.is_initialized);
    assert_eq!(controller.current_time, "");
    assert_eq!((controller.location_latitude, controller.location_longitude), (0, 0));

    assert!(!controller.update_time("2015-05-15 00:00:00", Some(report())));
    assert!(!controller.update_location(1, 2, Some(report())));
    assert!(!controller.is_initialized);
    controller.update_celestial_bodies(&report());
    assert!(controller.celestial_body_models.is_empty());
}

#[test]
fn a_controller_is_started_and_moved() {
    let mut controller = DialController::new();
    assert!(controller.initialize("2015-05-15 00:00:00", deg(40.0), deg(-75.0), Some(report())));
    assert!(controller.is_initialized);
    assert_eq!(controller.current_time, "2015-05-15 00:00:00");
    assert_eq!((controller.location_latitude, controller.location_longitude), (deg(40.0), deg(-75.0)));
    let shown = controller.get_planet_positions();
    assert_eq!(shown.len(), 3);
    assert_eq!(shown[0].planet, Planet::Sun);
    assert_eq!(shown[0].name(), "sun");
    assert_eq!(shown[0].symbol(), "☉");
    assert_eq!(shown[0].color(), "#FFD700");
    assert_eq!(shown[0].longitude, deg(10.0));
    assert_eq!(shown[0].display_position, deg(10.0));
    assert_eq!(shown[0].house, -1);
    assert_eq!(shown[2].planet, Planet::Mars);

    assert!(!controller.update_time("soon", Some(report())));
    assert_eq!(controller.current_time, "2015-05-15 00:00:00");
    assert!(!controller.update_time("2016-01-01 12:00:00", None));
    assert_eq!(controller.current_time, "2015-05-15 00:00:00");
    let mut later = body(deg(20.0));
    later.house = Some(7);
    later.is_retrograde = true;
    assert!(controller.update_time("2016-01-01 12:00:00", Some(vec![(Planet::Moon, later), (Planet::Zeus, body(5))])));
    assert_eq!(controller.current_time, "2016-01-01 12:00:00");
    assert_eq!((controller.location_latitude, controller.location_longitude), (deg(40.0), deg(-75.0)));
    let shown = controller.get_planet_positions();
    let bodies: Vec<(Planet, i64, i32, bool)> =
        shown.iter().map(|m| (m.planet, m.longitude, m.house, m.is_retrograde)).collect();
    assert_eq!(
        bodies,
        vec![
            (Planet::Sun, deg(10.0), -1, false),
            (Planet::Moon, deg(20.0), 7, true),
            (Planet::Mars, deg(100.0), -1, false),
            (Planet::Zeus, 5, -1, false),
        ]
    );

    assert!(!controller.update_location(1, 2, None));
    assert_eq!((controller.location_latitude, controller.location_longitude), (deg(40.0), deg(-75.0)));
    assert!(controller.update_location(1, 2, Some(vec![])));
    assert_eq!((controller.location_latitude, controller.location_longitude), (1, 2));
    assert_eq!(controller.get_planet_positions().len(), 4);
}

#[test]
fn the_controller_mirrors_its_dial() {
    let mut controller = DialController::new();
    controller.rotate_by(deg(90.0));
    controller.rotate_by(deg(300.0));
    assert_eq!(controller.rotation, deg(30.0));
    assert_eq!(controller.dial.rotation, deg(30.0));
    controller.set_rotation(deg(-10.0));
    assert_eq!(controller.rotation, deg(350.0));
    assert_eq!(controller.zoom_by(1_500_000), 1_500_000);
    assert_eq!(controller.zoom_by(500_000), 750_000);
    assert_eq!(controller.set_zoom(2_500_000), 2_000_000);
    assert_eq!(controller.zoom, 2_000_000);
    assert_eq!(controller.dial.zoom, 2_000_000);
    assert_eq!(controller.set_zoom(100_000), 500_000);

    controller.set_harmonic(4);
    assert_eq!((controller.harmonic, controller.dial.harmonic), (4, 4));
    controller.set_harmonic(0);
    assert_eq!((controller.harmonic, controller.dial.harmonic), (4, 4));
    controller.set_harmonic(91);
    assert_eq!((controller.harmonic, controller.dial.harmonic), (4, 4));
    controller.set_harmonic(90);
    assert_eq!((controller.harmonic, controller.dial.harmonic), (90, 90));
    controller.set_harmonic(1);
    assert_eq!((controller.harmonic, controller.dial.harmonic), (1, 1));
}

#[test]
fn bodies_are_found_and_removed_by_name() {
    let mut controller = DialController::new();
    controller.dial.update_planet_position(Planet::Moon, deg(350.0));
    assert!(controller.initialize("2015-05-15 00:00:00", 0, 0, Some(report())));
    assert_eq!(controller.get_planet_info("moon").unwrap().longitude, deg(350.0));
    assert_eq!(controller.get_planet_info("venus"), None);
    assert_eq!(controller.get_planet_info("Moon"), None);

    assert_eq!(
        controller.calculate_midpoints(),
        vec![
            (Planet::Sun, Planet::Moon, 0),
            (Planet::Sun, Planet::Mars, deg(55.0)),
            (Planet::Moon, Planet::Mars, deg(45.0)),
        ]
    );
    let aspect = controller.calculate_aspects("sun", "mars").unwrap();
    assert_eq!(aspect.aspect_type, "trine");
    assert_eq!(aspect.orb, 2_500_000);
    assert!(!aspect.exact);
    assert_eq!((aspect.planet1.as_str(), aspect.planet2.as_str()), ("sun", "mars"));

    assert!(!controller.remove_planet("the moon"));
    assert_eq!(controller.celestial_body_models.len(), 3);
    assert!(controller.remove_planet("moon"));
    assert_eq!(controller.celestial_body_models.len(), 2);
    assert!(controller.dial.planets.is_empty());
    assert_eq!(controller.get_planet_info("moon"), None);
    assert!(controller.remove_planet("moon"));
    assert_eq!(controller.calculate_midpoints(), vec![(Planet::Sun, Planet::Mars, deg(55.0))]);
}

#[test]
fn a_view_model_takes_the_position_of_a_report() {
    let mut report = body(deg(123.0));
    report.latitude = 1;
    report.distance = 2;
    report.speed = 3;
    report.is_dignified = true;
    report.house = Some(12);
    let mut model = CelestialBodyViewModel::from_planet(&Planet::Venus, &report);
    assert_eq!(
        model,
        CelestialBodyViewModel {
            planet: Planet::Venus,
            longitude: deg(123.0),
            latitude: 1,
            distance: 2,
            speed: 3,
            is_retrograde: false,
            is_dignified: true,
            house: 12,
            display_position: deg(123.0),
        }
    );
    model.update_display_position(deg(3.0));
    assert_eq!(model.display_position, deg(3.0));
    assert_eq!(model.longitude, deg(123.0));
    model.update_position(&body(deg(5.0)));
    assert_eq!(model.planet, Planet::Venus);
    assert_eq!(model.display_position, deg(5.0));
    assert_eq!(model.house, -1);
    assert!(!model.is_dignified);
    model.update_from_planet(&Planet::Mars, &report);
    assert_eq!(model.planet, Planet::Mars);
    assert_eq!(model.name(), "mars");
    let nothing = CelestialBody::default();
    assert_eq!(nothing.color, "#FFFFFF");
    assert_eq!(nothing.name, "");
    assert_eq!(nothing.house, None);
}
