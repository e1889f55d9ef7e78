use rust_astrology::astrology::models::planet::{BodyType, ChartPositions, Planet, PlanetPosition};
use rust_astrology::astrology::models::table::PlanetTable;

fn deg(degrees: f64) -> i64 {
    (degrees * 1_000_000.0).round() as i64
}

fn position(planet: Planet, longitude: i64, latitude: i64) -> PlanetPosition {
    PlanetPosition::new(planet, longitude, latitude, deg(1.0), deg(1.0), 0, false, 0, 0, 0, 0, 1)
}

#[test]
fn test_planet_symbols() {
    for planet in Planet::all() {
        assert!(!planet.symbol().is_empty());
    }
}

#[test]
fn test_planet_colors() {
    for planet in Planet::all() {
        assert!(!planet.color().is_empty());
    }
}

#[test]
fn test_planet_position_normalization() {
    let pos = position(Planet::Sun, deg(370.0), deg(95.0));
    assert_eq!(pos.longitude, deg(10.0));
    assert_eq!(pos.latitude, deg(90.0));
}

#[test]
fn there_are_thirty_five_bodies_and_ten_kinds() {
    let all = Planet::all();
    assert_eq!(all.len(), 35);
    assert_eq!(all[0], Planet::Sun);
    assert_eq!(all[34], Planet::Aldebaran);
    assert_eq!(BodyType::all().len(), 10);
    assert_eq!(BodyType::DwarfPlanet.name(), "DwarfPlanet");
    assert_eq!(BodyType::Star.to_string(), "Star");
}

#[test]
fn constant_data_of_the_bodies() {
    assert_eq!(Planet::Sun.body_type(), BodyType::Star);
    assert_eq!(Planet::Regulus.body_type(), BodyType::Star);
    assert_eq!(Planet::Neptune.body_type(), BodyType::Planet);
    assert_eq!(Planet::Pluto.body_type(), BodyType::DwarfPlanet);
    assert_eq!(Planet::Ceres.body_type(), BodyType::DwarfPlanet);
    assert_eq!(Planet::Vesta.body_type(), BodyType::Asteroid);
    assert_eq!(Planet::Chiron.body_type(), BodyType::Centaur);
    assert_eq!(Planet::MeanNode.body_type(), BodyType::LunarNode);
    assert_eq!(Planet::Poseidon.body_type(), BodyType::TransNeptunian);
    assert_eq!(Planet::MC.body_type(), BodyType::HouseCusp);
    assert_eq!(Planet::Vertex.body_type(), BodyType::Angle);
    assert_eq!(Planet::BlackMoonLilith.body_type(), BodyType::Point);

    assert_eq!(Planet::Sun.symbol(), "☉");
    assert_eq!(Planet::TrueNode.symbol(), "☊");
    assert_eq!(Planet::Admetos.symbol(), "D");
    assert_eq!(Planet::Aldebaran.symbol(), "✫");
    assert_eq!(Planet::Sun.color(), "#FFD700");
    assert_eq!(Planet::Kronos.color(), "#4B0082");
    assert_eq!(Planet::WhiteMoonSelena.color(), "#FFFFFF");

    assert_eq!(Planet::Sun.orbital_period_years(), None);
    assert_eq!(Planet::Moon.orbital_period_years(), Some(74_800));
    assert_eq!(Planet::Pluto.orbital_period_years(), Some(247_920_700));
    assert_eq!(Planet::Chiron.orbital_period_years(), Some(50_700_000));
    assert_eq!(Planet::Spica.orbital_period_years(), None);
}

#[test]
fn main_bodies_and_hamburg_points() {
    let main: Vec<Planet> = Planet::all().into_iter().filter(|p| p.is_main_planet()).collect();
    assert_eq!(main.len(), 10);
    assert_eq!(main[0], Planet::Sun);
    assert_eq!(main[9], Planet::Pluto);
    let uranian: Vec<Planet> = Planet::all().into_iter().filter(|p| p.is_uranian_point()).collect();
    assert_eq!(
        uranian,
        vec![
            Planet::Cupido,
            Planet::Hades,
            Planet::Zeus,
            Planet::Kronos,
            Planet::Apollon,
            Planet::Admetos,
            Planet::Vulkanus,
            Planet::Poseidon,
        ]
    );
}

#[test]
fn a_body_is_found_again_by_its_name() {
    for planet in Planet::all() {
        assert_eq!(Planet::from_name(planet.name()), Some(planet));
        assert_eq!(planet.to_string(), planet.name());
    }
    assert_eq!(Planet::TrueNode.name(), "true_node");
    assert_eq!(Planet::MC.name(), "mc");
    assert_eq!(Planet::BlackMoonLilith.name(), "black_moon_lilith");
    assert_eq!(Planet::from_name("Sun"), None);
    assert_eq!(Planet::from_name(""), None);
    assert_eq!(Planet::from_name("eris"), None);
}

#[test]
fn a_position_derives_sign_degree_and_harmonic_position() {
    let pos = PlanetPosition::new(
        Planet::Mars,
        deg(-15.5),
        deg(-95.0),
        2_000_000,
        deg(0.5),
        deg(0.1),
        true,
        7,
        -1_500_000,
        1_500_000,
        deg(200.0),
        1,
    );
    assert_eq!(pos.planet, Planet::Mars);
    assert_eq!(pos.longitude, deg(344.5));
    assert_eq!(pos.latitude, deg(-90.0));
    assert_eq!(pos.distance, 2_000_000);
    assert_eq!(pos.distance_au, 2_000_000);
    assert_eq!(pos.distance_km, 299_195_741_400_000);
    assert_eq!(pos.speed, deg(0.5));
    assert_eq!(pos.speed_latitude, deg(0.1));
    assert!(pos.is_retrograde);
    assert_eq!(pos.apparent_size, 7);
    assert_eq!(pos.magnitude, -1_500_000);
    assert_eq!(pos.phase, 1_000_000);
    assert_eq!(pos.elongation, deg(160.0));
    assert_eq!(pos.altitude, 0);
    assert_eq!(pos.azimuth, 0);
    assert_eq!(pos.house, None);
    assert_eq!(pos.zodiac_sign, 11);
    assert_eq!(pos.zodiac_degree, deg(14.5));
    assert_eq!(pos.harmonic, 1);
    assert_eq!(pos.harmonic_position, deg(344.5));
    assert_eq!(pos.zodiac_sign_name(), "Pisces");
    assert_eq!(pos.to_formatted_string(), "14°30' Pisces (R)");
}

#[test]
fn a_position_can_be_updated_in_place() {
    let mut pos = position(Planet::Venus, deg(15.0), 0);
    assert_eq!(pos.to_formatted_string(), "15°00' Aries");
    pos.set_harmonic(4);
    assert_eq!(pos.harmonic, 4);
    assert_eq!(pos.harmonic_position, deg(60.0));
    pos.set_house(7);
    pos.set_horizontal_coords(deg(120.0), deg(-10.0));
    pos.update_position(deg(181.0), deg(1.0), 3, 4, 5, false, 6, 7, -5, deg(-10.0));
    assert_eq!(pos.longitude, deg(181.0));
    assert_eq!(pos.zodiac_sign, 6);
    assert_eq!(pos.zodiac_degree, deg(1.0));
    assert_eq!(pos.harmonic, 4);
    assert_eq!(pos.harmonic_position, deg(4.0));
    assert_eq!(pos.house, Some(7));
    assert_eq!(pos.altitude, deg(90.0));
    assert_eq!(pos.azimuth, deg(350.0));
    assert_eq!(pos.phase, 0);
    assert_eq!(pos.elongation, deg(10.0));
    assert_eq!(pos.distance_km, 448_793_612);
    assert_eq!(pos.to_formatted_string(), "1°00' Libra");
}

#[test]
fn the_harmonic_of_a_position_is_kept_between_one_and_ninety() {
    let mut pos = position(Planet::Sun, deg(100.0), 0);
    pos.set_harmonic(4);
    assert_eq!(pos.harmonic, 4);
    assert_eq!(pos.harmonic_position, deg(40.0));
    let before = pos;
    pos.set_harmonic(0);
    assert_eq!(pos, before);
    assert_eq!(pos.harmonic, 4);
    assert_eq!(pos.harmonic_position, deg(40.0));
    pos.set_harmonic(91);
    assert_eq!(pos.harmonic, 90);
    assert_eq!(pos.harmonic_position, deg(0.0));
    pos.set_harmonic(90);
    assert_eq!(pos.harmonic, 90);
    pos.set_harmonic(1);
    assert_eq!(pos.harmonic, 1);
    assert_eq!(pos.harmonic_position, deg(100.0));
    pos.set_harmonic(3);
    assert_eq!(pos.harmonic_position, deg(300.0));
    assert_eq!(pos.longitude, deg(100.0));
    assert_eq!(pos.get_harmonic_position(1), deg(100.0));
    assert_eq!(pos.get_harmonic_position(3), deg(300.0));
    assert_eq!(pos.get_harmonic_position(4), deg(40.0));
}

#[test]
fn only_the_twelve_houses_are_accepted() {
    let mut pos = position(Planet::Sun, 0, 0);
    pos.set_house(0);
    assert_eq!(pos.house, None);
    pos.set_house(13);
    assert_eq!(pos.house, None);
    pos.set_house(1);
    assert_eq!(pos.house, Some(1));
    pos.set_house(12);
    assert_eq!(pos.house, Some(12));
    pos.set_house(200);
    assert_eq!(pos.house, Some(12));
}

#[test]
fn a_chart_holds_one_position_for_each_body() {
    let mut chart = ChartPositions::new(1_700_000_000, (deg(39.95), deg(-75.16)));
    assert!(chart.positions.is_empty());
    assert!(chart.get_position(&Planet::Sun).is_none());
    chart.add_position(position(Planet::Sun, deg(10.0), 0));
    chart.add_position(position(Planet::Moon, deg(20.0), 0));
    chart.add_position(position(Planet::Sun, deg(30.0), 0));
    assert_eq!(chart.positions.len(), 2);
    assert_eq!(chart.get_position(&Planet::Sun).unwrap().longitude, deg(30.0));
    assert_eq!(chart.get_position(&Planet::Moon).unwrap().longitude, deg(20.0));
    assert!(chart.get_position(&Planet::Mars).is_none());
    assert_eq!(chart.datetime, 1_700_000_000);
    assert_eq!(chart.location, (deg(39.95), deg(-75.16)));
    let copy = chart.clone();
    assert_eq!(copy.positions.len(), 2);
    assert_eq!(copy.get_position(&Planet::Sun).unwrap().longitude, deg(30.0));
    let empty = ChartPositions::default();
    assert!(empty.positions.is_empty());
    assert_eq!(empty.datetime, 0);
}

#[test]
fn a_table_replaces_in_place_and_removes_in_order() {
    let mut table: PlanetTable<i64> = PlanetTable::new();
    assert_eq!(table.insert(Planet::Sun, 1), None);
    assert_eq!(table.insert(Planet::Moon, 2), None);
    assert_eq!(table.insert(Planet::Mars, 3), None);
    assert_eq!(table.insert(Planet::Moon, 20), Some(2));
    assert_eq!(table.len(), 3);
    assert_eq!(*table.entry(0), (Planet::Sun, 1));
    assert_eq!(*table.entry(1), (Planet::Moon, 20));
    assert_eq!(*table.entry(2), (Planet::Mars, 3));
    assert_eq!(table.find(&Planet::Mars), Some(2));
    assert_eq!(table.find(&Planet::Venus), None);
    assert_eq!(table.get(&Planet::Moon), Some(&20));
    assert_eq!(table.remove(&Planet::Sun), Some(1));
    assert_eq!(table.remove(&Planet::Sun), None);
    assert_eq!(table.len(), 2);
    assert_eq!(*table.entry(0), (Planet::Moon, 20));
    assert_eq!(*table.entry(1), (Planet::Mars, 3));
    assert!(!table.is_empty());
}
