use rust_astrology::components::dial::utils::{
    calculate_label_step, display_position, filter_active_midpoints,
};
use rust_astrology::dial::types::{Planet as DialPlanet, PlanetPosition};
use rust_astrology::models::dial_settings::DialSettings;
use rust_astrology::models::harmonic::{
    calculate_harmonic_midpoint, fold_into_range, multiply_angle, HarmonicType,
};
use rust_astrology::models::planet::{
    calculate_360_midpoint, calculate_all_midpoints, format_degree, get_planet_pairs_for_midpoints,
    get_sibley_chart, Planet,
};
use rust_astrology::utils::angle::Angle;

fn deg(degrees: f64) -> i64 {
    (degrees * 1_000_000.0).round() as i64
}

#[test]
fn folding_and_multiplying_are_different_reductions() {
    assert_eq!(fold_into_range(deg(181.0), 4), deg(1.0));
    assert_eq!(multiply_angle(deg(181.0), 4), deg(4.0));
    assert_eq!(PlanetPosition::new(DialPlanet::Sun, deg(181.0), 0, 0).dial_position(), deg(1.0));
    assert_eq!(Angle::from_degrees(deg(181.0)).harmonic(4).degrees(), deg(4.0));
    assert_ne!(fold_into_range(deg(181.0), 4), multiply_angle(deg(181.0), 4));
}

#[test]
fn a_fold_is_the_remainder_by_the_range() {
    for harmonic in [1u32, 2, 3, 4, 5, 6, 8, 9, 10, 12, 15, 16, 90] {
        let range = 360_000_000 / harmonic as i64;
        for position in [0, 1, deg(13.19), deg(89.999999), deg(181.0), deg(359.999999), deg(-1.0), deg(1000.0)] {
            assert_eq!(fold_into_range(position, harmonic), position.rem_euclid(range), "{} {}", position, harmonic);
            assert_eq!(
                multiply_angle(position, harmonic),
                ((position as i128 * harmonic as i128).rem_euclid(360_000_000)) as i64
            );
        }
    }
}

#[test]
fn a_fold_by_a_harmonic_that_does_not_divide_the_circle_is_rounded_down() {
    assert_eq!(fold_into_range(deg(359.0), 7), 50_428_571);
    assert_eq!(fold_into_range(deg(51.0), 7), deg(51.0));
    assert_eq!(fold_into_range(deg(52.0), 7), 571_428);
    assert_eq!(fold_into_range(deg(100.0), 11), 1_818_181);
    assert_eq!(fold_into_range(i64::MAX, u32::MAX), 0);
    assert_eq!(multiply_angle(deg(100.0), 0), 0);
    assert_eq!(multiply_angle(i64::MIN, u32::MAX), 282_800_640);
}

#[test]
fn harmonics_on_offer() {
    let all = HarmonicType::all_types();
    let values: Vec<u32> = all.iter().map(|h| h.value()).collect();
    assert_eq!(values, vec![2, 3, 4, 5, 6, 7, 8, 9, 10, 11, 12, 16]);
    let names: Vec<String> = all.iter().map(|h| h.display_name()).collect();
    assert_eq!(
        names,
        vec!["2nd", "3rd", "4th", "5th", "6th", "7th", "8th", "9th", "10th", "11th", "12th", "16th"]
    );
    assert_eq!(HarmonicType::Fourth.to_string(), "4th");
    assert_eq!(HarmonicType::Second.harmonic_range(), deg(180.0));
    assert_eq!(HarmonicType::Fourth.harmonic_range(), deg(90.0));
    assert_eq!(HarmonicType::Seventh.harmonic_range(), 51_428_571);
    assert_eq!(HarmonicType::Eleventh.harmonic_range(), 32_727_272);
    assert_eq!(HarmonicType::Sixteenth.harmonic_range(), deg(22.5));
}

#[test]
fn a_harmonic_midpoint_is_folded_after_the_mean() {
    assert_eq!(calculate_harmonic_midpoint(deg(80.0), deg(110.0), 4), deg(5.0));
    assert_eq!(calculate_harmonic_midpoint(deg(350.0), deg(10.0), 4), 0);
    assert_eq!(calculate_harmonic_midpoint(deg(10.0), deg(30.0), 1), deg(20.0));
    assert_eq!(calculate_harmonic_midpoint(deg(100.0), deg(140.0), 3), 0);
    let folded_first = (fold_into_range(deg(80.0), 4) + fold_into_range(deg(110.0), 4)) / 2;
    assert_eq!(folded_first, deg(50.0));
    assert_ne!(calculate_harmonic_midpoint(deg(80.0), deg(110.0), 4), folded_first);
}

#[test]
fn midpoints_on_the_full_circle() {
    assert_eq!(calculate_360_midpoint(deg(10.0), deg(30.0)), deg(20.0));
    assert_eq!(calculate_360_midpoint(deg(350.0), deg(10.0)), 0);
    assert_eq!(calculate_360_midpoint(deg(10.0), deg(350.0)), 0);
    assert_eq!(calculate_360_midpoint(deg(0.0), deg(180.0)), deg(90.0));
    assert_eq!(calculate_360_midpoint(deg(0.0), deg(181.0)), deg(270.5));
    assert_eq!(calculate_360_midpoint(deg(-10.0), deg(370.0)), 0);
    assert_eq!(calculate_360_midpoint(deg(100.0), deg(300.0)), deg(20.0));
    assert_eq!(calculate_360_midpoint(1, 2), 1);
}

#[test]
fn the_sibley_chart_of_the_explorer() {
    let chart = get_sibley_chart();
    assert_eq!(chart.len(), 10);
    assert_eq!(chart[0].name, "Sun");
    assert_eq!(chart[0].symbol, "☉");
    assert_eq!(chart[0].longitude, deg(13.0));
    assert_eq!(chart[0].color, "#FFD700");
    assert_eq!(chart[6].name, "Saturn");
    assert_eq!(chart[6].longitude, deg(350.0));
    assert_eq!(chart[9].name, "Pluto");
    assert_eq!(chart[9].longitude, deg(274.0));
    assert_eq!(chart[9].color, "#8B0000");
    assert_eq!(chart[1].formatted_longitude(), "76°00'");

    let midpoints = calculate_all_midpoints(&chart);
    assert_eq!(midpoints.len(), 45);
    assert_eq!(midpoints[0], (deg(44.5), 0, 1));
    assert_eq!(midpoints[5], (deg(1.5), 0, 6));
    assert_eq!(midpoints[8], (deg(323.5), 0, 9));
    assert_eq!(midpoints[9], (deg(85.5), 1, 2));
    assert_eq!(midpoints[44], (deg(218.0), 8, 9));
    assert_eq!(get_planet_pairs_for_midpoints(&chart), midpoints);
    let mut k = 0;
    for i in 0..chart.len() {
        for j in (i + 1)..chart.len() {
            assert_eq!(midpoints[k].1, i);
            assert_eq!(midpoints[k].2, j);
            assert_eq!(midpoints[k].0, calculate_360_midpoint(chart[i].longitude, chart[j].longitude));
            k += 1;
        }
    }
    assert!(calculate_all_midpoints(&[]).is_empty());
}

#[test]
fn a_body_of_the_explorer() {
    let body = Planet::new("Vesta", "⚶", deg(13.5), "#123456");
    assert_eq!(body.name, "Vesta");
    assert_eq!(body.symbol, "⚶");
    assert_eq!(body.longitude, deg(13.5));
    assert_eq!(body.color, "#123456");
    assert_eq!(body.formatted_longitude(), "13°30'");
    assert_eq!(display_position(&body, None), deg(13.5));
    assert_eq!(display_position(&Planet::new("x", "x", deg(181.0), ""), Some(HarmonicType::Fourth)), deg(1.0));
    assert_eq!(display_position(&Planet::new("x", "x", deg(359.0), ""), Some(HarmonicType::Seventh)), 50_428_571);
}

#[test]
fn degrees_and_minutes() {
    assert_eq!(format_degree(0), "0°00'");
    assert_eq!(format_degree(deg(13.0)), "13°00'");
    assert_eq!(format_degree(deg(13.1)), "13°06'");
    assert_eq!(format_degree(deg(359.999999)), "359°59'");
    assert_eq!(format_degree(deg(-0.5)), "0°-30'");
    assert_eq!(format_degree(deg(-13.1)), "-13°-6'");
    assert_eq!(format_degree(deg(1000.25)), "1000°15'");
}

#[test]
fn label_steps_follow_the_range() {
    assert_eq!(calculate_label_step(deg(22.5)), deg(1.0));
    assert_eq!(calculate_label_step(deg(30.0)), deg(1.0));
    assert_eq!(calculate_label_step(30_000_001), deg(5.0));
    assert_eq!(calculate_label_step(deg(60.0)), deg(5.0));
    assert_eq!(calculate_label_step(deg(90.0)), deg(5.0));
    assert_eq!(calculate_label_step(90_000_001), deg(10.0));
    assert_eq!(calculate_label_step(deg(120.0)), deg(10.0));
    assert_eq!(calculate_label_step(120_000_001), deg(15.0));
    assert_eq!(calculate_label_step(deg(180.0)), deg(15.0));
    assert_eq!(calculate_label_step(deg(360.0)), deg(15.0));
    assert_eq!(calculate_label_step(-5), deg(1.0));
}

#[test]
fn midpoints_near_an_arm_are_active() {
    let midpoints = vec![
        (deg(2.0), 0, 1),
        (deg(4.0), 0, 2),
        (deg(357.0), 1, 2),
        (deg(93.0), 1, 3),
        (deg(93.000001), 2, 3),
        (deg(200.0), 3, 4),
    ];
    let arms = vec![deg(0.0), deg(90.0), deg(180.0), deg(270.0)];
    assert_eq!(
        filter_active_midpoints(&midpoints, &arms, deg(3.0)),
        vec![(deg(2.0), 0, 1), (deg(357.0), 1, 2), (deg(93.0), 1, 3)]
    );
    assert!(filter_active_midpoints(&midpoints, &[], deg(3.0)).is_empty());
    assert!(filter_active_midpoints(&[], &arms, deg(3.0)).is_empty());
    assert_eq!(filter_active_midpoints(&midpoints, &arms, deg(180.0)), midpoints);
    assert_eq!(filter_active_midpoints(&midpoints, &[deg(722.0)], 0), vec![(deg(2.0), 0, 1)]);
}

#[test]
fn settings_of_a_dial() {
    let usual = DialSettings::default();
    assert!(usual.show_degree_marks && usual.show_planet_labels && usual.show_midpoints);
    assert_eq!(usual.line_thickness, 1_000_000);
    assert_eq!(usual.base_color, "#FFFFFF");
    let custom = DialSettings::new(false, true, false, 2_500_000, "#000000".to_string());
    assert!(!custom.show_degree_marks && custom.show_planet_labels && !custom.show_midpoints);
    assert_eq!(custom.line_thickness, 2_500_000);
    assert_eq!(custom.base_color, "#000000");
}
