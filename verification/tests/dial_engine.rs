use rust_astrology::dial::alignment::{
    collect_aligned_midpoints, collect_aligned_planets, detect_alignments, orb_difference,
    target_of_axis,
};
use rust_astrology::dial::calculator::AstrologyCalculator;
use rust_astrology::dial::renderer::{DialRenderer, TickKind};
use rust_astrology::dial::renderer360::DialRenderer360;
use rust_astrology::dial::types::{
    AxisAlignment, AxisPoint, Cardinal360, DialState, Midpoint, Planet, PlanetPosition,
};

fn deg(degrees: f64) -> i64 {
    (degrees * 1_000_000.0).round() as i64
}

fn midpoint_at(dial_position: i64) -> Midpoint {
    Midpoint { planet1: Planet::Sun, planet2: Planet::Moon, position: dial_position, dial_position }
}

#[test]
fn glyphs_and_the_list_of_bodies() {
    assert_eq!(Planet::Sun.glyph(), "☉");
    assert_eq!(Planet::SouthNode.glyph(), "☋");
    assert_eq!(Planet::Midheaven.glyph(), "MC");
    let all = Planet::all();
    assert_eq!(all.len(), 14);
    assert!(!all.contains(&Planet::SouthNode));
    assert_eq!(all[10], Planet::NorthNode);
    assert_eq!(all[11], Planet::Chiron);
    assert_eq!(all[13], Planet::Midheaven);
}

#[test]
fn a_position_is_folded_into_the_quarter_dial() {
    assert_eq!(PlanetPosition::new(Planet::Sun, deg(103.19), 0, 0).dial_position(), deg(13.19));
    assert_eq!(PlanetPosition::new(Planet::Sun, deg(181.0), 0, 0).dial_position(), deg(1.0));
    assert_eq!(PlanetPosition::new(Planet::Sun, deg(89.999999), 0, 0).dial_position(), 89_999_999);
    assert_eq!(PlanetPosition::new(Planet::Sun, deg(90.0), 0, 0).dial_position(), 0);
    assert_eq!(PlanetPosition::new(Planet::Sun, deg(-1.0), 0, 0).dial_position(), deg(89.0));
    let position = PlanetPosition::new(Planet::Mars, 1, 2, 3);
    assert_eq!(position, PlanetPosition { planet: Planet::Mars, longitude: 1, latitude: 2, speed: 3 });
}

#[test]
fn a_midpoint_is_folded_after_the_mean_is_taken() {
    let midpoint = Midpoint::new(Planet::Sun, deg(80.0), Planet::Moon, deg(110.0));
    assert_eq!(midpoint.position, deg(95.0));
    assert_eq!(midpoint.dial_position, deg(5.0));
    assert_eq!(midpoint.label(), "☉/☽");

    let across = Midpoint::new(Planet::Mars, deg(350.0), Planet::Venus, deg(10.0));
    assert_eq!(across.position, 0);
    assert_eq!(across.dial_position, 0);
    assert_eq!(across.label(), "♂/♀");

    let sibley = Midpoint::new(Planet::Sun, deg(103.19), Planet::Moon, deg(327.1));
    assert_eq!(sibley.position, deg(35.145));
    assert_eq!(sibley.dial_position, deg(35.145));
}

#[test]
fn axis_points_of_the_quarter_dial() {
    assert_eq!(
        AxisPoint::all(),
        vec![AxisPoint::Zero, AxisPoint::TwentyTwoFive, AxisPoint::FortyFive, AxisPoint::SixtySevenFive]
    );
    assert_eq!(AxisPoint::Zero.degrees(), 0);
    assert_eq!(AxisPoint::TwentyTwoFive.degrees(), deg(22.5));
    assert_eq!(AxisPoint::FortyFive.degrees(), deg(45.0));
    assert_eq!(AxisPoint::SixtySevenFive.degrees(), deg(67.5));
    assert_eq!(AxisPoint::Zero.name(), "Cardinal (0°)");
    assert_eq!(AxisPoint::TwentyTwoFive.name(), "Semi-Square (22.5°)");
    assert_eq!(AxisPoint::FortyFive.name(), "Semi-Square (45°)");
    assert_eq!(AxisPoint::SixtySevenFive.name(), "Sesquisquare (67.5°)");
}

#[test]
fn labels_of_alignments() {
    let midpoint = Midpoint::new(Planet::Sun, 0, Planet::Moon, deg(60.0));
    let on_axis = AxisAlignment::new_midpoint(AxisPoint::TwentyTwoFive, midpoint, deg(0.44));
    assert_eq!(on_axis.midpoint, Some(midpoint));
    assert_eq!(on_axis.planet, None);
    assert_eq!(on_axis.label(), "☉/☽ on Semi-Square (22.5°) (±0.4°)");

    let planet = PlanetPosition::new(Planet::Jupiter, deg(45.96), 0, 0);
    let body = AxisAlignment::new_planet(AxisPoint::FortyFive, planet, deg(0.96));
    assert_eq!(body.planet, Some(planet));
    assert_eq!(body.midpoint, None);
    assert_eq!(body.label(), "♃ on Semi-Square (45°) (±1.0°)");

    let tight = AxisAlignment::new_planet(AxisPoint::Zero, planet, 49_999);
    assert_eq!(tight.label(), "♃ on Cardinal (0°) (±0.0°)");
    let half = AxisAlignment::new_planet(AxisPoint::Zero, planet, 50_000);
    assert_eq!(half.label(), "♃ on Cardinal (0°) (±0.1°)");
    let wide = AxisAlignment::new_planet(AxisPoint::Zero, planet, deg(12.34));
    assert_eq!(wide.label(), "♃ on Cardinal (0°) (±12.3°)");

    let nothing = AxisAlignment { axis: AxisPoint::Zero, midpoint: None, planet: None, orb: 0 };
    assert_eq!(nothing.label(), "Unknown alignment");
}

#[test]
fn the_state_of_a_dial_starts_empty_and_wraps_its_rotation() {
    let mut state = DialState::new();
    assert_eq!(state.rotation, 0);
    assert!(state.planets.is_empty());
    assert!(state.midpoints.is_empty());
    assert!(state.alignments.is_empty());
    assert_eq!(state.orb_tolerance, 1_000_000);
    assert!(!state.is_dragging);
    assert_eq!(state.last_mouse_pos, None);

    state.add_rotation(deg(90.0));
    assert_eq!(state.rotation, deg(90.0));
    state.add_rotation(deg(300.0));
    assert_eq!(state.rotation, deg(30.0));
    state.add_rotation(deg(-31.0));
    assert_eq!(state.rotation, deg(359.0));
    state.add_rotation(deg(-800.0));
    assert_eq!(state.rotation, deg(279.0));
    state.add_rotation(i64::MIN);
    assert!(0 <= state.rotation && state.rotation < 360_000_000);
    state.set_rotation(deg(725.0));
    assert_eq!(state.rotation, deg(5.0));
    state.set_rotation(deg(-5.0));
    assert_eq!(state.rotation, deg(355.0));
    let fresh = DialState::default();
    assert_eq!(fresh.rotation, 0);
    assert_eq!(fresh.orb_tolerance, 1_000_000);
}

#[test]
fn the_sibley_chart_of_the_calculator() {
    let chart = AstrologyCalculator::new().get_us_sibley_chart();
    assert_eq!(chart.len(), 14);
    assert_eq!(chart[0], PlanetPosition::new(Planet::Sun, deg(103.19), 0, 0));
    assert_eq!(chart[1], PlanetPosition::new(Planet::Moon, deg(327.1), 0, 0));
    assert_eq!(chart[11], PlanetPosition::new(Planet::SouthNode, deg(306.35), 0, 0));
    assert_eq!(chart[13], PlanetPosition::new(Planet::Midheaven, deg(181.19), 0, 0));
}

#[test]
fn sample_positions_follow_the_mean_motions() {
    let calc = AstrologyCalculator::new();
    let at_epoch = calc.calculate_positions(0);
    assert_eq!(at_epoch.len(), 14);
    let longitudes: Vec<(Planet, i64)> = at_epoch.iter().map(|p| (p.planet, p.longitude)).collect();
    assert_eq!(longitudes[0], (Planet::Sun, 0));
    assert_eq!(longitudes[10], (Planet::NorthNode, 0));
    assert_eq!(longitudes[11], (Planet::Chiron, 0));
    assert_eq!(longitudes[12], (Planet::Ascendant, deg(90.0)));
    assert_eq!(longitudes[13], (Planet::Midheaven, 0));

    let after_ten_days = calc.calculate_positions(864_000);
    let longitudes: Vec<i64> = after_ten_days.iter().map(|p| p.longitude).collect();
    assert_eq!(
        longitudes,
        vec![
            deg(9.856),
            deg(131.76),
            deg(40.92),
            deg(16.02),
            deg(5.24),
            deg(0.83),
            deg(0.33),
            deg(0.12),
            deg(0.06),
            deg(0.04),
            deg(359.47),
            deg(0.2),
            deg(130.0),
            deg(40.0),
        ]
    );
    assert!(after_ten_days.iter().all(|p| p.latitude == 0 && p.speed == 0));

    let half_a_day = calc.calculate_positions(43_200);
    assert_eq!(half_a_day[0].longitude, 492_800);
    assert_eq!(half_a_day[1].longitude, 6_588_000);

    let before = calc.calculate_positions(-864_000);
    assert_eq!(before[0].longitude, deg(-9.856));
    assert_eq!(before[10].longitude, deg(0.53));
    assert_eq!(before[12].longitude, deg(50.0));

    let far = calc.calculate_positions(i64::MAX);
    assert!(far.iter().all(|p| -360_000_000 < p.longitude && p.longitude < 360_000_000));
}

#[test]
fn midpoints_come_pair_by_pair_in_ascending_order() {
    let calc = AstrologyCalculator::new();
    let bodies = vec![
        PlanetPosition::new(Planet::Sun, deg(0.0), 0, 0),
        PlanetPosition::new(Planet::Moon, deg(60.0), 0, 0),
        PlanetPosition::new(Planet::Mercury, deg(90.0), 0, 0),
        PlanetPosition::new(Planet::Venus, deg(300.0), 0, 0),
    ];
    let midpoints = calc.calculate_midpoints(&bodies);
    let pairs: Vec<(Planet, Planet, i64, i64)> =
        midpoints.iter().map(|m| (m.planet1, m.planet2, m.position, m.dial_position)).collect();
    assert_eq!(
        pairs,
        vec![
            (Planet::Sun, Planet::Moon, deg(30.0), deg(30.0)),
            (Planet::Sun, Planet::Mercury, deg(45.0), deg(45.0)),
            (Planet::Sun, Planet::Venus, deg(330.0), deg(60.0)),
            (Planet::Moon, Planet::Mercury, deg(75.0), deg(75.0)),
            (Planet::Moon, Planet::Venus, deg(0.0), deg(0.0)),
            (Planet::Mercury, Planet::Venus, deg(15.0), deg(15.0)),
        ]
    );
    assert!(calc.calculate_midpoints(&[]).is_empty());
    assert!(calc.calculate_midpoints(&bodies[..1]).is_empty());
    for n in 0..=14usize {
        let chart = calc.get_us_sibley_chart();
        assert_eq!(calc.calculate_midpoints(&chart[..n]).len(), n * n.saturating_sub(1) / 2);
    }
}

#[test]
fn the_distance_round_a_face() {
    let calc = AstrologyCalculator::new();
    assert_eq!(calc.calculate_orb_difference(deg(89.5), 0), deg(0.5));
    assert_eq!(calc.calculate_orb_difference(deg(0.5), 0), deg(0.5));
    assert_eq!(calc.calculate_orb_difference(deg(45.0), 0), deg(45.0));
    assert_eq!(calc.calculate_orb_difference(deg(23.0), deg(22.5)), deg(0.5));
    assert_eq!(calc.calculate_orb_difference(deg(100.0), 0), deg(-10.0));
    assert_eq!(orb_difference(deg(359.0), deg(1.0), deg(360.0)), deg(2.0));
    assert_eq!(orb_difference(deg(1.0), deg(359.0), deg(360.0)), deg(2.0));
    assert_eq!(orb_difference(i64::MIN, deg(90.0), deg(90.0)), i64::MIN);
    assert_eq!(DialRenderer::new().calculate_orb_difference_90(deg(88.0), deg(2.0)), deg(4.0));
    assert_eq!(DialRenderer360::new().calculate_orb_difference_360(deg(358.0), deg(2.0)), deg(4.0));
    assert_eq!(DialRenderer360::new().calculate_orb_difference_360(deg(100.0), deg(280.0)), deg(180.0));
}

#[test]
fn alignments_at_rest_go_item_by_item_and_point_by_point() {
    let calc = AstrologyCalculator::new();
    let midpoints = vec![
        midpoint_at(deg(22.0)),
        midpoint_at(deg(30.0)),
        midpoint_at(deg(89.5)),
        midpoint_at(deg(45.0)),
    ];
    let planets = vec![
        PlanetPosition::new(Planet::Mars, deg(67.0), 0, 0),
        PlanetPosition::new(Planet::Venus, deg(100.0), 0, 0),
        PlanetPosition::new(Planet::Saturn, deg(180.9), 0, 0),
    ];
    let found = calc.check_alignments(&planets, &midpoints, deg(1.0));
    assert_eq!(
        found,
        vec![
            AxisAlignment::new_midpoint(AxisPoint::TwentyTwoFive, midpoints[0], deg(0.5)),
            AxisAlignment::new_midpoint(AxisPoint::Zero, midpoints[2], deg(0.5)),
            AxisAlignment::new_midpoint(AxisPoint::FortyFive, midpoints[3], 0),
            AxisAlignment::new_planet(AxisPoint::SixtySevenFive, planets[0], deg(0.5)),
            AxisAlignment::new_planet(AxisPoint::Zero, planets[2], deg(0.9)),
        ]
    );
    assert!(calc.check_alignments(&[], &[], deg(1.0)).is_empty());
    assert_eq!(calc.check_alignments(&planets, &midpoints, 0).len(), 1);

    let wide = calc.check_alignments(&[], &midpoints[..1], deg(22.5));
    let axes: Vec<AxisPoint> = wide.iter().map(|a| a.axis).collect();
    assert_eq!(axes, vec![AxisPoint::Zero, AxisPoint::TwentyTwoFive]);
}

#[test]
fn a_position_at_the_orb_is_aligned_and_one_past_it_is_not() {
    let renderer = DialRenderer::new();
    let midpoints = vec![
        midpoint_at(deg(1.0)),
        midpoint_at(deg(1.0001)),
        midpoint_at(deg(89.0)),
        midpoint_at(deg(88.9999)),
        midpoint_at(deg(23.5)),
        midpoint_at(deg(21.5)),
        midpoint_at(deg(23.5001)),
        midpoint_at(deg(21.4999)),
    ];
    let live = renderer.calculate_live_alignments(&[], &midpoints, 0);
    assert_eq!(live.len(), 4);
    assert_eq!(live[0].aligned_midpoints, vec![(midpoints[0], deg(1.0)), (midpoints[2], deg(1.0))]);
    assert_eq!(live[1].aligned_midpoints, vec![(midpoints[4], deg(1.0)), (midpoints[5], deg(1.0))]);
    assert!(live[2].aligned_midpoints.is_empty());
    assert!(live[3].aligned_midpoints.is_empty());

    let exact = renderer.calculate_live_alignments_within(&[], &midpoints, 0, 0);
    assert!(exact.iter().all(|a| a.aligned_midpoints.is_empty()));
    let on_the_point = vec![midpoint_at(deg(45.0)), midpoint_at(45_000_001)];
    let exact = renderer.calculate_live_alignments_within(&[], &on_the_point, 0, 0);
    assert_eq!(exact[2].aligned_midpoints, vec![(on_the_point[0], 0)]);

    let full = DialRenderer360::new();
    let on_circle = vec![
        Midpoint { planet1: Planet::Sun, planet2: Planet::Moon, position: deg(91.0), dial_position: 0 },
        Midpoint { planet1: Planet::Sun, planet2: Planet::Moon, position: deg(91.0001), dial_position: 0 },
        Midpoint { planet1: Planet::Sun, planet2: Planet::Moon, position: deg(359.0), dial_position: 0 },
        Midpoint { planet1: Planet::Sun, planet2: Planet::Moon, position: deg(358.9999), dial_position: 0 },
    ];
    let live = full.calculate_360_alignments(&[], &on_circle, 0);
    assert_eq!(live[0].aligned_midpoints, vec![(on_circle[2], deg(1.0))]);
    assert_eq!(live[1].aligned_midpoints, vec![(on_circle[0], deg(1.0))]);
    assert!(live[2].aligned_midpoints.is_empty());
    assert!(live[3].aligned_midpoints.is_empty());
}

#[test]
fn live_alignments_follow_the_rotation() {
    let renderer = DialRenderer::new();
    let calc = AstrologyCalculator::new();
    let planets = calc.get_us_sibley_chart();
    let midpoints = calc.calculate_midpoints(&planets);

    let live = renderer.calculate_live_alignments(&planets, &midpoints, deg(5.0));
    assert_eq!(live.len(), 4);
    let described: Vec<(AxisPoint, i64, String, i64)> = live
        .iter()
        .map(|a| (a.axis_point, a.axis_canvas_angle, a.axis_label.clone(), a.target_dial_position))
        .collect();
    assert_eq!(
        described,
        vec![
            (AxisPoint::Zero, 0, "0°".to_string(), deg(5.0)),
            (AxisPoint::TwentyTwoFive, deg(270.0), "22.5°".to_string(), deg(27.5)),
            (AxisPoint::FortyFive, deg(180.0), "45°".to_string(), deg(50.0)),
            (AxisPoint::SixtySevenFive, deg(90.0), "67.5°".to_string(), deg(72.5)),
        ]
    );
    for alignment in &live {
        let target = alignment.target_dial_position;
        let expected_planets: Vec<(PlanetPosition, i64)> = planets
            .iter()
            .map(|p| {
                let diff = (p.longitude.rem_euclid(90_000_000) - target).abs();
                (*p, diff.min(90_000_000 - diff))
            })
            .filter(|(_, diff)| *diff <= 1_000_000)
            .collect();
        assert_eq!(alignment.aligned_planets, expected_planets);
        let expected_midpoints: Vec<(Midpoint, i64)> = midpoints
            .iter()
            .map(|m| {
                let diff = (m.dial_position - target).abs();
                (*m, diff.min(90_000_000 - diff))
            })
            .filter(|(_, diff)| *diff <= 1_000_000)
            .collect();
        assert_eq!(alignment.aligned_midpoints, expected_midpoints);
        assert_eq!(
            renderer.is_active(alignment),
            !expected_planets.is_empty() || !expected_midpoints.is_empty()
        );
    }
    assert_eq!(live[0].aligned_planets, vec![(planets[5], deg(0.56))]);
    assert_eq!(live[1].aligned_planets, vec![(planets[9], deg(0.17))]);
    assert_eq!(live[3].aligned_planets, vec![(planets[12], deg(0.29))]);

    assert_eq!(renderer.target_dial_position(AxisPoint::Zero, deg(8.0)), deg(8.0));
    assert_eq!(renderer.target_dial_position(AxisPoint::TwentyTwoFive, deg(8.0)), deg(30.5));
    assert_eq!(renderer.target_dial_position(AxisPoint::SixtySevenFive, deg(100.0)), deg(77.5));
    assert_eq!(renderer.target_dial_position(AxisPoint::SixtySevenFive, deg(30.0)), deg(7.5));
    assert_eq!(renderer.target_dial_position(AxisPoint::Zero, 359_999_999), 89_999_999);
    assert_eq!(renderer.target_dial_position(AxisPoint::Zero, deg(90.0)), 0);
    assert_eq!(renderer.target_dial_position(AxisPoint::Zero, deg(-4.0)), deg(86.0));
    assert_eq!(renderer.target_dial_position(AxisPoint::FortyFive, i64::MAX), 9_775_807);
    assert_eq!(renderer.canvas_rotation(0), 0);
    assert_eq!(renderer.canvas_rotation(deg(8.0)), deg(328.0));
    assert_eq!(renderer.canvas_rotation(deg(22.5)), deg(270.0));
    assert_eq!(renderer.canvas_rotation(deg(98.0)), deg(328.0));
    for axis in AxisPoint::all() {
        let painted = (renderer.canvas_angle(axis.degrees()) + renderer.canvas_rotation(deg(8.0)))
            % 360_000_000;
        assert_eq!(painted, renderer.canvas_angle(renderer.target_dial_position(axis, deg(8.0))));
    }
}

#[test]
fn live_alignments_of_the_full_dial() {
    let full = DialRenderer360::new();
    let calc = AstrologyCalculator::new();
    let planets = calc.get_us_sibley_chart();
    let midpoints = calc.calculate_midpoints(&planets);
    let live = full.calculate_360_alignments(&planets, &midpoints, deg(91.5));
    let described: Vec<(Cardinal360, i64, String, i64)> = live
        .iter()
        .map(|a| (a.cardinal, a.axis_angle, a.axis_label.clone(), a.target_position))
        .collect();
    assert_eq!(
        described,
        vec![
            (Cardinal360::Aries, 0, "0° (Aries)".to_string(), deg(91.5)),
            (Cardinal360::Cancer, deg(90.0), "90° (Cancer)".to_string(), deg(181.5)),
            (Cardinal360::Libra, deg(180.0), "180° (Libra)".to_string(), deg(271.5)),
            (Cardinal360::Capricorn, deg(270.0), "270° (Capricorn)".to_string(), deg(1.5)),
        ]
    );
    assert_eq!(live[1].aligned_planets, vec![(planets[13], deg(0.31))]);
    assert!(full.is_active(&live[1]));
    for alignment in &live {
        let target = alignment.target_position;
        let expected: Vec<(Midpoint, i64)> = midpoints
            .iter()
            .map(|m| {
                let diff = (m.position - target).abs();
                (*m, diff.min(360_000_000 - diff))
            })
            .filter(|(_, diff)| *diff <= 1_000_000)
            .collect();
        assert_eq!(alignment.aligned_midpoints, expected);
    }
    let empty = full.calculate_360_alignments_within(&[], &[], deg(-10.0), deg(5.0));
    assert_eq!(empty.len(), 4);
    assert_eq!(empty[0].target_position, deg(350.0));
    assert!(empty.iter().all(|a| a.aligned_midpoints.is_empty() && a.aligned_planets.is_empty()));
    assert!(!full.is_active(&empty[0]));
}

#[test]
fn an_empty_dial_has_four_empty_alignments() {
    let live = DialRenderer::new().calculate_live_alignments(&[], &[], deg(123.0));
    assert_eq!(live.len(), 4);
    assert!(live.iter().all(|a| a.aligned_midpoints.is_empty() && a.aligned_planets.is_empty()));
    assert!(collect_aligned_midpoints(&[], false, 0, deg(90.0)).is_empty());
    assert!(collect_aligned_planets(&[], true, 0, deg(360.0)).is_empty());
}

#[test]
fn the_face_of_the_quarter_dial() {
    let renderer = DialRenderer::new();
    assert_eq!(renderer.canvas_angle(0), 0);
    assert_eq!(renderer.canvas_angle(deg(22.5)), deg(270.0));
    assert_eq!(renderer.canvas_angle(deg(45.0)), deg(180.0));
    assert_eq!(renderer.canvas_angle(deg(90.0)), 0);
    assert_eq!(renderer.canvas_angle(1), 359_999_996);
    assert_eq!(renderer.tick_kind(0), TickKind::Major);
    assert_eq!(renderer.tick_kind(45), TickKind::Major);
    assert_eq!(renderer.tick_kind(5), TickKind::Medium);
    assert_eq!(renderer.tick_kind(10), TickKind::Medium);
    assert_eq!(renderer.tick_kind(7), TickKind::Minor);
    assert_eq!(renderer.find_planet_dial_position(&Planet::Sun), Some(deg(13.19)));
    assert_eq!(renderer.find_planet_dial_position(&Planet::Jupiter), Some(deg(5.56)));
    assert_eq!(renderer.find_planet_dial_position(&Planet::Saturn), None);
    assert_eq!(renderer.orb_color(0), "#ff6b6b");
    assert_eq!(renderer.orb_color(499_999), "#ff6b6b");
    assert_eq!(renderer.orb_color(500_000), "#ffd93d");
    assert_eq!(renderer.orb_color(999_999), "#ffd93d");
    assert_eq!(renderer.orb_color(1_000_000), "#2cb67d");

    let full = DialRenderer360::new();
    assert_eq!(full.tick_kind(0), TickKind::Major);
    assert_eq!(full.tick_kind(330), TickKind::Major);
    assert_eq!(full.tick_kind(10), TickKind::Medium);
    assert_eq!(full.tick_kind(15), TickKind::Minor);
    assert_eq!(full.find_planet_longitude(&Planet::Moon), Some(deg(327.1)));
    assert_eq!(full.find_planet_longitude(&Planet::Pluto), None);
}

#[test]
fn alignments_on_a_face_of_any_range() {
    let positions = vec![deg(1.0), deg(29.5), deg(15.0), deg(44.9), deg(0.0), deg(16.0001)];
    let axis = vec![0, deg(11.25), deg(22.5), deg(33.75)];
    let found = detect_alignments(&positions, &axis, deg(4.75), deg(45.0), deg(1.0));
    assert_eq!(found.len(), 4);
    assert_eq!(found[0], vec![]);
    assert_eq!(found[1], vec![(2, deg(1.0)), (5, 100)]);
    assert_eq!(found[2], vec![]);
    assert_eq!(found[3], vec![]);

    let found = detect_alignments(&positions, &axis, deg(-0.5), deg(45.0), deg(1.0));
    assert_eq!(found[0], vec![(3, deg(0.4)), (4, deg(0.5))]);
    assert_eq!(found[1], vec![]);

    let exact = detect_alignments(&positions, &axis, deg(15.0), deg(45.0), 0);
    assert_eq!(exact[0], vec![(2, 0)]);
    assert!(exact[1..].iter().all(|hits| hits.is_empty()));

    assert_eq!(detect_alignments(&[], &axis, 0, deg(45.0), deg(1.0)), vec![vec![]; 4]);
    assert!(detect_alignments(&positions, &[], 0, deg(45.0), deg(1.0)).is_empty());

    assert_eq!(target_of_axis(deg(67.5), deg(30.0), deg(90.0)), deg(7.5));
    assert_eq!(target_of_axis(0, deg(-1.0), deg(90.0)), deg(89.0));
    assert_eq!(target_of_axis(deg(270.0), deg(100.0), deg(360.0)), deg(10.0));
    assert_eq!(target_of_axis(i64::MIN, i64::MIN, 7), ((2 * (i64::MIN as i128)).rem_euclid(7)) as i64);
    assert_eq!(target_of_axis(i64::MAX, i64::MAX, i64::MAX), 0);

    let calc = AstrologyCalculator::new();
    let planets = calc.get_us_sibley_chart();
    let reduced: Vec<i64> = planets.iter().map(|p| p.dial_position()).collect();
    let quarter_points: Vec<i64> = AxisPoint::all().iter().map(|a| a.degrees()).collect();
    let general = detect_alignments(&reduced, &quarter_points, deg(5.0), deg(90.0), deg(1.0));
    let live = DialRenderer::new().calculate_live_alignments(&planets, &[], deg(5.0));
    for (hits, alignment) in general.iter().zip(live.iter()) {
        let named: Vec<(PlanetPosition, i64)> = hits.iter().map(|(at, orb)| (planets[*at], *orb)).collect();
        assert_eq!(named, alignment.aligned_planets);
    }
}

#[test]
fn a_midpoint_at_the_rotation_stands_on_the_first_axis_point() {
    let renderer = DialRenderer::new();
    let midpoints = vec![midpoint_at(deg(8.0))];
    let live = renderer.calculate_live_alignments(&[], &midpoints, deg(8.0));
    assert_eq!(live[0].axis_point, AxisPoint::Zero);
    assert_eq!(live[0].target_dial_position, deg(8.0));
    assert_eq!(live[0].aligned_midpoints, vec![(midpoints[0], 0)]);
    assert!(live[1..].iter().all(|a| a.aligned_midpoints.is_empty()));

    let turned_back = renderer.calculate_live_alignments(&[], &midpoints, deg(8.0 - 22.5));
    assert_eq!(turned_back[0].target_dial_position, deg(75.5));
    assert_eq!(turned_back[1].target_dial_position, deg(8.0));
    assert_eq!(turned_back[1].aligned_midpoints, vec![(midpoints[0], 0)]);
    assert!(turned_back[0].aligned_midpoints.is_empty());

    let a_face_further = renderer.calculate_live_alignments(&[], &midpoints, deg(98.0));
    assert_eq!(a_face_further[0].target_dial_position, deg(8.0));
    assert_eq!(a_face_further[0].aligned_midpoints, vec![(midpoints[0], 0)]);
}

#[test]
fn alignments_of_a_turned_dial() {
    let calc = AstrologyCalculator::new();
    let midpoints = vec![midpoint_at(deg(8.0)), midpoint_at(deg(30.0)), midpoint_at(deg(53.9))];
    let planets = vec![
        PlanetPosition::new(Planet::Mars, deg(75.0), 0, 0),
        PlanetPosition::new(Planet::Venus, deg(98.5), 0, 0),
    ];
    let found = calc.check_alignments_at(&planets, &midpoints, deg(8.0), deg(1.0));
    assert_eq!(
        found,
        vec![
            AxisAlignment::new_midpoint(AxisPoint::Zero, midpoints[0], 0),
            AxisAlignment::new_midpoint(AxisPoint::TwentyTwoFive, midpoints[1], deg(0.5)),
            AxisAlignment::new_midpoint(AxisPoint::FortyFive, midpoints[2], deg(0.9)),
            AxisAlignment::new_planet(AxisPoint::SixtySevenFive, planets[0], deg(0.5)),
            AxisAlignment::new_planet(AxisPoint::Zero, planets[1], deg(0.5)),
        ]
    );
    assert_eq!(
        calc.check_alignments_at(&planets, &midpoints, 0, deg(1.0)),
        calc.check_alignments(&planets, &midpoints, deg(1.0))
    );
    assert!(calc.check_alignments(&planets, &midpoints, deg(1.0)).is_empty());
    assert_eq!(
        calc.check_alignments_at(&planets, &midpoints, deg(98.0), deg(1.0)),
        calc.check_alignments_at(&planets, &midpoints, deg(8.0), deg(1.0))
    );
    let live = DialRenderer::new().calculate_live_alignments(&planets, &midpoints, deg(8.0));
    let on_axis: usize = live.iter().map(|a| a.aligned_midpoints.len() + a.aligned_planets.len()).sum();
    assert_eq!(on_axis, found.len());
}

#[test]
fn a_longitude_is_reduced_before_it_is_measured() {
    let full = DialRenderer360::new();
    let beyond = PlanetPosition::new(Planet::Sun, deg(400.0), 0, 0);
    let a_turn_on = PlanetPosition::new(Planet::Moon, deg(370.0), 0, 0);
    let before_zero = PlanetPosition::new(Planet::Mars, deg(-350.5), 0, 0);
    let planets = vec![beyond, a_turn_on, before_zero];
    let live = full.calculate_360_alignments(&planets, &[], deg(10.0));
    assert_eq!(live[0].target_position, deg(10.0));
    assert_eq!(live[0].aligned_planets, vec![(a_turn_on, 0), (before_zero, deg(0.5))]);
    assert!(live[1..].iter().all(|a| a.aligned_planets.is_empty()));
    let wide = full.calculate_360_alignments_within(&planets, &[], deg(10.0), deg(30.0));
    assert_eq!(
        wide[0].aligned_planets,
        vec![(beyond, deg(30.0)), (a_turn_on, 0), (before_zero, deg(0.5))]
    );

    let midpoints = vec![
        Midpoint { planet1: Planet::Sun, planet2: Planet::Moon, position: deg(460.0), dial_position: deg(100.0) },
        Midpoint { planet1: Planet::Sun, planet2: Planet::Mars, position: deg(-260.0), dial_position: deg(-80.0) },
    ];
    let live = full.calculate_360_alignments(&[], &midpoints, deg(10.0));
    assert_eq!(live[1].target_position, deg(100.0));
    assert_eq!(live[1].aligned_midpoints, vec![(midpoints[0], 0), (midpoints[1], 0)]);

    let quarter = DialRenderer::new().calculate_live_alignments(&planets, &midpoints, deg(10.0));
    assert_eq!(quarter[0].target_dial_position, deg(10.0));
    assert_eq!(quarter[0].aligned_midpoints, vec![(midpoints[0], 0), (midpoints[1], 0)]);
    assert_eq!(quarter[0].aligned_planets, vec![(a_turn_on, 0), (before_zero, deg(0.5))]);
    let turned = AstrologyCalculator::new().check_alignments_at(&planets, &midpoints, deg(10.0), deg(1.0));
    assert_eq!(turned.len(), 4);
    assert!(turned.iter().all(|a| a.axis == AxisPoint::Zero && 0 <= a.orb && a.orb <= deg(0.5)));

    let reduced = detect_alignments(&[deg(400.0), deg(370.0), deg(-350.5)], &[0], deg(10.0), deg(360.0), deg(1.0));
    assert_eq!(reduced, vec![vec![(1, 0), (2, deg(0.5))]]);
}
