use rust_astrology::astrology::models::zodiac::ZodiacSign;
use rust_astrology::utils::angle::{angle_difference, normalize_degrees, Angle};
use rust_astrology::utils::math;

/// Degrees as the library counts them: millionths.
fn deg(degrees: f64) -> i64 {
    (degrees * 1_000_000.0).round() as i64
}

/// Whether a count of millionths is the given number of degrees.
fn is_about(micro: i64, degrees: f64) -> bool {
    (micro as f64 / 1_000_000.0 - degrees).abs() < 0.0001
}

#[test]
fn test_angle_creation() {
    let angle = Angle::from_degrees(deg(45.0));
    assert!(is_about(angle.degrees(), 45.0));

    let angle = Angle::from_degrees(deg(std::f64::consts::PI.to_degrees()));
    assert!(is_about(angle.degrees(), 180.0));
}

#[test]
fn test_angle_normalization() {
    let angle = Angle::from_degrees(deg(370.0));
    assert!(is_about(angle.degrees(), 10.0));

    let angle = Angle::from_degrees(deg(-10.0));
    assert!(is_about(angle.degrees(), 350.0));
}

#[test]
fn test_angle_distance() {
    let a = Angle::from_degrees(deg(10.0));
    let b = Angle::from_degrees(deg(20.0));
    assert!(is_about(a.distance_to(b).degrees(), 10.0));

    let a = Angle::from_degrees(deg(350.0));
    let b = Angle::from_degrees(deg(10.0));
    assert!(is_about(a.distance_to(b).degrees(), 20.0));
}

#[test]
fn test_angle_harmonic() {
    let angle = Angle::from_degrees(deg(30.0));
    assert!(is_about(angle.harmonic(2).degrees(), 60.0));
    assert!(is_about(angle.harmonic(4).degrees(), 120.0));

    let angle = Angle::from_degrees(deg(100.0));
    assert!(is_about(angle.harmonic(3).degrees(), 300.0));
}

#[test]
fn test_angle_midpoint() {
    let a = Angle::from_degrees(deg(10.0));
    let b = Angle::from_degrees(deg(30.0));
    assert!(is_about(a.midpoint(b).degrees(), 20.0));

    let a = Angle::from_degrees(deg(350.0));
    let b = Angle::from_degrees(deg(10.0));
    assert!(is_about(a.midpoint(b).degrees(), 0.0));
}

#[test]
fn test_angle_zodiac() {
    let angle = Angle::from_degrees(deg(0.0));
    let (sign, _) = angle.zodiac_sign();
    assert_eq!(sign, ZodiacSign::Aries);

    let angle = Angle::from_degrees(deg(30.0));
    let (sign, _) = angle.zodiac_sign();
    assert_eq!(sign, ZodiacSign::Taurus);

    let angle = Angle::from_degrees(deg(359.9));
    let (sign, _) = angle.zodiac_sign();
    assert_eq!(sign, ZodiacSign::Pisces);
}

#[test]
fn normalization_always_lands_in_the_circle() {
    for raw in [
        i64::MIN,
        -720_000_001,
        -360_000_000,
        -1,
        0,
        1,
        359_999_999,
        360_000_000,
        360_000_001,
        i64::MAX,
    ] {
        let angle = Angle::from_degrees(raw);
        assert!(0 <= angle.degrees() && angle.degrees() < 360_000_000, "{}", raw);
        assert_eq!(angle.degrees(), raw.rem_euclid(360_000_000));
        assert_eq!(normalize_degrees(raw), raw.rem_euclid(360_000_000));
        assert_eq!(math::normalize_degrees(raw), raw.rem_euclid(360_000_000));
    }
}

#[test]
fn distance_is_symmetric_and_at_most_half_a_turn() {
    let samples = [0, 1, 10_000_000, 179_999_999, 180_000_000, 180_000_001, 350_000_000, 359_999_999];
    for a in samples {
        for b in samples {
            let x = Angle::from_degrees(a);
            let y = Angle::from_degrees(b);
            let there = x.distance_to(y).degrees();
            let back = y.distance_to(x).degrees();
            assert_eq!(there, back);
            assert!(0 <= there && there <= 180_000_000);
            assert_eq!(math::angle_distance(a, b), there);
        }
    }
    assert_eq!(Angle::from_degrees(0).distance_to(Angle::from_degrees(180_000_000)).degrees(), 180_000_000);
}

#[test]
fn within_orb_measures_the_shorter_arc() {
    let a = Angle::from_degrees(deg(359.5));
    let b = Angle::from_degrees(deg(0.5));
    assert!(a.within_orb(b, deg(1.0)));
    assert!(!a.within_orb(b, deg(0.999999)));
    assert!(a.within_orb(a, 0));
}

#[test]
fn opposite_lies_half_a_turn_away() {
    assert_eq!(Angle::from_degrees(deg(10.0)).opposite().degrees(), deg(190.0));
    assert_eq!(Angle::from_degrees(deg(270.0)).opposite().degrees(), deg(90.0));
}

#[test]
fn midpoint_rounds_down_to_the_unit() {
    let a = Angle::from_degrees(1);
    let b = Angle::from_degrees(2);
    assert_eq!(a.midpoint(b).degrees(), 1);
    let a = Angle::from_degrees(359_999_999);
    let b = Angle::from_degrees(0);
    assert_eq!(a.midpoint(b).degrees(), 359_999_999);
    let a = Angle::from_degrees(deg(0.0));
    let b = Angle::from_degrees(deg(180.0));
    assert_eq!(a.midpoint(b).degrees(), deg(90.0));
}

#[test]
fn operators_wrap_their_results() {
    let a = Angle::from_degrees(deg(350.0));
    let b = Angle::from_degrees(deg(20.0));
    assert_eq!((a + b).degrees(), deg(10.0));
    assert_eq!((b - a).degrees(), deg(30.0));
    assert_eq!((b * 1_500_000).degrees(), deg(30.0));
    assert_eq!((a * 2_000_000).degrees(), deg(340.0));
    assert_eq!((b / 2_000_000).degrees(), deg(10.0));
    assert_eq!((b * -1_000_000).degrees(), deg(340.0));
    assert_eq!((b / -2_000_000).degrees(), deg(350.0));

    let mut c = a;
    c.add_assign(b);
    assert_eq!(c.degrees(), deg(10.0));
    c.sub_assign(b);
    assert_eq!(c.degrees(), deg(350.0));
    c.mul_assign(500_000);
    assert_eq!(c.degrees(), deg(175.0));
    c.div_assign(500_000);
    assert_eq!(c.degrees(), deg(350.0));
    assert_eq!(a.plus(b), a + b);
    assert_eq!(a.minus(b), a - b);
}

#[test]
fn degrees_minutes_seconds() {
    let angle = Angle::from_degrees(15_462_000);
    assert_eq!(angle.to_dms(), (15, 27, 43_200_000));
    assert_eq!(angle.to_dms_string(), "15°27'43.2\" Aries");
    assert_eq!(Angle::from_degrees(deg(45.0)).to_dms_string(), "45°00'00.0\" Taurus");
    assert_eq!(Angle::from_degrees(359_999_999).to_dms(), (359, 59, 59_996_400));
    assert_eq!(Angle::from_degrees(359_999_999).to_dms_string(), "359°59'60.0\" Pisces");
    assert_eq!(Angle::from_degrees(deg(100.0) + 16_667).to_dms_string(), "100°01'00.0\" Cancer");
}

#[test]
fn signed_difference_takes_the_shorter_side() {
    assert_eq!(angle_difference(deg(350.0), deg(10.0)), deg(20.0));
    assert_eq!(angle_difference(deg(10.0), deg(350.0)), deg(-20.0));
    assert_eq!(angle_difference(deg(0.0), deg(180.0)), deg(180.0));
    assert_eq!(angle_difference(deg(180.0), deg(0.0)), deg(-180.0));
    assert_eq!(angle_difference(deg(0.0), deg(540.0)), deg(180.0));
    assert_eq!(angle_difference(i64::MIN, i64::MAX), 109_551_615);
}

#[test]
fn arcs_that_cross_zero() {
    assert!(math::is_angle_between(deg(5.0), deg(350.0), deg(10.0)));
    assert!(math::is_angle_between(deg(355.0), deg(350.0), deg(10.0)));
    assert!(!math::is_angle_between(deg(180.0), deg(350.0), deg(10.0)));
    assert!(math::is_angle_between(deg(15.0), deg(10.0), deg(20.0)));
    assert!(!math::is_angle_between(deg(25.0), deg(10.0), deg(20.0)));
    assert!(math::is_angle_between(deg(10.0), deg(10.0), deg(20.0)));
}
