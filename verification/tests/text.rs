use rust_astrology::utils::fixed::{clamp, scale, MICRO};
use rust_astrology::utils::pairs::index_pairs;
use rust_astrology::utils::text::{
    push_decimal, push_int, push_padded, push_padded_tenths, push_tenths,
};

fn written(write: impl Fn(&mut String)) -> String {
    let mut out = String::from(">");
    write(&mut out);
    out
}

#[test]
fn integers_as_decimal_text() {
    assert_eq!(written(|out| push_decimal(out, 0)), ">0");
    assert_eq!(written(|out| push_decimal(out, 9)), ">9");
    assert_eq!(written(|out| push_decimal(out, 10)), ">10");
    assert_eq!(written(|out| push_decimal(out, 1_203_405)), ">1203405");
    assert_eq!(written(|out| push_decimal(out, u64::MAX)), format!(">{}", u64::MAX));
    assert_eq!(written(|out| push_int(out, 0)), ">0");
    assert_eq!(written(|out| push_int(out, -7)), ">-7");
    assert_eq!(written(|out| push_int(out, i64::MAX)), format!(">{}", i64::MAX));
    assert_eq!(written(|out| push_int(out, i64::MIN)), format!(">{}", i64::MIN));
    for n in [-100i64, -10, -9, -1, 0, 1, 5, 9, 10, 11, 99, 100, 255] {
        assert_eq!(written(|out| push_padded(out, n)), format!(">{:02}", n));
        assert_eq!(written(|out| push_int(out, n)), format!(">{}", n));
    }
}

#[test]
fn fixed_point_values_with_one_decimal() {
    assert_eq!(written(|out| push_tenths(out, 0)), ">0.0");
    assert_eq!(written(|out| push_tenths(out, 49_999)), ">0.0");
    assert_eq!(written(|out| push_tenths(out, 50_000)), ">0.1");
    assert_eq!(written(|out| push_tenths(out, 1_000_000)), ">1.0");
    assert_eq!(written(|out| push_tenths(out, 43_200_000)), ">43.2");
    assert_eq!(written(|out| push_tenths(out, 59_950_000)), ">60.0");
    assert_eq!(written(|out| push_tenths(out, -1_250_000)), ">-1.3");
    assert_eq!(written(|out| push_tenths(out, -49_999)), ">-0.0");
    assert_eq!(written(|out| push_tenths(out, i64::MAX)), ">9223372036854.8");
    assert_eq!(written(|out| push_tenths(out, i64::MIN)), ">-9223372036854.8");
    assert_eq!(written(|out| push_padded_tenths(out, 0)), ">00.0");
    assert_eq!(written(|out| push_padded_tenths(out, 3_250_000)), ">03.3");
    assert_eq!(written(|out| push_padded_tenths(out, 9_949_999)), ">09.9");
    assert_eq!(written(|out| push_padded_tenths(out, 9_950_000)), ">10.0");
    assert_eq!(written(|out| push_padded_tenths(out, 43_200_000)), ">43.2");
    assert_eq!(written(|out| push_padded_tenths(out, -3_000_000)), ">-3.0");
}

#[test]
fn scaling_rounds_toward_zero() {
    assert_eq!(MICRO, 1_000_000);
    assert_eq!(scale(1_000_000, 1_500_000), 1_500_000);
    assert_eq!(scale(1_500_000, 500_000), 750_000);
    assert_eq!(scale(3, 500_000), 1);
    assert_eq!(scale(-3, 500_000), -1);
    assert_eq!(scale(3, -500_000), -1);
    assert_eq!(scale(-3, -500_000), 1);
    assert_eq!(scale(i64::MAX, i64::MAX), (i64::MAX as i128 * i64::MAX as i128) / 1_000_000);
    assert_eq!(scale(i64::MIN, i64::MIN), (i64::MIN as i128 * i64::MIN as i128) / 1_000_000);
    assert_eq!(clamp(5, 0, 10), 5);
    assert_eq!(clamp(-5, 0, 10), 0);
    assert_eq!(clamp(15, 0, 10), 10);
    assert_eq!(clamp(i128::MAX, i64::MIN, i64::MAX), i64::MAX);
    assert_eq!(clamp(i128::MIN, i64::MIN, i64::MAX), i64::MIN);
    assert_eq!(clamp(5, 10, 0), 0);
}

#[test]
fn pairs_come_in_ascending_order() {
    assert!(index_pairs(0).is_empty());
    assert!(index_pairs(1).is_empty());
    assert_eq!(index_pairs(2), vec![(0, 1)]);
    assert_eq!(index_pairs(4), vec![(0, 1), (0, 2), (0, 3), (1, 2), (1, 3), (2, 3)]);
    for n in 0..40usize {
        let pairs = index_pairs(n);
        assert_eq!(pairs.len(), n * n.saturating_sub(1) / 2);
        assert!(pairs.iter().all(|(i, j)| i < j && *j < n));
        assert!(pairs.windows(2).all(|w| w[0] < w[1]));
    }
}
