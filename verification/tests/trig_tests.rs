use moon_calc::trig::acos;
use moon_calc::trig::atan_div;
use moon_calc::trig::cos;
use moon_calc::trig::isqrt;
use moon_calc::trig::sin;

#[test]
fn isqrt_exact_edges() {
    assert_eq!(isqrt(0), 0);
    assert_eq!(isqrt(1), 1);
    assert_eq!(isqrt(2), 1);
    assert_eq!(isqrt(3), 1);
    assert_eq!(isqrt(4), 2);
    assert_eq!(isqrt(999_999_999_999_999_999), 999_999_999);
    assert_eq!(isqrt(1_000_000_000_000_000_000), 1_000_000_000);
    assert_eq!(isqrt(u128::MAX), 0xffff_ffff_ffff_ffff);
}

#[test]
fn sine_matches_known_values() {
    assert_eq!(sin(0), 0);
    let s30 = sin(30_000_000);
    assert!((s30 - 500_000_000).abs() <= 1_000, "sin 30 deg, got {s30}");
    let s90 = sin(90_000_000);
    assert!(999_999_000 <= s90 && s90 <= 1_000_000_000, "sin 90 deg, got {s90}");
    let s150 = sin(150_000_000);
    assert!((s150 - 500_000_000).abs() <= 1_000, "sin 150 deg, got {s150}");
    let s270 = sin(270_000_000);
    assert!((-1_000_000_000..=-999_999_000).contains(&s270), "sin 270 deg, got {s270}");
}

#[test]
fn sine_is_odd_by_symmetry() {
    for &x in [1_000_000i64, 30_000_000, 89_000_000, 145_000_000].iter() {
        assert_eq!(sin(-x), -sin(x));
    }
}

#[test]
fn cosine_matches_known_values() {
    assert_eq!(cos(90_000_000), 0);
    let c0 = cos(0);
    assert!(999_999_000 <= c0 && c0 <= 1_000_000_000, "cos 0, got {c0}");
    let c60 = cos(60_000_000);
    assert!((c60 - 500_000_000).abs() <= 1_000, "cos 60 deg, got {c60}");
}

#[test]
fn arctangent_known_values() {
    assert_eq!(atan_div(0, 5), 0);
    assert_eq!(atan_div(1, 0), 90_000_000);
    assert_eq!(atan_div(-1, 0), -90_000_000);
    assert_eq!(atan_div(0, 0), 0);
    let a45 = atan_div(1_000_000_000, 1_000_000_000);
    assert!((a45 - 45_000_000).abs() <= 1_000, "atan 1, got {a45}");
    let a = atan_div(577_350_269, 1_000_000_000);
    assert!((a - 30_000_000).abs() <= 1_000, "atan tan30, got {a}");
    let neg = atan_div(-577_350_269, 1_000_000_000);
    assert!((neg + 30_000_000).abs() <= 1_000, "atan of negative ratio, got {neg}");
}

#[test]
fn arccosine_known_values() {
    assert_eq!(acos(0), 90_000_000);
    assert_eq!(acos(1_000_000_000), 0);
    assert_eq!(acos(-1_000_000_000), 180_000_000);
    let a60 = acos(500_000_000);
    assert!((a60 - 60_000_000).abs() <= 2_000, "acos 0.5, got {a60}");
    let a120 = acos(-500_000_000);
    assert!((a120 - 120_000_000).abs() <= 2_000, "acos -0.5, got {a120}");
}

#[test]
fn trig_is_deterministic() {
    assert_eq!(sin(123_456_789), sin(123_456_789));
    assert_eq!(acos(987_654_321), acos(987_654_321));
}
