use moon_calc::angle::adjust0to360;
use moon_calc::angle::adjust180abs;
use moon_calc::angle::deg2rad;
use moon_calc::angle::rad2deg;

#[test]
fn adjust0to360_lands_in_range_and_is_idempotent() {
    let samples: [i64; 8] = [
        0,
        359_999_999,
        360_000_000,
        -1,
        -90_000_000,
        123_456_789_012,
        -98_765_432_101,
        5_000_000_000_000,
    ];
    for &x in samples.iter() {
        let r = adjust0to360(x);
        assert!(0 <= r && r < 360_000_000);
        assert_eq!(adjust0to360(r), r);
    }
}

#[test]
fn adjust0to360_exact_values() {
    assert_eq!(adjust0to360(0), 0);
    assert_eq!(adjust0to360(-90_000_000), 270_000_000);
    assert_eq!(adjust0to360(360_000_000), 0);
    assert_eq!(adjust0to360(725_000_000), 5_000_000);
    assert_eq!(adjust0to360(-725_000_000), 355_000_000);
}

#[test]
fn adjust180abs_lands_in_range_and_is_idempotent() {
    let samples: [i64; 8] = [
        0,
        180_000_000,
        -180_000_000,
        180_000_001,
        -180_000_001,
        1_234_567_890_123,
        -987_654_321_987,
        359_999_999,
    ];
    for &x in samples.iter() {
        let r = adjust180abs(x);
        assert!(-180_000_000 <= r && r <= 180_000_000);
        assert_eq!(adjust180abs(r), r);
    }
}

#[test]
fn adjust180abs_exact_values() {
    assert_eq!(adjust180abs(190_000_000), -170_000_000);
    assert_eq!(adjust180abs(-190_000_000), 170_000_000);
    assert_eq!(adjust180abs(180_000_000), 180_000_000);
    assert_eq!(adjust180abs(-180_000_000), -180_000_000);
    assert_eq!(adjust180abs(540_000_000), 180_000_000);
}

#[test]
fn degree_radian_conversions_round_trip() {
    let r = deg2rad(180_000_000);
    assert!((r - 3_141_592_653).abs() <= 2, "pi nano-radians, got {r}");
    let d = rad2deg(3_141_592_653);
    assert!((d - 180_000_000).abs() <= 2, "half turn, got {d}");
    assert_eq!(deg2rad(0), 0);
    assert_eq!(rad2deg(0), 0);
}
