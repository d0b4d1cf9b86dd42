use moon_calc::CivilDate;
use moon_calc::GeoPosition;
use moon_calc::MoonCalcMode;
use moon_calc::MoonError;
use moon_calc::MyMoonApi;
use moon_calc::Settings;
use moon_calc::solver::get_moon_age;
use moon_calc::solver::get_moon_rise_set;

fn tokyo() -> GeoPosition {
    GeoPosition { longitude: 139_744_700, latitude: 35_654_400 }
}

fn date(year: i64, month: i64, day: i64) -> CivilDate {
    CivilDate { year, month, day }
}

#[test]
fn tokyo_moonrise_reference_case() {
    let s = Settings::default();
    let d = get_moon_rise_set(&date(1999, 11, 14), &tokyo(), MoonCalcMode::Rising, &s)
        .expect("the search must converge");
    assert!(0 < d && d < 1_000_000_000, "rise day-fraction {d} outside the day");
    assert!((d - 459_935_533).abs() <= 5_000_000, "rise day-fraction, got {d}");
}

#[test]
fn tokyo_moonset_reference_case() {
    let s = Settings::default();
    let d = get_moon_rise_set(&date(1999, 11, 14), &tokyo(), MoonCalcMode::Setting, &s)
        .expect("the search must converge");
    assert!((d - 888_426_832).abs() <= 5_000_000, "set day-fraction, got {d}");
}

#[test]
fn age_right_after_a_new_moon_is_small() {
    // The new Moon of 2000-01-06 18:14 UTC falls on 2000-01-07 in the
    // UTC+9 civil day; by local noon the Moon is well under a day old.
    let s = Settings::default();
    let age = get_moon_age(&date(2000, 1, 7), &s).expect("the search must converge");
    assert!(age < 1_000_000_000, "age {age} not under one day");
    assert!((age - 365_124_359).abs() <= 10_000_000, "age, got {age}");
}

#[test]
fn age_reference_case() {
    let s = Settings::default();
    let age = get_moon_age(&date(1999, 11, 14), &s).expect("the search must converge");
    assert!((age - 5_963_101_360).abs() <= 10_000_000, "age, got {age}");
}

#[test]
fn age_stays_in_the_synodic_window() {
    let s = Settings::default();
    for (y, m, d) in [
        (1999i64, 11i64, 14i64),
        (2000, 1, 6),
        (2000, 1, 7),
        (2004, 2, 29),
        (2018, 7, 1),
        (1970, 6, 15),
        (2100, 3, 31),
    ] {
        match get_moon_age(&date(y, m, d), &s) {
            Ok(age) => assert!(
                0 <= age && age < 29_600_000_000,
                "age {age} out of range for {y}-{m}-{d}"
            ),
            Err(e) => assert_eq!(e, MoonError::NonConvergence),
        }
    }
}

#[test]
fn circumpolar_latitudes_report_the_condition() {
    let s = Settings::default();
    let high = GeoPosition { longitude: 0, latitude: 89_000_000 };
    let r = get_moon_rise_set(&date(1999, 11, 14), &high, MoonCalcMode::Rising, &s);
    assert_eq!(r, Err(MoonError::AlwaysBelow));
    let low = GeoPosition { longitude: 0, latitude: -89_000_000 };
    let r = get_moon_rise_set(&date(1999, 11, 14), &low, MoonCalcMode::Rising, &s);
    assert_eq!(r, Err(MoonError::AlwaysAbove));
    let pole = GeoPosition { longitude: 0, latitude: 90_000_000 };
    let r = get_moon_rise_set(&date(1999, 11, 14), &pole, MoonCalcMode::Rising, &s);
    assert!(
        matches!(r, Err(MoonError::AlwaysAbove) | Err(MoonError::AlwaysBelow)),
        "pole must be circumpolar, got {r:?}"
    );
}

#[test]
fn moon_info_bundles_the_three_numbers() {
    let api = MyMoonApi::default();
    let info = api
        .moon_info(&date(1999, 11, 14), &tokyo())
        .expect("all three searches must converge");
    let s = Settings::default();
    assert_eq!(Ok(info.moon_age), get_moon_age(&date(1999, 11, 14), &s));
    assert_eq!(
        Ok(info.moon_rise),
        get_moon_rise_set(&date(1999, 11, 14), &tokyo(), MoonCalcMode::Rising, &s)
    );
    assert_eq!(
        Ok(info.moon_set),
        get_moon_rise_set(&date(1999, 11, 14), &tokyo(), MoonCalcMode::Setting, &s)
    );
}

#[test]
fn moon_info_is_circumpolar_at_high_latitude() {
    let api = MyMoonApi::default();
    let polar = GeoPosition { longitude: 0, latitude: 89_000_000 };
    let r = api.moon_info(&date(1999, 11, 14), &polar);
    assert_eq!(r, Err(MoonError::AlwaysBelow));
}

#[test]
fn computations_are_deterministic() {
    let api = MyMoonApi::default();
    let a = api.moon_info(&date(1999, 11, 14), &tokyo());
    let b = api.moon_info(&date(1999, 11, 14), &tokyo());
    assert_eq!(a, b);
}

#[test]
fn validity_checks_guard_the_inputs() {
    assert!(tokyo().check_valid());
    assert!(!GeoPosition { longitude: 181_000_000, latitude: 0 }.check_valid());
    assert!(!GeoPosition { longitude: 0, latitude: 90_000_001 }.check_valid());
    assert!(date(1999, 11, 14).check_valid());
}
