use moon_calc::coord::ecliptic2equatorial;
use moon_calc::coord::ecliptic_tilt_angle;
use moon_calc::coord::get_sidereal_time;
use moon_calc::epoch::CivilDate;
use moon_calc::epoch::Settings;
use moon_calc::epoch::j2000day;
use moon_calc::series::Ecliptic;
use moon_calc::series::get_moon_ecliptic;
use moon_calc::series::get_moon_latitude;
use moon_calc::series::get_moon_longitude;
use moon_calc::series::get_moon_parallax;
use moon_calc::series::get_sun_longitude;

fn reference_epoch() -> i64 {
    // Local midnight of 1999-11-14 at UTC+9.
    let s = Settings::default();
    j2000day(&CivilDate { year: 1999, month: 11, day: 14 }.and_hms(0, 0, 0), &s)
}

#[test]
fn series_match_the_reference_instant() {
    let e = reference_epoch();
    let lm = get_moon_longitude(e);
    assert!((lm - 290_183_332).abs() <= 5_000, "moon longitude, got {lm}");
    let bm = get_moon_latitude(e);
    assert!((bm - 1_442_995).abs() <= 5_000, "moon latitude, got {bm}");
    let ls = get_sun_longitude(e);
    assert!((ls - 230_782_016).abs() <= 5_000, "sun longitude, got {ls}");
    let p = get_moon_parallax(e);
    assert!((p - 905_763).abs() <= 2_000, "parallax, got {p}");
    let t = ecliptic_tilt_angle(e);
    assert!((t - 23_439_308).abs() <= 10, "obliquity, got {t}");
}

#[test]
fn sidereal_time_matches_the_reference_instant() {
    let e = reference_epoch();
    let s = Settings::default();
    let sid = get_sidereal_time(e, &s);
    assert!((sid + 82_712_183).abs() <= 200, "sidereal, got {sid}");
}

#[test]
fn series_outputs_stay_normalized() {
    let epochs: [i64; 6] = [
        -400_000_000_000_000,
        -48_000_000_000,
        0,
        1_000_000_000,
        36_525_000_000_000,
        400_000_000_000_000,
    ];
    for &e in epochs.iter() {
        for v in [
            get_moon_longitude(e),
            get_moon_latitude(e),
            get_sun_longitude(e),
            get_moon_parallax(e),
            ecliptic_tilt_angle(e),
        ] {
            assert!(0 <= v && v < 360_000_000, "series output {v} out of range at {e}");
        }
    }
}

#[test]
fn equatorial_conversion_matches_the_reference_instant() {
    let e = reference_epoch();
    let ecl = get_moon_ecliptic(e);
    let tilt = ecliptic_tilt_angle(e);
    let eq = ecliptic2equatorial(ecl, tilt);
    assert!((eq.longitude - 291_606_110).abs() <= 8_000, "right ascension, got {}", eq.longitude);
    assert!((eq.latitude + 20_495_177).abs() <= 8_000, "declination, got {}", eq.latitude);
}

#[test]
fn declination_always_within_ninety_degrees() {
    for lam in [0i64, 45_000_000, 137_000_000, 213_000_000, 359_000_000] {
        for bet in [0i64, 5_000_000, 90_000_000, 185_000_000, 354_000_000] {
            let eq = ecliptic2equatorial(
                Ecliptic { longitude: lam, latitude: bet },
                23_439_291,
            );
            assert!(
                -90_000_000 <= eq.latitude && eq.latitude <= 90_000_000,
                "declination {} out of range",
                eq.latitude
            );
            assert!(0 <= eq.longitude && eq.longitude < 360_000_000);
        }
    }
}

#[test]
fn series_are_deterministic() {
    let e = reference_epoch();
    assert_eq!(get_moon_longitude(e), get_moon_longitude(e));
    assert_eq!(get_moon_latitude(e), get_moon_latitude(e));
    assert_eq!(get_sun_longitude(e), get_sun_longitude(e));
    assert_eq!(get_moon_parallax(e), get_moon_parallax(e));
}
