use moon_calc::epoch::CivilDate;
use moon_calc::epoch::Settings;
use moon_calc::epoch::j2000day;
use moon_calc::epoch::j2000year;

fn date(year: i64, month: i64, day: i64) -> CivilDate {
    CivilDate { year, month, day }
}

#[test]
fn j2000day_exact_at_the_epoch() {
    // 2000-01-01 12:00 at UTC+9: -0.375 days plus the rotation
    // correction of floor(650e9 / 864000) nano-days.
    let s = Settings::default();
    let dt = date(2000, 1, 1).and_hms(12, 0, 0);
    assert_eq!(j2000day(&dt, &s), -374_247_686);
}

#[test]
fn j2000day_knows_the_zone_offset() {
    let utc = Settings { zone_offset_seconds: 0, horizon_r_micro: 585_556 };
    let jst = Settings { zone_offset_seconds: 32_400, horizon_r_micro: 585_556 };
    let dt = date(2000, 1, 1).and_hms(12, 0, 0);
    // Nine hours east reads the same wall clock nine hours earlier.
    assert_eq!(j2000day(&dt, &utc) - j2000day(&dt, &jst), 375_000_000);
}

#[test]
fn epoch_grows_across_day_month_year_boundaries() {
    let s = Settings::default();
    let pairs = [
        (date(2001, 2, 28).and_hms(23, 59, 59), date(2001, 3, 1).and_hms(0, 0, 0)),
        (date(2000, 2, 29).and_hms(23, 59, 59), date(2000, 3, 1).and_hms(0, 0, 0)),
        (date(2000, 12, 31).and_hms(23, 59, 59), date(2001, 1, 1).and_hms(0, 0, 0)),
        (date(1999, 1, 31).and_hms(12, 0, 0), date(1999, 2, 1).and_hms(12, 0, 0)),
        (date(1900, 2, 28).and_hms(0, 0, 0), date(1900, 3, 1).and_hms(0, 0, 0)),
    ];
    for (a, b) in pairs.iter() {
        assert!(j2000day(a, &s) < j2000day(b, &s), "{a:?} !< {b:?}");
    }
}

#[test]
fn epoch_grows_second_by_second() {
    let s = Settings::default();
    let mut prev = j2000day(&date(1999, 11, 14).and_hms(0, 0, 0), &s);
    for sec in 1..60i64 {
        let cur = j2000day(&date(1999, 11, 14).and_hms(0, 0, sec), &s);
        assert!(cur > prev);
        prev = cur;
    }
}

#[test]
fn calendar_validity() {
    assert!(date(2000, 2, 29).check_valid());
    assert!(date(2004, 2, 29).check_valid());
    assert!(!date(1900, 2, 29).check_valid());
    assert!(!date(2001, 2, 29).check_valid());
    assert!(!date(2000, 4, 31).check_valid());
    assert!(date(2000, 12, 31).check_valid());
    assert!(!date(2000, 0, 1).check_valid());
    assert!(!date(2000, 13, 1).check_valid());
    assert!(!date(2000, 1, 0).check_valid());
    assert!(!date(999, 6, 15).check_valid());
    assert!(!date(3000, 6, 15).check_valid());
    assert!(date(1000, 1, 1).check_valid());
    assert!(date(2999, 12, 31).check_valid());
}

#[test]
fn j2000year_scales_by_the_julian_year() {
    assert_eq!(j2000year(1_461), 4);
    assert_eq!(j2000year(0), 0);
    assert_eq!(j2000year(365_250_000_000), 1_000_000_000);
    assert_eq!(j2000year(-374_247_686), -1_024_635);
}
