//! The calculation surface handed to callers: one value bundling the
//! Moon's age with the day's rise and set times for a date and a
//! position.

use vstd::prelude::*;
use crate::epoch::CivilDate;
use crate::epoch::Settings;
use crate::solver::AGE_NANO_MAX;
use crate::solver::GeoPosition;
use crate::solver::MoonCalcMode;
use crate::solver::MoonError;
use crate::solver::get_moon_age;
use crate::solver::get_moon_rise_set;
use crate::solver::spec_moon_age;
use crate::solver::spec_moon_rise_set;

verus! {

/// One day's Moon facts: the synodic age at local noon and the rise
/// and set instants, each in nano-days (age as an elapsed span, rise
/// and set as offsets from local midnight).
#[derive(Clone, Copy, Debug, PartialEq, Eq, Structural)]
pub struct MoonInfo {
    pub moon_age: i64,
    pub moon_rise: i64,
    pub moon_set: i64,
}

/// The Moon calculation service: a settings value threaded through
/// every computation.
#[derive(Clone, Copy, Debug)]
pub struct MyMoonApi {
    pub settings: Settings,
}

/// What a bundled computation hands back: age, then rise, then set,
/// stopping at the first failure.
pub open spec fn spec_moon_info(date: CivilDate, geocode: GeoPosition, off: int, r_h: int) -> Result<
    (int, int, int),
    MoonError,
> {
    match spec_moon_age(date, off) {
        Err(e) => Err(e),
        Ok(age) => match spec_moon_rise_set(date, geocode, MoonCalcMode::Rising, off, r_h) {
            Err(e) => Err(e),
            Ok(rise) => match spec_moon_rise_set(date, geocode, MoonCalcMode::Setting, off, r_h) {
                Err(e) => Err(e),
                Ok(set_d) => Ok((age, rise, set_d)),
            },
        },
    }
}

/// An executable bundle agrees with a mathematical one.
pub open spec fn moon_info_matches(r: Result<MoonInfo, MoonError>, s: Result<
    (int, int, int),
    MoonError,
>) -> bool {
    match (r, s) {
        (Ok(info), Ok(t)) => info.moon_age == t.0 && info.moon_rise == t.1 && info.moon_set
            == t.2,
        (Err(a), Err(b)) => a == b,
        _ => false,
    }
}

impl Default for MyMoonApi {
    /// A service with the deployment-default settings.
    fn default() -> (s: MyMoonApi)
        ensures
            s.settings.valid(),
            s.settings.zone_offset_seconds == 32400,
            s.settings.horizon_r_micro == 585556,
    {
        MyMoonApi { settings: Settings::default() }
    }
}

impl MyMoonApi {
    /// A service around the given settings.
    pub fn new(settings: Settings) -> (s: MyMoonApi)
        ensures
            s.settings == settings,
    {
        MyMoonApi { settings }
    }

    /// The Moon's age and the day's rise and set times for a date and
    /// a position.
    pub fn moon_info(&self, date: &CivilDate, geocode: &GeoPosition) -> (r: Result<
        MoonInfo,
        MoonError,
    >)
        requires
            date.valid(),
            geocode.valid(),
            self.settings.valid(),
        ensures
            moon_info_matches(r, spec_moon_info(*date, *geocode,
                self.settings.zone_offset_seconds as int,
                self.settings.horizon_r_micro as int)),
            r is Ok ==> 0 <= r.unwrap().moon_age < AGE_NANO_MAX,
            r is Ok ==> -27_000_000_000 <= r.unwrap().moon_rise <= 27_000_000_000,
            r is Ok ==> -27_000_000_000 <= r.unwrap().moon_set <= 27_000_000_000,
    {
        let moon_age = match get_moon_age(date, &self.settings) {
            Ok(age) => age,
            Err(e) => {
                return Err(e);
            },
        };
        let moon_rise = match get_moon_rise_set(date, geocode, MoonCalcMode::Rising,
            &self.settings) {
            Ok(d) => d,
            Err(e) => {
                return Err(e);
            },
        };
        let moon_set = match get_moon_rise_set(date, geocode, MoonCalcMode::Setting,
            &self.settings) {
            Ok(d) => d,
            Err(e) => {
                return Err(e);
            },
        };
        Ok(MoonInfo { moon_age, moon_rise, moon_set })
    }
}

/// Re-running a computation with identical inputs yields the identical
/// outcome: everything a solver hands back is a function of its inputs
/// alone, with no hidden state.
pub proof fn lemma_moon_info_deterministic(
    date: CivilDate,
    geocode: GeoPosition,
    off: int,
    r_h: int,
    r1: Result<(int, int, int), MoonError>,
    r2: Result<(int, int, int), MoonError>,
)
    requires
        r1 == spec_moon_info(date, geocode, off, r_h),
        r2 == spec_moon_info(date, geocode, off, r_h),
    ensures
        r1 == r2,
{
}

} // verus!
