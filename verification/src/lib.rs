//! A reduced-precision lunar ephemeris.
//!
//! Given a civil date and a geographic position, the crate computes the
//! Moon's synodic age (days since the most recent new Moon) and the local
//! moonrise and moonset times, using a low-precision trigonometric series
//! model. All quantities are carried in fixed-point integer units:
//! angles in micro-degrees, times in nano-days.

pub mod angle;
pub mod api;
pub mod coord;
pub mod epoch;
pub mod num;
pub mod series;
pub mod solver;
pub mod trig;

pub use api::MoonInfo;
pub use api::MyMoonApi;
pub use epoch::CivilDate;
pub use epoch::CivilDateTime;
pub use epoch::Settings;
pub use solver::GeoPosition;
pub use solver::MoonCalcMode;
pub use solver::MoonError;

