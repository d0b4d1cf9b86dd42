//! The reduced ephemeris series: Sun ecliptic longitude, Moon ecliptic
//! longitude and latitude, and Moon horizontal parallax.
//!
//! Each series is a weighted sum of sine terms driven by the J2000
//! time variable, with the tabulated coefficients of the reference
//! reduced ephemeris carried verbatim in micro-degrees. The Moon
//! longitude and latitude series each feed a small auxiliary series
//! into the sine argument of their dominant term; every series result
//! is normalized into `[0, 360)` degrees. The tables are split into
//! slices of a dozen terms so that each function stays easy to check.

use vstd::prelude::*;
use vstd::arithmetic::div_mod::lemma_div_multiples_vanish;
use crate::angle::DEG360;
use crate::angle::adjust0to360;
use crate::angle::spec_adjust0to360;
use crate::epoch::spec_j2000year;
use crate::epoch::j2000year;
use crate::num::NANO;
use crate::num::lemma_mul_fdiv_bound;
use crate::num::mul_fdiv;
use crate::trig::sin;
use crate::trig::spec_sin;

verus! {

/// Largest epoch magnitude, in nano-days, accepted by the series.
pub const EPOCH_NANO_ABS_MAX: i64 = 1_600_000_000_000_000;

/// One periodic term: `amp * sin(phase + rate * t)`, with `amp`,
/// `phase` and `rate` in micro-units and `t` in nano-units.
#[verifier::opaque]
pub open spec fn spec_term(t: int, amp: int, phase: int, rate: int) -> int {
    (amp * spec_sin(phase + (rate * t) / NANO as int)) / NANO as int
}

/// Evaluates one periodic series term.
pub fn term(t: i64, amp: i64, phase: i64, rate: i64) -> (r: i64)
    requires
        -4_400_000_000_000 <= t <= 4_400_000_000_000,
        0 <= amp <= 10_000_000,
        -400_000_000 <= phase <= 14_000_000_000,
        0 <= rate <= 24_000_000_000,
    ensures
        r == spec_term(t as int, amp as int, phase as int, rate as int),
        -(amp as int) - 1 <= r <= amp as int,
{
    proof {
        reveal(spec_term);
        lemma_mul_fdiv_bound(rate as int, t as int, NANO as int, 24_000_000_000,
            4_400_000_000_000);
    }
    let ang = phase + mul_fdiv(rate, t, NANO);
    let s = sin(ang);
    proof {
        lemma_mul_fdiv_bound(amp as int, s as int, NANO as int, amp as int, NANO as int);
        lemma_div_multiples_vanish(amp as int, NANO as int);
    }
    mul_fdiv(amp, s, NANO)
}

/// An ecliptic position: longitude and latitude in micro-degrees, both
/// carried as the series hand them out, normalized into `[0, 360)`.
#[derive(Clone, Copy, Debug, PartialEq, Eq, Structural)]
pub struct Ecliptic {
    pub longitude: i64,
    pub latitude: i64,
}

/// The auxiliary evection-correction series fed into the dominant term
/// of the Moon longitude series, in micro-degrees.
pub open spec fn spec_moon_longitude_aux(t: int) -> int {
    spec_term(t, 4_000, 119_500_000, 1_330_000)
        + spec_term(t, 2_000, 55_000_000, 19_340_000)
        + spec_term(t, 600, 71_000_000, 200_000)
        + spec_term(t, 600, 54_000_000, 19_300_000)
}

/// Evaluates [`spec_moon_longitude_aux`].
pub fn moon_longitude_aux(t: i64) -> (r: i64)
    requires
        -4_400_000_000_000 <= t <= 4_400_000_000_000,
    ensures
        r == spec_moon_longitude_aux(t as int),
        -7_300 <= r <= 7_300,
{
    term(t, 4_000, 119_500_000, 1_330_000)
        + term(t, 2_000, 55_000_000, 19_340_000)
        + term(t, 600, 71_000_000, 200_000)
        + term(t, 600, 54_000_000, 19_300_000)
}

/// The auxiliary series fed into the dominant term of the Moon
/// latitude series, in micro-degrees.
pub open spec fn spec_moon_latitude_aux(t: int) -> int {
    spec_term(t, 26_700, 234_950_000, 19_341_000)
        + spec_term(t, 4_300, 322_100_000, 19_360_000)
        + spec_term(t, 4_000, 119_500_000, 1_330_000)
        + spec_term(t, 2_000, 55_000_000, 19_340_000)
        + spec_term(t, 500, 307_000_000, 19_400_000)
}

/// Evaluates [`spec_moon_latitude_aux`].
pub fn moon_latitude_aux(t: i64) -> (r: i64)
    requires
        -4_400_000_000_000 <= t <= 4_400_000_000_000,
    ensures
        r == spec_moon_latitude_aux(t as int),
        -37_600 <= r <= 37_600,
{
    term(t, 26_700, 234_950_000, 19_341_000)
        + term(t, 4_300, 322_100_000, 19_360_000)
        + term(t, 4_000, 119_500_000, 1_330_000)
        + term(t, 2_000, 55_000_000, 19_340_000)
        + term(t, 500, 307_000_000, 19_400_000)
}

/// One slice of the Moon longitude term table.
pub open spec fn spec_moon_longitude_part1(t: int) -> int {
    spec_term(t, 1_274_000, 100_738_000, 4_133_353_600)
        + spec_term(t, 658_300, 235_700_000, 8_905_342_200)
        + spec_term(t, 213_600, 269_926_000, 9_543_977_300)
        + spec_term(t, 185_600, 177_525_000, 359_990_500)
        + spec_term(t, 114_300, 6_546_000, 9_664_040_400)
        + spec_term(t, 58_800, 214_220_000, 638_635_000)
        + spec_term(t, 57_200, 103_210_000, 3_773_363_000)
        + spec_term(t, 53_300, 10_660_000, 13_677_331_000)
        + spec_term(t, 45_900, 238_180_000, 8_545_352_000)
        + spec_term(t, 41_000, 137_430_000, 4_411_998_000)
        + spec_term(t, 34_800, 117_840_000, 4_452_671_000)
        + spec_term(t, 30_500, 312_490_000, 5_131_979_000)
        + spec_term(t, 15_300, 130_840_000, 758_698_000)
}

/// Evaluates [`spec_moon_longitude_part1`].
pub fn moon_longitude_part1(t: i64) -> (r: i64)
    requires
        -4_400_000_000_000 <= t <= 4_400_000_000_000,
    ensures
        r == spec_moon_longitude_part1(t as int),
        -50_000_000 <= r <= 50_000_000,
{
    term(t, 1_274_000, 100_738_000, 4_133_353_600)
        + term(t, 658_300, 235_700_000, 8_905_342_200)
        + term(t, 213_600, 269_926_000, 9_543_977_300)
        + term(t, 185_600, 177_525_000, 359_990_500)
        + term(t, 114_300, 6_546_000, 9_664_040_400)
        + term(t, 58_800, 214_220_000, 638_635_000)
        + term(t, 57_200, 103_210_000, 3_773_363_000)
        + term(t, 53_300, 10_660_000, 13_677_331_000)
        + term(t, 45_900, 238_180_000, 8_545_352_000)
        + term(t, 41_000, 137_430_000, 4_411_998_000)
        + term(t, 34_800, 117_840_000, 4_452_671_000)
        + term(t, 30_500, 312_490_000, 5_131_979_000)
        + term(t, 15_300, 130_840_000, 758_698_000)
}

/// One slice of the Moon longitude term table.
pub open spec fn spec_moon_longitude_part2(t: int) -> int {
    spec_term(t, 12_500, 141_510_000, 14_436_029_000)
        + spec_term(t, 11_000, 231_590_000, 4_892_052_000)
        + spec_term(t, 10_700, 336_440_000, 13_038_696_000)
        + spec_term(t, 10_000, 44_890_000, 14_315_966_000)
        + spec_term(t, 8_500, 201_500_000, 8_266_710_000)
        + spec_term(t, 7_900, 278_200_000, 4_493_340_000)
        + spec_term(t, 6_800, 53_200_000, 9_265_330_000)
        + spec_term(t, 5_200, 197_200_000, 319_320_000)
        + spec_term(t, 5_000, 295_400_000, 4_812_660_000)
        + spec_term(t, 4_800, 235_000_000, 19_340_000)
        + spec_term(t, 4_000, 13_200_000, 13_317_340_000)
        + spec_term(t, 4_000, 145_600_000, 18_449_320_000)
        + spec_term(t, 4_000, 119_500_000, 1_330_000)
}

/// Evaluates [`spec_moon_longitude_part2`].
pub fn moon_longitude_part2(t: i64) -> (r: i64)
    requires
        -4_400_000_000_000 <= t <= 4_400_000_000_000,
    ensures
        r == spec_moon_longitude_part2(t as int),
        -50_000_000 <= r <= 50_000_000,
{
    term(t, 12_500, 141_510_000, 14_436_029_000)
        + term(t, 11_000, 231_590_000, 4_892_052_000)
        + term(t, 10_700, 336_440_000, 13_038_696_000)
        + term(t, 10_000, 44_890_000, 14_315_966_000)
        + term(t, 8_500, 201_500_000, 8_266_710_000)
        + term(t, 7_900, 278_200_000, 4_493_340_000)
        + term(t, 6_800, 53_200_000, 9_265_330_000)
        + term(t, 5_200, 197_200_000, 319_320_000)
        + term(t, 5_000, 295_400_000, 4_812_660_000)
        + term(t, 4_800, 235_000_000, 19_340_000)
        + term(t, 4_000, 13_200_000, 13_317_340_000)
        + term(t, 4_000, 145_600_000, 18_449_320_000)
        + term(t, 4_000, 119_500_000, 1_330_000)
}

/// One slice of the Moon longitude term table.
pub open spec fn spec_moon_longitude_part3(t: int) -> int {
    spec_term(t, 3_900, 111_300_000, 17_810_680_000)
        + spec_term(t, 3_700, 349_100_000, 5_410_620_000)
        + spec_term(t, 2_700, 272_500_000, 9_183_990_000)
        + spec_term(t, 2_600, 107_200_000, 13_797_390_000)
        + spec_term(t, 2_400, 211_900_000, 998_630_000)
        + spec_term(t, 2_400, 252_800_000, 9_224_660_000)
        + spec_term(t, 2_200, 240_600_000, 8_185_360_000)
        + spec_term(t, 2_100, 87_500_000, 9_903_970_000)
        + spec_term(t, 2_100, 175_100_000, 719_980_000)
        + spec_term(t, 2_100, 105_600_000, 3_413_370_000)
        + spec_term(t, 2_000, 55_000_000, 19_340_000)
        + spec_term(t, 1_800, 4_100_000, 4_013_290_000)
        + spec_term(t, 1_600, 242_200_000, 18_569_380_000)
}

/// Evaluates [`spec_moon_longitude_part3`].
pub fn moon_longitude_part3(t: i64) -> (r: i64)
    requires
        -4_400_000_000_000 <= t <= 4_400_000_000_000,
    ensures
        r == spec_moon_longitude_part3(t as int),
        -50_000_000 <= r <= 50_000_000,
{
    term(t, 3_900, 111_300_000, 17_810_680_000)
        + term(t, 3_700, 349_100_000, 5_410_620_000)
        + term(t, 2_700, 272_500_000, 9_183_990_000)
        + term(t, 2_600, 107_200_000, 13_797_390_000)
        + term(t, 2_400, 211_900_000, 998_630_000)
        + term(t, 2_400, 252_800_000, 9_224_660_000)
        + term(t, 2_200, 240_600_000, 8_185_360_000)
        + term(t, 2_100, 87_500_000, 9_903_970_000)
        + term(t, 2_100, 175_100_000, 719_980_000)
        + term(t, 2_100, 105_600_000, 3_413_370_000)
        + term(t, 2_000, 55_000_000, 19_340_000)
        + term(t, 1_800, 4_100_000, 4_013_290_000)
        + term(t, 1_600, 242_200_000, 18_569_380_000)
}

/// One slice of the Moon longitude term table.
pub open spec fn spec_moon_longitude_part4(t: int) -> int {
    spec_term(t, 1_200, 339_000_000, 12_678_710_000)
        + spec_term(t, 1_100, 276_500_000, 19_208_020_000)
        + spec_term(t, 900, 218_000_000, 8_586_000_000)
        + spec_term(t, 800, 188_000_000, 14_037_300_000)
        + spec_term(t, 800, 204_000_000, 7_906_700_000)
        + spec_term(t, 700, 140_000_000, 4_052_000_000)
        + spec_term(t, 700, 275_000_000, 4_853_300_000)
        + spec_term(t, 700, 216_000_000, 278_600_000)
        + spec_term(t, 600, 128_000_000, 1_118_700_000)
        + spec_term(t, 500, 247_000_000, 22_582_700_000)
        + spec_term(t, 500, 181_000_000, 19_088_000_000)
        + spec_term(t, 500, 114_000_000, 17_450_700_000)
        + spec_term(t, 500, 332_000_000, 5_091_300_000)
}

/// Evaluates [`spec_moon_longitude_part4`].
pub fn moon_longitude_part4(t: i64) -> (r: i64)
    requires
        -4_400_000_000_000 <= t <= 4_400_000_000_000,
    ensures
        r == spec_moon_longitude_part4(t as int),
        -50_000_000 <= r <= 50_000_000,
{
    term(t, 1_200, 339_000_000, 12_678_710_000)
        + term(t, 1_100, 276_500_000, 19_208_020_000)
        + term(t, 900, 218_000_000, 8_586_000_000)
        + term(t, 800, 188_000_000, 14_037_300_000)
        + term(t, 800, 204_000_000, 7_906_700_000)
        + term(t, 700, 140_000_000, 4_052_000_000)
        + term(t, 700, 275_000_000, 4_853_300_000)
        + term(t, 700, 216_000_000, 278_600_000)
        + term(t, 600, 128_000_000, 1_118_700_000)
        + term(t, 500, 247_000_000, 22_582_700_000)
        + term(t, 500, 181_000_000, 19_088_000_000)
        + term(t, 500, 114_000_000, 17_450_700_000)
        + term(t, 500, 332_000_000, 5_091_300_000)
}

/// One slice of the Moon longitude term table.
pub open spec fn spec_moon_longitude_part5(t: int) -> int {
    spec_term(t, 400, 313_000_000, 398_700_000)
        + spec_term(t, 400, 278_000_000, 120_100_000)
        + spec_term(t, 400, 71_000_000, 9_584_700_000)
        + spec_term(t, 400, 20_000_000, 720_000_000)
        + spec_term(t, 300, 83_000_000, 3_814_000_000)
        + spec_term(t, 300, 66_000_000, 3_494_700_000)
        + spec_term(t, 300, 147_000_000, 18_089_300_000)
        + spec_term(t, 300, 311_000_000, 5_492_000_000)
        + spec_term(t, 300, 161_000_000, 40_700_000)
        + spec_term(t, 300, 280_000_000, 23_221_300_000)
}

/// Evaluates [`spec_moon_longitude_part5`].
pub fn moon_longitude_part5(t: i64) -> (r: i64)
    requires
        -4_400_000_000_000 <= t <= 4_400_000_000_000,
    ensures
        r == spec_moon_longitude_part5(t as int),
        -50_000_000 <= r <= 50_000_000,
{
    term(t, 400, 313_000_000, 398_700_000)
        + term(t, 400, 278_000_000, 120_100_000)
        + term(t, 400, 71_000_000, 9_584_700_000)
        + term(t, 400, 20_000_000, 720_000_000)
        + term(t, 300, 83_000_000, 3_814_000_000)
        + term(t, 300, 66_000_000, 3_494_700_000)
        + term(t, 300, 147_000_000, 18_089_300_000)
        + term(t, 300, 311_000_000, 5_492_000_000)
        + term(t, 300, 161_000_000, 40_700_000)
        + term(t, 300, 280_000_000, 23_221_300_000)
}

/// One slice of the Moon latitude term table.
pub open spec fn spec_moon_latitude_part1(t: int) -> int {
    spec_term(t, 280_600, 228_235_000, 9_604_008_800)
        + spec_term(t, 277_700, 138_311_000, 60_031_600)
        + spec_term(t, 173_200, 142_427_000, 4_073_322_000)
        + spec_term(t, 55_400, 194_010_000, 8_965_374_000)
        + spec_term(t, 46_300, 172_550_000, 698_667_000)
        + spec_term(t, 32_600, 328_960_000, 13_737_362_000)
        + spec_term(t, 17_200, 3_180_000, 14_375_997_000)
        + spec_term(t, 9_300, 277_400_000, 8_845_310_000)
        + spec_term(t, 8_800, 176_700_000, 4_711_960_000)
        + spec_term(t, 8_200, 144_900_000, 3_713_330_000)
        + spec_term(t, 4_300, 307_600_000, 5_470_660_000)
        + spec_term(t, 4_200, 103_900_000, 18_509_350_000)
        + spec_term(t, 3_400, 319_900_000, 4_433_310_000)
}

/// Evaluates [`spec_moon_latitude_part1`].
pub fn moon_latitude_part1(t: i64) -> (r: i64)
    requires
        -4_400_000_000_000 <= t <= 4_400_000_000_000,
    ensures
        r == spec_moon_latitude_part1(t as int),
        -50_000_000 <= r <= 50_000_000,
{
    term(t, 280_600, 228_235_000, 9_604_008_800)
        + term(t, 277_700, 138_311_000, 60_031_600)
        + term(t, 173_200, 142_427_000, 4_073_322_000)
        + term(t, 55_400, 194_010_000, 8_965_374_000)
        + term(t, 46_300, 172_550_000, 698_667_000)
        + term(t, 32_600, 328_960_000, 13_737_362_000)
        + term(t, 17_200, 3_180_000, 14_375_997_000)
        + term(t, 9_300, 277_400_000, 8_845_310_000)
        + term(t, 8_800, 176_700_000, 4_711_960_000)
        + term(t, 8_200, 144_900_000, 3_713_330_000)
        + term(t, 4_300, 307_600_000, 5_470_660_000)
        + term(t, 4_200, 103_900_000, 18_509_350_000)
        + term(t, 3_400, 319_900_000, 4_433_310_000)
}

/// One slice of the Moon latitude term table.
pub open spec fn spec_moon_latitude_part2(t: int) -> int {
    spec_term(t, 2_500, 196_500_000, 8_605_380_000)
        + spec_term(t, 2_200, 331_400_000, 13_377_370_000)
        + spec_term(t, 2_100, 170_100_000, 1_058_660_000)
        + spec_term(t, 1_900, 230_700_000, 9_244_020_000)
        + spec_term(t, 1_800, 243_300_000, 8_206_680_000)
        + spec_term(t, 1_800, 270_800_000, 5_192_010_000)
        + spec_term(t, 1_700, 99_800_000, 14_496_060_000)
        + spec_term(t, 1_600, 135_700_000, 420_020_000)
        + spec_term(t, 1_500, 211_100_000, 9_284_690_000)
        + spec_term(t, 1_500, 45_800_000, 9_964_000_000)
        + spec_term(t, 1_400, 219_200_000, 299_960_000)
        + spec_term(t, 1_300, 95_800_000, 4_472_030_000)
        + spec_term(t, 1_300, 155_400_000, 379_350_000)
}

/// Evaluates [`spec_moon_latitude_part2`].
pub fn moon_latitude_part2(t: i64) -> (r: i64)
    requires
        -4_400_000_000_000 <= t <= 4_400_000_000_000,
    ensures
        r == spec_moon_latitude_part2(t as int),
        -50_000_000 <= r <= 50_000_000,
{
    term(t, 2_500, 196_500_000, 8_605_380_000)
        + term(t, 2_200, 331_400_000, 13_377_370_000)
        + term(t, 2_100, 170_100_000, 1_058_660_000)
        + term(t, 1_900, 230_700_000, 9_244_020_000)
        + term(t, 1_800, 243_300_000, 8_206_680_000)
        + term(t, 1_800, 270_800_000, 5_192_010_000)
        + term(t, 1_700, 99_800_000, 14_496_060_000)
        + term(t, 1_600, 135_700_000, 420_020_000)
        + term(t, 1_500, 211_100_000, 9_284_690_000)
        + term(t, 1_500, 45_800_000, 9_964_000_000)
        + term(t, 1_400, 219_200_000, 299_960_000)
        + term(t, 1_300, 95_800_000, 4_472_030_000)
        + term(t, 1_300, 155_400_000, 379_350_000)
}

/// One slice of the Moon latitude term table.
pub open spec fn spec_moon_latitude_part3(t: int) -> int {
    spec_term(t, 1_200, 38_400_000, 4_812_680_000)
        + spec_term(t, 1_200, 148_200_000, 4_851_360_000)
        + spec_term(t, 1_100, 138_300_000, 19_147_990_000)
        + spec_term(t, 1_000, 18_000_000, 12_978_660_000)
        + spec_term(t, 800, 70_000_000, 17_870_700_000)
        + spec_term(t, 800, 326_000_000, 9_724_100_000)
        + spec_term(t, 700, 294_000_000, 13_098_700_000)
        + spec_term(t, 600, 224_000_000, 5_590_700_000)
        + spec_term(t, 600, 52_000_000, 13_617_300_000)
        + spec_term(t, 500, 280_000_000, 8_485_300_000)
        + spec_term(t, 500, 239_000_000, 4_193_400_000)
        + spec_term(t, 400, 311_000_000, 9_483_900_000)
        + spec_term(t, 400, 238_000_000, 23_281_300_000)
}

/// Evaluates [`spec_moon_latitude_part3`].
pub fn moon_latitude_part3(t: i64) -> (r: i64)
    requires
        -4_400_000_000_000 <= t <= 4_400_000_000_000,
    ensures
        r == spec_moon_latitude_part3(t as int),
        -50_000_000 <= r <= 50_000_000,
{
    term(t, 1_200, 38_400_000, 4_812_680_000)
        + term(t, 1_200, 148_200_000, 4_851_360_000)
        + term(t, 1_100, 138_300_000, 19_147_990_000)
        + term(t, 1_000, 18_000_000, 12_978_660_000)
        + term(t, 800, 70_000_000, 17_870_700_000)
        + term(t, 800, 326_000_000, 9_724_100_000)
        + term(t, 700, 294_000_000, 13_098_700_000)
        + term(t, 600, 224_000_000, 5_590_700_000)
        + term(t, 600, 52_000_000, 13_617_300_000)
        + term(t, 500, 280_000_000, 8_485_300_000)
        + term(t, 500, 239_000_000, 4_193_400_000)
        + term(t, 400, 311_000_000, 9_483_900_000)
        + term(t, 400, 238_000_000, 23_281_300_000)
}

/// One slice of the Moon latitude term table.
pub open spec fn spec_moon_latitude_part4(t: int) -> int {
    spec_term(t, 400, 81_000_000, 10_242_600_000)
        + spec_term(t, 400, 13_000_000, 9_325_400_000)
        + spec_term(t, 400, 147_000_000, 14_097_400_000)
        + spec_term(t, 300, 205_000_000, 22_642_700_000)
        + spec_term(t, 300, 107_000_000, 18_149_400_000)
        + spec_term(t, 300, 146_000_000, 3_353_300_000)
        + spec_term(t, 300, 234_000_000, 19_268_000_000)
}

/// Evaluates [`spec_moon_latitude_part4`].
pub fn moon_latitude_part4(t: i64) -> (r: i64)
    requires
        -4_400_000_000_000 <= t <= 4_400_000_000_000,
    ensures
        r == spec_moon_latitude_part4(t as int),
        -50_000_000 <= r <= 50_000_000,
{
    term(t, 400, 81_000_000, 10_242_600_000)
        + term(t, 400, 13_000_000, 9_325_400_000)
        + term(t, 400, 147_000_000, 14_097_400_000)
        + term(t, 300, 205_000_000, 22_642_700_000)
        + term(t, 300, 107_000_000, 18_149_400_000)
        + term(t, 300, 146_000_000, 3_353_300_000)
        + term(t, 300, 234_000_000, 19_268_000_000)
}

/// One slice of the Sun longitude term table.
pub open spec fn spec_sun_longitude_part1(t: int) -> int {
    spec_term(t, 20_000, 355_050_000, 719_981_000)
        + spec_term(t, 4_800, 234_950_000, 19_341_000)
        + spec_term(t, 2_000, 247_100_000, 329_640_000)
        + spec_term(t, 1_800, 297_800_000, 4_452_670_000)
        + spec_term(t, 1_800, 251_300_000, 200_000)
        + spec_term(t, 1_500, 343_200_000, 450_370_000)
        + spec_term(t, 1_300, 81_400_000, 225_180_000)
        + spec_term(t, 800, 132_500_000, 659_290_000)
        + spec_term(t, 700, 153_300_000, 90_380_000)
        + spec_term(t, 700, 206_800_000, 30_350_000)
        + spec_term(t, 600, 29_800_000, 337_180_000)
        + spec_term(t, 500, 207_400_000, 1_500_000)
        + spec_term(t, 500, 291_200_000, 22_810_000)
}

/// Evaluates [`spec_sun_longitude_part1`].
pub fn sun_longitude_part1(t: i64) -> (r: i64)
    requires
        -4_400_000_000_000 <= t <= 4_400_000_000_000,
    ensures
        r == spec_sun_longitude_part1(t as int),
        -50_000_000 <= r <= 50_000_000,
{
    term(t, 20_000, 355_050_000, 719_981_000)
        + term(t, 4_800, 234_950_000, 19_341_000)
        + term(t, 2_000, 247_100_000, 329_640_000)
        + term(t, 1_800, 297_800_000, 4_452_670_000)
        + term(t, 1_800, 251_300_000, 200_000)
        + term(t, 1_500, 343_200_000, 450_370_000)
        + term(t, 1_300, 81_400_000, 225_180_000)
        + term(t, 800, 132_500_000, 659_290_000)
        + term(t, 700, 153_300_000, 90_380_000)
        + term(t, 700, 206_800_000, 30_350_000)
        + term(t, 600, 29_800_000, 337_180_000)
        + term(t, 500, 207_400_000, 1_500_000)
        + term(t, 500, 291_200_000, 22_810_000)
}

/// One slice of the Sun longitude term table.
pub open spec fn spec_sun_longitude_part2(t: int) -> int {
    spec_term(t, 400, 234_900_000, 315_560_000)
        + spec_term(t, 400, 157_300_000, 299_300_000)
        + spec_term(t, 400, 21_100_000, 720_020_000)
        + spec_term(t, 300, 352_500_000, 1_079_970_000)
        + spec_term(t, 300, 329_700_000, 44_430_000)
}

/// Evaluates [`spec_sun_longitude_part2`].
pub fn sun_longitude_part2(t: i64) -> (r: i64)
    requires
        -4_400_000_000_000 <= t <= 4_400_000_000_000,
    ensures
        r == spec_sun_longitude_part2(t as int),
        -50_000_000 <= r <= 50_000_000,
{
    term(t, 400, 234_900_000, 315_560_000)
        + term(t, 400, 157_300_000, 299_300_000)
        + term(t, 400, 21_100_000, 720_020_000)
        + term(t, 300, 352_500_000, 1_079_970_000)
        + term(t, 300, 329_700_000, 44_430_000)
}

/// One slice of the Moon parallax term table.
pub open spec fn spec_moon_parallax_part1(t: int) -> int {
    spec_term(t, 950_700, 90_000_000, 0)
        + spec_term(t, 51_800, 224_980_000, 4_771_989_000)
        + spec_term(t, 9_500, 190_700_000, 4_133_350_000)
        + spec_term(t, 7_800, 325_700_000, 8_905_340_000)
        + spec_term(t, 2_800, 0, 9_543_980_000)
        + spec_term(t, 900, 13_777_300_000, 1_000_000)
        + spec_term(t, 500, 329_000_000, 8_545_400_000)
        + spec_term(t, 400, 194_000_000, 3_773_400_000)
        + spec_term(t, 300, 227_000_000, 4_412_000_000)
}

/// Evaluates [`spec_moon_parallax_part1`].
pub fn moon_parallax_part1(t: i64) -> (r: i64)
    requires
        -4_400_000_000_000 <= t <= 4_400_000_000_000,
    ensures
        r == spec_moon_parallax_part1(t as int),
        -50_000_000 <= r <= 50_000_000,
{
    term(t, 950_700, 90_000_000, 0)
        + term(t, 51_800, 224_980_000, 4_771_989_000)
        + term(t, 9_500, 190_700_000, 4_133_350_000)
        + term(t, 7_800, 325_700_000, 8_905_340_000)
        + term(t, 2_800, 0, 9_543_980_000)
        + term(t, 900, 13_777_300_000, 1_000_000)
        + term(t, 500, 329_000_000, 8_545_400_000)
        + term(t, 400, 194_000_000, 3_773_400_000)
        + term(t, 300, 227_000_000, 4_412_000_000)
}

/// The Moon's ecliptic longitude at the given epoch, in micro-degrees
/// within `[0, 360)` degrees.
#[verifier::opaque]
pub open spec fn spec_moon_longitude(day_nano: int) -> int {
    let t = spec_j2000year(day_nano);
    let am = spec_moon_longitude_aux(t);
    spec_adjust0to360(
        218_316_100 + (4_812_678_810 * t) / NANO as int
            + spec_term(t, 6_288_700, 134_961_000 + am, 4_771_988_600)
            + spec_moon_longitude_part1(t)
            + spec_moon_longitude_part2(t)
            + spec_moon_longitude_part3(t)
            + spec_moon_longitude_part4(t)
            + spec_moon_longitude_part5(t),
    )
}

/// Approximates the Moon's ecliptic longitude, in micro-degrees.
pub fn get_moon_longitude(day_nano: i64) -> (r: i64)
    requires
        -EPOCH_NANO_ABS_MAX <= day_nano <= EPOCH_NANO_ABS_MAX,
    ensures
        r == spec_moon_longitude(day_nano as int),
        0 <= r < DEG360,
{
    proof {
        reveal(spec_moon_longitude);
    }
    let t = j2000year(day_nano);
    let am = moon_longitude_aux(t);
    proof {
        lemma_mul_fdiv_bound(4_812_678_810, t as int, NANO as int, 4_812_678_810,
            4_400_000_000_000);
    }
    let lm = 218_316_100 + mul_fdiv(4_812_678_810, t, NANO)
        + term(t, 6_288_700, 134_961_000 + am, 4_771_988_600)
        + moon_longitude_part1(t)
        + moon_longitude_part2(t)
        + moon_longitude_part3(t)
        + moon_longitude_part4(t)
        + moon_longitude_part5(t);
    adjust0to360(lm)
}

/// The Moon's ecliptic latitude at the given epoch, in micro-degrees,
/// normalized into `[0, 360)` degrees as the reference series does
/// (southern latitudes appear near 360).
#[verifier::opaque]
pub open spec fn spec_moon_latitude(day_nano: int) -> int {
    let t = spec_j2000year(day_nano);
    let bm = spec_moon_latitude_aux(t);
    spec_adjust0to360(
        spec_term(t, 5_128_200, 93_273_000 + bm, 4_832_020_200)
            + spec_moon_latitude_part1(t)
            + spec_moon_latitude_part2(t)
            + spec_moon_latitude_part3(t)
            + spec_moon_latitude_part4(t),
    )
}

/// Approximates the Moon's ecliptic latitude, in micro-degrees.
pub fn get_moon_latitude(day_nano: i64) -> (r: i64)
    requires
        -EPOCH_NANO_ABS_MAX <= day_nano <= EPOCH_NANO_ABS_MAX,
    ensures
        r == spec_moon_latitude(day_nano as int),
        0 <= r < DEG360,
{
    proof {
        reveal(spec_moon_latitude);
    }
    let t = j2000year(day_nano);
    let bm = moon_latitude_aux(t);
    let betam = term(t, 5_128_200, 93_273_000 + bm, 4_832_020_200)
        + moon_latitude_part1(t)
        + moon_latitude_part2(t)
        + moon_latitude_part3(t)
        + moon_latitude_part4(t);
    adjust0to360(betam)
}

/// The Sun's ecliptic longitude at the given epoch, in micro-degrees
/// within `[0, 360)` degrees. The dominant term's amplitude drifts
/// slowly with time.
#[verifier::opaque]
pub open spec fn spec_sun_longitude(day_nano: int) -> int {
    let t = spec_j2000year(day_nano);
    spec_adjust0to360(
        280_460_300 + (360_007_690 * t) / NANO as int
            + spec_term(t, 1_914_600 - (50 * t) / NANO as int, 357_538_000, 359_991_000)
            + spec_sun_longitude_part1(t)
            + spec_sun_longitude_part2(t),
    )
}

/// Approximates the Sun's ecliptic longitude, in micro-degrees.
pub fn get_sun_longitude(day_nano: i64) -> (r: i64)
    requires
        -EPOCH_NANO_ABS_MAX <= day_nano <= EPOCH_NANO_ABS_MAX,
    ensures
        r == spec_sun_longitude(day_nano as int),
        0 <= r < DEG360,
{
    proof {
        reveal(spec_sun_longitude);
    }
    let t = j2000year(day_nano);
    proof {
        lemma_mul_fdiv_bound(360_007_690, t as int, NANO as int, 360_007_690,
            4_400_000_000_000);
        lemma_mul_fdiv_bound(50, t as int, NANO as int, 50, 4_400_000_000_000);
    }
    let amp0 = 1_914_600 - mul_fdiv(50, t, NANO);
    let l = 280_460_300 + mul_fdiv(360_007_690, t, NANO)
        + term(t, amp0, 357_538_000, 359_991_000)
        + sun_longitude_part1(t)
        + sun_longitude_part2(t);
    adjust0to360(l)
}

/// The Moon's horizontal parallax at the given epoch, in micro-degrees,
/// normalized into `[0, 360)` degrees.
#[verifier::opaque]
pub open spec fn spec_moon_parallax(day_nano: int) -> int {
    let t = spec_j2000year(day_nano);
    spec_adjust0to360(
        spec_moon_parallax_part1(t)

    )
}

/// Approximates the Moon's horizontal parallax, in micro-degrees.
pub fn get_moon_parallax(day_nano: i64) -> (r: i64)
    requires
        -EPOCH_NANO_ABS_MAX <= day_nano <= EPOCH_NANO_ABS_MAX,
    ensures
        r == spec_moon_parallax(day_nano as int),
        0 <= r < DEG360,
{
    proof {
        reveal(spec_moon_parallax);
    }
    let t = j2000year(day_nano);
    let p = moon_parallax_part1(t)
;
    adjust0to360(p)
}

/// Every series output is normalized into `[0, 360)` degrees, at any
/// epoch whatsoever.
pub proof fn lemma_series_normalized(day_nano: int)
    ensures
        0 <= spec_moon_longitude(day_nano) < DEG360 as int,
        0 <= spec_moon_latitude(day_nano) < DEG360 as int,
        0 <= spec_sun_longitude(day_nano) < DEG360 as int,
        0 <= spec_moon_parallax(day_nano) < DEG360 as int,
{
    reveal(spec_moon_longitude);
    reveal(spec_moon_latitude);
    reveal(spec_sun_longitude);
    reveal(spec_moon_parallax);
    crate::angle::lemma_adjust0to360_range_forall();
}

/// The Moon's ecliptic position at the given epoch.
pub open spec fn spec_moon_ecliptic(day_nano: int) -> Ecliptic {
    Ecliptic {
        longitude: spec_moon_longitude(day_nano) as i64,
        latitude: spec_moon_latitude(day_nano) as i64,
    }
}

/// Approximates the Moon's ecliptic position.
pub fn get_moon_ecliptic(day_nano: i64) -> (e: Ecliptic)
    requires
        -EPOCH_NANO_ABS_MAX <= day_nano <= EPOCH_NANO_ABS_MAX,
    ensures
        e == spec_moon_ecliptic(day_nano as int),
        0 <= e.longitude < DEG360,
        0 <= e.latitude < DEG360,
{
    Ecliptic {
        longitude: get_moon_longitude(day_nano),
        latitude: get_moon_latitude(day_nano),
    }
}

} // verus!
