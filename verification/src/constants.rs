//! Epoch constants on the millisecond grid, the moon-phase enumerations and
//! their threshold table.

use vstd::prelude::*;

verus! {

/// Milliseconds in one day.
pub const DAY_MS: i64 = 86_400_000;

/// Milliseconds in half a day: the offset between civil midnight and the
/// noon-aligned integer Julian Days.
pub const HALF_DAY_MS: i64 = 43_200_000;

/// Julian Day of 1970-01-01 12:00 UTC (2 440 588 days), in milliseconds.
pub const J1970_MS: i64 = 210_866_803_200_000;

/// Julian Day of 2000-01-01 12:00 UTC (2 451 545 days), in milliseconds.
pub const J2000_MS: i64 = 211_813_488_000_000;

/// Start of the Modified Julian Day count (2 400 000.5 days), in milliseconds.
pub const MJD_START_MS: i64 = 207_360_043_200_000;

/// Milliseconds in one Julian century (36 525 days).
pub const CENTURY_MS: i64 = 3_155_760_000_000;

/// Milliseconds in one Julian millennium (365 250 days).
pub const MILLENNIUM_MS: i64 = 31_557_600_000_000;

/// Nano-degrees in a full turn (360 degrees).
pub const FULL_TURN_NANODEG: i64 = 360_000_000_000;

/// Nano-degrees in half a turn (180 degrees).
pub const HALF_TURN_NANODEG: i64 = 180_000_000_000;

/// Nano-degrees in a quarter turn (90 degrees).
pub const QUARTER_TURN_NANODEG: i64 = 90_000_000_000;

/// Nano-degrees in three quarters of a turn (270 degrees).
pub const THREE_QUARTER_TURN_NANODEG: i64 = 270_000_000_000;

/// Nano-hours in a full day (24 hours).
pub const DAY_NANOHOURS: i64 = 24_000_000_000;

/// Nano-degrees per nano-hour: 360 degrees correspond to 24 hours.
pub const NANODEG_PER_NANOHOUR: i64 = 15;

/// The Julian Day of the 1970 epoch, in milliseconds.
pub fn j1970() -> (r: i64)
    ensures
        r == J1970_MS,
{
    J1970_MS
}

/// The Julian Day of the 2000 epoch, in milliseconds.
pub fn j2000() -> (r: i64)
    ensures
        r == J2000_MS,
{
    J2000_MS
}

/// Coarse four-way partition of the synodic cycle.
#[derive(Clone, Copy, Debug, PartialEq, Eq, Structural)]
pub enum MoonPhaseQuarter {
    New,
    FirstQuarter,
    Full,
    LastQuarter,
}

/// Fine eight-way partition of the synodic cycle.
#[derive(Clone, Copy, Debug, PartialEq, Eq, Structural)]
pub enum MoonPhase {
    New,
    WaxingCrescent,
    FirstQuarter,
    WaxingGibbous,
    Full,
    WaningGibbous,
    LastQuarter,
    WaningCrescent,
}

/// Upper bound of each of the eight moon-phase buckets, as phase fractions
/// scaled by 10^15. The table is strictly ascending and lies strictly inside
/// the unit interval; the cycle wraps, so the bucket before the first bound
/// and the one after the last both stand for the new moon.
pub fn moon_phase_upper_limits() -> (r: Vec<i64>)
    ensures
        r@ =~= seq![
            33_863_193_308_711i64,
            216_136_806_691_289i64,
            283_863_193_308_711i64,
            466_136_806_691_289i64,
            533_863_193_308_711i64,
            716_136_806_691_289i64,
            783_863_193_308_711i64,
            966_136_806_691_289i64,
        ],
        forall|i: int, j: int| 0 <= i < j < r@.len() ==> #[trigger] r@[i] < #[trigger] r@[j],
        forall|i: int| 0 <= i < r@.len() ==> 0 < #[trigger] r@[i] < 1_000_000_000_000_000i64,
{
    let r: Vec<i64> = vec![
        33_863_193_308_711,
        216_136_806_691_289,
        283_863_193_308_711,
        466_136_806_691_289,
        533_863_193_308_711,
        716_136_806_691_289,
        783_863_193_308_711,
        966_136_806_691_289,
    ];
    r
}

} // verus!
