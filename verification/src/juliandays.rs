//! Julian Day arithmetic on the millisecond grid, and local mean sidereal
//! time.
//!
//! A Julian Day value is carried as a signed count of milliseconds: the
//! continuous day count scaled by 86 400 000. An integer number of days falls
//! at noon UTC, so civil midnight lies half a day below the whole-day marks.

use vstd::prelude::*;

use crate::constants::CENTURY_MS;
use crate::constants::DAY_MS;
use crate::constants::DAY_NANOHOURS;
use crate::constants::FULL_TURN_NANODEG;
use crate::constants::HALF_DAY_MS;
use crate::constants::J1970_MS;
use crate::constants::J2000_MS;
use crate::constants::MILLENNIUM_MS;
use crate::constants::MJD_START_MS;
use crate::constants::NANODEG_PER_NANOHOUR;

verus! {

/// Offset between the Julian Day millisecond grid and the Unix epoch:
/// midnight of 1970-01-01 lies half a day before the noon-aligned J1970 mark.
pub const UNIX_EPOCH_JD_MS: i64 = J1970_MS - HALF_DAY_MS;

/// The Unix-epoch timestamp of a Julian Day instant, both in milliseconds.
pub open spec fn milliseconds_of_julian_day(jd_ms: int) -> int {
    jd_ms - UNIX_EPOCH_JD_MS
}

/// The Julian Day instant of a Unix-epoch timestamp, both in milliseconds.
pub open spec fn julian_day_of_milliseconds(ms: int) -> int {
    ms + UNIX_EPOCH_JD_MS
}

/// Unix-epoch milliseconds of a Julian Day instant.
///
/// Fails exactly when the timestamp would fall below the representable
/// range; it can never exceed it, since the Unix epoch lies after day zero.
pub fn get_milliseconds(jd_ms: i64) -> (r: Option<i64>)
    ensures
        r is Some <==> i64::MIN + UNIX_EPOCH_JD_MS <= jd_ms,
        r is Some ==> r->0 == milliseconds_of_julian_day(jd_ms as int),
{
    jd_ms.checked_sub(UNIX_EPOCH_JD_MS)
}

/// Julian Day instant of a Unix-epoch timestamp.
///
/// Fails exactly when the Julian Day count would exceed the representable
/// range; it can never fall below it.
pub fn get_julian_day(milliseconds: i64) -> (r: Option<i64>)
    ensures
        r is Some <==> milliseconds <= i64::MAX - UNIX_EPOCH_JD_MS,
        r is Some ==> r->0 == julian_day_of_milliseconds(milliseconds as int),
{
    milliseconds.checked_add(UNIX_EPOCH_JD_MS)
}

/// Round trip between Julian Days and Unix timestamps: converting an instant
/// to a timestamp and back returns exactly the instant it started from, and
/// the converse round trip is exact as well. On the millisecond grid the two
/// conversions lose nothing at all.
pub proof fn lemma_milliseconds_round_trip(jd_ms: int, ms: int)
    ensures
        julian_day_of_milliseconds(milliseconds_of_julian_day(jd_ms)) == jd_ms,
        milliseconds_of_julian_day(julian_day_of_milliseconds(ms)) == ms,
{
}

/// The Modified Julian Day of an instant: the Julian Day shifted down by
/// 2 400 000.5 days, so that the count starts at a civil midnight.
pub open spec fn modified_julian_day_of(jd_ms: int) -> int {
    jd_ms - MJD_START_MS
}

/// Modified Julian Day of an instant, in milliseconds.
///
/// Fails exactly when the shifted value would fall below the representable
/// range; it can never exceed it.
pub fn get_modified_julian_day(jd_ms: i64) -> (r: Option<i64>)
    ensures
        r is Some <==> i64::MIN + MJD_START_MS <= jd_ms,
        r is Some ==> r->0 == modified_julian_day_of(jd_ms as int),
{
    jd_ms.checked_sub(MJD_START_MS)
}

/// The most recent civil midnight at or before an instant: half a day is
/// taken off, the result is floored to a whole day, and the half day is put
/// back.
pub open spec fn midnight_julian_day_of(jd_ms: int) -> int {
    ((jd_ms - HALF_DAY_MS) / (DAY_MS as int)) * (DAY_MS as int) + HALF_DAY_MS
}

/// Julian Day of the most recent civil midnight at or before the instant.
///
/// The result always sits half a day past a whole-day mark — the form an
/// integer day count plus one half takes on this grid — and the instant
/// itself falls within the day that starts there.
pub fn get_julian_day_midnight(jd_ms: i64) -> (r: i64)
    requires
        i64::MIN + DAY_MS <= jd_ms,
    ensures
        r == midnight_julian_day_of(jd_ms as int),
        r % DAY_MS == HALF_DAY_MS,
        r <= jd_ms < r + DAY_MS,
{
    let shifted: i128 = jd_ms as i128 - HALF_DAY_MS as i128;
    let days: i128 = shifted.checked_div_euclid(DAY_MS as i128).unwrap();
    proof {
        vstd::arithmetic::div_mod::lemma_fundamental_div_mod(
            shifted as int,
            DAY_MS as int,
        );
        vstd::arithmetic::div_mod::lemma_mod_bound(shifted as int, DAY_MS as int);
        vstd::arithmetic::div_mod::lemma_mod_multiples_vanish(
            days as int,
            HALF_DAY_MS as int,
            DAY_MS as int,
        );
        vstd::arithmetic::div_mod::lemma_small_mod(
            HALF_DAY_MS as nat,
            DAY_MS as nat,
        );
    }
    let midnight: i128 = days * (DAY_MS as i128) + HALF_DAY_MS as i128;
    midnight as i64
}

/// Julian centuries since the 2000 epoch, as an exact Euclidean division:
/// the whole number of centuries and the millisecond remainder into the
/// current century.
pub open spec fn julian_century_of(jd_ms: int) -> (int, int) {
    ((jd_ms - J2000_MS) / (CENTURY_MS as int), (jd_ms - J2000_MS) % (CENTURY_MS as int))
}

/// Whole Julian centuries since the 2000 epoch, with the millisecond
/// remainder into the running century. The pair determines the input
/// exactly: elapsed milliseconds = centuries x 36 525 days + remainder.
pub fn get_julian_century(jd_ms: i64) -> (r: (i64, i64))
    ensures
        jd_ms - J2000_MS == r.0 * CENTURY_MS + r.1,
        0 <= r.1 < CENTURY_MS,
        r.0 == julian_century_of(jd_ms as int).0,
        r.1 == julian_century_of(jd_ms as int).1,
{
    let elapsed: i128 = jd_ms as i128 - J2000_MS as i128;
    let q: i128 = elapsed.checked_div_euclid(CENTURY_MS as i128).unwrap();
    let r: i128 = elapsed.checked_rem_euclid(CENTURY_MS as i128).unwrap();
    proof {
        vstd::arithmetic::div_mod::lemma_fundamental_div_mod(
            elapsed as int,
            CENTURY_MS as int,
        );
        vstd::arithmetic::div_mod::lemma_mod_bound(elapsed as int, CENTURY_MS as int);
    }
    (q as i64, r as i64)
}

/// Julian millennia since the 2000 epoch, as an exact Euclidean division.
pub open spec fn julian_millennium_of(jd_ms: int) -> (int, int) {
    (
        (jd_ms - J2000_MS) / (MILLENNIUM_MS as int),
        (jd_ms - J2000_MS) % (MILLENNIUM_MS as int),
    )
}

/// Whole Julian millennia since the 2000 epoch, with the millisecond
/// remainder into the running millennium. The pair determines the input
/// exactly: elapsed milliseconds = millennia x 365 250 days + remainder.
pub fn get_julian_millennium(jd_ms: i64) -> (r: (i64, i64))
    ensures
        jd_ms - J2000_MS == r.0 * MILLENNIUM_MS + r.1,
        0 <= r.1 < MILLENNIUM_MS,
        r.0 == julian_millennium_of(jd_ms as int).0,
        r.1 == julian_millennium_of(jd_ms as int).1,
{
    let elapsed: i128 = jd_ms as i128 - J2000_MS as i128;
    let q: i128 = elapsed.checked_div_euclid(MILLENNIUM_MS as i128).unwrap();
    let r: i128 = elapsed.checked_rem_euclid(MILLENNIUM_MS as i128).unwrap();
    proof {
        vstd::arithmetic::div_mod::lemma_fundamental_div_mod(
            elapsed as int,
            MILLENNIUM_MS as int,
        );
        vstd::arithmetic::div_mod::lemma_mod_bound(elapsed as int, MILLENNIUM_MS as int);
    }
    (q as i64, r as i64)
}

/// Constant term of the Greenwich mean sidereal time polynomial: sidereal
/// time at the 2000 epoch, in nano-degrees (280.46061837 degrees).
pub const GMST_AT_J2000_NANODEG: i64 = 280_460_618_370;

/// Linear coefficient of the sidereal polynomial — the sidereal over solar
/// rate of 360.98564736629 degrees per day — scaled by 10^11 so that it is a
/// whole number of centi-nano-degrees per day.
pub const GMST_RATE_CENTINANODEG_PER_DAY: i64 = 36_098_564_736_629;

/// Divisor matching the linear coefficient's scale: milliseconds per day
/// times one hundred, taking centi-nano-degree-milliseconds to nano-degrees.
pub const GMST_RATE_DIVISOR: i64 = 8_640_000_000;

/// Quadratic coefficient of the sidereal polynomial: 0.000387933 degrees per
/// century squared is a whole number of nano-degrees.
pub const GMST_QUAD_NANODEG: i64 = 387_933;

/// Scale divisor for the quadratic term: centuries are carried in millionths,
/// so a squared century carries a factor of 10^12.
pub const MICRO_SQUARED: i64 = 1_000_000_000_000;

/// Divisor of the cubic term of the sidereal polynomial: 38 710 000 from the
/// polynomial itself, times 10^9 to cancel the cubed micro-century scale
/// against the nano-degree output.
pub const GMST_CUBIC_DIVISOR: i64 = 38_710_000_000_000_000;

/// Julian centuries since the 2000 epoch in millionths of a century, rounded
/// toward minus infinity.
pub open spec fn century_micro_of(jd_ms: int) -> int {
    ((jd_ms - J2000_MS) * 1_000_000) / (CENTURY_MS as int)
}

/// Greenwich mean sidereal time in nano-degrees, not yet wrapped into one
/// turn: the canonical cubic polynomial in time since the 2000 epoch. The
/// large linear rate multiplies the full day difference, not the truncated
/// century, which keeps sub-second accuracy; the two small correction terms
/// use the century in millionths. Every division rounds toward minus
/// infinity. The polynomial is an approximation whose accuracy degrades
/// beyond roughly two centuries from the 2000 epoch; distant inputs still
/// get an exact value of this polynomial, just a poorer model of the sky.
pub open spec fn gmst_nanodeg_of(jd_ms: int) -> int {
    let day_diff = jd_ms - J2000_MS;
    let t = century_micro_of(jd_ms);
    let t_squared = t * t;
    let t_cubed = t_squared * t;
    GMST_AT_J2000_NANODEG + (GMST_RATE_CENTINANODEG_PER_DAY * day_diff) / (
    GMST_RATE_DIVISOR as int) + (GMST_QUAD_NANODEG * t_squared) / (MICRO_SQUARED as int)
        - t_cubed / (GMST_CUBIC_DIVISOR as int)
}

/// Local mean sidereal time in nano-hours: Greenwich sidereal time plus the
/// east-positive observer longitude, wrapped into one turn of degrees, then
/// rescaled to hours (fifteen degrees per hour).
pub open spec fn local_sidereal_time_of(jd_ms: int, longitude_nanodeg: int) -> int {
    ((gmst_nanodeg_of(jd_ms) + longitude_nanodeg) % (FULL_TURN_NANODEG as int)) / (
    NANODEG_PER_NANOHOUR as int)
}

/// Local mean sidereal time of an instant for an observer at the given
/// east-positive longitude, in nano-hours within [0, 24 hours).
pub fn get_local_sidereal_time(jd_ms: i64, longitude_nanodeg: i64) -> (r: i64)
    ensures
        0 <= r < DAY_NANOHOURS,
        r == local_sidereal_time_of(jd_ms as int, longitude_nanodeg as int),
{
    let day_diff: i128 = jd_ms as i128 - J2000_MS as i128;
    let day_diff_micro: i128 = day_diff * 1_000_000;
    let t: i128 = day_diff_micro.checked_div_euclid(CENTURY_MS as i128).unwrap();
    proof {
        vstd::arithmetic::div_mod::lemma_fundamental_div_mod(
            day_diff_micro as int,
            CENTURY_MS as int,
        );
        vstd::arithmetic::div_mod::lemma_mod_bound(day_diff_micro as int, CENTURY_MS as int);
        assert(-3_100_000_000_000 <= t as int <= 3_100_000_000_000);
        assert((t as int) * (t as int) <= 9_610_000_000_000_000_000_000_000 && 0 <= (t as int)
            * (t as int)) by (nonlinear_arith)
            requires
                -3_100_000_000_000 <= t as int <= 3_100_000_000_000,
        ;
    }
    let t_squared: i128 = t * t;
    proof {
        assert(-29_791_000_000_000_000_000_000_000_000_000_000_000 <= (t_squared as int) * (
        t as int) <= 29_791_000_000_000_000_000_000_000_000_000_000_000) by (nonlinear_arith)
            requires
                0 <= t_squared as int <= 9_610_000_000_000_000_000_000_000,
                -3_100_000_000_000 <= t as int <= 3_100_000_000_000,
        ;
    }
    let t_cubed: i128 = t_squared * t;
    proof {
        assert(-350_000_000_000_000_000_000_000_000_000_000 <= (
        GMST_RATE_CENTINANODEG_PER_DAY as int) * (day_diff as int)
            <= 350_000_000_000_000_000_000_000_000_000_000) by (nonlinear_arith)
            requires
                -9_500_000_000_000_000_000 <= day_diff as int <= 9_500_000_000_000_000_000,
        ;
        assert(0 <= (GMST_QUAD_NANODEG as int) * (t_squared as int)
            <= 3_800_000_000_000_000_000_000_000_000_000) by (nonlinear_arith)
            requires
                0 <= t_squared as int <= 9_610_000_000_000_000_000_000_000,
        ;
    }
    let linear: i128 = (GMST_RATE_CENTINANODEG_PER_DAY as i128 * day_diff).checked_div_euclid(
        GMST_RATE_DIVISOR as i128,
    ).unwrap();
    let quad: i128 = (GMST_QUAD_NANODEG as i128 * t_squared).checked_div_euclid(
        MICRO_SQUARED as i128,
    ).unwrap();
    let cubic: i128 = t_cubed.checked_div_euclid(GMST_CUBIC_DIVISOR as i128).unwrap();
    let gmst: i128 = GMST_AT_J2000_NANODEG as i128 + linear + quad - cubic;
    let wrapped: i128 = (gmst + longitude_nanodeg as i128).checked_rem_euclid(
        FULL_TURN_NANODEG as i128,
    ).unwrap();
    proof {
        vstd::arithmetic::div_mod::lemma_mod_bound(
            (gmst + longitude_nanodeg) as int,
            FULL_TURN_NANODEG as int,
        );
    }
    let hours: i128 = wrapped.checked_div_euclid(NANODEG_PER_NANOHOUR as i128).unwrap();
    hours as i64
}

/// Julian-century linearity: the 2000 epoch itself lies at century zero with
/// no remainder, and moving any instant forward by exactly one century of
/// milliseconds raises the century count by one and leaves the remainder
/// unchanged.
pub proof fn lemma_julian_century_linearity(jd_ms: int)
    ensures
        julian_century_of(J2000_MS as int) == (0int, 0int),
        julian_century_of(jd_ms + CENTURY_MS).0 == julian_century_of(jd_ms).0 + 1,
        julian_century_of(jd_ms + CENTURY_MS).1 == julian_century_of(jd_ms).1,
{
    vstd::arithmetic::div_mod::lemma_small_mod(0nat, CENTURY_MS as nat);
    vstd::arithmetic::div_mod::lemma_div_plus_one(jd_ms - J2000_MS, CENTURY_MS as int);
    vstd::arithmetic::div_mod::lemma_mod_multiples_vanish(
        1,
        jd_ms - J2000_MS,
        CENTURY_MS as int,
    );
}

} // verus!
