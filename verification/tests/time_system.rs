use sidereal::constants::CENTURY_MS;
use sidereal::constants::DAY_MS;
use sidereal::constants::HALF_DAY_MS;
use sidereal::constants::J2000_MS;
use sidereal::constants::MILLENNIUM_MS;
use sidereal::juliandays::get_julian_century;
use sidereal::juliandays::get_julian_day;
use sidereal::juliandays::get_julian_day_midnight;
use sidereal::juliandays::get_julian_millennium;
use sidereal::juliandays::get_milliseconds;
use sidereal::juliandays::get_modified_julian_day;

#[test]
fn epoch_constants() {
    assert_eq!(sidereal::constants::j1970(), 2_440_588 * DAY_MS);
    assert_eq!(sidereal::constants::j2000(), 2_451_545 * DAY_MS);
    assert_eq!(J2000_MS, 211_813_488_000_000);
}

#[test]
fn milliseconds_of_j2000() {
    // 2000-01-01 12:00 UTC is 946 728 000 seconds after the Unix epoch.
    assert_eq!(get_milliseconds(J2000_MS), Some(946_728_000_000));
}

#[test]
fn milliseconds_round_trip() {
    for jd_ms in [0, J2000_MS, J2000_MS + 1, -5_000_000_000_000, 987_654_321_012_345] {
        let ms = get_milliseconds(jd_ms).unwrap();
        assert_eq!(get_julian_day(ms), Some(jd_ms));
    }
    let ms = -123_456_789_000;
    assert_eq!(get_milliseconds(get_julian_day(ms).unwrap()), Some(ms));
}

#[test]
fn milliseconds_range_error() {
    assert_eq!(get_milliseconds(i64::MIN), None);
    assert!(get_milliseconds(i64::MIN + 210_866_760_000_000).is_some());
    assert_eq!(get_julian_day(i64::MAX), None);
    assert!(get_julian_day(i64::MAX - 210_866_760_000_000).is_some());
}

#[test]
fn modified_julian_day_of_j2000() {
    // MJD of the 2000 epoch is 51 544.5 days.
    assert_eq!(get_modified_julian_day(J2000_MS), Some(4_453_444_800_000));
    assert_eq!(4_453_444_800_000 % DAY_MS, HALF_DAY_MS);
    assert_eq!(get_modified_julian_day(i64::MIN), None);
}

#[test]
fn midnight_before_noon_instant() {
    // One millisecond past the J2000 noon belongs to the day that began half
    // a day earlier.
    let m = get_julian_day_midnight(J2000_MS + 1);
    assert_eq!(m, J2000_MS - HALF_DAY_MS);
}

#[test]
fn midnight_is_integer_plus_half() {
    for jd_ms in [0, 1, -1, J2000_MS, J2000_MS + HALF_DAY_MS, -987_654_321] {
        let m = get_julian_day_midnight(jd_ms);
        assert_eq!(m.rem_euclid(DAY_MS), HALF_DAY_MS);
        assert!(m <= jd_ms && jd_ms < m + DAY_MS);
    }
}

#[test]
fn midnight_of_exact_midnight_is_itself() {
    let midnight = J2000_MS + HALF_DAY_MS;
    assert_eq!(get_julian_day_midnight(midnight), midnight);
}

#[test]
fn julian_century_linearity() {
    assert_eq!(get_julian_century(J2000_MS), (0, 0));
    assert_eq!(get_julian_century(J2000_MS + CENTURY_MS), (1, 0));
    assert_eq!(CENTURY_MS, 36_525 * DAY_MS);
}

#[test]
fn julian_century_negative_side() {
    // One millisecond before the epoch already lies in century minus one.
    assert_eq!(get_julian_century(J2000_MS - 1), (-1, CENTURY_MS - 1));
}

#[test]
fn julian_millennium_values() {
    assert_eq!(get_julian_millennium(J2000_MS), (0, 0));
    assert_eq!(get_julian_millennium(J2000_MS + MILLENNIUM_MS), (1, 0));
    assert_eq!(get_julian_millennium(J2000_MS - 1), (-1, MILLENNIUM_MS - 1));
    assert_eq!(MILLENNIUM_MS, 365_250 * DAY_MS);
}
