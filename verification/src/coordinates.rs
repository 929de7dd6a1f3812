//! Coordinate carriers on the nano-degree grid, and the degenerate branch of
//! the parallactic angle.

use vstd::prelude::*;

use crate::constants::HALF_TURN_NANODEG;
use crate::constants::FULL_TURN_NANODEG;
use crate::constants::QUARTER_TURN_NANODEG;
use crate::constants::THREE_QUARTER_TURN_NANODEG;
use crate::normalize::normalize_degrees;

verus! {

/// A position on the celestial sphere: right ascension and declination, in
/// nano-degrees. Right ascension conventionally lies in [0, 360 degrees) and
/// declination in [-90, 90 degrees]; the type does not enforce the
/// convention, the caller keeps it.
#[derive(Clone, Copy, Debug, PartialEq, Eq, Structural)]
pub struct EquatorialCoordinates {
    pub right_ascension: i64,
    pub declination: i64,
}

/// A place on Earth: east-positive longitude and latitude, in nano-degrees.
/// The same non-enforcement note applies.
#[derive(Clone, Copy, Debug, PartialEq, Eq, Structural)]
pub struct GeographicCoordinates {
    pub longitude: i64,
    pub latitude: i64,
}

/// Whether a declination points exactly at a celestial pole: plus or minus a
/// quarter turn, up to whole turns. There the cosine of the declination
/// vanishes and the hour-angle formula for the parallactic angle is
/// undefined.
pub open spec fn at_celestial_pole(declination_nanodeg: int) -> bool {
    declination_nanodeg % (FULL_TURN_NANODEG as int) == QUARTER_TURN_NANODEG
        || declination_nanodeg % (FULL_TURN_NANODEG as int) == THREE_QUARTER_TURN_NANODEG
}

/// The parallactic angle in its degenerate branch, in nano-degrees.
///
/// For an object exactly at a celestial pole the angle is a fixed two-way
/// choice on the observer's hemisphere: half a turn for a northern or
/// equatorial observer, zero for a southern one. Away from the poles the
/// result is `None`: there the angle is a trigonometric function of the hour
/// angle, which lies outside this exact core.
pub fn parallactic_angle_at_pole(
    equ: &EquatorialCoordinates,
    geo: &GeographicCoordinates,
) -> (r: Option<i64>)
    ensures
        r is Some <==> at_celestial_pole(equ.declination as int),
        at_celestial_pole(equ.declination as int) ==> r == Some(
            if geo.latitude >= 0 {
                HALF_TURN_NANODEG
            } else {
                0i64
            },
        ),
{
    let wrapped = normalize_degrees(equ.declination);
    if wrapped == QUARTER_TURN_NANODEG || wrapped == THREE_QUARTER_TURN_NANODEG {
        if geo.latitude >= 0 {
            Some(HALF_TURN_NANODEG)
        } else {
            Some(0)
        }
    } else {
        None
    }
}

} // verus!
