//! Angle normalization by true mathematical modulo.
//!
//! Both functions wrap an arbitrary fixed-point value into the canonical
//! range by the Euclidean remainder, so a negative input still lands in the
//! non-negative target range: minus ten degrees normalizes to 350 degrees.

use vstd::prelude::*;

use crate::constants::DAY_NANOHOURS;
use crate::constants::FULL_TURN_NANODEG;

verus! {

/// Wrap a nano-degree angle into [0, 360 degrees).
///
/// The result is the mathematical remainder of the input modulo a full turn:
/// it lies in the canonical range and is congruent to the input.
pub fn normalize_degrees(x: i64) -> (r: i64)
    ensures
        0 <= r < FULL_TURN_NANODEG,
        r == x as int % (FULL_TURN_NANODEG as int),
{
    x.checked_rem_euclid(FULL_TURN_NANODEG).unwrap()
}

/// Wrap a nano-hour time-of-day into [0, 24 hours).
///
/// The result is the mathematical remainder of the input modulo a full day:
/// it lies in the canonical range and is congruent to the input.
pub fn normalize_hours(x: i64) -> (r: i64)
    ensures
        0 <= r < DAY_NANOHOURS,
        r == x as int % (DAY_NANOHOURS as int),
{
    x.checked_rem_euclid(DAY_NANOHOURS).unwrap()
}

/// The normalized angle is congruent to its input: the two differ by a whole
/// number of turns, and every value already in the canonical range is left
/// unchanged.
pub proof fn lemma_normalize_congruent(x: int, m: int)
    requires
        0 < m,
    ensures
        0 <= x % m < m,
        (x - x % m) % m == 0,
        0 <= x < m ==> x % m == x,
{
    vstd::arithmetic::div_mod::lemma_fundamental_div_mod(x, m);
    vstd::arithmetic::div_mod::lemma_mod_multiples_vanish(x / m, 0, m);
    vstd::arithmetic::div_mod::lemma_small_mod(0nat, m as nat);
    assert(x - x % m == m * (x / m));
    if 0 <= x < m {
        vstd::arithmetic::div_mod::lemma_small_mod(x as nat, m as nat);
    }
}

} // verus!
