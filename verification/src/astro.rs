//! Mean sidereal time in exact fixed-point arithmetic.
//!
//! Angles are measured in "angle units": one degree is
//! `UNITS_PER_DEGREE` units.  The unit is chosen so that both one degree
//! and the mean sidereal advance per millisecond are whole numbers of
//! units, which makes the sidereal angle an exact linear congruence of the
//! time and lets its properties be stated and proved exactly.
//!
//! Time is measured in milliseconds after Julian Date 0.0.  The engine
//! uses the mean (constant-rate) sidereal model: the angle advances by
//! exactly `SIDEREAL_RATE_UNITS_PER_MS` units per millisecond and is
//! normalized into `[0, FULL_TURN_UNITS)`.

use vstd::prelude::*;
use vstd::arithmetic::div_mod::{lemma_add_mod_noop, lemma_mod_equivalence, lemma_small_mod};

verus! {

/// One degree, in angle units.
pub const UNITS_PER_DEGREE: u128 = 8_640_000_000_000_000_000;

/// A full turn of 360 degrees, in angle units.
pub const FULL_TURN_UNITS: u128 = 3_110_400_000_000_000_000_000;

/// The mean sidereal rate, 360.98564736629 degrees per day, expressed
/// exactly in angle units per millisecond.
pub const SIDEREAL_RATE_UNITS_PER_MS: u128 = 36_098_564_736_629;

/// Milliseconds from Julian Date 0.0 to the J2000.0 epoch, JD 2451545.0
/// (2000 Jan 1, 12h UT): 2451545 days of 86_400_000 ms.
pub const J2000_EPOCH_MS: u64 = 211_813_488_000_000;

/// Greenwich mean sidereal time at the J2000.0 epoch, 280.46061837
/// degrees, in angle units.
pub const GMST_AT_J2000_UNITS: u128 = 2_423_179_742_716_800_000_000;

/// Greenwich mean sidereal time at Julian Date 0.0, in angle units.
/// Chosen so that advancing from JD 0.0 to the J2000.0 epoch at the mean
/// sidereal rate lands exactly on `GMST_AT_J2000_UNITS`
/// (see `lemma_sidereal_j2000_anchor`).
pub const GMST_AT_JD0_UNITS: u128 = 2_087_320_552_864_848_000_000;

/// The mean sidereal angle, in angle units, `t_ms` milliseconds after
/// Julian Date 0.0: a linear congruence, normalized into a full turn.
pub open spec fn mean_sidereal_units(t_ms: int) -> int {
    (GMST_AT_JD0_UNITS + SIDEREAL_RATE_UNITS_PER_MS * t_ms) % (FULL_TURN_UNITS as int)
}

/// Greenwich mean sidereal time at `t_ms` milliseconds after Julian
/// Date 0.0, in angle units, normalized into `[0, FULL_TURN_UNITS)`.
pub fn mean_sidereal_time(t_ms: u64) -> (r: u128)
    ensures
        r == mean_sidereal_units(t_ms as int),
        r < FULL_TURN_UNITS,
{
    (GMST_AT_JD0_UNITS + SIDEREAL_RATE_UNITS_PER_MS * (t_ms as u128)) % FULL_TURN_UNITS
}

/// An angle in units, truncated to units of 1e-7 degree — the resolution
/// used when the angle is handed to the host for display or conversion.
pub fn angle_units_to_degrees_e7(units: u128) -> (r: u64)
    requires
        units < FULL_TURN_UNITS,
    ensures
        r == units as int / 864_000_000_000int,
        r < 3_600_000_000u64,
{
    (units / 864_000_000_000) as u64
}

/// At the J2000.0 epoch the mean sidereal angle is exactly the reference
/// value of 280.46061837 degrees.
pub proof fn lemma_sidereal_j2000_anchor()
    ensures
        mean_sidereal_units(J2000_EPOCH_MS as int) == GMST_AT_J2000_UNITS,
{
}

/// The sidereal angle after an advance depends only on the angle before
/// it and on the elapsed time: the angle advances by exactly the mean
/// sidereal rate times the elapsed milliseconds, modulo a full turn.
pub proof fn lemma_sidereal_advance(t_ms: int, d_ms: int)
    requires
        0 <= t_ms,
        0 <= d_ms,
    ensures
        mean_sidereal_units(t_ms + d_ms) == (mean_sidereal_units(t_ms)
            + (SIDEREAL_RATE_UNITS_PER_MS * d_ms) % (FULL_TURN_UNITS as int)) % (
        FULL_TURN_UNITS as int),
{
    let m = FULL_TURN_UNITS as int;
    let x = GMST_AT_JD0_UNITS + SIDEREAL_RATE_UNITS_PER_MS * t_ms;
    let y = SIDEREAL_RATE_UNITS_PER_MS * d_ms;
    lemma_add_mod_noop(x, y, m);
    lemma_small_mod((x % m) as nat, m as nat);
}

/// The sidereal angle is periodic: whenever the elapsed time advances the
/// angle by a whole number of turns, the angle returns exactly to its
/// starting value.  One mean sidereal day (86_164_090.530832 ms) advances
/// the angle by one turn to within the fixed-point resolution.
pub proof fn lemma_sidereal_periodic(t_ms: int, d_ms: int)
    requires
        0 <= t_ms,
        0 <= d_ms,
        (SIDEREAL_RATE_UNITS_PER_MS * d_ms) % (FULL_TURN_UNITS as int) == 0,
    ensures
        mean_sidereal_units(t_ms + d_ms) == mean_sidereal_units(t_ms),
{
    let m = FULL_TURN_UNITS as int;
    lemma_sidereal_advance(t_ms, d_ms);
    lemma_small_mod(mean_sidereal_units(t_ms) as nat, m as nat);
}

/// Two instants show the same sidereal angle exactly when the mean rate
/// times the time between them is a whole number of turns: the angle
/// distinguishes instants precisely up to whole sidereal revolutions.
pub proof fn lemma_sidereal_equal_iff_whole_turns(t1_ms: int, t2_ms: int)
    requires
        0 <= t1_ms,
        0 <= t2_ms,
    ensures
        mean_sidereal_units(t1_ms) == mean_sidereal_units(t2_ms) <==> (SIDEREAL_RATE_UNITS_PER_MS
            * (t2_ms - t1_ms)) % (FULL_TURN_UNITS as int) == 0,
{
    let m = FULL_TURN_UNITS as int;
    let x = GMST_AT_JD0_UNITS + SIDEREAL_RATE_UNITS_PER_MS * t1_ms;
    let y = GMST_AT_JD0_UNITS + SIDEREAL_RATE_UNITS_PER_MS * t2_ms;
    lemma_mod_equivalence(y, x, m);
}

} // verus!
