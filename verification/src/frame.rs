//! The observer's configuration and the per-frame sky uniform value.
//!
//! An `ObserverFrame` holds the mapping from the application's local frame
//! to Earth-fixed axes — either a precomputed rotation matrix (its entries
//! carried as IEEE-754 single-precision bit patterns, which this engine
//! never interprets) or geodetic latitude, longitude and heading in
//! microdegrees, from which the host derives an equivalent rotation every
//! frame — plus the simulation's time origin (milliseconds after Julian
//! Date 0.0) and a dimensionless time scale in thousandths.
//!
//! Each frame, `build_sky_uniform` combines a snapshot of the frame with
//! the elapsed simulated milliseconds into one value holding the
//! orientation and the current mean sidereal angle; both parts are
//! produced together by a single call, so they can never be out of step.

use vstd::prelude::*;
use vstd::arithmetic::div_mod::lemma_div_by_multiple;
use crate::astro;

verus! {

/// IEEE-754 single-precision bit pattern of 1.0.
pub const F32_ONE_BITS: u32 = 1_065_353_216;

/// IEEE-754 single-precision bit pattern of +0.0.
pub const F32_ZERO_BITS: u32 = 0;

/// Time scale in thousandths that runs simulated time at the real rate.
pub const TIME_SCALE_REAL_TIME: u64 = 1000;

/// A 3x3 rotation matrix whose entries are carried as IEEE-754
/// single-precision bit patterns.  Row r, column c is field `e<r><c>`.
/// The engine passes these bits through to the GPU payload unchanged.
#[derive(Clone, Copy, PartialEq, Eq, Structural, Debug)]
pub struct Mat3Bits {
    pub e00: u32,
    pub e01: u32,
    pub e02: u32,
    pub e10: u32,
    pub e11: u32,
    pub e12: u32,
    pub e20: u32,
    pub e21: u32,
    pub e22: u32,
}

impl Mat3Bits {
    /// The identity rotation.
    pub fn identity() -> (r: Mat3Bits)
        ensures
            r == (Mat3Bits {
                e00: F32_ONE_BITS,
                e01: F32_ZERO_BITS,
                e02: F32_ZERO_BITS,
                e10: F32_ZERO_BITS,
                e11: F32_ONE_BITS,
                e12: F32_ZERO_BITS,
                e20: F32_ZERO_BITS,
                e21: F32_ZERO_BITS,
                e22: F32_ONE_BITS,
            }),
    {
        Mat3Bits {
            e00: F32_ONE_BITS,
            e01: F32_ZERO_BITS,
            e02: F32_ZERO_BITS,
            e10: F32_ZERO_BITS,
            e11: F32_ONE_BITS,
            e12: F32_ZERO_BITS,
            e20: F32_ZERO_BITS,
            e21: F32_ZERO_BITS,
            e22: F32_ONE_BITS,
        }
    }
}

/// How the observer's rotation to Earth-fixed axes is given: either a
/// precomputed matrix, or geodetic parameters in microdegrees from which
/// the host derives the matrix each frame (composing longitude, then
/// latitude, then heading), so that live edits take effect immediately.
#[derive(Clone, Copy, PartialEq, Eq, Structural, Debug)]
pub enum Orientation {
    Matrix { m: Mat3Bits },
    Geodetic { latitude_udeg: i64, longitude_udeg: i64, heading_udeg: i64 },
}

/// The observer's configuration: orientation, time origin and time scale.
/// Created once at startup, freely mutated by the host, and read once per
/// frame through `snapshot`.
#[derive(Clone, Copy, PartialEq, Eq, Structural, Debug)]
pub struct ObserverFrame {
    /// Mapping from application-space axes to Earth-fixed axes.
    pub orientation: Orientation,
    /// Time origin, in milliseconds after Julian Date 0.0.
    pub origin_ms: u64,
    /// Dimensionless time scale, in thousandths: 0 freezes the sky, 1000
    /// runs it at the real rate, larger values fast-forward it.
    pub time_scale_milli: u64,
}

impl Default for ObserverFrame {
    /// An identity orientation with the origin at the J2000.0 epoch and
    /// time running at the real rate.
    fn default() -> (r: ObserverFrame)
        ensures
            r.orientation matches Orientation::Matrix { m } && m == (Mat3Bits {
                e00: F32_ONE_BITS,
                e01: F32_ZERO_BITS,
                e02: F32_ZERO_BITS,
                e10: F32_ZERO_BITS,
                e11: F32_ONE_BITS,
                e12: F32_ZERO_BITS,
                e20: F32_ZERO_BITS,
                e21: F32_ZERO_BITS,
                e22: F32_ONE_BITS,
            }),
            r.origin_ms == astro::J2000_EPOCH_MS,
            r.time_scale_milli == TIME_SCALE_REAL_TIME,
    {
        ObserverFrame {
            orientation: Orientation::Matrix { m: Mat3Bits::identity() },
            origin_ms: astro::J2000_EPOCH_MS,
            time_scale_milli: TIME_SCALE_REAL_TIME,
        }
    }
}

impl ObserverFrame {
    /// Replace the orientation by a precomputed rotation matrix.
    pub fn set_matrix(&mut self, m: Mat3Bits)
        ensures
            final (self).orientation == (Orientation::Matrix { m }),
            final (self).origin_ms == old(self).origin_ms,
            final (self).time_scale_milli == old(self).time_scale_milli,
    {
        self.orientation = Orientation::Matrix { m };
    }

    /// Replace the orientation by geodetic parameters in microdegrees.
    pub fn set_geodetic(&mut self, latitude_udeg: i64, longitude_udeg: i64, heading_udeg: i64)
        ensures
            final (self).orientation == (Orientation::Geodetic {
                latitude_udeg,
                longitude_udeg,
                heading_udeg,
            }),
            final (self).origin_ms == old(self).origin_ms,
            final (self).time_scale_milli == old(self).time_scale_milli,
    {
        self.orientation = Orientation::Geodetic { latitude_udeg, longitude_udeg, heading_udeg };
    }

    /// Move the simulation's time origin.
    pub fn set_origin_ms(&mut self, origin_ms: u64)
        ensures
            final (self).origin_ms == origin_ms,
            final (self).orientation == old(self).orientation,
            final (self).time_scale_milli == old(self).time_scale_milli,
    {
        self.origin_ms = origin_ms;
    }

    /// Change the time scale, in thousandths.
    pub fn set_time_scale_milli(&mut self, time_scale_milli: u64)
        ensures
            final (self).time_scale_milli == time_scale_milli,
            final (self).orientation == old(self).orientation,
            final (self).origin_ms == old(self).origin_ms,
    {
        self.time_scale_milli = time_scale_milli;
    }

    /// The per-frame copy of the configuration: the render side works on
    /// this snapshot, so later edits by the host cannot tear a frame.
    pub fn snapshot(&self) -> (r: ObserverFrame)
        ensures
            r == *self,
    {
        *self
    }
}

/// The simulated instant reached from `origin_ms` after `elapsed_ms`
/// simulated milliseconds at `scale_milli` thousandths of real rate:
/// milliseconds are whole, so the scaled elapsed time is truncated to the
/// millisecond.
pub open spec fn spec_effective_time(origin_ms: int, scale_milli: int, elapsed_ms: int) -> int {
    origin_ms + (scale_milli * elapsed_ms) / 1000
}

/// The simulated instant for a frame, or `None` exactly when it lies
/// beyond the representable range of milliseconds.
pub fn effective_time_ms(origin_ms: u64, scale_milli: u64, elapsed_ms: u64) -> (r: Option<u64>)
    ensures
        spec_effective_time(origin_ms as int, scale_milli as int, elapsed_ms as int) <= u64::MAX
            ==> r == Some(
            spec_effective_time(origin_ms as int, scale_milli as int, elapsed_ms as int) as u64,
        ),
        spec_effective_time(origin_ms as int, scale_milli as int, elapsed_ms as int) > u64::MAX
            ==> r is None,
{
    proof {
        assert((scale_milli as int) * (elapsed_ms as int) <= 0xffff_ffff_ffff_ffffi128
            * 0xffff_ffff_ffff_ffffi128) by (nonlinear_arith)
            requires
                scale_milli <= 0xffff_ffff_ffff_ffffu64,
                elapsed_ms <= 0xffff_ffff_ffff_ffffu64,
        ;
    }
    let advance: u128 = (scale_milli as u128) * (elapsed_ms as u128) / 1000;
    let total: u128 = (origin_ms as u128) + advance;
    if total <= u64::MAX as u128 {
        Some(total as u64)
    } else {
        None
    }
}

/// The sky uniform's value for one frame: the observer's orientation and
/// the mean sidereal angle, assembled together by one call.
#[derive(Clone, Copy, PartialEq, Eq, Structural, Debug)]
pub struct SkyUniformValue {
    /// The orientation exactly as the snapshot held it; the host turns a
    /// geodetic orientation into matrix bits before packing.
    pub orientation: Orientation,
    /// The mean sidereal angle at the frame's simulated instant, in angle
    /// units, in `[0, FULL_TURN_UNITS)`.
    pub sidereal_units: u128,
}

/// Build the sky uniform's value for one frame from a snapshot of the
/// observer's configuration and the elapsed simulated milliseconds.
/// Returns `None` exactly when the simulated instant overflows the
/// representable range — the host treats that as an input fault, as it
/// would a non-finite time.
pub fn build_sky_uniform(frame: &ObserverFrame, elapsed_ms: u64) -> (r: Option<SkyUniformValue>)
    ensures
        ({
            let t = spec_effective_time(
                frame.origin_ms as int,
                frame.time_scale_milli as int,
                elapsed_ms as int,
            );
            &&& t <= u64::MAX ==> r == Some(
                SkyUniformValue {
                    orientation: frame.orientation,
                    sidereal_units: astro::mean_sidereal_units(t) as u128,
                },
            )
            &&& t > u64::MAX ==> r is None
        }),
{
    match effective_time_ms(frame.origin_ms, frame.time_scale_milli, elapsed_ms) {
        Some(t) => {
            let sidereal: u128 = astro::mean_sidereal_time(t);
            Some(SkyUniformValue { orientation: frame.orientation, sidereal_units: sidereal })
        },
        None => None,
    }
}

/// A time scale of zero freezes the sky: whatever simulated time elapses,
/// the frame's simulated instant stays at the origin, so the sidereal
/// angle never moves.
pub proof fn lemma_time_scale_zero_freezes(origin_ms: int, elapsed_a: int, elapsed_b: int)
    requires
        0 <= origin_ms,
        0 <= elapsed_a,
        0 <= elapsed_b,
    ensures
        spec_effective_time(origin_ms, 0, elapsed_a) == origin_ms,
        astro::mean_sidereal_units(spec_effective_time(origin_ms, 0, elapsed_a))
            == astro::mean_sidereal_units(spec_effective_time(origin_ms, 0, elapsed_b)),
{
    assert(0int * elapsed_a == 0) by (nonlinear_arith);
    assert(0int * elapsed_b == 0) by (nonlinear_arith);
}

/// A time scale of one (1000 thousandths) advances the sky at the real
/// mean sidereal rate: the simulated instant is the origin plus the
/// elapsed milliseconds, and the sidereal angle advances by exactly the
/// rate times the elapsed time, modulo a full turn.
pub proof fn lemma_time_scale_one_real_rate(origin_ms: int, elapsed_ms: int)
    requires
        0 <= origin_ms,
        0 <= elapsed_ms,
    ensures
        spec_effective_time(origin_ms, 1000, elapsed_ms) == origin_ms + elapsed_ms,
        astro::mean_sidereal_units(spec_effective_time(origin_ms, 1000, elapsed_ms)) == (
        astro::mean_sidereal_units(origin_ms) + (astro::SIDEREAL_RATE_UNITS_PER_MS * elapsed_ms) % (
        astro::FULL_TURN_UNITS as int)) % (astro::FULL_TURN_UNITS as int),
{
    lemma_div_by_multiple(elapsed_ms, 1000);
    assert(1000 * elapsed_ms == elapsed_ms * 1000) by (nonlinear_arith);
    astro::lemma_sidereal_advance(origin_ms, elapsed_ms);
}

/// At the real rate, the sky returns exactly to its starting aspect
/// whenever the elapsed time advances the sidereal angle by whole
/// turns: running one such span from any origin ends with the sidereal
/// angle the simulation started with.
pub proof fn lemma_real_rate_returns_after_whole_turns(origin_ms: int, d_ms: int)
    requires
        0 <= origin_ms,
        0 <= d_ms,
        (astro::SIDEREAL_RATE_UNITS_PER_MS * d_ms) % (astro::FULL_TURN_UNITS as int) == 0,
    ensures
        astro::mean_sidereal_units(spec_effective_time(origin_ms, 1000, d_ms))
            == astro::mean_sidereal_units(spec_effective_time(origin_ms, 1000, 0)),
{
    lemma_time_scale_one_real_rate(origin_ms, d_ms);
    lemma_time_scale_one_real_rate(origin_ms, 0);
    astro::lemma_sidereal_periodic(origin_ms, d_ms);
}

} // verus!
