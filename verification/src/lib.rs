//! A celestial coordinate engine for a real-time night-sky backdrop.
//!
//! A fixed star catalog, given in galactic coordinates, is converted once at
//! startup into equatorial coordinates and baked into a GPU-ready byte
//! buffer.  Each frame, an observer configuration (orientation, time origin,
//! time scale) and the elapsed simulated time are combined into a sky
//! uniform: a rotation to the observer's frame plus the current mean
//! sidereal angle.  A pipeline-variant cache and a per-view draw planner
//! decide what is drawn.
//!
//! All time and angle arithmetic is carried out in exact fixed-point units
//! (milliseconds of time; a subdivision of the degree chosen so that one
//! degree and the mean sidereal rate per millisecond are both whole numbers
//! of units), so every stated property is exact.  The spherical
//! trigonometry that produces the floating-point coordinate values, and the
//! GPU calls themselves, live with the host application; this crate fixes
//! the decisions, the guards, and the byte layouts.

pub mod astro;
pub mod catalog;
pub mod drawpass;
pub mod frame;
pub mod pipeline;
pub mod uniform;

use vstd::prelude::*;

verus! {

/// Byte stride of one star record in the catalog blob and the GPU buffer:
/// two 32-bit coordinate words plus two reserved words.
pub const STAR_STRIDE_BYTES: usize = 16;

} // verus!
