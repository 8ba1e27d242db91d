//! Coordinate and scaling engine for a periodic high/low bar chart.
//!
//! The engine turns per-period observations (a high and a low value per
//! bucket) together with a known value range into pixel-space geometry and
//! axis labels.  All arithmetic is exact: a pixel quantity such as
//! pixels-per-unit is the rational `axis_height / span`, carried as an
//! integer numerator over the denominator `span`, and rounded only where a
//! final pixel coordinate is produced.

use vstd::prelude::*;

pub mod chart;
pub mod geometry;
pub mod granularity;
pub mod grid;
pub mod labels;
pub mod layout;
pub mod range;
pub mod report;
pub mod text;

verus! {

/// Largest canvas dimension in pixels that the engine accepts.  Together
/// with `VALUE_LIMIT` it keeps every intermediate pixel numerator inside
/// `i64` and every final pixel coordinate inside `i32`.
pub const DIM_LIMIT: i32 = 30_000;

/// Largest magnitude of an observed value (the width of a 16-bit signed
/// column, the widest a data source hands this engine).
pub const VALUE_LIMIT: i32 = 32_767;

/// Bound on the endpoints of a padded range: `VALUE_LIMIT` plus the fixed
/// padding, rounded up.
pub const RANGE_LIMIT: i32 = 33_000;

/// Everything that can go wrong while building a render plan.
///
/// `InvalidRange` is fatal: no geometry can be produced.  The other
/// conditions degrade to a partial render and are reported, never raised.
#[derive(Clone, Copy, Debug, PartialEq, Eq, Structural)]
pub enum ChartError {
    /// The padded value range has no positive span.
    InvalidRange,
    /// The granularity token names no supported bucketing scheme.
    UnsupportedGranularity,
    /// The data source answered with an empty observation set.
    NoData,
    /// The data source could not be reached at all.
    SourceUnavailable,
}

} // verus!
