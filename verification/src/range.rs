//! Range calculator: derives the padded value range of one render from the
//! long-run extremes of the series, together with the scaling and
//! zero-reference data every later stage needs.
//!
//! Pixels-per-unit is the exact rational `axis_height / span`; the zero
//! offset is likewise kept as an integer numerator over the denominator
//! `span`, so no precision is lost before final rounding.

use vstd::prelude::*;
use crate::ChartError;
use crate::DIM_LIMIT;
use crate::RANGE_LIMIT;
use crate::VALUE_LIMIT;

verus! {

/// Which side of zero the padded range starts on.  The branch decides the
/// additive correction the geometry mapper applies.
#[derive(Clone, Copy, Debug, PartialEq, Eq, Structural)]
pub enum ZeroBranch {
    /// `lowest < 0`: the baseline sits below zero.
    BelowZero,
    /// `lowest == 0`: the baseline is exactly zero.
    AtZero,
    /// `lowest > 0`: the whole range is positive, zero lies under the
    /// visible axis.
    AboveZero,
}

/// Numerator of the zero-offset in pixels over the denominator `span`:
/// the signed vertical pixel distance from the axis baseline to the
/// logical zero value, with the corrections the mapper expects.
pub open spec fn spec_zero_offset_num(lowest: int, axis_height: int) -> int {
    if lowest < 0 {
        -lowest * axis_height
    } else if lowest == 0 {
        0
    } else {
        (-lowest - 1) * axis_height
    }
}

/// The exact `ValueRange` that `ValueRange::compute` builds from the
/// given extremes and axis height, at the specification level.
pub open spec fn spec_value_range(known_low: int, known_high: int, axis_height: int) -> ValueRange {
    ValueRange {
        lowest: (known_low - 10) as i32,
        highest: (known_high + 5) as i32,
        span: ((known_high + 5) - (known_low - 10)) as i32,
        axis_height: axis_height as i32,
        zero_offset_num: spec_zero_offset_num(known_low - 10, axis_height) as i64,
    }
}

/// The padded value range of one render plus the data derived from it.
/// `pixels-per-unit` is `axis_height / span`; `zero_offset_num / span` is
/// the zero offset in pixels.
#[derive(Clone, Copy, Debug, PartialEq, Eq, Structural)]
pub struct ValueRange {
    pub lowest: i32,
    pub highest: i32,
    pub span: i32,
    pub axis_height: i32,
    pub zero_offset_num: i64,
}

impl ValueRange {
    /// Internal consistency: a positive span that is exactly
    /// `highest - lowest`, endpoints and axis height inside the bounds
    /// that keep pixel arithmetic in range, and a zero offset that matches
    /// its defining formula.
    pub open spec fn wf(self) -> bool {
        &&& self.span == self.highest - self.lowest
        &&& self.span > 0
        &&& 0 < self.axis_height <= DIM_LIMIT
        &&& -RANGE_LIMIT <= self.lowest
        &&& self.highest <= RANGE_LIMIT
        &&& self.zero_offset_num == spec_zero_offset_num(self.lowest as int, self.axis_height as int)
    }

    /// The side of zero the range starts on.
    pub open spec fn spec_zero_branch(self) -> ZeroBranch {
        if self.lowest < 0 {
            ZeroBranch::BelowZero
        } else if self.lowest == 0 {
            ZeroBranch::AtZero
        } else {
            ZeroBranch::AboveZero
        }
    }

    /// Derives the padded range from the long-run extremes of the series:
    /// `lowest = known_low - 10`, `highest = known_high + 5`, so the padded
    /// range strictly contains `[known_low, known_high]`.  Fails with
    /// `InvalidRange` exactly when the padded span is not positive, which
    /// happens only for the degenerate inputs `known_high <= known_low - 15`.
    pub fn compute(known_low: i32, known_high: i32, axis_height: i32) -> (r: Result<
        ValueRange,
        ChartError,
    >)
        requires
            -VALUE_LIMIT <= known_low <= VALUE_LIMIT,
            -VALUE_LIMIT <= known_high <= VALUE_LIMIT,
            0 < axis_height <= DIM_LIMIT,
        ensures
            r is Ok <==> known_high + 5 > known_low - 10,
            r matches Ok(v) ==> {
                &&& v == spec_value_range(known_low as int, known_high as int, axis_height as int)
                &&& v.wf()
                &&& v.lowest == known_low - 10
                &&& v.highest == known_high + 5
                &&& v.span == (known_high + 5) - (known_low - 10)
                &&& v.span > 0
                &&& v.axis_height == axis_height
                &&& known_low < known_high ==> v.span > 15
            },
            r matches Err(e) ==> e == ChartError::InvalidRange && known_high + 5 <= known_low
                - 10,
    {
        let lowest = known_low - 10;
        let highest = known_high + 5;
        if highest <= lowest {
            return Err(ChartError::InvalidRange);
        }
        let span = highest - lowest;
        let zero_offset_num: i64 = if lowest < 0 {
            let m: i64 = -(lowest as i64);
            proof {
                assert(0 <= m * (axis_height as i64) <= 2_000_000_000) by (nonlinear_arith)
                    requires
                        0 <= m <= 40_000,
                        0 < axis_height as i64 <= 30_000,
                ;
            }
            m * (axis_height as i64)
        } else if lowest == 0 {
            0
        } else {
            let m: i64 = -(lowest as i64) - 1;
            proof {
                assert(-2_000_000_000 <= m * (axis_height as i64) <= 0) by (nonlinear_arith)
                    requires
                        -40_000 <= m < 0,
                        0 < axis_height as i64 <= 30_000,
                ;
            }
            m * (axis_height as i64)
        };
        Ok(ValueRange { lowest, highest, span, axis_height, zero_offset_num })
    }

    /// The side of zero the range starts on.
    pub fn zero_branch(&self) -> (b: ZeroBranch)
        ensures
            b == self.spec_zero_branch(),
    {
        if self.lowest < 0 {
            ZeroBranch::BelowZero
        } else if self.lowest == 0 {
            ZeroBranch::AtZero
        } else {
            ZeroBranch::AboveZero
        }
    }

    /// The zero-offset numerator; the offset in pixels is this value over
    /// `span`.
    pub fn zero_offset_numerator(&self) -> (n: i64)
        ensures
            n == self.zero_offset_num,
    {
        self.zero_offset_num
    }
}

/// The padded span is exactly `(known_high + 5) - (known_low - 10)` and is
/// positive whenever the known extremes are ordered: `compute` then cannot
/// fail, and padding strictly contains the raw extremes.
pub proof fn lemma_padded_span(known_low: int, known_high: int)
    requires
        known_low < known_high,
    ensures
        (known_high + 5) - (known_low - 10) == (known_high - known_low) + 15,
        (known_high + 5) - (known_low - 10) > 0,
        known_low - 10 < known_low,
        known_high < known_high + 5,
{
}

} // verus!
