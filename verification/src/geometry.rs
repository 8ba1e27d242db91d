//! Geometry mapper: turns a raw value at a bucket index into a pixel
//! rectangle.
//!
//! Every pixel quantity is an exact rational held as an integer numerator
//! over a positive denominator; `round_ratio` rounds it to the nearest
//! pixel (halves upward) only where a final coordinate is produced.

use vstd::prelude::*;
use vstd::arithmetic::div_mod::lemma_div_is_ordered;
use vstd::arithmetic::div_mod::lemma_div_nonincreasing;
use vstd::arithmetic::div_mod::lemma_div_plus_one;
use vstd::arithmetic::div_mod::lemma_fundamental_div_mod;
use vstd::arithmetic::div_mod::lemma_fundamental_div_mod_converse_div;
use vstd::arithmetic::div_mod::lemma_mod_bound;
use vstd::arithmetic::mul::lemma_mul_inequality;
use vstd::arithmetic::mul::lemma_mul_is_distributive_sub_other_way;
use crate::granularity::Granularity;
use crate::granularity::spec_bar_width;
use crate::granularity::spec_buckets;
use crate::layout::CanvasLayout;
use crate::range::ValueRange;
use crate::VALUE_LIMIT;

verus! {

/// The rational `num / den` rounded to the nearest integer, halves
/// upward: `round_ratio(3, 2) == 2`, `round_ratio(-3, 2) == -1`.
pub open spec fn round_ratio(num: int, den: int) -> int
    recommends
        den > 0,
{
    (2 * num + den) / (2 * den)
}

/// Rounding is monotone in the numerator.
pub proof fn lemma_round_ratio_monotone(a: int, b: int, d: int)
    requires
        a <= b,
        0 < d,
    ensures
        round_ratio(a, d) <= round_ratio(b, d),
{
    lemma_div_is_ordered(2 * a + d, 2 * b + d, 2 * d);
}

/// Shifting the numerator by one whole denominator shifts the rounded
/// value by exactly one.
pub proof fn lemma_round_ratio_shift(b: int, d: int)
    requires
        0 < d,
    ensures
        round_ratio(b + d, d) == round_ratio(b, d) + 1,
{
    lemma_div_plus_one(2 * b + d, 2 * d);
}

/// A numerator larger by at least one whole denominator rounds strictly
/// higher.
pub proof fn lemma_round_ratio_strict(a: int, b: int, d: int)
    requires
        0 < d,
        a + d <= b,
    ensures
        round_ratio(a, d) < round_ratio(b, d),
{
    lemma_round_ratio_shift(a, d);
    lemma_round_ratio_monotone(a + d, b, d);
}

/// A numerator within `bound` whole denominators of zero rounds to a
/// value within `bound` of zero.
pub proof fn lemma_round_ratio_abs_bound(num: int, den: int, bound: int)
    requires
        0 < den,
        0 <= bound,
        -(bound * den) <= num <= bound * den,
    ensures
        -bound <= round_ratio(num, den) <= bound,
{
    assert(2 * (bound * den) + den == bound * (2 * den) + den) by (nonlinear_arith);
    assert(-2 * (bound * den) + den == (-bound) * (2 * den) + den) by (nonlinear_arith);
    lemma_fundamental_div_mod_converse_div(bound * (2 * den) + den, 2 * den, bound, den);
    lemma_fundamental_div_mod_converse_div((-bound) * (2 * den) + den, 2 * den, -bound, den);
    lemma_div_is_ordered(2 * num + den, 2 * (bound * den) + den, 2 * den);
    lemma_div_is_ordered(-2 * (bound * den) + den, 2 * num + den, 2 * den);
}

/// Rounds the rational `num / den` to the nearest integer, halves upward.
pub fn round_px(num: i64, den: i64) -> (r: i64)
    requires
        0 < den <= 1_000_000,
        -1_000_000_000_000 <= num <= 1_000_000_000_000,
    ensures
        r == round_ratio(num as int, den as int),
{
    let m: i64 = 2 * num + den;
    let d2: i64 = 2 * den;
    if m >= 0 {
        let q: u64 = (m as u64) / (d2 as u64);
        proof {
            lemma_div_nonincreasing(m as int, d2 as int);
        }
        q as i64
    } else {
        let a: i64 = -m;
        let q: u64 = ((a as u64) + (d2 as u64) - 1) / (d2 as u64);
        proof {
            let mi = m as int;
            let d = d2 as int;
            let ai = a as int;
            let qq = (ai + d - 1) / d;
            let r0 = (ai + d - 1) % d;
            lemma_fundamental_div_mod(ai + d - 1, d);
            lemma_mod_bound(ai + d - 1, d);
            assert(mi == (-qq) * d + (d - 1 - r0)) by (nonlinear_arith)
                requires
                    ai + d - 1 == d * qq + r0,
                    mi == -ai,
            ;
            lemma_fundamental_div_mod_converse_div(mi, d, -qq, d - 1 - r0);
            lemma_div_nonincreasing(ai + d - 1, d);
        }
        -(q as i64)
    }
}

/// A bar's pixel rectangle: `(x0, y0)` is the top-left corner, `(x1, y1)`
/// the bottom-right.
#[derive(Clone, Copy, Debug, PartialEq, Eq, Structural)]
pub struct BarRect {
    pub x0: i32,
    pub y0: i32,
    pub x1: i32,
    pub y1: i32,
}

/// Left edge of bucket `i`'s bar: the bucket's grid segment is
/// `axis_width / buckets` wide, the bar is centered in it.
pub open spec fn spec_bar_x(i: int, g: Granularity, layout: CanvasLayout) -> int {
    layout.left_margin + round_ratio((2 * i - 1) * layout.spec_axis_width(), 2 * spec_buckets(g))
        - spec_bar_width(g) / 2
}

/// Left edge of bucket `i`'s bar, centered in its grid segment.
pub fn bar_x(i: i32, g: Granularity, layout: &CanvasLayout) -> (x: i32)
    requires
        layout.wf(),
        1 <= i <= spec_buckets(g),
    ensures
        x == spec_bar_x(i as int, g, *layout),
        -31_000 <= x <= 60_000,
{
    let aw = layout.axis_width();
    proof {
        assert(0 < (2 * (i as int) - 1) * (aw as int) <= (aw as int) * (2 * spec_buckets(g)) && (2
            * (i as int) - 1) * (aw as int) <= 3_120_000) by (nonlinear_arith)
            requires
                0 < aw as int <= 30_000,
                0 < 2 * (i as int) - 1 < 2 * spec_buckets(g),
                0 < spec_buckets(g) <= 52,
        ;
    }
    let num: i64 = (2 * (i as i64) - 1) * (aw as i64);
    let den: i64 = 2 * (g.buckets() as i64);
    let c = round_px(num, den);
    proof {
        lemma_round_ratio_abs_bound(num as int, den as int, aw as int);
    }
    layout.left_margin + (c as i32) - g.bar_width() / 2
}

/// Numerator (over the denominator `span`) of the corrected bar height in
/// pixels: the raw height `value * pixels-per-unit` plus the zero offset,
/// plus one extra pixels-per-unit row when the offset is not positive.
/// The asymmetric correction compensates for 1-based bucket indexing
/// against 0-based pixel rows.
pub open spec fn spec_adjusted_num(value: int, r: ValueRange) -> int {
    value * r.axis_height + r.zero_offset_num + if r.zero_offset_num <= 0 {
        r.axis_height as int
    } else {
        0
    }
}

/// Corrected bar height, rounded to whole pixels.
pub open spec fn spec_adjusted(value: int, r: ValueRange) -> int {
    round_ratio(spec_adjusted_num(value, r), r.span as int)
}

/// The numerator and the rounded bar height stay far inside `i32` for any
/// value within `VALUE_LIMIT`.
pub proof fn lemma_adjusted_in_range(value: int, r: ValueRange)
    requires
        r.wf(),
        -VALUE_LIMIT <= value <= VALUE_LIMIT,
    ensures
        -2_000_000_000 <= spec_adjusted_num(value, r) <= 2_000_000_000,
        -2_000_000_000 <= spec_adjusted(value, r) <= 2_000_000_000,
{
    let h = r.axis_height as int;
    lemma_zero_offset_bound(r);
    assert(-990_000_000 <= value * h <= 990_000_000) by (nonlinear_arith)
        requires
            -33_000 <= value <= 33_000,
            0 < h <= 30_000,
    ;
    let n = spec_adjusted_num(value, r);
    let s = r.span as int;
    assert(-(2_000_000_000 * s) <= n <= 2_000_000_000 * s) by (nonlinear_arith)
        requires
            -2_000_000_000 <= n <= 2_000_000_000,
            1 <= s,
    ;
    lemma_round_ratio_abs_bound(n, s, 2_000_000_000);
}

/// The zero-offset numerator of a well-formed range stays far inside
/// `i64`.
pub proof fn lemma_zero_offset_bound(r: ValueRange)
    requires
        r.wf(),
    ensures
        -990_030_000 <= r.zero_offset_num <= 990_000_000,
{
    let h = r.axis_height as int;
    let lo = r.lowest as int;
    if lo < 0 {
        assert(0 <= -lo * h <= 990_000_000) by (nonlinear_arith)
            requires
                0 < -lo <= 33_000,
                0 < h <= 30_000,
        ;
    } else if lo > 0 {
        assert(-990_030_000 <= (-lo - 1) * h < 0) by (nonlinear_arith)
            requires
                -33_001 <= -lo - 1 < 0,
                0 < h <= 30_000,
        ;
    }
}

/// The pixel rectangle of bucket `i`'s bar for `value`: top edge two
/// pixels above the baseline, bottom edge `spec_adjusted` pixels above it,
/// `spec_bar_width` wide at the bucket's centered x position.
pub open spec fn spec_bar_rect(
    value: int,
    i: int,
    g: Granularity,
    r: ValueRange,
    layout: CanvasLayout,
) -> BarRect {
    BarRect {
        x0: spec_bar_x(i, g, layout) as i32,
        y0: (layout.spec_baseline_y() - 2) as i32,
        x1: (spec_bar_x(i, g, layout) + spec_bar_width(g)) as i32,
        y1: (layout.spec_baseline_y() - spec_adjusted(value, r)) as i32,
    }
}

/// Maps a raw value at a bucket index to its bar's pixel rectangle.
pub fn map_bar(
    value: i32,
    bucket: i32,
    g: Granularity,
    r: &ValueRange,
    layout: &CanvasLayout,
) -> (rect: BarRect)
    requires
        r.wf(),
        layout.wf(),
        r.axis_height == layout.spec_axis_height(),
        1 <= bucket <= spec_buckets(g),
        -VALUE_LIMIT <= value <= VALUE_LIMIT,
    ensures
        rect == spec_bar_rect(value as int, bucket as int, g, *r, *layout),
        rect.x0 == spec_bar_x(bucket as int, g, *layout),
        rect.y0 == layout.spec_baseline_y() - 2,
        rect.x1 == rect.x0 + spec_bar_width(g),
        rect.y1 == layout.spec_baseline_y() - spec_adjusted(value as int, *r),
{
    let x = bar_x(bucket, g, layout);
    proof {
        lemma_adjusted_in_range(value as int, *r);
        lemma_zero_offset_bound(*r);
        assert(-990_000_000 <= (value as int) * (r.axis_height as int) <= 990_000_000)
            by (nonlinear_arith)
            requires
                -33_000 <= value as int <= 33_000,
                0 < r.axis_height as int <= 30_000,
        ;
    }
    let raw: i64 = (value as i64) * (r.axis_height as i64);
    let off: i64 = r.zero_offset_num;
    let adj_num: i64 = if off <= 0 {
        raw + off + (r.axis_height as i64)
    } else {
        raw + off
    };
    let adjusted = round_px(adj_num, r.span as i64);
    proof {
        assert(adj_num as int == spec_adjusted_num(value as int, *r));
        assert(adjusted == spec_adjusted(value as int, *r));
    }
    let y_base = layout.baseline_y();
    BarRect { x0: x, y0: y_base - 2, x1: x + g.bar_width(), y1: y_base - (adjusted as i32) }
}

/// Monotonicity of the mapper: within one range, a larger value gets a
/// strictly larger corrected height.  This needs at least one pixel per
/// unit, `span <= axis_height`: with fewer, two adjacent values can land
/// on the same pixel row.
pub proof fn lemma_taller_bar(v1: int, v2: int, r: ValueRange)
    requires
        r.wf(),
        v1 > v2,
        r.span <= r.axis_height,
    ensures
        spec_adjusted(v1, r) > spec_adjusted(v2, r),
{
    let h = r.axis_height as int;
    lemma_mul_is_distributive_sub_other_way(h, v1, v2);
    lemma_mul_inequality(1, v1 - v2, h);
    assert(spec_adjusted_num(v1, r) - spec_adjusted_num(v2, r) >= h);
    lemma_round_ratio_strict(spec_adjusted_num(v2, r), spec_adjusted_num(v1, r), r.span as int);
}

/// The same monotonicity stated on the rectangles the mapper emits: the
/// bar for the larger value has the smaller bottom-edge `y1`, so it rises
/// strictly higher above the baseline.
pub proof fn lemma_taller_bar_rect(
    v1: int,
    v2: int,
    i: int,
    g: Granularity,
    r: ValueRange,
    layout: CanvasLayout,
)
    requires
        r.wf(),
        layout.wf(),
        r.axis_height == layout.spec_axis_height(),
        1 <= i <= spec_buckets(g),
        -VALUE_LIMIT <= v2 < v1 <= VALUE_LIMIT,
        r.span <= r.axis_height,
    ensures
        spec_bar_rect(v1, i, g, r, layout).y1 < spec_bar_rect(v2, i, g, r, layout).y1,
{
    lemma_taller_bar(v1, v2, r);
    lemma_adjusted_in_range(v1, r);
    lemma_adjusted_in_range(v2, r);
}

} // verus!
