//! Axis label generator: one x-axis label per bucket at its segment
//! center, and exactly ten y-axis gridline labels spaced evenly over the
//! axis height, their values descending from `highest` by a tenth of the
//! span per line, kept in tenths so one fractional digit is exact.

use vstd::prelude::*;
use crate::geometry::bar_x;
use crate::geometry::lemma_round_ratio_abs_bound;
use crate::geometry::round_px;
use crate::geometry::round_ratio;
use crate::granularity::month_abbr;
use crate::granularity::spec_buckets;
use crate::granularity::spec_x_label_text;
use crate::granularity::Granularity;
use crate::layout::CanvasLayout;
use crate::range::ValueRange;
use crate::text::tenths_seq;
use crate::text::u32_dec;
use crate::text::format_tenths;

verus! {

/// Pixel gap between the y-axis labels and the axis line.
pub const Y_LABEL_GAP: i32 = 24;

/// An x-axis label: its text and the pixel position it is drawn at.
#[derive(Debug)]
pub struct XLabel {
    pub text: String,
    pub x: i32,
    pub y: i32,
}

/// A y-axis gridline label: its value in tenths, its rendered text, and
/// the pixel y of the gridline it belongs to.
#[derive(Debug)]
pub struct YLabel {
    pub text: String,
    pub tenths: i32,
    pub y: i32,
}

/// Horizontal center of bucket `i`'s grid segment, where its x-axis label
/// sits.
pub open spec fn spec_x_label_x(i: int, g: Granularity, layout: CanvasLayout) -> int {
    layout.left_margin + round_ratio((2 * i - 1) * layout.spec_axis_width(), 2 * spec_buckets(g))
}

/// Vertical position of the x-axis labels, just below the baseline:
/// centered under the tick using the measured label height for weeks and
/// fortnights, at a fixed offset for month names.
pub open spec fn spec_x_label_y(g: Granularity, layout: CanvasLayout, label_height: int) -> int {
    match g {
        Granularity::Month => layout.spec_baseline_y() + 10,
        _ => layout.spec_baseline_y() + label_height / 2 + 2,
    }
}

/// Value, in tenths, of the y-axis label at gridline `k` (`k = 0` is the
/// top line): `highest - (span / 10) * k`.
pub open spec fn spec_y_tick_tenths(r: ValueRange, k: int) -> int {
    10 * r.highest - r.span * k
}

/// Pixel y of horizontal gridline `k`, lines spaced evenly over the axis
/// height.
pub open spec fn spec_gridline_y(layout: CanvasLayout, k: int) -> int {
    layout.top_margin + round_ratio(k * layout.spec_axis_height(), 10)
}

/// Builds the x-axis labels: exactly one per bucket, ordered by bucket
/// index, each at its segment's center.
pub fn x_labels(g: Granularity, layout: &CanvasLayout, label_height: i32) -> (ls: Vec<XLabel>)
    requires
        layout.wf(),
        0 <= label_height <= 1_000,
    ensures
        ls.len() == spec_buckets(g),
        forall|k: int|
            0 <= k < ls.len() ==> {
                &&& (#[trigger] ls[k]).text@ == spec_x_label_text(g, k + 1)
                &&& ls[k].x == spec_x_label_x(k + 1, g, *layout)
                &&& ls[k].y == spec_x_label_y(g, *layout, label_height as int)
            },
{
    let n = g.buckets();
    let mut ls: Vec<XLabel> = Vec::new();
    let mut i: i32 = 1;
    while i <= n
        invariant
            layout.wf(),
            0 <= label_height <= 1_000,
            n == spec_buckets(g),
            1 <= i <= n + 1,
            ls.len() == i - 1,
            forall|k: int|
                0 <= k < ls.len() ==> {
                    &&& (#[trigger] ls[k]).text@ == spec_x_label_text(g, k + 1)
                    &&& ls[k].x == spec_x_label_x(k + 1, g, *layout)
                    &&& ls[k].y == spec_x_label_y(g, *layout, label_height as int)
                },
        decreases n + 1 - i,
    {
        let text: String = match g {
            Granularity::Month => String::from_str(month_abbr(i)),
            _ => u32_dec(i as u32),
        };
        let x = bar_x(i, g, layout) + g.bar_width() / 2;
        let y: i32 = match g {
            Granularity::Month => layout.baseline_y() + 10,
            _ => layout.baseline_y() + label_height / 2 + 2,
        };
        ls.push(XLabel { text, x, y });
        i += 1;
    }
    ls
}

/// Builds the ten y-axis gridline labels, top line first, values
/// descending by a tenth of the span per line and rendered with one
/// fractional digit kept.
pub fn y_labels(r: &ValueRange, layout: &CanvasLayout) -> (ls: Vec<YLabel>)
    requires
        r.wf(),
        layout.wf(),
        r.axis_height == layout.spec_axis_height(),
    ensures
        ls.len() == 10,
        forall|k: int|
            0 <= k < 10 ==> {
                &&& (#[trigger] ls[k]).tenths == spec_y_tick_tenths(*r, k)
                &&& ls[k].y == spec_gridline_y(*layout, k)
                &&& ls[k].text@ == tenths_seq(spec_y_tick_tenths(*r, k))
            },
{
    let mut ls: Vec<YLabel> = Vec::new();
    let mut k: i32 = 0;
    while k < 10
        invariant
            r.wf(),
            layout.wf(),
            r.axis_height == layout.spec_axis_height(),
            0 <= k <= 10,
            ls.len() == k,
            forall|j: int|
                0 <= j < ls.len() ==> {
                    &&& (#[trigger] ls[j]).tenths == spec_y_tick_tenths(*r, j)
                    &&& ls[j].y == spec_gridline_y(*layout, j)
                    &&& ls[j].text@ == tenths_seq(spec_y_tick_tenths(*r, j))
                },
        decreases 10 - k,
    {
        proof {
            assert(0 <= (k as int) * (r.span as int) <= 660_000) by (nonlinear_arith)
                requires
                    0 <= k as int <= 9,
                    0 < r.span as int <= 66_100,
            ;
            assert(0 <= (k as int) * (r.axis_height as int) <= 270_000) by (nonlinear_arith)
                requires
                    0 <= k as int <= 9,
                    0 < r.axis_height as int <= 30_000,
            ;
        }
        let tenths: i32 = 10 * r.highest - r.span * k;
        let text = format_tenths(tenths);
        let c = round_px((k as i64) * (r.axis_height as i64), 10);
        proof {
            lemma_round_ratio_abs_bound((k as int) * (r.axis_height as int), 10, 27_000);
        }
        let y = layout.top_margin + (c as i32);
        ls.push(YLabel { text, tenths, y });
        k += 1;
    }
    ls
}

/// Where a y-axis label of the measured size is drawn: right-aligned a
/// fixed gap left of the axis, vertically centered on its gridline.
pub fn y_label_pos(
    layout: &CanvasLayout,
    gridline_y: i32,
    label_width: i32,
    label_height: i32,
) -> (p: (i32, i32))
    requires
        layout.wf(),
        0 <= label_width <= 10_000,
        0 <= label_height <= 10_000,
        -100_000 <= gridline_y <= 100_000,
    ensures
        p.0 == layout.left_margin - Y_LABEL_GAP - label_width,
        p.1 == gridline_y - label_height / 2,
{
    (layout.left_margin - Y_LABEL_GAP - label_width, gridline_y - label_height / 2)
}

} // verus!
