//! Fixed chart furniture: the two axis lines, the vertical and horizontal
//! gridlines with their tick marks, the minor gridlines, and the centered
//! title position.  All of it depends on the layout alone.

use vstd::prelude::*;
use crate::layout::CanvasLayout;

verus! {

/// A straight line segment in pixel space, from `(x0, y0)` to `(x1, y1)`.
#[derive(Clone, Copy, Debug, PartialEq, Eq, Structural)]
pub struct Segment {
    pub x0: i32,
    pub y0: i32,
    pub x1: i32,
    pub y1: i32,
}

/// Pixel x of vertical gridline `k` in `0..4`: the axis width is split
/// into four equal whole-pixel strides.
pub open spec fn spec_v_line_x(layout: CanvasLayout, k: int) -> int {
    layout.left_margin + (k + 1) * (layout.spec_axis_width() / 4)
}

/// Pixel y of horizontal gridline `k` in `0..10`: the axis height is
/// split into ten equal whole-pixel strides, line 0 at the top.
pub open spec fn spec_h_line_y(layout: CanvasLayout, k: int) -> int {
    layout.top_margin + k * (layout.spec_axis_height() / 10)
}

/// Vertical stride between two minor gridlines: a quarter of the major
/// stride.
pub open spec fn spec_minor_step(layout: CanvasLayout) -> int {
    (layout.spec_axis_height() / 10) / 4
}

/// The `j`-th (1 to 3) minor gridline below horizontal gridline `k`.
pub open spec fn spec_minor_line(layout: CanvasLayout, k: int, j: int) -> Segment {
    Segment {
        x0: (layout.left_margin + 2) as i32,
        y0: (spec_h_line_y(layout, k) + j * spec_minor_step(layout)) as i32,
        x1: (layout.left_margin + layout.spec_axis_width()) as i32,
        y1: (spec_h_line_y(layout, k) + j * spec_minor_step(layout)) as i32,
    }
}

/// Vertical gridline `k` inside the axis box.
pub open spec fn spec_v_line(layout: CanvasLayout, k: int) -> Segment {
    Segment {
        x0: spec_v_line_x(layout, k) as i32,
        y0: layout.top_margin,
        x1: spec_v_line_x(layout, k) as i32,
        y1: (layout.spec_baseline_y() - 2) as i32,
    }
}

/// Tick mark on the x axis under vertical gridline `k`.
pub open spec fn spec_x_tick(layout: CanvasLayout, k: int) -> Segment {
    Segment {
        x0: spec_v_line_x(layout, k) as i32,
        y0: layout.spec_baseline_y() as i32,
        x1: spec_v_line_x(layout, k) as i32,
        y1: (layout.spec_baseline_y() + 10) as i32,
    }
}

/// Horizontal gridline `k` across the axis box.
pub open spec fn spec_h_line(layout: CanvasLayout, k: int) -> Segment {
    Segment {
        x0: (layout.left_margin + 2) as i32,
        y0: spec_h_line_y(layout, k) as i32,
        x1: (layout.left_margin + layout.spec_axis_width()) as i32,
        y1: spec_h_line_y(layout, k) as i32,
    }
}

/// Tick mark on the y axis beside horizontal gridline `k`.
pub open spec fn spec_y_tick(layout: CanvasLayout, k: int) -> Segment {
    Segment {
        x0: (layout.left_margin - 10) as i32,
        y0: spec_h_line_y(layout, k) as i32,
        x1: layout.left_margin,
        y1: spec_h_line_y(layout, k) as i32,
    }
}

/// The two axis lines: the y axis down the left edge of the axis box,
/// then the x axis along its bottom.
pub fn axis_segments(layout: &CanvasLayout) -> (s: Vec<Segment>)
    requires
        layout.wf(),
    ensures
        s.len() == 2,
        s[0] == (Segment {
            x0: layout.left_margin,
            y0: layout.top_margin,
            x1: layout.left_margin,
            y1: layout.spec_baseline_y() as i32,
        }),
        s[1] == (Segment {
            x0: (layout.left_margin - 2) as i32,
            y0: layout.spec_baseline_y() as i32,
            x1: (layout.left_margin + layout.spec_axis_width()) as i32,
            y1: layout.spec_baseline_y() as i32,
        }),
{
    let base = layout.baseline_y();
    let mut s: Vec<Segment> = Vec::new();
    s.push(Segment { x0: layout.left_margin, y0: layout.top_margin, x1: layout.left_margin, y1: base });
    s.push(
        Segment {
            x0: layout.left_margin - 2,
            y0: base,
            x1: layout.left_margin + layout.axis_width(),
            y1: base,
        },
    );
    s
}

/// Every gridline and tick mark of one render, grouped by the stroke each
/// group is drawn with.
#[derive(Debug)]
pub struct GridPlan {
    /// Four vertical gridlines inside the axis box.
    pub v_lines: Vec<Segment>,
    /// A tick mark on the x axis under each vertical gridline.
    pub x_ticks: Vec<Segment>,
    /// Ten horizontal gridlines, the top edge included.
    pub h_lines: Vec<Segment>,
    /// A tick mark on the y axis beside each horizontal gridline.
    pub y_ticks: Vec<Segment>,
    /// Three fainter minor lines below each horizontal gridline.
    pub minor_lines: Vec<Segment>,
}

/// Builds every gridline and tick mark of one render.
pub fn grid_segments(layout: &CanvasLayout) -> (p: GridPlan)
    requires
        layout.wf(),
    ensures
        p.v_lines.len() == 4,
        p.x_ticks.len() == 4,
        forall|k: int| 0 <= k < 4 ==> #[trigger] p.v_lines[k] == (spec_v_line(*layout, k)),
        forall|k: int| 0 <= k < 4 ==> #[trigger] p.x_ticks[k] == (spec_x_tick(*layout, k)),
        p.h_lines.len() == 10,
        p.y_ticks.len() == 10,
        forall|k: int| 0 <= k < 10 ==> #[trigger] p.h_lines[k] == (spec_h_line(*layout, k)),
        forall|k: int| 0 <= k < 10 ==> #[trigger] p.y_ticks[k] == (spec_y_tick(*layout, k)),
        p.minor_lines.len() == 30,
        forall|k: int|
            0 <= k < 10 ==> {
                &&& #[trigger] p.minor_lines[3 * k] == (spec_minor_line(*layout, k, 1))
                &&& p.minor_lines[3 * k + 1] == (spec_minor_line(*layout, k, 2))
                &&& p.minor_lines[3 * k + 2] == (spec_minor_line(*layout, k, 3))
            },
{
    let aw = layout.axis_width();
    let ah = layout.axis_height();
    let base = layout.baseline_y();
    let h_stride = aw / 4;
    let v_stride = ah / 10;
    let minor = v_stride / 4;
    let right = layout.left_margin + aw;

    let mut v_lines: Vec<Segment> = Vec::new();
    let mut x_ticks: Vec<Segment> = Vec::new();
    let mut k: i32 = 0;
    while k < 4
        invariant
            layout.wf(),
            h_stride == layout.spec_axis_width() / 4,
            base == layout.spec_baseline_y(),
            0 <= k <= 4,
            v_lines.len() == k,
            x_ticks.len() == k,
            forall|m: int| 0 <= m < k ==> #[trigger] v_lines[m] == (spec_v_line(*layout, m)),
            forall|m: int| 0 <= m < k ==> #[trigger] x_ticks[m] == (spec_x_tick(*layout, m)),
        decreases 4 - k,
    {
        proof {
            assert(0 <= (k as int + 1) * (h_stride as int) <= 30_000) by (nonlinear_arith)
                requires
                    1 <= k as int + 1 <= 4,
                    0 <= h_stride as int <= 7_500,
            ;
        }
        let x = layout.left_margin + (k + 1) * h_stride;
        v_lines.push(Segment { x0: x, y0: layout.top_margin, x1: x, y1: base - 2 });
        x_ticks.push(Segment { x0: x, y0: base, x1: x, y1: base + 10 });
        k += 1;
    }

    let mut h_lines: Vec<Segment> = Vec::new();
    let mut y_ticks: Vec<Segment> = Vec::new();
    let mut minor_lines: Vec<Segment> = Vec::new();
    let mut k2: i32 = 0;
    while k2 < 10
        invariant
            layout.wf(),
            v_stride == layout.spec_axis_height() / 10,
            minor == spec_minor_step(*layout),
            right == layout.left_margin + layout.spec_axis_width(),
            0 <= k2 <= 10,
            h_lines.len() == k2,
            y_ticks.len() == k2,
            minor_lines.len() == 3 * k2,
            forall|m: int| 0 <= m < k2 ==> #[trigger] h_lines[m] == (spec_h_line(*layout, m)),
            forall|m: int| 0 <= m < k2 ==> #[trigger] y_ticks[m] == (spec_y_tick(*layout, m)),
            forall|m: int|
                0 <= m < k2 ==> {
                    &&& #[trigger] minor_lines[3 * m] == (spec_minor_line(*layout, m, 1))
                    &&& minor_lines[3 * m + 1] == (spec_minor_line(*layout, m, 2))
                    &&& minor_lines[3 * m + 2] == (spec_minor_line(*layout, m, 3))
                },
        decreases 10 - k2,
    {
        proof {
            assert(0 <= (k2 as int) * (v_stride as int) <= 27_000) by (nonlinear_arith)
                requires
                    0 <= k2 as int <= 9,
                    0 <= v_stride as int <= 3_000,
            ;
        }
        let y = layout.top_margin + k2 * v_stride;
        h_lines.push(Segment { x0: layout.left_margin + 2, y0: y, x1: right, y1: y });
        y_ticks.push(Segment { x0: layout.left_margin - 10, y0: y, x1: layout.left_margin, y1: y });
        minor_lines.push(Segment { x0: layout.left_margin + 2, y0: y + minor, x1: right, y1: y + minor });
        minor_lines.push(
            Segment { x0: layout.left_margin + 2, y0: y + 2 * minor, x1: right, y1: y + 2 * minor },
        );
        minor_lines.push(
            Segment { x0: layout.left_margin + 2, y0: y + 3 * minor, x1: right, y1: y + 3 * minor },
        );
        k2 += 1;
    }

    GridPlan { v_lines, x_ticks, h_lines, y_ticks, minor_lines }
}

/// Where a title of the measured size is drawn: horizontally centered on
/// the canvas, just under the top edge.
pub fn title_position(layout: &CanvasLayout, title_width: i32, title_height: i32) -> (p: (
    i32,
    i32,
))
    requires
        layout.wf(),
        0 <= title_width <= 100_000,
        0 <= title_height <= 100_000,
    ensures
        p.0 == layout.width / 2 - title_width / 2,
        p.1 == title_height - 10,
{
    (layout.width / 2 - title_width / 2, title_height - 10)
}

} // verus!
