//! Fixed geometry of one render: overall canvas size, the four margins, and
//! the axis box derived from them.  Created once per render and never
//! mutated.

use vstd::prelude::*;
use crate::DIM_LIMIT;

verus! {

/// Immutable canvas geometry.  The axis box is the canvas minus the margins;
/// bars and gridlines live inside it, labels in the margins.
#[derive(Clone, Copy, Debug)]
pub struct CanvasLayout {
    pub width: i32,
    pub height: i32,
    pub top_margin: i32,
    pub bottom_margin: i32,
    pub left_margin: i32,
    pub right_margin: i32,
}

impl CanvasLayout {
    /// The margins leave a positive axis box and every dimension stays
    /// within `DIM_LIMIT`, so pixel arithmetic cannot overflow.
    pub open spec fn wf(self) -> bool {
        &&& 0 < self.width <= DIM_LIMIT
        &&& 0 < self.height <= DIM_LIMIT
        &&& 0 <= self.top_margin
        &&& 0 <= self.bottom_margin
        &&& 0 <= self.left_margin
        &&& 0 <= self.right_margin
        &&& self.left_margin + self.right_margin < self.width
        &&& self.top_margin + self.bottom_margin < self.height
    }

    /// Width of the axis box in pixels.
    pub open spec fn spec_axis_width(self) -> int {
        self.width - self.left_margin - self.right_margin
    }

    /// Height of the axis box in pixels.
    pub open spec fn spec_axis_height(self) -> int {
        self.height - self.top_margin - self.bottom_margin
    }

    /// Pixel y of the top line of the axis box.
    pub open spec fn spec_top_line_y(self) -> int {
        self.top_margin as int
    }

    /// Pixel y of the baseline (the bottom axis line), against which every
    /// bar height is measured.
    pub open spec fn spec_baseline_y(self) -> int {
        self.top_margin + self.spec_axis_height()
    }

    /// Builds a layout after checking the bounds `wf` demands; `None`
    /// exactly when some bound fails.
    pub fn new(
        width: i32,
        height: i32,
        top_margin: i32,
        bottom_margin: i32,
        left_margin: i32,
        right_margin: i32,
    ) -> (r: Option<CanvasLayout>)
        ensures
            ({
                let c = CanvasLayout {
                    width,
                    height,
                    top_margin,
                    bottom_margin,
                    left_margin,
                    right_margin,
                };
                if c.wf() {
                    r == Some(c)
                } else {
                    r is None
                }
            }),
    {
        if 0 < width && width <= DIM_LIMIT && 0 < height && height <= DIM_LIMIT
            && 0 <= top_margin && 0 <= bottom_margin && 0 <= left_margin && 0 <= right_margin
            && left_margin < width - right_margin && top_margin < height - bottom_margin {
            Some(CanvasLayout { width, height, top_margin, bottom_margin, left_margin, right_margin })
        } else {
            None
        }
    }

    /// The layout every render of this chart uses: a 1280 by 800 canvas
    /// (roughly the golden ratio) with fixed margins.
    pub fn standard() -> (r: CanvasLayout)
        ensures
            r.wf(),
            r.width == 1280,
            r.height == 800,
            r.top_margin == 60,
            r.bottom_margin == 40,
            r.left_margin == 70,
            r.right_margin == 40,
    {
        CanvasLayout {
            width: 1280,
            height: 800,
            top_margin: 60,
            bottom_margin: 40,
            left_margin: 70,
            right_margin: 40,
        }
    }

    pub fn axis_width(&self) -> (w: i32)
        requires
            self.wf(),
        ensures
            w == self.spec_axis_width(),
    {
        self.width - self.left_margin - self.right_margin
    }

    pub fn axis_height(&self) -> (h: i32)
        requires
            self.wf(),
        ensures
            h == self.spec_axis_height(),
    {
        self.height - self.top_margin - self.bottom_margin
    }

    pub fn baseline_y(&self) -> (y: i32)
        requires
            self.wf(),
        ensures
            y == self.spec_baseline_y(),
    {
        self.top_margin + self.axis_height()
    }
}

} // verus!
