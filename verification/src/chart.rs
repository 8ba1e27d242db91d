//! One render pass: looks each bucket's observation up, maps the present
//! values to bars, and assembles axes, gridlines, labels and bars into a
//! render plan, degrading to a reported no-op for an unsupported
//! granularity token.

use vstd::prelude::*;
use crate::geometry::map_bar;
use crate::geometry::spec_bar_rect;
use crate::geometry::BarRect;
use crate::granularity::spec_buckets;
use crate::granularity::spec_parse;
use crate::granularity::spec_x_label_text;
use crate::granularity::Granularity;
use crate::grid::axis_segments;
use crate::grid::grid_segments;
use crate::grid::spec_h_line;
use crate::grid::spec_minor_line;
use crate::grid::spec_v_line;
use crate::grid::spec_x_tick;
use crate::grid::spec_y_tick;
use crate::grid::GridPlan;
use crate::grid::Segment;
use crate::labels::spec_gridline_y;
use crate::labels::spec_x_label_x;
use crate::labels::spec_x_label_y;
use crate::labels::spec_y_tick_tenths;
use crate::labels::x_labels;
use crate::labels::y_labels;
use crate::labels::XLabel;
use crate::labels::YLabel;
use crate::layout::CanvasLayout;
use crate::range::spec_value_range;
use crate::range::ValueRange;
use crate::text::tenths_seq;
use crate::ChartError;
use crate::VALUE_LIMIT;

verus! {

/// One per-bucket observation: the bucket's 1-based index and its high
/// and low values, either of which may be absent.
#[derive(Clone, Copy, Debug, PartialEq, Eq, Structural)]
pub struct Observation {
    pub bucket: i32,
    pub high: Option<i32>,
    pub low: Option<i32>,
}

impl Observation {
    /// Values an observation may carry: whatever is present fits the
    /// 16-bit column the data comes from, and the bucket index is not so
    /// large that arithmetic on it could leave `i32`.
    pub open spec fn wf(self) -> bool {
        &&& self.high is Some ==> -VALUE_LIMIT <= self.high->0 <= VALUE_LIMIT
        &&& self.low is Some ==> -VALUE_LIMIT <= self.low->0 <= VALUE_LIMIT
        &&& -VALUE_LIMIT <= self.bucket <= VALUE_LIMIT
    }
}

/// Which of the two per-bucket values a pass draws.
#[derive(Clone, Copy, Debug, PartialEq, Eq, Structural)]
pub enum Series {
    High,
    Low,
}

/// The field of `o` that series `s` reads.
pub open spec fn spec_field(o: Observation, s: Series) -> Option<i32> {
    match s {
        Series::High => o.high,
        Series::Low => o.low,
    }
}

/// The value series `s` has for bucket `bucket`: the chosen field of the
/// first observation with that bucket index, `None` when no observation
/// has the index or the field is absent there.
pub open spec fn spec_lookup(obs: Seq<Observation>, bucket: int, s: Series) -> Option<i32>
    decreases obs.len(),
{
    if obs.len() == 0 {
        None
    } else if obs[0].bucket == bucket {
        spec_field(obs[0], s)
    } else {
        spec_lookup(obs.drop_first(), bucket, s)
    }
}

/// A looked-up value inherits the bounds of the observation it came from.
pub proof fn lemma_lookup_wf(obs: Seq<Observation>, bucket: int, s: Series)
    requires
        forall|k: int| 0 <= k < obs.len() ==> (#[trigger] obs[k]).wf(),
        spec_lookup(obs, bucket, s) is Some,
    ensures
        -VALUE_LIMIT <= spec_lookup(obs, bucket, s)->0 <= VALUE_LIMIT,
    decreases obs.len(),
{
    if obs.len() == 0 {
    } else if obs[0].bucket == bucket {
        assert(obs[0].wf());
    } else {
        assert forall|k: int| 0 <= k < obs.drop_first().len() implies (#[trigger] obs.drop_first()[
            k
        ]).wf() by {
            assert(obs.drop_first()[k] == obs[k + 1]);
            assert(obs[k + 1].wf());
        }
        lemma_lookup_wf(obs.drop_first(), bucket, s);
    }
}

/// Looks the value of series `s` for `bucket` up in the observation set.
pub fn lookup_value(obs: &Vec<Observation>, bucket: i32, s: Series) -> (r: Option<i32>)
    ensures
        r == spec_lookup(obs@, bucket as int, s),
{
    let n = obs.len();
    let mut i: usize = 0;
    proof {
        assert(obs@.skip(0) =~= obs@);
    }
    while i < n
        invariant
            n == obs@.len(),
            0 <= i <= n,
            spec_lookup(obs@, bucket as int, s) == spec_lookup(
                obs@.skip(i as int),
                bucket as int,
                s,
            ),
        decreases n - i,
    {
        let o = obs[i];
        proof {
            assert(obs@.skip(i as int)[0] == obs@[i as int]);
        }
        if o.bucket == bucket {
            return match s {
                Series::High => o.high,
                Series::Low => o.low,
            };
        }
        proof {
            assert(obs@.skip(i as int).drop_first() =~= obs@.skip(i as int + 1));
        }
        i += 1;
    }
    None
}

/// The bars of series `s`, one per bucket from `i` upward whose value is
/// present, ordered by bucket index.
pub open spec fn spec_series_bars(
    obs: Seq<Observation>,
    s: Series,
    g: Granularity,
    r: ValueRange,
    layout: CanvasLayout,
    i: int,
) -> Seq<BarRect>
    decreases spec_buckets(g) + 1 - i when i >= 1
{
    if i < 1 || i > spec_buckets(g) {
        Seq::empty()
    } else {
        let rest = spec_series_bars(obs, s, g, r, layout, i + 1);
        match spec_lookup(obs, i, s) {
            Some(v) => seq![spec_bar_rect(v as int, i, g, r, layout)] + rest,
            None => rest,
        }
    }
}

/// How many buckets from `i` upward have a present value for series `s`.
pub open spec fn spec_present_count(obs: Seq<Observation>, s: Series, g: Granularity, i: int) -> int
    decreases spec_buckets(g) + 1 - i when i >= 1
{
    if i < 1 || i > spec_buckets(g) {
        0
    } else {
        (if spec_lookup(obs, i, s) is Some {
            1int
        } else {
            0int
        }) + spec_present_count(obs, s, g, i + 1)
    }
}

/// Exactly one bar is emitted per bucket with a present value: the bar
/// sequence is as long as the count of present buckets.
pub proof fn lemma_series_bars_len(
    obs: Seq<Observation>,
    s: Series,
    g: Granularity,
    r: ValueRange,
    layout: CanvasLayout,
    i: int,
)
    requires
        i >= 1,
    ensures
        spec_series_bars(obs, s, g, r, layout, i).len() == spec_present_count(obs, s, g, i),
    decreases spec_buckets(g) + 1 - i,
{
    if i > spec_buckets(g) {
    } else {
        lemma_series_bars_len(obs, s, g, r, layout, i + 1);
    }
}

/// Builds the bars of one series for every bucket whose value is present;
/// a bucket with no observation or an absent field is skipped silently.
pub fn series_bars(
    obs: &Vec<Observation>,
    s: Series,
    g: Granularity,
    r: &ValueRange,
    layout: &CanvasLayout,
) -> (bars: Vec<BarRect>)
    requires
        r.wf(),
        layout.wf(),
        r.axis_height == layout.spec_axis_height(),
        forall|k: int| 0 <= k < obs@.len() ==> (#[trigger] obs@[k]).wf(),
    ensures
        bars@ == spec_series_bars(obs@, s, g, *r, *layout, 1),
{
    let n = g.buckets();
    let mut bars: Vec<BarRect> = Vec::new();
    let mut i: i32 = 1;
    while i <= n
        invariant
            r.wf(),
            layout.wf(),
            r.axis_height == layout.spec_axis_height(),
            forall|k: int| 0 <= k < obs@.len() ==> (#[trigger] obs@[k]).wf(),
            n == spec_buckets(g),
            1 <= i <= n + 1,
            spec_series_bars(obs@, s, g, *r, *layout, 1) == bars@ + spec_series_bars(
                obs@,
                s,
                g,
                *r,
                *layout,
                i as int,
            ),
        decreases n + 1 - i,
    {
        let ghost prev = bars@;
        let ghost rest = spec_series_bars(obs@, s, g, *r, *layout, i as int + 1);
        match lookup_value(obs, i, s) {
            Some(v) => {
                proof {
                    lemma_lookup_wf(obs@, i as int, s);
                }
                let rect = map_bar(v, i, g, r, layout);
                bars.push(rect);
                proof {
                    assert(spec_series_bars(obs@, s, g, *r, *layout, i as int) == seq![
                        spec_bar_rect(v as int, i as int, g, *r, *layout),
                    ] + rest);
                    assert(bars@ =~= prev + seq![spec_bar_rect(v as int, i as int, g, *r, *layout)]);
                    assert((prev + seq![spec_bar_rect(v as int, i as int, g, *r, *layout)]) + rest
                        =~= prev + (seq![spec_bar_rect(v as int, i as int, g, *r, *layout)] + rest));
                }
            },
            None => {
                proof {
                    assert(spec_series_bars(obs@, s, g, *r, *layout, i as int) == rest);
                }
            },
        }
        i += 1;
    }
    proof {
        assert(spec_series_bars(obs@, s, g, *r, *layout, i as int) =~= Seq::empty());
        assert(bars@ + Seq::<BarRect>::empty() =~= bars@);
    }
    bars
}

/// With every bucket but one present, one render emits exactly one bar
/// fewer than the bucket count, and no error: a missing bucket is skipped,
/// not reported.
pub proof fn lemma_missing_bucket_bars(
    obs: Seq<Observation>,
    s: Series,
    g: Granularity,
    r: ValueRange,
    layout: CanvasLayout,
    m: int,
)
    requires
        1 <= m <= spec_buckets(g),
        spec_lookup(obs, m, s) is None,
        forall|i: int|
            1 <= i <= spec_buckets(g) && i != m ==> (#[trigger] spec_lookup(obs, i, s)) is Some,
    ensures
        spec_series_bars(obs, s, g, r, layout, 1).len() == spec_buckets(g) - 1,
{
    lemma_series_bars_len(obs, s, g, r, layout, 1);
    lemma_present_count_almost_full(obs, s, g, 1, m);
}

/// Counting helper: from bucket `i` upward, with every bucket present but
/// `m`, the present count is the number of remaining buckets, minus one
/// if `m` is still ahead.
proof fn lemma_present_count_almost_full(
    obs: Seq<Observation>,
    s: Series,
    g: Granularity,
    i: int,
    m: int,
)
    requires
        1 <= i <= spec_buckets(g) + 1,
        1 <= m <= spec_buckets(g),
        spec_lookup(obs, m, s) is None,
        forall|j: int|
            1 <= j <= spec_buckets(g) && j != m ==> (#[trigger] spec_lookup(obs, j, s)) is Some,
    ensures
        spec_present_count(obs, s, g, i) == spec_buckets(g) + 1 - i - if i <= m {
            1int
        } else {
            0int
        },
    decreases spec_buckets(g) + 1 - i,
{
    if i > spec_buckets(g) {
    } else {
        lemma_present_count_almost_full(obs, s, g, i + 1, m);
    }
}

/// With every bucket present, one render emits exactly one bar per
/// bucket.
pub proof fn lemma_full_bars(
    obs: Seq<Observation>,
    s: Series,
    g: Granularity,
    r: ValueRange,
    layout: CanvasLayout,
)
    requires
        forall|i: int| 1 <= i <= spec_buckets(g) ==> (#[trigger] spec_lookup(obs, i, s)) is Some,
    ensures
        spec_series_bars(obs, s, g, r, layout, 1).len() == spec_buckets(g),
{
    lemma_series_bars_len(obs, s, g, r, layout, 1);
    lemma_present_count_full(obs, s, g, 1);
}

/// Counting helper: with every bucket present, the count from `i` upward
/// is the number of remaining buckets.
proof fn lemma_present_count_full(obs: Seq<Observation>, s: Series, g: Granularity, i: int)
    requires
        1 <= i <= spec_buckets(g) + 1,
        forall|j: int| 1 <= j <= spec_buckets(g) ==> (#[trigger] spec_lookup(obs, j, s)) is Some,
    ensures
        spec_present_count(obs, s, g, i) == spec_buckets(g) + 1 - i,
    decreases spec_buckets(g) + 1 - i,
{
    if i > spec_buckets(g) {
    } else {
        lemma_present_count_full(obs, s, g, i + 1);
    }
}

/// Everything one render pass draws, in drawing order: furniture first,
/// then labels, then bars.  Non-fatal conditions sit in `issues`.
#[derive(Debug)]
pub struct RenderPlan {
    /// The two axis lines.
    pub axes: Vec<Segment>,
    /// Gridlines and tick marks.
    pub grid: GridPlan,
    /// One label per bucket, empty when the granularity is unsupported.
    pub x_labels: Vec<XLabel>,
    /// Ten gridline labels, empty when the granularity is unsupported.
    pub y_labels: Vec<YLabel>,
    /// Bars of the high series, ordered by bucket index.
    pub hi_bars: Vec<BarRect>,
    /// Bars of the low series, ordered by bucket index.
    pub low_bars: Vec<BarRect>,
    /// The recognized granularity, `None` when the token was unsupported.
    pub granularity: Option<Granularity>,
    /// Conditions reported without aborting the render.
    pub issues: Vec<ChartError>,
}

/// The furniture every successful render shows, whatever the granularity
/// token said: both axes and the full grid.
pub open spec fn spec_plan_furniture(plan: RenderPlan, layout: CanvasLayout) -> bool {
    &&& plan.axes.len() == 2
    &&& plan.axes[0] == (Segment {
        x0: layout.left_margin,
        y0: layout.top_margin,
        x1: layout.left_margin,
        y1: layout.spec_baseline_y() as i32,
    })
    &&& plan.axes[1] == (Segment {
        x0: (layout.left_margin - 2) as i32,
        y0: layout.spec_baseline_y() as i32,
        x1: (layout.left_margin + layout.spec_axis_width()) as i32,
        y1: layout.spec_baseline_y() as i32,
    })
    &&& plan.grid.v_lines.len() == 4
    &&& plan.grid.x_ticks.len() == 4
    &&& (forall|k: int| 0 <= k < 4 ==> #[trigger] plan.grid.v_lines[k] == spec_v_line(layout, k))
    &&& (forall|k: int| 0 <= k < 4 ==> #[trigger] plan.grid.x_ticks[k] == spec_x_tick(layout, k))
    &&& plan.grid.h_lines.len() == 10
    &&& plan.grid.y_ticks.len() == 10
    &&& (forall|k: int| 0 <= k < 10 ==> #[trigger] plan.grid.h_lines[k] == spec_h_line(layout, k))
    &&& (forall|k: int| 0 <= k < 10 ==> #[trigger] plan.grid.y_ticks[k] == spec_y_tick(layout, k))
    &&& plan.grid.minor_lines.len() == 30
    &&& (forall|k: int|
        0 <= k < 10 ==> {
            &&& #[trigger] plan.grid.minor_lines[3 * k] == (spec_minor_line(layout, k, 1))
            &&& plan.grid.minor_lines[3 * k + 1] == (spec_minor_line(layout, k, 2))
            &&& plan.grid.minor_lines[3 * k + 2] == (spec_minor_line(layout, k, 3))
        })
}

/// What a render with a recognized granularity draws: one x-axis label
/// per bucket in bucket order, the ten y-axis labels, and one bar per
/// present value in each series.
pub open spec fn spec_plan_series(
    plan: RenderPlan,
    g: Granularity,
    obs: Seq<Observation>,
    vr: ValueRange,
    layout: CanvasLayout,
    label_height: int,
) -> bool {
    &&& plan.x_labels.len() == spec_buckets(g)
    &&& (forall|k: int|
        0 <= k < plan.x_labels.len() ==> {
            &&& (#[trigger] plan.x_labels[k]).text@ == spec_x_label_text(g, k + 1)
            &&& plan.x_labels[k].x == spec_x_label_x(k + 1, g, layout)
            &&& plan.x_labels[k].y == spec_x_label_y(g, layout, label_height)
        })
    &&& plan.y_labels.len() == 10
    &&& (forall|k: int|
        0 <= k < 10 ==> {
            &&& (#[trigger] plan.y_labels[k]).tenths == spec_y_tick_tenths(vr, k)
            &&& plan.y_labels[k].y == spec_gridline_y(layout, k)
            &&& plan.y_labels[k].text@ == tenths_seq(spec_y_tick_tenths(vr, k))
        })
    &&& plan.hi_bars@ == spec_series_bars(obs, Series::High, g, vr, layout, 1)
    &&& plan.low_bars@ == spec_series_bars(obs, Series::Low, g, vr, layout, 1)
}

/// What a render with an unsupported granularity token suppresses: every
/// label and every bar.
pub open spec fn spec_plan_suppressed(plan: RenderPlan) -> bool {
    &&& plan.x_labels.len() == 0
    &&& plan.y_labels.len() == 0
    &&& plan.hi_bars.len() == 0
    &&& plan.low_bars.len() == 0
}

/// Assembles one render pass.
///
/// Fails with `InvalidRange` exactly when the padded range has no
/// positive span; nothing may be drawn then.  An unsupported granularity
/// token is no failure: the plan still carries axes, grid and title
/// placement, every label and bar is suppressed, and the condition is
/// reported in `issues`.
pub fn build_plan(
    token: &str,
    known_low: i32,
    known_high: i32,
    obs: &Vec<Observation>,
    layout: &CanvasLayout,
    x_label_height: i32,
) -> (res: Result<RenderPlan, ChartError>)
    requires
        layout.wf(),
        -VALUE_LIMIT <= known_low <= VALUE_LIMIT,
        -VALUE_LIMIT <= known_high <= VALUE_LIMIT,
        0 <= x_label_height <= 1_000,
        forall|k: int| 0 <= k < obs@.len() ==> (#[trigger] obs@[k]).wf(),
    ensures
        res is Ok <==> known_high + 5 > known_low - 10,
        res matches Err(e) ==> e == ChartError::InvalidRange,
        res matches Ok(plan) ==> {
            let vr = spec_value_range(
                known_low as int,
                known_high as int,
                layout.spec_axis_height(),
            );
            &&& spec_plan_furniture(plan, *layout)
            &&& match spec_parse(token@) {
                Some(g) => {
                    &&& plan.granularity == Some(g)
                    &&& plan.issues.len() == 0
                    &&& spec_plan_series(plan, g, obs@, vr, *layout, x_label_height as int)
                },
                None => {
                    &&& plan.granularity is None
                    &&& plan.issues.len() == 1
                    &&& plan.issues[0] == ChartError::UnsupportedGranularity
                    &&& spec_plan_suppressed(plan)
                },
            }
        },
{
    let ah = layout.axis_height();
    let vr = match ValueRange::compute(known_low, known_high, ah) {
        Ok(v) => v,
        Err(e) => {
            return Err(e);
        },
    };
    let axes = axis_segments(layout);
    let grid = grid_segments(layout);
    match Granularity::parse(token) {
        Some(g) => {
            let xl = x_labels(g, layout, x_label_height);
            let yl = y_labels(&vr, layout);
            let hi = series_bars(obs, Series::High, g, &vr, layout);
            let lo = series_bars(obs, Series::Low, g, &vr, layout);
            Ok(
                RenderPlan {
                    axes,
                    grid,
                    x_labels: xl,
                    y_labels: yl,
                    hi_bars: hi,
                    low_bars: lo,
                    granularity: Some(g),
                    issues: Vec::new(),
                },
            )
        },
        None => {
            let mut issues: Vec<ChartError> = Vec::new();
            issues.push(ChartError::UnsupportedGranularity);
            Ok(
                RenderPlan {
                    axes,
                    grid,
                    x_labels: Vec::new(),
                    y_labels: Vec::new(),
                    hi_bars: Vec::new(),
                    low_bars: Vec::new(),
                    granularity: None,
                    issues,
                },
            )
        },
    }
}

} // verus!
