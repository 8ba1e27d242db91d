use tempchart::chart::{build_plan, lookup_value, series_bars, Observation, Series};
use tempchart::granularity::Granularity;
use tempchart::layout::CanvasLayout;
use tempchart::range::ValueRange;
use tempchart::report::{avg_report, refine_first_year, refine_last_year};
use tempchart::ChartError;

fn standard() -> CanvasLayout {
    CanvasLayout::standard()
}

/// Twelve complete monthly observations, highs and lows.
fn full_year() -> Vec<Observation> {
    let highs = [58, 62, 65, 70, 75, 80, 85, 84, 79, 72, 63, 56];
    let lows = [40, 42, 45, 49, 54, 58, 62, 61, 57, 51, 44, 38];
    let mut obs = Vec::new();
    for i in 0..12 {
        obs.push(Observation {
            bucket: (i + 1) as i32,
            high: Some(highs[i]),
            low: Some(lows[i]),
        });
    }
    obs
}

#[test]
fn lookup_finds_first_match() {
    let obs = full_year();
    assert_eq!(lookup_value(&obs, 1, Series::High), Some(58));
    assert_eq!(lookup_value(&obs, 12, Series::Low), Some(38));
    assert_eq!(lookup_value(&obs, 13, Series::High), None);
    assert_eq!(lookup_value(&obs, 0, Series::Low), None);
}

#[test]
fn lookup_absent_field_is_none() {
    let obs = vec![Observation { bucket: 3, high: None, low: Some(12) }];
    assert_eq!(lookup_value(&obs, 3, Series::High), None);
    assert_eq!(lookup_value(&obs, 3, Series::Low), Some(12));
}

#[test]
fn missing_bucket_skipped_without_error() {
    let layout = standard();
    let vr = ValueRange::compute(20, 115, layout.axis_height()).unwrap();
    // Bucket 6 absent entirely.
    let obs: Vec<Observation> = full_year()
        .into_iter()
        .filter(|o| o.bucket != 6)
        .collect();
    assert_eq!(obs.len(), 11);
    let bars = series_bars(&obs, Series::High, Granularity::Month, &vr, &layout);
    assert_eq!(bars.len(), 12 - 1);
    let low_bars = series_bars(&obs, Series::Low, Granularity::Month, &vr, &layout);
    assert_eq!(low_bars.len(), 12 - 1);
}

#[test]
fn absent_field_skips_only_its_series() {
    let layout = standard();
    let vr = ValueRange::compute(20, 115, layout.axis_height()).unwrap();
    let mut obs = full_year();
    obs[5].high = None;
    let hi = series_bars(&obs, Series::High, Granularity::Month, &vr, &layout);
    let lo = series_bars(&obs, Series::Low, Granularity::Month, &vr, &layout);
    assert_eq!(hi.len(), 11);
    assert_eq!(lo.len(), 12);
}

#[test]
fn end_to_end_month_render() {
    let layout = standard();
    let obs = full_year();
    let plan = build_plan("Month", 20, 115, &obs, &layout, 14).unwrap();
    assert_eq!(plan.granularity, Some(Granularity::Month));
    assert!(plan.issues.is_empty());
    // Exactly twelve bars per series.
    assert_eq!(plan.hi_bars.len(), 12);
    assert_eq!(plan.low_bars.len(), 12);
    // Twelve month labels, January through December.
    assert_eq!(plan.x_labels.len(), 12);
    assert_eq!(plan.x_labels[0].text, "Jan");
    assert_eq!(plan.x_labels[11].text, "Dec");
    // Ten evenly spaced gridline labels from 120.0 down by span/10 = 11.0.
    assert_eq!(plan.y_labels.len(), 10);
    for (k, l) in plan.y_labels.iter().enumerate() {
        assert_eq!(l.tenths as i64, 1200 - 110 * k as i64);
    }
    assert_eq!(plan.y_labels[0].text, "120.0");
    assert_eq!(plan.y_labels[9].text, "21.0");
    // Furniture is present.
    assert_eq!(plan.axes.len(), 2);
    assert_eq!(plan.grid.h_lines.len(), 10);
    // Every high bar sits strictly above its low bar.
    for k in 0..12 {
        assert!(plan.hi_bars[k].y1 < plan.low_bars[k].y1);
    }
}

#[test]
fn unsupported_granularity_degrades_to_reported_noop() {
    let layout = standard();
    let obs = full_year();
    let plan = build_plan("Quarter", 20, 115, &obs, &layout, 14).unwrap();
    assert_eq!(plan.granularity, None);
    assert_eq!(plan.hi_bars.len(), 0);
    assert_eq!(plan.low_bars.len(), 0);
    assert_eq!(plan.x_labels.len(), 0);
    assert_eq!(plan.y_labels.len(), 0);
    assert_eq!(plan.issues.len(), 1);
    assert_eq!(plan.issues[0], ChartError::UnsupportedGranularity);
    // Axes, gridlines and a title position are still produced.
    assert_eq!(plan.axes.len(), 2);
    assert_eq!(plan.grid.v_lines.len(), 4);
    assert_eq!(plan.grid.h_lines.len(), 10);
    assert_eq!(plan.grid.minor_lines.len(), 30);
    let title = tempchart::grid::title_position(&layout, 500, 36);
    assert_eq!(title, (390, 26));
}

#[test]
fn invalid_range_aborts_render() {
    let layout = standard();
    let obs = full_year();
    let res = build_plan("Month", 50, 20, &obs, &layout, 14);
    assert_eq!(res.err(), Some(ChartError::InvalidRange));
}

#[test]
fn report_lines_with_sentinels() {
    let obs = vec![
        Observation { bucket: 1, high: Some(58), low: Some(40) },
        Observation { bucket: 2, high: None, low: Some(42) },
        Observation { bucket: 3, high: Some(65), low: None },
    ];
    let lines = avg_report("Month", "Los_Angeles_CA", 1954, &obs);
    assert_eq!(lines.len(), 4);
    assert_eq!(lines[0], "Avg Month temps for Los_Angeles_CA in 1954");
    assert_eq!(lines[1], "1954-1: Avg Hi=58, Avg Lo=40");
    assert_eq!(lines[2], "1954-2: Avg Hi=999, Avg Lo=42");
    assert_eq!(lines[3], "1954-3: Avg Hi=65, Avg Lo=-999");
}

#[test]
fn report_on_empty_set() {
    let obs: Vec<Observation> = Vec::new();
    let lines = avg_report("Week", "spokane_wa", 2005, &obs);
    assert_eq!(lines.len(), 1);
    assert_eq!(lines[0], "No Week data found for spokane_wa in 2005");
}

#[test]
fn year_refinement() {
    // An early fallback probe moves up to the first covered year.
    assert_eq!(refine_first_year(1899, Some(1954)), 1954);
    assert_eq!(refine_first_year(1899, Some(1850)), 1899);
    assert_eq!(refine_first_year(1899, None), 1899);
    // A future fallback probe moves down to the last covered year.
    assert_eq!(refine_last_year(2030, Some(2005)), 2005);
    assert_eq!(refine_last_year(2030, Some(2040)), 2030);
    assert_eq!(refine_last_year(2030, None), 2030);
}

#[test]
fn layout_construction() {
    let layout = standard();
    assert_eq!(layout.width, 1280);
    assert_eq!(layout.height, 800);
    assert_eq!(layout.axis_width(), 1170);
    assert_eq!(layout.axis_height(), 700);
    assert_eq!(layout.baseline_y(), 760);
    assert!(CanvasLayout::new(1280, 800, 60, 40, 70, 40).is_some());
    // Margins that swallow the canvas are rejected.
    assert!(CanvasLayout::new(100, 100, 60, 40, 70, 40).is_none());
    assert!(CanvasLayout::new(0, 800, 60, 40, 70, 40).is_none());
    assert!(CanvasLayout::new(1280, 800, -1, 40, 70, 40).is_none());
}
