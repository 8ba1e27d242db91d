use tempchart::chart::Observation;
use tempchart::geometry::{bar_x, map_bar, round_px, BarRect};
use tempchart::layout::CanvasLayout;
use tempchart::range::{ValueRange, ZeroBranch};
use tempchart::ChartError;

fn standard() -> CanvasLayout {
    CanvasLayout::standard()
}

#[test]
fn padded_span_formula() {
    let layout = standard();
    let h = layout.axis_height();
    assert_eq!(h, 700);
    let vr = ValueRange::compute(20, 115, h).unwrap();
    assert_eq!(vr.lowest, 10);
    assert_eq!(vr.highest, 120);
    assert_eq!(vr.span, (115 + 5) - (20 - 10));
    assert_eq!(vr.span, 110);
    assert!(vr.span > 0);
}

#[test]
fn padded_span_negative_extremes() {
    let vr = ValueRange::compute(-40, -20, 700).unwrap();
    assert_eq!(vr.lowest, -50);
    assert_eq!(vr.highest, -15);
    assert_eq!(vr.span, 35);
}

#[test]
fn degenerate_range_rejected() {
    // known_high == known_low - 15 makes the padded span exactly zero.
    let r = ValueRange::compute(0, -15, 700);
    assert_eq!(r, Err(ChartError::InvalidRange));
    let r2 = ValueRange::compute(100, 50, 700);
    assert_eq!(r2, Err(ChartError::InvalidRange));
    // One more than the degenerate bound succeeds.
    let r3 = ValueRange::compute(0, -14, 700);
    assert!(r3.is_ok());
    assert_eq!(r3.unwrap().span, 1);
}

#[test]
fn zero_offset_below_zero_branch() {
    // lowest = -10, highest = 100.
    let vr = ValueRange::compute(0, 95, 700).unwrap();
    assert_eq!(vr.lowest, -10);
    assert_eq!(vr.highest, 100);
    assert_eq!(vr.zero_branch(), ZeroBranch::BelowZero);
    // offset = -(lowest * pixels-per-unit): numerator -lowest * axis_height.
    assert_eq!(vr.zero_offset_numerator(), 10 * 700);
}

#[test]
fn zero_offset_above_zero_branch() {
    // lowest = 5, highest = 50.
    let vr = ValueRange::compute(15, 45, 700).unwrap();
    assert_eq!(vr.lowest, 5);
    assert_eq!(vr.highest, 50);
    assert_eq!(vr.zero_branch(), ZeroBranch::AboveZero);
    // offset = (0 - lowest - 1) * pixels-per-unit: numerator (-5 - 1) * 700.
    assert_eq!(vr.zero_offset_numerator(), -6 * 700);
}

#[test]
fn zero_offset_at_zero_branch() {
    // lowest == 0 exactly.
    let vr = ValueRange::compute(10, 60, 700).unwrap();
    assert_eq!(vr.lowest, 0);
    assert_eq!(vr.zero_branch(), ZeroBranch::AtZero);
    assert_eq!(vr.zero_offset_numerator(), 0);
}

#[test]
fn rounding_halves_upward() {
    assert_eq!(round_px(3, 2), 2);
    assert_eq!(round_px(-3, 2), -1);
    assert_eq!(round_px(7, 2), 4);
    assert_eq!(round_px(10, 4), 3);
    assert_eq!(round_px(9, 4), 2);
    assert_eq!(round_px(-9, 4), -2);
    assert_eq!(round_px(0, 5), 0);
    assert_eq!(round_px(33600, 110), 305);
}

#[test]
fn map_bar_month_exact_rectangle() {
    let layout = standard();
    let vr = ValueRange::compute(20, 115, layout.axis_height()).unwrap();
    let g = tempchart::granularity::Granularity::Month;
    // Bucket 1, value 58: raw 58*700, offset (-10-1)*700, plus one
    // pixels-per-unit row since the offset is not positive.
    let rect = map_bar(58, 1, g, &vr, &layout);
    assert_eq!(
        rect,
        BarRect { x0: 104, y0: 758, x1: 134, y1: 760 - 305 }
    );
}

#[test]
fn map_bar_monotone_in_value() {
    let layout = standard();
    let vr = ValueRange::compute(20, 115, layout.axis_height()).unwrap();
    let g = tempchart::granularity::Granularity::Month;
    let taller = map_bar(80, 3, g, &vr, &layout);
    let shorter = map_bar(50, 3, g, &vr, &layout);
    // The taller bar's bottom edge sits strictly higher (smaller y).
    assert!(taller.y1 < shorter.y1);
    // Exhaustively over the whole padded range: strictly monotone.
    let mut prev = map_bar(vr.lowest, 5, g, &vr, &layout).y1;
    let mut v = vr.lowest + 1;
    while v <= vr.highest {
        let cur = map_bar(v, 5, g, &vr, &layout).y1;
        assert!(cur < prev, "value {} not taller than its predecessor", v);
        prev = cur;
        v += 1;
    }
}

#[test]
fn map_bar_monotone_below_zero_range() {
    let layout = standard();
    // A range crossing zero: lowest = -30.
    let vr = ValueRange::compute(-20, 40, layout.axis_height()).unwrap();
    assert_eq!(vr.zero_branch(), ZeroBranch::BelowZero);
    let g = tempchart::granularity::Granularity::Week;
    let below = map_bar(-10, 7, g, &vr, &layout);
    let above = map_bar(10, 7, g, &vr, &layout);
    assert!(above.y1 < below.y1);
}

#[test]
fn bar_x_centers_in_segment() {
    let layout = standard();
    let g = tempchart::granularity::Granularity::Month;
    // Segment width 1170/12 = 97.5; center of bucket 1 at 70 + 48.75,
    // rounded to 119; bar 30 wide starts 15 left of it.
    assert_eq!(bar_x(1, g, &layout), 104);
    // Bucket 12: center at 70 + round(23 * 1170 / 24) = 70 + 1121.
    assert_eq!(bar_x(12, g, &layout), 70 + 1121 - 15);
    let gw = tempchart::granularity::Granularity::Week;
    // Week bars are 8 wide; center of bucket 1 at 70 + round(1170/104).
    assert_eq!(bar_x(1, gw, &layout), 70 + 11 - 4);
}

#[test]
fn observation_fields_kept() {
    let o = Observation { bucket: 6, high: Some(62), low: None };
    assert_eq!(o.bucket, 6);
    assert_eq!(o.high, Some(62));
    assert_eq!(o.low, None);
}
