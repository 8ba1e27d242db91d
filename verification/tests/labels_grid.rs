use tempchart::granularity::{month_abbr, Granularity};
use tempchart::grid::{axis_segments, grid_segments, title_position, Segment};
use tempchart::labels::{x_labels, y_label_pos, y_labels};
use tempchart::layout::CanvasLayout;
use tempchart::range::ValueRange;
use tempchart::text::{format_tenths, i32_dec, parse_year_prefix, str_eq, u32_dec};

fn standard() -> CanvasLayout {
    CanvasLayout::standard()
}

#[test]
fn bucket_counts_per_granularity() {
    assert_eq!(Granularity::Week.buckets(), 52);
    assert_eq!(Granularity::Fortnight.buckets(), 26);
    assert_eq!(Granularity::Month.buckets(), 12);
    assert_eq!(Granularity::Week.bar_width(), 8);
    assert_eq!(Granularity::Fortnight.bar_width(), 18);
    assert_eq!(Granularity::Month.bar_width(), 30);
}

#[test]
fn token_parsing() {
    assert_eq!(Granularity::parse("Week"), Some(Granularity::Week));
    assert_eq!(Granularity::parse("Fort"), Some(Granularity::Fortnight));
    assert_eq!(Granularity::parse("Month"), Some(Granularity::Month));
    assert_eq!(Granularity::parse("Quarter"), None);
    assert_eq!(Granularity::parse("week"), None);
    assert_eq!(Granularity::parse(""), None);
}

#[test]
fn label_sets_have_bucket_count_entries_in_order() {
    let layout = standard();
    for (g, n) in [
        (Granularity::Week, 52),
        (Granularity::Fortnight, 26),
        (Granularity::Month, 12),
    ] {
        let ls = x_labels(g, &layout, 14);
        assert_eq!(ls.len(), n);
        for (k, l) in ls.iter().enumerate() {
            let expected = match g {
                Granularity::Month => month_abbr((k + 1) as i32).to_string(),
                _ => (k + 1).to_string(),
            };
            assert_eq!(l.text, expected);
        }
    }
}

#[test]
fn month_labels_are_month_names() {
    let layout = standard();
    let ls = x_labels(Granularity::Month, &layout, 14);
    let names = [
        "Jan", "Feb", "Mar", "Apr", "May", "Jun", "Jul", "Aug", "Sep", "Oct", "Nov", "Dec",
    ];
    for (k, name) in names.iter().enumerate() {
        assert_eq!(ls[k].text, *name);
        // Month labels sit at a fixed offset below the baseline.
        assert_eq!(ls[k].y, 760 + 10);
    }
}

#[test]
fn week_labels_centered_with_measured_height() {
    let layout = standard();
    let ls = x_labels(Granularity::Week, &layout, 14);
    assert_eq!(ls[0].text, "1");
    assert_eq!(ls[51].text, "52");
    // Centered under the tick using the measured label height.
    assert_eq!(ls[0].y, 760 + 14 / 2 + 2);
    // Segment centers ascend by the segment stride.
    assert!(ls[0].x < ls[1].x);
}

#[test]
fn y_labels_descend_by_tenth_of_span() {
    let layout = standard();
    let vr = ValueRange::compute(20, 115, layout.axis_height()).unwrap();
    let ls = y_labels(&vr, &layout);
    assert_eq!(ls.len(), 10);
    for (k, l) in ls.iter().enumerate() {
        assert_eq!(l.tenths as i64, 1200 - 110 * k as i64);
        // Gridlines spaced evenly over the 700-pixel axis height.
        assert_eq!(l.y as i64, 60 + (k as i64 * 700 + 5) / 10);
    }
    assert_eq!(ls[0].text, "120.0");
    assert_eq!(ls[1].text, "109.0");
    assert_eq!(ls[9].text, "21.0");
}

#[test]
fn y_label_fractional_digit_kept() {
    let layout = standard();
    // span 37: tenths step is 37, giving non-integer label values.
    let vr = ValueRange::compute(10, 32, layout.axis_height()).unwrap();
    assert_eq!(vr.span, 37);
    let ls = y_labels(&vr, &layout);
    assert_eq!(ls[0].text, "37.0");
    assert_eq!(ls[1].text, "33.3");
    assert_eq!(ls[2].text, "29.6");
}

#[test]
fn y_label_position_right_aligned() {
    let layout = standard();
    let p = y_label_pos(&layout, 200, 30, 18);
    assert_eq!(p, (70 - 24 - 30, 200 - 9));
}

#[test]
fn axes_and_grid_shapes() {
    let layout = standard();
    let axes = axis_segments(&layout);
    assert_eq!(axes.len(), 2);
    assert_eq!(axes[0], Segment { x0: 70, y0: 60, x1: 70, y1: 760 });
    assert_eq!(axes[1], Segment { x0: 68, y0: 760, x1: 70 + 1170, y1: 760 });
    let grid = grid_segments(&layout);
    assert_eq!(grid.v_lines.len(), 4);
    assert_eq!(grid.x_ticks.len(), 4);
    assert_eq!(grid.h_lines.len(), 10);
    assert_eq!(grid.y_ticks.len(), 10);
    assert_eq!(grid.minor_lines.len(), 30);
    // First vertical gridline one quarter-stride right of the axis.
    assert_eq!(grid.v_lines[0].x0, 70 + 1170 / 4);
    assert_eq!(grid.v_lines[0].y0, 60);
    assert_eq!(grid.v_lines[0].y1, 758);
    // Horizontal gridline k sits k whole strides below the top.
    assert_eq!(grid.h_lines[0].y0, 60);
    assert_eq!(grid.h_lines[9].y0, 60 + 9 * 70);
    // Minor lines at quarter strides below their major line.
    assert_eq!(grid.minor_lines[0].y0, 60 + 17);
    assert_eq!(grid.minor_lines[1].y0, 60 + 34);
    assert_eq!(grid.minor_lines[2].y0, 60 + 51);
}

#[test]
fn title_centered() {
    let layout = standard();
    assert_eq!(title_position(&layout, 400, 36), (1280 / 2 - 200, 26));
}

#[test]
fn decimal_rendering() {
    assert_eq!(u32_dec(0), "0");
    assert_eq!(u32_dec(7), "7");
    assert_eq!(u32_dec(52), "52");
    assert_eq!(u32_dec(1954), "1954");
    assert_eq!(i32_dec(-999), "-999");
    assert_eq!(i32_dec(999), "999");
    assert_eq!(i32_dec(0), "0");
}

#[test]
fn tenths_rendering() {
    assert_eq!(format_tenths(1200), "120.0");
    assert_eq!(format_tenths(1234), "123.4");
    assert_eq!(format_tenths(-5), "-0.5");
    assert_eq!(format_tenths(0), "0.0");
    assert_eq!(format_tenths(-1090), "-109.0");
    assert_eq!(format_tenths(7), "0.7");
}

#[test]
fn year_prefix_parsing() {
    assert_eq!(parse_year_prefix("2020-09-05"), Some(2020));
    assert_eq!(parse_year_prefix("1899"), Some(1899));
    assert_eq!(parse_year_prefix("202"), None);
    assert_eq!(parse_year_prefix(""), None);
    assert_eq!(parse_year_prefix("20x0-01-01"), None);
    assert_eq!(parse_year_prefix("0007-12-31"), Some(7));
}

#[test]
fn string_equality_helper() {
    assert!(str_eq("Month", "Month"));
    assert!(!str_eq("Month", "Mont"));
    assert!(!str_eq("Month", "month"));
    assert!(str_eq("", ""));
}

#[test]
fn title_words() {
    assert_eq!(Granularity::Week.title_word(), "Weekly");
    assert_eq!(Granularity::Fortnight.title_word(), "Fortnightly");
    assert_eq!(Granularity::Month.title_word(), "Monthly");
}
