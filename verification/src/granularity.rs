//! Period model: the three supported bucketing schemes, their bucket
//! counts and bar widths, the tokens that select them, and the x-axis
//! label text each scheme uses.

use vstd::prelude::*;
use crate::text::dec_seq;
use crate::text::str_eq;

verus! {

/// The bucketing scheme of one render.  A week scheme has 52 buckets, a
/// fortnight scheme 26, a month scheme 12.
#[derive(Clone, Copy, Debug, PartialEq, Eq, Structural)]
pub enum Granularity {
    Week,
    Fortnight,
    Month,
}

/// Number of buckets along the x axis for a scheme.
pub open spec fn spec_buckets(g: Granularity) -> int {
    match g {
        Granularity::Week => 52,
        Granularity::Fortnight => 26,
        Granularity::Month => 12,
    }
}

/// Width in pixels of one bar under a scheme.
pub open spec fn spec_bar_width(g: Granularity) -> int {
    match g {
        Granularity::Week => 8,
        Granularity::Fortnight => 18,
        Granularity::Month => 30,
    }
}

/// The fixed three-letter name of month `i` in `1..=12`.
pub open spec fn spec_month_abbr(i: int) -> Seq<char> {
    if i == 1 {
        "Jan"@
    } else if i == 2 {
        "Feb"@
    } else if i == 3 {
        "Mar"@
    } else if i == 4 {
        "Apr"@
    } else if i == 5 {
        "May"@
    } else if i == 6 {
        "Jun"@
    } else if i == 7 {
        "Jul"@
    } else if i == 8 {
        "Aug"@
    } else if i == 9 {
        "Sep"@
    } else if i == 10 {
        "Oct"@
    } else if i == 11 {
        "Nov"@
    } else {
        "Dec"@
    }
}

/// The x-axis label text for bucket `i` under scheme `g`: the bucket's
/// ordinal number for weeks and fortnights, the month name for months.
pub open spec fn spec_x_label_text(g: Granularity, i: int) -> Seq<char> {
    match g {
        Granularity::Month => spec_month_abbr(i),
        _ => dec_seq(i),
    }
}

/// The scheme a configuration token selects, `None` for an unsupported
/// token.
pub open spec fn spec_parse(s: Seq<char>) -> Option<Granularity> {
    if s == "Week"@ {
        Some(Granularity::Week)
    } else if s == "Fort"@ {
        Some(Granularity::Fortnight)
    } else if s == "Month"@ {
        Some(Granularity::Month)
    } else {
        None
    }
}

impl Granularity {
    pub fn buckets(&self) -> (n: i32)
        ensures
            n == spec_buckets(*self),
    {
        match self {
            Granularity::Week => 52,
            Granularity::Fortnight => 26,
            Granularity::Month => 12,
        }
    }

    pub fn bar_width(&self) -> (w: i32)
        ensures
            w == spec_bar_width(*self),
    {
        match self {
            Granularity::Week => 8,
            Granularity::Fortnight => 18,
            Granularity::Month => 30,
        }
    }

    /// Selects the scheme named by a configuration token; `None` exactly
    /// for a token that names no supported scheme.
    pub fn parse(token: &str) -> (r: Option<Granularity>)
        ensures
            r == spec_parse(token@),
    {
        if str_eq(token, "Week") {
            Some(Granularity::Week)
        } else if str_eq(token, "Fort") {
            Some(Granularity::Fortnight)
        } else if str_eq(token, "Month") {
            Some(Granularity::Month)
        } else {
            None
        }
    }

    /// The word a chart title uses for the scheme.
    pub fn title_word(&self) -> (s: &'static str)
        ensures
            s@ == spec_title_word(*self),
    {
        match self {
            Granularity::Week => "Weekly",
            Granularity::Fortnight => "Fortnightly",
            Granularity::Month => "Monthly",
        }
    }
}

/// The word a chart title uses for a scheme.
pub open spec fn spec_title_word(g: Granularity) -> Seq<char> {
    match g {
        Granularity::Week => "Weekly"@,
        Granularity::Fortnight => "Fortnightly"@,
        Granularity::Month => "Monthly"@,
    }
}

/// The fixed three-letter name of month `i` in `1..=12`.
pub fn month_abbr(i: i32) -> (s: &'static str)
    requires
        1 <= i <= 12,
    ensures
        s@ == spec_month_abbr(i as int),
{
    match i {
        1 => "Jan",
        2 => "Feb",
        3 => "Mar",
        4 => "Apr",
        5 => "May",
        6 => "Jun",
        7 => "Jul",
        8 => "Aug",
        9 => "Sep",
        10 => "Oct",
        11 => "Nov",
        _ => "Dec",
    }
}

} // verus!
