//! Textual report of one observation set: a header, one line per
//! observation with sentinel values standing in for absent fields, and a
//! no-data line for an empty set.  Also the two decisions that pick the
//! year to render from the fallback bounds and the dates the data source
//! answered with.

use vstd::prelude::*;
use crate::chart::Observation;
use crate::text::i32_dec;
use crate::text::int_dec;

verus! {

/// The value a report shows for a possibly absent field: the sentinel
/// when the value is missing.
pub open spec fn spec_shown(v: Option<i32>, missing: int) -> int {
    if v is Some {
        v->0 as int
    } else {
        missing
    }
}

/// The report line for one observation, for example
/// `1954-7: Avg Hi=83, Avg Lo=61`; an absent high shows as `999`, an
/// absent low as `-999`.
pub open spec fn spec_avg_line(year: int, bucket: int, hi: Option<i32>, lo: Option<i32>) -> Seq<
    char,
> {
    int_dec(year) + "-"@ + int_dec(bucket) + ": Avg Hi="@ + int_dec(spec_shown(hi, 999))
        + ", Avg Lo="@ + int_dec(spec_shown(lo, -999))
}

/// The header above a non-empty report.
pub open spec fn spec_report_header(period: Seq<char>, city: Seq<char>, year: int) -> Seq<char> {
    "Avg "@ + period + " temps for "@ + city + " in "@ + int_dec(year)
}

/// The single line of a report over an empty observation set.
pub open spec fn spec_no_data_line(period: Seq<char>, city: Seq<char>, year: int) -> Seq<char> {
    "No "@ + period + " data found for "@ + city + " in "@ + int_dec(year)
}

/// Renders the report line for one observation.
pub fn avg_line(year: i32, o: &Observation) -> (s: String)
    requires
        year > i32::MIN,
        o.wf(),
    ensures
        s@ == spec_avg_line(year as int, o.bucket as int, o.high, o.low),
{
    let mut s = i32_dec(year);
    s.append("-");
    let b = i32_dec(o.bucket);
    s.append(b.as_str());
    s.append(": Avg Hi=");
    let hv: i32 = match o.high {
        Some(v) => v,
        None => 999,
    };
    let hs = i32_dec(hv);
    s.append(hs.as_str());
    s.append(", Avg Lo=");
    let lv: i32 = match o.low {
        Some(v) => v,
        None => -999,
    };
    let ls = i32_dec(lv);
    s.append(ls.as_str());
    s
}

/// Renders the whole report: the no-data line for an empty set, else the
/// header followed by one line per observation, in the set's order.
pub fn avg_report(period: &str, city: &str, year: i32, obs: &Vec<Observation>) -> (lines: Vec<
    String,
>)
    requires
        year > i32::MIN,
        forall|k: int| 0 <= k < obs@.len() ==> (#[trigger] obs@[k]).wf(),
    ensures
        obs@.len() == 0 ==> lines@.len() == 1 && lines@[0]@ == spec_no_data_line(
            period@,
            city@,
            year as int,
        ),
        obs@.len() > 0 ==> {
            &&& lines@.len() == obs@.len() + 1
            &&& lines@[0]@ == spec_report_header(period@, city@, year as int)
            &&& forall|k: int|
                0 <= k < obs@.len() ==> (#[trigger] lines@[k + 1])@ == spec_avg_line(
                    year as int,
                    obs@[k].bucket as int,
                    obs@[k].high,
                    obs@[k].low,
                )
        },
{
    let mut lines: Vec<String> = Vec::new();
    if obs.len() == 0 {
        let mut s = String::from_str("No ");
        s.append(period);
        s.append(" data found for ");
        s.append(city);
        s.append(" in ");
        let y = i32_dec(year);
        s.append(y.as_str());
        lines.push(s);
        return lines;
    }
    let mut s = String::from_str("Avg ");
    s.append(period);
    s.append(" temps for ");
    s.append(city);
    s.append(" in ");
    let y = i32_dec(year);
    s.append(y.as_str());
    lines.push(s);
    let n = obs.len();
    let mut i: usize = 0;
    while i < n
        invariant
            year > i32::MIN,
            forall|k: int| 0 <= k < obs@.len() ==> (#[trigger] obs@[k]).wf(),
            n == obs@.len(),
            0 <= i <= n,
            lines@.len() == i + 1,
            lines@[0]@ == spec_report_header(period@, city@, year as int),
            forall|k: int|
                0 <= k < i ==> (#[trigger] lines@[k + 1])@ == spec_avg_line(
                    year as int,
                    obs@[k].bucket as int,
                    obs@[k].high,
                    obs@[k].low,
                ),
        decreases n - i,
    {
        let o = obs[i];
        let line = avg_line(year, &o);
        lines.push(line);
        i += 1;
    }
    lines
}

/// The first year to render: the year parsed from the earliest record
/// replaces the fallback only when it is later, so an early fallback
/// probe always yields a year the data actually covers.
pub open spec fn spec_refined_first_year(fallback: int, candidate: Option<i32>) -> int {
    match candidate {
        Some(c) => if c > fallback {
            c as int
        } else {
            fallback
        },
        None => fallback,
    }
}

/// The last year to render: the year parsed from the latest record
/// replaces the fallback only when it is earlier.
pub open spec fn spec_refined_last_year(fallback: int, candidate: Option<i32>) -> int {
    match candidate {
        Some(c) => if c < fallback {
            c as int
        } else {
            fallback
        },
        None => fallback,
    }
}

/// Replaces the fallback first year by the parsed one when that is later.
pub fn refine_first_year(fallback: i32, candidate: Option<i32>) -> (y: i32)
    ensures
        y == spec_refined_first_year(fallback as int, candidate),
{
    match candidate {
        Some(c) => if c > fallback {
            c
        } else {
            fallback
        },
        None => fallback,
    }
}

/// Replaces the fallback last year by the parsed one when that is
/// earlier.
pub fn refine_last_year(fallback: i32, candidate: Option<i32>) -> (y: i32)
    ensures
        y == spec_refined_last_year(fallback as int, candidate),
{
    match candidate {
        Some(c) => if c < fallback {
            c
        } else {
            fallback
        },
        None => fallback,
    }
}

} // verus!
