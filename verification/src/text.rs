//! Verified text helpers: decimal rendering of integers, rendering of a
//! value held in tenths with one fractional digit, string equality, and
//! parsing of a four-digit year prefix from a date string.

use vstd::prelude::*;

verus! {

/// The decimal digit character for `d` in `0..10`.
pub open spec fn digit_char(d: int) -> char {
    if d == 0 {
        '0'
    } else if d == 1 {
        '1'
    } else if d == 2 {
        '2'
    } else if d == 3 {
        '3'
    } else if d == 4 {
        '4'
    } else if d == 5 {
        '5'
    } else if d == 6 {
        '6'
    } else if d == 7 {
        '7'
    } else if d == 8 {
        '8'
    } else {
        '9'
    }
}

/// The value of a decimal digit character, `-1` for any other character.
pub open spec fn digit_val(c: char) -> int {
    if c == '0' {
        0
    } else if c == '1' {
        1
    } else if c == '2' {
        2
    } else if c == '3' {
        3
    } else if c == '4' {
        4
    } else if c == '5' {
        5
    } else if c == '6' {
        6
    } else if c == '7' {
        7
    } else if c == '8' {
        8
    } else if c == '9' {
        9
    } else {
        -1
    }
}

/// Decimal rendering of a non-negative integer, most significant digit
/// first, without leading zeros (except for `0` itself).
pub open spec fn dec_seq(n: int) -> Seq<char>
    recommends
        n >= 0,
    decreases n,
{
    if n < 10 {
        seq![digit_char(n)]
    } else {
        dec_seq(n / 10).push(digit_char(n % 10))
    }
}

/// Decimal rendering of a signed integer: a `-` sign before the digits of
/// the magnitude when negative.
pub open spec fn int_dec(n: int) -> Seq<char> {
    if n < 0 {
        seq!['-'] + dec_seq(-n)
    } else {
        dec_seq(n)
    }
}

/// Rendering of a signed value held in tenths, with exactly one fractional
/// digit: `1234` becomes `123.4`, `-5` becomes `-0.5`.
pub open spec fn tenths_seq(t: int) -> Seq<char> {
    if t < 0 {
        seq!['-'] + dec_seq(-t / 10) + seq!['.'] + seq![digit_char(-t % 10)]
    } else {
        dec_seq(t / 10) + seq!['.'] + seq![digit_char(t % 10)]
    }
}

/// The one-character string for a decimal digit.
fn digit_str(d: u32) -> (s: &'static str)
    requires
        d < 10,
    ensures
        s@ == seq![digit_char(d as int)],
{
    match d {
        0 => {
            proof {
                reveal_strlit("0");
                assert("0"@ =~= seq![digit_char(0)]);
            }
            "0"
        },
        1 => {
            proof {
                reveal_strlit("1");
                assert("1"@ =~= seq![digit_char(1)]);
            }
            "1"
        },
        2 => {
            proof {
                reveal_strlit("2");
                assert("2"@ =~= seq![digit_char(2)]);
            }
            "2"
        },
        3 => {
            proof {
                reveal_strlit("3");
                assert("3"@ =~= seq![digit_char(3)]);
            }
            "3"
        },
        4 => {
            proof {
                reveal_strlit("4");
                assert("4"@ =~= seq![digit_char(4)]);
            }
            "4"
        },
        5 => {
            proof {
                reveal_strlit("5");
                assert("5"@ =~= seq![digit_char(5)]);
            }
            "5"
        },
        6 => {
            proof {
                reveal_strlit("6");
                assert("6"@ =~= seq![digit_char(6)]);
            }
            "6"
        },
        7 => {
            proof {
                reveal_strlit("7");
                assert("7"@ =~= seq![digit_char(7)]);
            }
            "7"
        },
        8 => {
            proof {
                reveal_strlit("8");
                assert("8"@ =~= seq![digit_char(8)]);
            }
            "8"
        },
        _ => {
            proof {
                reveal_strlit("9");
                assert("9"@ =~= seq![digit_char(9)]);
            }
            "9"
        },
    }
}

/// Decimal rendering of an unsigned integer as a `String`.
pub fn u32_dec(n: u32) -> (s: String)
    ensures
        s@ == dec_seq(n as int),
    decreases n,
{
    if n < 10 {
        String::from_str(digit_str(n))
    } else {
        let mut s = u32_dec(n / 10);
        s.append(digit_str(n % 10));
        proof {
            assert(s@ =~= dec_seq((n / 10) as int).push(digit_char((n % 10) as int)));
        }
        s
    }
}

/// Decimal rendering of a signed integer as a `String`.
pub fn i32_dec(n: i32) -> (s: String)
    requires
        n > i32::MIN,
    ensures
        s@ == int_dec(n as int),
{
    if n < 0 {
        let mut s = String::from_str("-");
        let digits = u32_dec((-n) as u32);
        s.append(digits.as_str());
        proof {
            reveal_strlit("-");
            assert("-"@ =~= seq!['-']);
        }
        s
    } else {
        u32_dec(n as u32)
    }
}

/// Rendering of a value held in tenths with one fractional digit kept.
pub fn format_tenths(t: i32) -> (s: String)
    requires
        t > i32::MIN,
    ensures
        s@ == tenths_seq(t as int),
{
    let m: u32 = if t < 0 {
        (-t) as u32
    } else {
        t as u32
    };
    let mut s = if t < 0 {
        let r = String::from_str("-");
        proof {
            reveal_strlit("-");
            assert("-"@ =~= seq!['-']);
        }
        r
    } else {
        String::new()
    };
    let whole = u32_dec(m / 10);
    s.append(whole.as_str());
    s.append(".");
    s.append(digit_str(m % 10));
    proof {
        reveal_strlit(".");
        assert("."@ =~= seq!['.']);
        if t < 0 {
            assert(s@ =~= tenths_seq(t as int));
        } else {
            assert(s@ =~= tenths_seq(t as int));
        }
    }
    s
}

/// Character-wise string equality; `true` exactly when the two views agree.
pub fn str_eq(a: &str, b: &str) -> (r: bool)
    ensures
        r <==> a@ == b@,
{
    let an = a.unicode_len();
    let bn = b.unicode_len();
    if an != bn {
        return false;
    }
    for i in 0..an
        invariant
            an == a@.len(),
            bn == b@.len(),
            an == bn,
            forall|j: int| 0 <= j < i ==> a@[j] == b@[j],
    {
        if a.get_char(i) != b.get_char(i) {
            return false;
        }
    }
    proof {
        assert(a@ =~= b@);
    }
    true
}

/// The value of a decimal digit character, `-1` for any other character.
pub fn char_digit(c: char) -> (d: i32)
    ensures
        d == digit_val(c),
{
    match c {
        '0' => 0,
        '1' => 1,
        '2' => 2,
        '3' => 3,
        '4' => 4,
        '5' => 5,
        '6' => 6,
        '7' => 7,
        '8' => 8,
        '9' => 9,
        _ => -1,
    }
}

/// Whether the first four characters of `s` are decimal digits.
pub open spec fn has_year_prefix(s: Seq<char>) -> bool {
    &&& s.len() >= 4
    &&& digit_val(s[0]) >= 0
    &&& digit_val(s[1]) >= 0
    &&& digit_val(s[2]) >= 0
    &&& digit_val(s[3]) >= 0
}

/// The year encoded by the first four characters of `s`.
pub open spec fn spec_year_prefix(s: Seq<char>) -> int {
    1000 * digit_val(s[0]) + 100 * digit_val(s[1]) + 10 * digit_val(s[2]) + digit_val(s[3])
}

/// Reads the leading four-digit year of a date string such as
/// `2020-09-05`.  `None` exactly when the string is shorter than four
/// characters or a leading character is no digit.
pub fn parse_year_prefix(s: &str) -> (r: Option<i32>)
    ensures
        r is Some <==> has_year_prefix(s@),
        r is Some ==> r->0 == spec_year_prefix(s@) && 0 <= r->0 <= 9999,
{
    if s.unicode_len() < 4 {
        return None;
    }
    let d0 = char_digit(s.get_char(0));
    let d1 = char_digit(s.get_char(1));
    let d2 = char_digit(s.get_char(2));
    let d3 = char_digit(s.get_char(3));
    if d0 < 0 || d1 < 0 || d2 < 0 || d3 < 0 {
        return None;
    }
    Some(1000 * d0 + 100 * d1 + 10 * d2 + d3)
}

} // verus!
