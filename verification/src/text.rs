//! Locale-independent decimal and calendar text: the canonical renderings
//! the serializers produce, specified character by character.

use vstd::prelude::*;

verus! {

/// The decimal digit character for `d`.
pub open spec fn dec_digit(d: int) -> char {
    if d == 0 {
        '0'
    } else if d == 1 {
        '1'
    } else if d == 2 {
        '2'
    } else if d == 3 {
        '3'
    } else if d == 4 {
        '4'
    } else if d == 5 {
        '5'
    } else if d == 6 {
        '6'
    } else if d == 7 {
        '7'
    } else if d == 8 {
        '8'
    } else {
        '9'
    }
}

/// The decimal rendering of a non-negative integer, most significant digit
/// first, with no leading zeros (and `0` itself as one digit).
pub open spec fn dec_text(n: int) -> Seq<char>
    decreases n,
        when n >= 0
{
    if n < 10 {
        seq![dec_digit(n)]
    } else {
        dec_text(n / 10).push(dec_digit(n % 10))
    }
}

/// The decimal rendering of a signed integer: a minus sign, then digits.
pub open spec fn int_text(i: int) -> Seq<char> {
    if i < 0 {
        seq!['-'] + dec_text(-i)
    } else {
        dec_text(i)
    }
}

/// The decimal rendering padded with leading zeros to at least `width`.
pub open spec fn padded_text(n: int, width: int) -> Seq<char> {
    Seq::new(
        if dec_text(n).len() < width {
            (width - dec_text(n).len()) as nat
        } else {
            0
        },
        |i: int| '0',
    ) + dec_text(n)
}

/// A decimal rendering never has fewer than one digit, and one more digit
/// per factor of ten.
pub proof fn lemma_dec_text_len(n: int)
    requires
        n >= 0,
    ensures
        dec_text(n).len() >= 1,
        n < 10 ==> dec_text(n).len() == 1,
        n >= 10 ==> dec_text(n).len() == dec_text(n / 10).len() + 1,
{
}

/// The exec digit table, one character per digit.
fn digit_str(d: u64) -> (r: &'static str)
    requires
        d < 10,
    ensures
        r@ == seq![dec_digit(d as int)],
{
    proof {
        reveal_strlit("0");
        reveal_strlit("1");
        reveal_strlit("2");
        reveal_strlit("3");
        reveal_strlit("4");
        reveal_strlit("5");
        reveal_strlit("6");
        reveal_strlit("7");
        reveal_strlit("8");
        reveal_strlit("9");
    }
    let r = if d == 0 {
        "0"
    } else if d == 1 {
        "1"
    } else if d == 2 {
        "2"
    } else if d == 3 {
        "3"
    } else if d == 4 {
        "4"
    } else if d == 5 {
        "5"
    } else if d == 6 {
        "6"
    } else if d == 7 {
        "7"
    } else if d == 8 {
        "8"
    } else {
        "9"
    };
    proof {
        assert(r@ =~= seq![dec_digit(d as int)]);
    }
    r
}

/// Renders an unsigned integer in decimal.
pub fn u64_to_string(n: u64) -> (r: String)
    ensures
        r@ == dec_text(n as int),
    decreases n,
{
    if n < 10 {
        digit_str(n).to_owned()
    } else {
        let mut s = u64_to_string(n / 10);
        s.append(digit_str(n % 10));
        proof {
            assert(s@ =~= dec_text(n as int));
        }
        s
    }
}

/// Renders a signed integer in decimal.
pub fn i64_to_string(i: i64) -> (r: String)
    ensures
        r@ == int_text(i as int),
{
    if i >= 0 {
        u64_to_string(i as u64)
    } else {
        let magnitude: u64 = if i == i64::MIN {
            0x8000_0000_0000_0000u64
        } else {
            (-i) as u64
        };
        proof {
            reveal_strlit("-");
        }
        let mut s = String::from_str("-");
        let digits = u64_to_string(magnitude);
        s.append(digits.as_str());
        proof {
            assert(s@ =~= int_text(i as int));
        }
        s
    }
}

/// Renders an unsigned integer padded with leading zeros to `width`.
#[verifier::loop_isolation(false)]
pub fn padded_to_string(n: u64, width: usize) -> (r: String)
    ensures
        r@ == padded_text(n as int, width as int),
{
    let t = u64_to_string(n);
    let digits = t.as_str().unicode_len();
    let mut s = String::new();
    let mut k: usize = digits;
    proof {
        reveal_strlit("0");
        lemma_dec_text_len(n as int);
    }
    while k < width
        invariant
            digits <= k,
            k <= width || k == digits,
            s@ == Seq::new((k - digits) as nat, |i: int| '0'),
        decreases width - k,
    {
        s.append("0");
        proof {
            assert(s@ =~= Seq::new((k + 1 - digits) as nat, |i: int| '0'));
        }
        k = k + 1;
    }
    s.append(t.as_str());
    proof {
        assert(s@ =~= padded_text(n as int, width as int));
    }
    s
}


/// Whether a year is a leap year in the proleptic Gregorian calendar.
pub open spec fn is_leap_year(y: int) -> bool {
    y % 4 == 0 && (y % 100 != 0 || y % 400 == 0)
}

/// Days in a calendar year.
pub open spec fn days_in_year(y: int) -> int {
    if is_leap_year(y) {
        366
    } else {
        365
    }
}

/// Days in a calendar month.
pub open spec fn days_in_month(y: int, m: int) -> int {
    if m == 2 {
        if is_leap_year(y) {
            29
        } else {
            28
        }
    } else if m == 4 || m == 6 || m == 9 || m == 11 {
        30
    } else {
        31
    }
}

/// Walks whole years from `y` until the remaining day count falls inside
/// one year; returns that year and the zero-based day within it.
pub open spec fn find_year(y: int, rem: int) -> (int, int)
    decreases (if rem < 0 { 1int } else { 0int }), (if rem < 0 { -rem } else { rem }),
{
    if rem < 0 {
        find_year(y - 1, rem + days_in_year(y - 1))
    } else if rem >= days_in_year(y) {
        find_year(y + 1, rem - days_in_year(y))
    } else {
        (y, rem)
    }
}

/// Walks months from `m` until the remaining day count falls inside one
/// month; returns that month and the zero-based day within it.
pub open spec fn find_month(y: int, m: int, rem: int) -> (int, int)
    decreases 12 - m,
{
    if m >= 12 {
        (m, rem)
    } else if rem < days_in_month(y, m) {
        (m, rem)
    } else {
        find_month(y, m + 1, rem - days_in_month(y, m))
    }
}

/// The calendar date `days` days after 1970-01-01 (negative counts reach
/// back before the epoch), as year, month and day of month.
pub open spec fn date_ymd(days: int) -> (int, int, int) {
    let yr = find_year(1970, days);
    let md = find_month(yr.0, 1, yr.1);
    (yr.0, md.0, md.1 + 1)
}

/// Whether the date falls in the four-digit year range the canonical
/// rendering covers.
pub open spec fn date_in_range(days: int) -> bool {
    1 <= date_ymd(days).0 <= 9999
}

/// The canonical `YYYY-MM-DD` rendering of an epoch day count.
pub open spec fn date_text(days: int) -> Seq<char> {
    padded_text(date_ymd(days).0, 4) + seq!['-'] + padded_text(date_ymd(days).1, 2) + seq!['-']
        + padded_text(date_ymd(days).2, 2)
}

/// The canonical `YYYY-MM-DD HH:MM:SS` rendering of epoch seconds, UTC.
pub open spec fn datetime_text(secs: int) -> Seq<char> {
    date_text(secs / 86400) + seq![' '] + padded_text(secs / 3600 % 24, 2) + seq![':']
        + padded_text(secs / 60 % 60, 2) + seq![':'] + padded_text(secs % 60, 2)
}

/// Days in the given calendar year.
fn days_in_year_exec(y: i64) -> (r: i64)
    ensures
        r == days_in_year(y as int),
{
    if (y % 4 == 0 && y % 100 != 0) || y % 400 == 0 {
        366
    } else {
        365
    }
}

/// Days in the given calendar month.
fn days_in_month_exec(y: i64, m: u64) -> (r: i64)
    ensures
        r == days_in_month(y as int, m as int),
{
    if m == 2 {
        if (y % 4 == 0 && y % 100 != 0) || y % 400 == 0 {
            29
        } else {
            28
        }
    } else if m == 4 || m == 6 || m == 9 || m == 11 {
        30
    } else {
        31
    }
}

/// Resolves an epoch day count to year, month and day of month.
#[verifier::loop_isolation(false)]
pub fn days_to_ymd(days: i64) -> (r: (i64, u64, u64))
    requires
        -0x1_0000_0000 <= days <= 0x1_0000_0000,
    ensures
        (r.0 as int, r.1 as int, r.2 as int) == date_ymd(days as int),
        1 <= r.1 <= 12,
        1 <= r.2,
{
    let mut y: i64 = 1970;
    let mut rem: i64 = days;
    while rem < 0
        invariant
            find_year(1970, days as int) == find_year(y as int, rem as int),
            rem >= days,
            rem <= days || rem < 366,
            y <= 1970,
            365 * (1970 - y) <= rem - days,
        decreases (if rem < 0 { -(rem as int) } else { 0int }),
    {
        let step = days_in_year_exec(y - 1);
        y = y - 1;
        rem = rem + step;
    }
    let ghost y0 = y as int;
    let ghost rem0 = rem as int;
    while rem >= days_in_year_exec(y)
        invariant
            find_year(1970, days as int) == find_year(y as int, rem as int),
            0 <= rem <= rem0,
            y0 <= y,
            365 * (y - y0) <= rem0 - rem,
            rem0 <= 0x1_0000_0000,
        decreases rem,
    {
        let step = days_in_year_exec(y);
        rem = rem - step;
        y = y + 1;
    }
    proof {
        assert(find_year(y as int, rem as int) == (y as int, rem as int));
    }
    let ghost doy = rem as int;
    let mut m: u64 = 1;
    while m < 12 && rem >= days_in_month_exec(y, m)
        invariant
            find_month(y as int, 1, doy) == find_month(y as int, m as int, rem as int),
            1 <= m <= 12,
            0 <= rem < 366,
        decreases 12 - m,
    {
        let step = days_in_month_exec(y, m);
        rem = rem - step;
        m = m + 1;
    }
    proof {
        assert(find_month(y as int, m as int, rem as int) == (m as int, rem as int));
    }
    (y, m, (rem + 1) as u64)
}

/// Renders an epoch day count as `YYYY-MM-DD`, if its year has at most
/// four digits; otherwise reports that the date is out of range.
pub fn date_to_string(days: i64) -> (r: Option<String>)
    requires
        -0x1_0000_0000 <= days <= 0x1_0000_0000,
    ensures
        match r {
            Option::Some(s) => date_in_range(days as int) && s@ == date_text(days as int),
            Option::None => !date_in_range(days as int),
        },
{
    let (y, m, d) = days_to_ymd(days);
    if y < 1 || y > 9999 {
        return None;
    }
    proof {
        reveal_strlit("-");
    }
    let mut s = padded_to_string(y as u64, 4);
    s.append("-");
    let mt = padded_to_string(m, 2);
    s.append(mt.as_str());
    s.append("-");
    let dt = padded_to_string(d, 2);
    s.append(dt.as_str());
    proof {
        assert(s@ =~= date_text(days as int));
    }
    Some(s)
}

/// Renders epoch seconds as `YYYY-MM-DD HH:MM:SS`, UTC, if the day part is
/// in range; otherwise reports that the date is out of range.
pub fn datetime_to_string(secs: u32) -> (r: Option<String>)
    ensures
        match r {
            Option::Some(s) => date_in_range(secs as int / 86400) && s@ == datetime_text(
                secs as int,
            ),
            Option::None => !date_in_range(secs as int / 86400),
        },
{
    let days: i64 = (secs / 86400) as i64;
    let date = date_to_string(days);
    match date {
        Option::None => None,
        Option::Some(mut s) => {
            proof {
                reveal_strlit(" ");
                reveal_strlit(":");
            }
            s.append(" ");
            let h = padded_to_string(((secs / 3600) % 24) as u64, 2);
            s.append(h.as_str());
            s.append(":");
            let mi = padded_to_string(((secs / 60) % 60) as u64, 2);
            s.append(mi.as_str());
            s.append(":");
            let sec = padded_to_string((secs % 60) as u64, 2);
            s.append(sec.as_str());
            proof {
                assert(s@ =~= datetime_text(secs as int));
            }
            Some(s)
        },
    }
}

} // verus!
