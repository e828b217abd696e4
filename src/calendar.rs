use vstd::prelude::*;
use vstd::string::StringExecFns;
use crate::text::{decimal, push_decimal, string_of};

verus! {

pub open spec fn is_leap(y: nat) -> bool {
    y % 4 == 0 && (y % 100 != 0 || y % 400 == 0)
}

pub open spec fn year_length(y: nat) -> nat {
    if is_leap(y) {
        366
    } else {
        365
    }
}

/// Walking whole years from year `y`: the year that day `days` falls in,
/// and the day's index within it.
pub open spec fn year_and_day(y: nat, days: nat) -> (nat, nat)
    decreases days,
{
    if days < year_length(y) {
        (y, days)
    } else {
        year_and_day(y + 1, (days - year_length(y)) as nat)
    }
}

/// Length of month `m` (0 for January).
pub open spec fn month_length(leap: bool, m: nat) -> nat {
    if m == 1 {
        if leap {
            29
        } else {
            28
        }
    } else if m == 3 || m == 5 || m == 8 || m == 10 {
        30
    } else {
        31
    }
}

/// Walking whole months from month `m`: the month (0-based) that day `days`
/// of the year falls in, and the day's index within it.
pub open spec fn month_and_day(leap: bool, m: nat, days: nat) -> (nat, nat)
    decreases 12 - m,
{
    if m >= 11 || days < month_length(leap, m) {
        (m, days)
    } else {
        month_and_day(leap, m + 1, (days - month_length(leap, m)) as nat)
    }
}

/// `s` with zeros in front up to `width` characters.
pub open spec fn zero_padded(s: Seq<char>, width: nat) -> Seq<char> {
    if s.len() < width {
        Seq::new((width - s.len()) as nat, |i: int| '0') + s
    } else {
        s
    }
}

/// `YYYY-MM-DD` of the UTC day that holds second `secs` of the Unix epoch.
pub open spec fn date_text(secs: nat) -> Seq<char> {
    let (y, yd) = year_and_day(1970, secs / 86400);
    let (m, d) = month_and_day(is_leap(y), 0, yd);
    zero_padded(decimal(y), 4) + "-"@ + zero_padded(decimal(m + 1), 2) + "-"@ + zero_padded(
        decimal(d + 1),
        2,
    )
}

/// `YYYY-MM-DD hh:mm:ss` of second `secs` of the Unix epoch, in UTC.
pub open spec fn datetime_text(secs: nat) -> Seq<char> {
    let t = secs % 86400;
    date_text(secs) + " "@ + zero_padded(decimal(t / 3600), 2) + ":"@ + zero_padded(
        decimal((t % 3600) / 60),
        2,
    ) + ":"@ + zero_padded(decimal(t % 60), 2)
}

fn padded(n: u64, width: usize) -> (r: String)
    ensures
        r@ == zero_padded(decimal(n as nat), width as nat),
{
    let mut digits: Vec<char> = Vec::new();
    push_decimal(n, &mut digits);
    assert(digits@ =~= decimal(n as nat));
    let mut out: Vec<char> = Vec::new();
    if digits.len() < width {
        let fill = width - digits.len();
        let mut i: usize = 0;
        while i < fill
            invariant
                i <= fill,
                out@ =~= Seq::new(i as nat, |k: int| '0'),
            decreases fill - i,
        {
            out.push('0');
            i += 1;
        }
    }
    let ghost front = out@;
    let mut j: usize = 0;
    while j < digits.len()
        invariant
            j <= digits@.len(),
            out@ == front + digits@.take(j as int),
        decreases digits@.len() - j,
    {
        out.push(digits[j]);
        assert(digits@.take(j + 1) =~= digits@.take(j as int).push(digits@[j as int]));
        assert(out@ =~= front + digits@.take(j + 1));
        j += 1;
    }
    assert(digits@.take(j as int) =~= digits@);
    assert(out@ =~= zero_padded(decimal(n as nat), width as nat));
    string_of(&out)
}

fn leap_exec(y: u64) -> (r: bool)
    ensures
        r == is_leap(y as nat),
{
    y % 4 == 0 && (y % 100 != 0 || y % 400 == 0)
}

fn month_length_exec(leap: bool, m: u64) -> (r: u64)
    ensures
        r as nat == month_length(leap, m as nat),
{
    if m == 1 {
        if leap {
            29
        } else {
            28
        }
    } else if m == 3 || m == 5 || m == 8 || m == 10 {
        30
    } else {
        31
    }
}

/// The UTC date of second `secs` of the Unix epoch, as `YYYY-MM-DD`.
pub fn format_date(secs: u64) -> (r: String)
    ensures
        r@ == date_text(secs as nat),
{
    let days = secs / 86400;
    let mut y: u64 = 1970;
    let mut remaining = days;
    loop
        invariant
            days <= u64::MAX / 86400,
            remaining <= days,
            y >= 1970,
            y - 1970 <= days - remaining,
            year_and_day(1970, days as nat) == year_and_day(y as nat, remaining as nat),
        ensures
            year_and_day(1970, days as nat) == (y as nat, remaining as nat),
            remaining < 366,
        decreases remaining,
    {
        let len: u64 = if leap_exec(y) { 366 } else { 365 };
        if remaining < len {
            break;
        }
        remaining = remaining - len;
        y = y + 1;
    }
    let leap = leap_exec(y);
    let mut m: u64 = 0;
    while m < 11 && remaining >= month_length_exec(leap, m)
        invariant
            m <= 11,
            remaining < 366,
            month_and_day(is_leap(y as nat), 0, year_and_day(1970, days as nat).1)
                == month_and_day(leap, m as nat, remaining as nat),
            leap == is_leap(y as nat),
        decreases 12 - m,
    {
        remaining = remaining - month_length_exec(leap, m);
        m = m + 1;
    }
    padded(y, 4).concat("-").concat(padded(m + 1, 2).as_str()).concat("-").concat(
        padded(remaining + 1, 2).as_str(),
    )
}

/// The UTC time of second `secs` of the Unix epoch, as `YYYY-MM-DD hh:mm:ss`.
pub fn format_datetime(secs: u64) -> (r: String)
    ensures
        r@ == datetime_text(secs as nat),
{
    let date = format_date(secs);
    let t = secs % 86400;
    date.concat(" ").concat(padded(t / 3600, 2).as_str()).concat(":").concat(
        padded((t % 3600) / 60, 2).as_str(),
    ).concat(":").concat(padded(t % 60, 2).as_str())
}

} // verus!
