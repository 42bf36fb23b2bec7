//! Calendar date-times and the canonical `YYYY-MM-DD HH.MM.SS.ext` name.
use vstd::prelude::*;
use vstd::string::StringExecFns;
use chrono::{Datelike, TimeZone, Timelike};

verus! {

/// The earliest year that chrono's calendar holds.
pub const MIN_YEAR: i32 = -262143;

/// The latest year that chrono's calendar holds.
pub const MAX_YEAR: i32 = 262142;

/// A calendar date and time of day, without a time zone.
#[derive(Clone, Copy, Debug, PartialEq, Eq, Structural)]
pub struct LocalDateTime {
    pub year: i32,
    pub month: u32,
    pub day: u32,
    pub hour: u32,
    pub minute: u32,
    pub second: u32,
}

pub open spec fn is_leap_year(y: int) -> bool {
    (y % 4 == 0 && y % 100 != 0) || y % 400 == 0
}

pub open spec fn days_in_month(y: int, m: int) -> int {
    if m == 2 {
        if is_leap_year(y) {
            29
        } else {
            28
        }
    } else if m == 4 || m == 6 || m == 9 || m == 11 {
        30
    } else {
        31
    }
}

/// A day of the proleptic Gregorian calendar, within chrono's years.
pub open spec fn valid_date(y: int, m: int, d: int) -> bool {
    MIN_YEAR <= y <= MAX_YEAR && 1 <= m <= 12 && 1 <= d <= days_in_month(y, m)
}

pub open spec fn valid_time(h: int, mi: int, s: int) -> bool {
    0 <= h < 24 && 0 <= mi < 60 && 0 <= s < 60
}

impl LocalDateTime {
    pub open spec fn wf(&self) -> bool {
        valid_date(self.year as int, self.month as int, self.day as int) && valid_time(
            self.hour as int,
            self.minute as int,
            self.second as int,
        )
    }
}

/// Whether `y-m-d` is a day of the calendar.
pub fn is_valid_date(y: i32, m: u32, d: u32) -> (r: bool)
    ensures
        r == valid_date(y as int, m as int, d as int),
{
    if y < MIN_YEAR || y > MAX_YEAR || m < 1 || m > 12 || d < 1 {
        return false;
    }
    // Shifted by a multiple of 400 years, which keeps leap years, to stay positive.
    let z: u32 = (y + 400000) as u32;
    let leap = (z % 4 == 0 && z % 100 != 0) || z % 400 == 0;
    proof {
        let w = y as int;
        assert((w + 400000) % 4 == w % 4) by (nonlinear_arith);
        assert((w + 400000) % 100 == w % 100) by (nonlinear_arith);
        assert((w + 400000) % 400 == w % 400) by (nonlinear_arith);
    }
    let last: u32 = if m == 2 {
        if leap {
            29
        } else {
            28
        }
    } else if m == 4 || m == 6 || m == 9 || m == 11 {
        30
    } else {
        31
    };
    d <= last
}

/// Whether `h:mi:s` is a time of day.
pub fn is_valid_time(h: u32, mi: u32, s: u32) -> (r: bool)
    ensures
        r == valid_time(h as int, mi as int, s as int),
{
    h < 24 && mi < 60 && s < 60
}

pub open spec fn digit_char(n: int) -> char {
    (n + '0' as int) as char
}

/// `n` with two digits.
pub open spec fn two_digits(n: int) -> Seq<char> {
    seq![digit_char(n / 10), digit_char(n % 10)]
}

/// `n` with four digits.
pub open spec fn four_digits(n: int) -> Seq<char> {
    seq![digit_char(n / 1000), digit_char(n / 100 % 10), digit_char(n / 10 % 10), digit_char(n % 10)]
}

/// `n` in decimal, without leading zeros.
pub open spec fn decimal(n: nat) -> Seq<char>
    decreases n,
{
    if n < 10 {
        seq![digit_char(n as int)]
    } else {
        decimal(n / 10).push(digit_char((n % 10) as int))
    }
}

/// A year as chrono's `%Y` writes it: four digits from 0 to 9999, else a
/// sign before at least four digits.
pub open spec fn year_text(y: int) -> Seq<char> {
    if 0 <= y <= 9999 {
        four_digits(y)
    } else {
        let a = if y < 0 {
            -y
        } else {
            y
        };
        let sign = if y < 0 {
            '-'
        } else {
            '+'
        };
        seq![sign] + if a < 10000 {
            four_digits(a)
        } else {
            decimal(a as nat)
        }
    }
}

/// `YYYY-MM-DD HH.MM.SS.ext`.
pub open spec fn canonical_text(dt: LocalDateTime, ext: Seq<char>) -> Seq<char> {
    year_text(dt.year as int) + seq!['-'] + two_digits(dt.month as int) + seq!['-'] + two_digits(
        dt.day as int,
    ) + seq![' '] + two_digits(dt.hour as int) + seq!['.'] + two_digits(dt.minute as int) + seq!['.']
        + two_digits(dt.second as int) + seq!['.'] + ext
}

fn push_digit(out: &mut String, d: u32)
    requires
        d < 10,
    ensures
        final(out)@ == old(out)@.push(digit_char(d as int)),
{
    let ghost o = out@;
    proof {
        reveal_strlit("0");
        reveal_strlit("1");
        reveal_strlit("2");
        reveal_strlit("3");
        reveal_strlit("4");
        reveal_strlit("5");
        reveal_strlit("6");
        reveal_strlit("7");
        reveal_strlit("8");
        reveal_strlit("9");
    }
    let s = if d == 0 {
        "0"
    } else if d == 1 {
        "1"
    } else if d == 2 {
        "2"
    } else if d == 3 {
        "3"
    } else if d == 4 {
        "4"
    } else if d == 5 {
        "5"
    } else if d == 6 {
        "6"
    } else if d == 7 {
        "7"
    } else if d == 8 {
        "8"
    } else {
        "9"
    };
    assert(s@ =~= seq![digit_char(d as int)]);
    out.append(s);
    assert(out@ =~= o.push(digit_char(d as int)));
}

fn push_two(out: &mut String, n: u32)
    requires
        n < 100,
    ensures
        final(out)@ == old(out)@ + two_digits(n as int),
{
    let ghost o = out@;
    push_digit(out, n / 10);
    push_digit(out, n % 10);
    assert(out@ =~= o + two_digits(n as int));
}

fn push_four(out: &mut String, n: u32)
    requires
        n < 10000,
    ensures
        final(out)@ == old(out)@ + four_digits(n as int),
{
    let ghost o = out@;
    push_digit(out, n / 1000);
    push_digit(out, n / 100 % 10);
    push_digit(out, n / 10 % 10);
    push_digit(out, n % 10);
    assert(out@ =~= o + four_digits(n as int));
}

fn push_decimal(out: &mut String, n: u32)
    ensures
        final(out)@ == old(out)@ + decimal(n as nat),
    decreases n,
{
    let ghost o = out@;
    if n >= 10 {
        push_decimal(out, n / 10);
    }
    push_digit(out, n % 10);
    assert(out@ =~= o + decimal(n as nat));
}

fn push_year(out: &mut String, y: i32)
    requires
        MIN_YEAR <= y <= MAX_YEAR,
    ensures
        final(out)@ == old(out)@ + year_text(y as int),
{
    let ghost o = out@;
    if 0 <= y && y <= 9999 {
        push_four(out, y as u32);
    } else {
        let a: u32 = if y < 0 {
            (-y) as u32
        } else {
            y as u32
        };
        proof {
            reveal_strlit("-");
            reveal_strlit("+");
        }
        if y < 0 {
            out.append("-");
        } else {
            out.append("+");
        }
        if a < 10000 {
            push_four(out, a);
        } else {
            push_decimal(out, a);
        }
        assert(out@ =~= o + year_text(y as int));
    }
}

/// The canonical name of a file taken at `dt` with extension `ext`.
pub fn canonical_name(dt: &LocalDateTime, ext: &str) -> (r: String)
    requires
        dt.wf(),
    ensures
        r@ == canonical_text(*dt, ext@),
{
    proof {
        reveal_strlit("-");
        reveal_strlit(" ");
        reveal_strlit(".");
    }
    let mut out = String::new();
    push_year(&mut out, dt.year);
    out.append("-");
    push_two(&mut out, dt.month);
    out.append("-");
    push_two(&mut out, dt.day);
    out.append(" ");
    push_two(&mut out, dt.hour);
    out.append(".");
    push_two(&mut out, dt.minute);
    out.append(".");
    push_two(&mut out, dt.second);
    out.append(".");
    out.append(ext);
    assert(out@ =~= canonical_text(*dt, ext@));
    out
}

/// Days from 1970-01-01 to `y-m-d` in the proleptic Gregorian calendar,
/// counted through 400-year eras of 146097 days from 0000-03-01.
pub open spec fn days_from_civil(y: int, m: int, d: int) -> int {
    let yy = if m <= 2 {
        y - 1
    } else {
        y
    };
    let era = yy / 400;
    let yoe = yy - era * 400;
    let doy = (153 * ((m + 9) % 12) + 2) / 5 + d - 1;
    let doe = yoe * 365 + yoe / 4 - yoe / 100 + doy;
    era * 146097 + doe - 719468
}

/// Non-leap seconds from 1970-01-01 00:00:00 to a calendar time read as UTC.
pub open spec fn unix_seconds_of(dt: LocalDateTime) -> int {
    days_from_civil(dt.year as int, dt.month as int, dt.day as int) * 86400 + dt.hour as int * 3600
        + dt.minute as int * 60 + dt.second as int
}

/// Relies on chrono's `NaiveDateTime::timestamp` (through `and_utc`): the
/// non-leap seconds from the epoch to a calendar time read as UTC. The date
/// and time are valid, so both constructors return a value.
#[verifier::external_body]
pub(crate) fn naive_timestamp(dt: &LocalDateTime) -> (r: i64)
    requires
        dt.wf(),
    ensures
        r as int == unix_seconds_of(*dt),
{
    let date = chrono::NaiveDate::from_ymd_opt(dt.year, dt.month, dt.day).unwrap();
    date.and_hms_opt(dt.hour, dt.minute, dt.second).unwrap().and_utc().timestamp()
}

/// Month, day and time of day in their ranges. The year is not bounded:
/// past chrono's last date its local fields run one year over.
pub open spec fn fields_in_range(dt: LocalDateTime) -> bool {
    1 <= dt.month <= 12 && 1 <= dt.day <= 31 && valid_time(
        dt.hour as int,
        dt.minute as int,
        dt.second as int,
    )
}

/// Relies on chrono's `Local::timestamp_opt`: the calendar time of an
/// instant in the machine's time zone, read through `Datelike` and
/// `Timelike` (seconds below 60; a leap second is carried in the fraction).
/// Those fields are the instant plus the zone's `FixedOffset`, below one day
/// either way, carried one day past chrono's last or first date at most.
#[verifier::external_body]
pub(crate) fn local_date_time(unix_seconds: i64) -> (r: Option<LocalDateTime>)
    ensures
        r matches Some(dt) ==> fields_in_range(dt),
        r matches Some(dt) ==> unix_seconds_of(dt) - 86400 < (unix_seconds as int) < unix_seconds_of(dt)
            + 86400,
{
    match chrono::Local.timestamp_opt(unix_seconds, 0).single() {
        Some(t) => Some(
            LocalDateTime {
                year: t.year(),
                month: t.month(),
                day: t.day(),
                hour: t.hour(),
                minute: t.minute(),
                second: t.second(),
            },
        ),
        None => None,
    }
}

/// Relies on chrono's `Local::from_local_datetime`: the instant of a
/// calendar time in the machine's time zone, none where that time is skipped
/// or occurs twice. The zone's offset is a `FixedOffset`, below one day
/// either way, and the instant is the time read as UTC less that offset.
#[verifier::external_body]
pub(crate) fn local_instant(dt: &LocalDateTime) -> (r: Option<i64>)
    requires
        dt.wf(),
    ensures
        r matches Some(t) ==> unix_seconds_of(*dt) - 86400 < (t as int) < unix_seconds_of(*dt) + 86400,
{
    let date = chrono::NaiveDate::from_ymd_opt(dt.year, dt.month, dt.day).unwrap();
    let naive = date.and_hms_opt(dt.hour, dt.minute, dt.second).unwrap();
    match chrono::Local.from_local_datetime(&naive).single() {
        Some(t) => Some(t.timestamp()),
        None => None,
    }
}

/// What chrono reads from a text in the form `%Y-%m-%d %H:%M:%S`.
pub uninterp spec fn parsed_date_time_of(text: Seq<char>) -> Option<LocalDateTime>;

/// Relies on chrono's `NaiveDateTime::parse_from_str` with the format
/// `%Y-%m-%d %H:%M:%S`; its values are valid calendar times with seconds
/// below 60 (a leap second is carried in the fraction, which is not read).
#[verifier::external_body]
pub(crate) fn parse_date_time(text: &str) -> (r: Option<LocalDateTime>)
    ensures
        r == parsed_date_time_of(text@),
        r matches Some(dt) ==> dt.wf(),
{
    match chrono::NaiveDateTime::parse_from_str(text, "%Y-%m-%d %H:%M:%S") {
        Ok(t) => Some(
            LocalDateTime {
                year: t.year(),
                month: t.month(),
                day: t.day(),
                hour: t.hour(),
                minute: t.minute(),
                second: t.second(),
            },
        ),
        Err(_) => None,
    }
}

} // verus!
