//! Calendar dates and date-times as plain values, and the calls into `chrono`
//! that parse, shift and render them.
//!
//! A `CalendarDate` stands for a `chrono::NaiveDate`, a `LocalDateTime` for a
//! `chrono::NaiveDateTime`, a `ZonedDateTime` for a `chrono::DateTime<FixedOffset>`.
//! Each trusted item below turns plain values into the `chrono` value, makes one
//! `chrono` call and turns the result back.

use vstd::prelude::*;
use vstd::string::*;
use crate::text::{append_chars, decimal, decimal_chars, string_of};
use chrono::{Datelike, TimeZone, Timelike};

verus! {

/// A proleptic Gregorian calendar date.
#[derive(PartialEq, Eq, Structural, Clone, Copy, Debug)]
pub struct CalendarDate {
    pub year: i32,
    pub month: u32,
    pub day: u32,
}

/// A date and a wall-clock time, without time zone.
#[derive(PartialEq, Eq, Structural, Clone, Copy, Debug)]
pub struct LocalDateTime {
    pub date: CalendarDate,
    pub hour: u32,
    pub minute: u32,
    pub second: u32,
    /// Nanoseconds; a leap second shows as `second == 59` with at least 10^9 here.
    pub nanosecond: u32,
}

/// An RFC 3339 date-time: its wall-clock date and time where it was written,
/// and the instant it names as seconds and nanoseconds since the Unix epoch.
#[derive(PartialEq, Eq, Structural, Clone, Copy, Debug)]
pub struct ZonedDateTime {
    pub local: LocalDateTime,
    pub timestamp: i64,
    pub subsec_nanos: u32,
}

/// First year that `chrono` represents.
pub open spec fn min_year() -> int {
    -262143
}

/// Last year that `chrono` represents.
pub open spec fn max_year() -> int {
    262142
}

/// Leap year of the proleptic Gregorian calendar.
pub open spec fn is_leap(y: int) -> bool {
    (y % 4 == 0 && y % 100 != 0) || y % 400 == 0
}

/// Number of days of month `m` of year `y`.
pub open spec fn days_in_month(y: int, m: int) -> int {
    if m == 2 {
        if is_leap(y) {
            29
        } else {
            28
        }
    } else if m == 4 || m == 6 || m == 9 || m == 11 {
        30
    } else {
        31
    }
}

/// `(y, m, d)` names a day that exists and that `chrono` represents.
pub open spec fn valid_ymd(y: int, m: int, d: int) -> bool {
    &&& min_year() <= y <= max_year()
    &&& 1 <= m <= 12
    &&& 1 <= d <= days_in_month(y, m)
}

/// The date exists and `chrono` represents it.
pub open spec fn valid_date(d: CalendarDate) -> bool {
    valid_ymd(d.year as int, d.month as int, d.day as int)
}

/// The time of day is one that `chrono` represents.
pub open spec fn valid_time(l: LocalDateTime) -> bool {
    &&& l.hour < 24
    &&& l.minute < 60
    &&& l.second < 60
    &&& l.nanosecond < 2_000_000_000
    &&& (l.nanosecond >= 1_000_000_000 ==> l.second == 59)
}

/// A date-time that `chrono` represents.
pub open spec fn valid_local(l: LocalDateTime) -> bool {
    valid_date(l.date) && valid_time(l)
}

/// A zoned date-time that `chrono` represents.
pub open spec fn valid_zoned(z: ZonedDateTime) -> bool {
    valid_local(z.local) && -10_000_000_000_000 < z.timestamp < 10_000_000_000_000
        && z.subsec_nanos < 2_000_000_000
}

/// The day after `d`, when `chrono` represents it.
pub open spec fn next_date_spec(d: CalendarDate) -> Option<CalendarDate> {
    if (d.day as int) < days_in_month(d.year as int, d.month as int) {
        Some(CalendarDate { year: d.year, month: d.month, day: (d.day + 1) as u32 })
    } else if d.month < 12 {
        Some(CalendarDate { year: d.year, month: (d.month + 1) as u32, day: 1 })
    } else if d.year < max_year() {
        Some(CalendarDate { year: (d.year + 1) as i32, month: 1, day: 1 })
    } else {
        None
    }
}

/// The day before `d`, when `chrono` represents it.
pub open spec fn prev_date_spec(d: CalendarDate) -> Option<CalendarDate> {
    if d.day > 1 {
        Some(CalendarDate { year: d.year, month: d.month, day: (d.day - 1) as u32 })
    } else if d.month > 1 {
        Some(
            CalendarDate {
                year: d.year,
                month: (d.month - 1) as u32,
                day: days_in_month(d.year as int, d.month - 1) as u32,
            },
        )
    } else if d.year > min_year() {
        Some(CalendarDate { year: (d.year - 1) as i32, month: 12, day: 31 })
    } else {
        None
    }
}

/// The date is a year 0 to 9999 date, as RFC 3339 writes them.
pub open spec fn four_digit_year(d: CalendarDate) -> bool {
    0 <= d.year <= 9999
}

// ------------------------------------------------------------------
// Rendering (chrono's `%Y`, `%m`, `%d`, `%H`, `%M`, `%S`)
// ------------------------------------------------------------------

/// `n` in decimal, zero-padded on the left to at least `width` digits.
pub open spec fn padded(n: nat, width: nat) -> Seq<char> {
    let d = decimal(n);
    if d.len() >= width {
        d
    } else {
        Seq::new((width - d.len()) as nat, |i: int| '0') + d
    }
}

/// chrono's `%Y`: years 0 to 9999 as four digits, other years with an
/// explicit sign followed by at least four digits.
pub open spec fn year_text(y: int) -> Seq<char> {
    if 0 <= y <= 9999 {
        padded(y as nat, 4)
    } else if y > 9999 {
        seq!['+'] + padded(y as nat, 4)
    } else {
        seq!['-'] + padded((-y) as nat, 4)
    }
}

/// chrono's `%Y-%m-%d`.
pub open spec fn date_text(d: CalendarDate) -> Seq<char> {
    year_text(d.year as int) + seq!['-'] + padded(d.month as nat, 2) + seq!['-'] + padded(
        d.day as nat,
        2,
    )
}

/// chrono's `%H:%M`.
pub open spec fn hour_minute_text(l: LocalDateTime) -> Seq<char> {
    padded(l.hour as nat, 2) + seq![':'] + padded(l.minute as nat, 2)
}

/// chrono's `%H:%M:%S`; a leap second shows as second 60.
pub open spec fn hms_text(l: LocalDateTime) -> Seq<char> {
    hour_minute_text(l) + seq![':'] + padded(
        (l.second + l.nanosecond / 1_000_000_000) as nat,
        2,
    )
}

/// `n` zero-padded to `width` digits.
pub fn padded_chars(n: u64, width: usize) -> (out: Vec<char>)
    ensures
        out@ == padded(n as nat, width as nat),
{
    let d = decimal_chars(n);
    if d.len() >= width {
        d
    } else {
        let mut out: Vec<char> = Vec::new();
        let k = width - d.len();
        let mut i: usize = 0;
        while i < k
            invariant
                i <= k,
                out@ == Seq::new(i as nat, |j: int| '0'),
            decreases k - i,
        {
            out.push('0');
            i = i + 1;
            assert(out@ =~= Seq::new(i as nat, |j: int| '0'));
        }
        append_chars(&mut out, &d);
        out
    }
}

/// chrono's `%Y`.
pub fn year_chars(y: i32) -> (out: Vec<char>)
    ensures
        out@ == year_text(y as int),
{
    if 0 <= y && y <= 9999 {
        padded_chars(y as u64, 4)
    } else if y > 9999 {
        let mut out: Vec<char> = Vec::new();
        out.push('+');
        let p = padded_chars(y as u64, 4);
        append_chars(&mut out, &p);
        assert(out@ =~= seq!['+'] + padded(y as nat, 4));
        out
    } else {
        let mut out: Vec<char> = Vec::new();
        out.push('-');
        let m: u64 = ((-(y as i64)) as u64);
        let p = padded_chars(m, 4);
        append_chars(&mut out, &p);
        assert(out@ =~= seq!['-'] + padded((-y) as nat, 4));
        out
    }
}

/// chrono's `%Y-%m-%d`, as characters.
pub fn date_chars(d: CalendarDate) -> (out: Vec<char>)
    ensures
        out@ == date_text(d),
{
    let mut out = year_chars(d.year);
    out.push('-');
    let m = padded_chars(d.month as u64, 2);
    append_chars(&mut out, &m);
    out.push('-');
    let dd = padded_chars(d.day as u64, 2);
    append_chars(&mut out, &dd);
    out
}

/// `date.format("%Y-%m-%d").to_string()`.
pub fn format_date(d: CalendarDate) -> (s: String)
    ensures
        s@ == date_text(d),
{
    let v = date_chars(d);
    string_of(&v)
}

/// `time.format("%H:%M").to_string()`.
pub fn format_hour_minute(l: LocalDateTime) -> (s: String)
    ensures
        s@ == hour_minute_text(l),
{
    let mut out = padded_chars(l.hour as u64, 2);
    out.push(':');
    let m = padded_chars(l.minute as u64, 2);
    append_chars(&mut out, &m);
    string_of(&out)
}

/// `time.format("%H:%M:%S").to_string()`.
pub fn format_hms(l: LocalDateTime) -> (s: String)
    ensures
        s@ == hms_text(l),
{
    let mut out = padded_chars(l.hour as u64, 2);
    out.push(':');
    let m = padded_chars(l.minute as u64, 2);
    append_chars(&mut out, &m);
    assert(out@ == hour_minute_text(l));
    out.push(':');
    let sec = (l.second as u64) + (l.nanosecond as u64) / 1_000_000_000;
    let sc = padded_chars(sec, 2);
    append_chars(&mut out, &sc);
    string_of(&out)
}

// ------------------------------------------------------------------
// Calls into chrono
// ------------------------------------------------------------------

/// `chrono::NaiveDate::from_ymd_opt(year, month, day).is_some()`: chrono
/// builds a date exactly when the day exists in the proleptic Gregorian
/// calendar and the year is within chrono's range.
#[verifier::external_body]
pub(crate) fn date_exists(year: i32, month: u32, day: u32) -> (b: bool)
    ensures
        b == valid_ymd(year as int, month as int, day as int),
{
    chrono::NaiveDate::from_ymd_opt(year, month, day).is_some()
}

/// Days from 1970-01-01 to `d` in the proleptic Gregorian calendar (negative before it).
pub open spec fn epoch_day(d: CalendarDate) -> int {
    let y: int = if d.month <= 2 {
        d.year - 1
    } else {
        d.year as int
    };
    let era = y / 400;
    let yoe = y - era * 400;
    let mp: int = if d.month > 2 {
        d.month - 3
    } else {
        d.month + 9
    };
    let doy = (153 * mp + 2) / 5 + d.day - 1;
    let doe = yoe * 365 + yoe / 4 - yoe / 100 + doy;
    era * 146097 + doe - 719468
}

/// The date `n` days after `d`, when chrono represents it
/// (`date.checked_add_signed(TimeDelta::try_days(n)?)`).
pub open spec fn days_added(d: CalendarDate, n: i64) -> Option<CalendarDate> {
    if exists|e: CalendarDate| valid_date(e) && #[trigger] epoch_day(e) == epoch_day(d) + n {
        Some(choose|e: CalendarDate| valid_date(e) && #[trigger] epoch_day(e) == epoch_day(d) + n)
    } else {
        None
    }
}

/// `date.checked_add_signed(TimeDelta::try_days(n)?)`: the date `n` days
/// later; `None` when chrono cannot represent it. One day later is the next
/// calendar day and one day earlier the previous one.
#[verifier::external_body]
pub(crate) fn add_days(d: CalendarDate, n: i64) -> (r: Option<CalendarDate>)
    requires
        valid_date(d),
    ensures
        r == days_added(d, n),
        r matches Some(e) ==> valid_date(e),
        n == 1 ==> r == next_date_spec(d),
        n == -1 ==> r == prev_date_spec(d),
{
    let date = chrono::NaiveDate::from_ymd_opt(d.year, d.month, d.day)?;
    let e = date.checked_add_signed(chrono::TimeDelta::try_days(n)?)?;
    Some(CalendarDate { year: e.year(), month: e.month(), day: e.day() })
}

/// The number of days from `from` to `to` (`to.signed_duration_since(from).num_days()`).
pub open spec fn days_from_to(from: CalendarDate, to: CalendarDate) -> i64 {
    (epoch_day(to) - epoch_day(from)) as i64
}

/// `to.signed_duration_since(from).num_days()`: the number of days from `from` to `to`.
#[verifier::external_body]
pub(crate) fn days_between(from: CalendarDate, to: CalendarDate) -> (n: i64)
    requires
        valid_date(from),
        valid_date(to),
    ensures
        n == days_from_to(from, to),
{
    let a = chrono::NaiveDate::from_ymd_opt(from.year, from.month, from.day).unwrap();
    let b = chrono::NaiveDate::from_ymd_opt(to.year, to.month, to.day).unwrap();
    b.signed_duration_since(a).num_days()
}

/// What `chrono::NaiveDate::parse_from_str(s, fmt)` yields.
pub uninterp spec fn parsed_date(s: Seq<char>, fmt: Seq<char>) -> Option<CalendarDate>;

/// `chrono::NaiveDate::parse_from_str(s, fmt).ok()`. The dates chrono builds
/// always exist, and with `%Y-%m-%d` it reads back any date that `%Y-%m-%d`
/// writes (a year outside 0 to 9999 carries its sign, which `%Y` reads);
/// which other strings it accepts is not restated here.
#[verifier::external_body]
pub(crate) fn parse_date(s: &str, fmt: &str) -> (r: Option<CalendarDate>)
    ensures
        r == parsed_date(s@, fmt@),
        r matches Some(d) ==> valid_date(d),
        forall|d: CalendarDate|
            valid_date(d) && fmt@ == "%Y-%m-%d"@ && s@ == #[trigger] date_text(d) ==> r == Some(d),
{
    let e = chrono::NaiveDate::parse_from_str(s, fmt).ok()?;
    Some(CalendarDate { year: e.year(), month: e.month(), day: e.day() })
}

/// What `chrono::DateTime::parse_from_rfc3339(s)` yields.
pub uninterp spec fn rfc3339_parsed(s: Seq<char>) -> Option<ZonedDateTime>;

/// `chrono::DateTime::parse_from_rfc3339(s).ok()`, read as its local date and
/// time and its Unix timestamp. chrono reads exactly four year digits; which
/// strings it accepts is not restated here.
#[verifier::external_body]
pub(crate) fn parse_rfc3339(s: &str) -> (r: Option<ZonedDateTime>)
    ensures
        r == rfc3339_parsed(s@),
        r matches Some(z) ==> valid_zoned(z) && four_digit_year(z.local.date),
{
    let t = chrono::DateTime::parse_from_rfc3339(s).ok()?;
    let date = CalendarDate { year: t.year(), month: t.month(), day: t.day() };
    let local = LocalDateTime { date, hour: t.hour(), minute: t.minute(), second: t.second(), nanosecond: t.nanosecond() };
    Some(ZonedDateTime { local, timestamp: t.timestamp(), subsec_nanos: t.timestamp_subsec_nanos() })
}

/// What `chrono::NaiveDateTime::parse_from_str(s, fmt)` yields.
pub uninterp spec fn local_parsed(s: Seq<char>, fmt: Seq<char>) -> Option<LocalDateTime>;

/// What chrono's `ParseError` for `NaiveDateTime::parse_from_str(s, fmt)` displays.
pub uninterp spec fn local_parse_error(s: Seq<char>, fmt: Seq<char>) -> Seq<char>;

/// The texts a chrono `ParseError` displays.
pub open spec fn parse_error_text(m: Seq<char>) -> bool {
    ||| m == "input is out of range"@
    ||| m == "no possible date and time matching input"@
    ||| m == "input is not enough for unique date and time"@
    ||| m == "input contains invalid characters"@
    ||| m == "premature end of input"@
    ||| m == "trailing input"@
    ||| m == "bad or unsupported format string"@
}

/// `chrono::NaiveDateTime::parse_from_str(s, fmt)`, its error shown as text.
/// Which strings chrono accepts is not restated here; its error is one of the
/// texts of `ParseError`'s `Display`.
#[verifier::external_body]
pub(crate) fn parse_local(s: &str, fmt: &str) -> (r: Result<LocalDateTime, String>)
    ensures
        r is Ok <==> local_parsed(s@, fmt@) is Some,
        r matches Ok(l) ==> local_parsed(s@, fmt@) == Some(l) && valid_local(l),
        r matches Err(m) ==> m@ == local_parse_error(s@, fmt@) && parse_error_text(m@),
{
    match chrono::NaiveDateTime::parse_from_str(s, fmt) {
        Ok(t) => Ok(LocalDateTime {
            date: CalendarDate { year: t.year(), month: t.month(), day: t.day() },
            hour: t.hour(), minute: t.minute(), second: t.second(), nanosecond: t.nanosecond(),
        }),
        Err(e) => Err(e.to_string()),
    }
}

/// What `naive.checked_add_signed(TimeDelta::new(secs, nanos)?)` yields.
pub uninterp spec fn local_shifted(l: LocalDateTime, secs: i64, nanos: u32) -> Option<
    LocalDateTime,
>;

/// `naive.checked_add_signed(TimeDelta::new(secs, nanos)?)`: the date-time
/// `secs` seconds and `nanos` nanoseconds later; `None` when chrono cannot
/// represent the span or the result.
#[verifier::external_body]
pub(crate) fn shift_local(l: LocalDateTime, secs: i64, nanos: u32) -> (r: Option<LocalDateTime>)
    requires
        valid_local(l),
    ensures
        r == local_shifted(l, secs, nanos),
        r matches Some(m) ==> valid_local(m),
{
    let date = chrono::NaiveDate::from_ymd_opt(l.date.year, l.date.month, l.date.day)?;
    let naive = date.and_hms_nano_opt(l.hour, l.minute, l.second, l.nanosecond)?;
    let t = naive.checked_add_signed(chrono::TimeDelta::new(secs, nanos)?)?;
    let date = CalendarDate { year: t.year(), month: t.month(), day: t.day() };
    Some(LocalDateTime { date, hour: t.hour(), minute: t.minute(), second: t.second(), nanosecond: t.nanosecond() })
}

/// What `naive.checked_add_signed(to.signed_duration_since(from))` yields,
/// `from` and `to` being the instants of two zoned date-times.
pub uninterp spec fn span_shifted(l: LocalDateTime, from: ZonedDateTime, to: ZonedDateTime) -> Option<
    LocalDateTime,
>;

/// The date-time `l` moved by the time from `from` to `to`
/// (`naive.checked_add_signed(to - from)`); `None` when chrono cannot represent it.
#[verifier::external_body]
pub(crate) fn shift_by_span(l: LocalDateTime, from: ZonedDateTime, to: ZonedDateTime) -> (r: Option<
    LocalDateTime,
>)
    requires
        valid_local(l),
    ensures
        r == span_shifted(l, from, to),
        r matches Some(m) ==> valid_local(m),
{
    let naive = chrono::NaiveDate::from_ymd_opt(l.date.year, l.date.month, l.date.day)?.and_hms_nano_opt(l.hour, l.minute, l.second, l.nanosecond)?;
    let a = chrono::DateTime::from_timestamp(from.timestamp, from.subsec_nanos)?;
    let b = chrono::DateTime::from_timestamp(to.timestamp, to.subsec_nanos)?;
    let t = naive.checked_add_signed(b.signed_duration_since(a))?;
    let date = CalendarDate { year: t.year(), month: t.month(), day: t.day() };
    Some(LocalDateTime { date, hour: t.hour(), minute: t.minute(), second: t.second(), nanosecond: t.nanosecond() })
}

/// `l` moved by `delta` seconds as chrono moves a date-time by a fixed
/// offset: the time of day wraps round, the date moves by a day at most and
/// the fraction (a leap second included) stays; `None` when that day is
/// outside chrono's range.
pub open spec fn offset_moved(l: LocalDateTime, delta: int) -> Option<LocalDateTime> {
    let secs = l.hour * 3600 + l.minute * 60 + l.second + delta;
    let days = secs / 86400;
    let rest = secs % 86400;
    let date = if days == -1 {
        prev_date_spec(l.date)
    } else if days == 1 {
        next_date_spec(l.date)
    } else {
        Some(l.date)
    };
    match date {
        Some(d) => Some(
            LocalDateTime {
                date: d,
                hour: (rest / 3600) as u32,
                minute: ((rest % 3600) / 60) as u32,
                second: (rest % 60) as u32,
                nanosecond: l.nanosecond,
            },
        ),
        None => None,
    }
}

/// The UTC date-time of the wall-clock date-time `l`, `offset_seconds` east
/// of UTC: `l` moved back by the offset (`FixedOffset::east_opt` refuses an
/// offset of a day or more).
pub open spec fn utc_of_local(l: LocalDateTime, offset_seconds: i32) -> Option<LocalDateTime> {
    if -86400 < offset_seconds < 86400 {
        offset_moved(l, -offset_seconds)
    } else {
        None
    }
}

/// `FixedOffset::east_opt(offset)?.from_local_datetime(&naive).single()`, read
/// as its UTC date-time; `None` when chrono cannot represent it.
#[verifier::external_body]
pub(crate) fn local_to_utc(l: LocalDateTime, offset_seconds: i32) -> (r: Option<LocalDateTime>)
    requires
        valid_local(l),
    ensures
        r == utc_of_local(l, offset_seconds),
        r matches Some(m) ==> valid_local(m),
{
    let date = chrono::NaiveDate::from_ymd_opt(l.date.year, l.date.month, l.date.day)?;
    let naive = date.and_hms_nano_opt(l.hour, l.minute, l.second, l.nanosecond)?;
    let t = chrono::FixedOffset::east_opt(offset_seconds)?.from_local_datetime(&naive).single()?.naive_utc();
    let date = CalendarDate { year: t.year(), month: t.month(), day: t.day() };
    Some(LocalDateTime { date, hour: t.hour(), minute: t.minute(), second: t.second(), nanosecond: t.nanosecond() })
}

/// The wall-clock date-time, `offset_seconds` east of UTC, of the UTC
/// date-time `l` (`naive.checked_add_offset(FixedOffset::east_opt(offset)?)`).
pub open spec fn local_of_utc(l: LocalDateTime, offset_seconds: i32) -> Option<LocalDateTime> {
    if -86400 < offset_seconds < 86400 {
        offset_moved(l, offset_seconds as int)
    } else {
        None
    }
}

/// The wall-clock date-time, `offset_seconds` east of UTC, of the UTC
/// date-time `l` (`NaiveDateTime::checked_add_offset`); `None` for an offset
/// chrono refuses or a wall-clock time outside chrono's range.
#[verifier::external_body]
pub(crate) fn utc_to_local(l: LocalDateTime, offset_seconds: i32) -> (r: Option<LocalDateTime>)
    requires
        valid_local(l),
    ensures
        r == local_of_utc(l, offset_seconds),
        r matches Some(m) ==> valid_local(m),
{
    let date = chrono::NaiveDate::from_ymd_opt(l.date.year, l.date.month, l.date.day)?;
    let naive = date.and_hms_nano_opt(l.hour, l.minute, l.second, l.nanosecond)?;
    let t = naive.checked_add_offset(chrono::FixedOffset::east_opt(offset_seconds)?)?;
    let date = CalendarDate { year: t.year(), month: t.month(), day: t.day() };
    Some(LocalDateTime { date, hour: t.hour(), minute: t.minute(), second: t.second(), nanosecond: t.nanosecond() })
}

/// chrono's automatic fraction of a second (`SecondsFormat::AutoSi`): nothing
/// for a whole second, else a point and three, six or nine digits, the fewest
/// that show it.
pub open spec fn fraction_text(nano: nat) -> Seq<char> {
    if nano == 0 {
        Seq::empty()
    } else if nano % 1_000_000 == 0 {
        seq!['.'] + padded(nano / 1_000_000, 3)
    } else if nano % 1000 == 0 {
        seq!['.'] + padded(nano / 1000, 6)
    } else {
        seq!['.'] + padded(nano, 9)
    }
}

/// What `Utc.from_utc_datetime(&naive).to_rfc3339()` writes: `%Y-%m-%d`, `T`,
/// `%H:%M:%S` (a leap second as 60), the fraction, and `+00:00`.
pub open spec fn rfc3339_text(l: LocalDateTime) -> Seq<char> {
    date_text(l.date) + seq!['T'] + hms_text(l) + fraction_text(
        (l.nanosecond % 1_000_000_000) as nat,
    ) + seq!['+', '0', '0', ':', '0', '0']
}

/// `Utc.from_utc_datetime(&naive).to_rfc3339()`: the UTC date-time in RFC 3339
/// with offset `+00:00`.
#[verifier::external_body]
pub(crate) fn utc_rfc3339(l: LocalDateTime) -> (s: String)
    requires
        valid_local(l),
    ensures
        s@ == rfc3339_text(l),
{
    let date = chrono::NaiveDate::from_ymd_opt(l.date.year, l.date.month, l.date.day).unwrap();
    let naive = date.and_hms_nano_opt(l.hour, l.minute, l.second, l.nanosecond).unwrap();
    chrono::Utc.from_utc_datetime(&naive).to_rfc3339()
}

/// `chrono::Utc::now()`, as a UTC date-time. Nothing is known of its value but
/// that chrono represents it.
#[verifier::external_body]
pub(crate) fn now_utc() -> (r: LocalDateTime)
    ensures
        valid_local(r),
{
    let t = chrono::Utc::now().naive_utc();
    let date = CalendarDate { year: t.year(), month: t.month(), day: t.day() };
    LocalDateTime { date, hour: t.hour(), minute: t.minute(), second: t.second(), nanosecond: t.nanosecond() }
}

/// `chrono::Utc::now().timestamp()`: seconds since the Unix epoch, whatever the clock says.
#[verifier::external_body]
pub(crate) fn now_timestamp() -> (t: i64) {
    chrono::Utc::now().timestamp()
}

// ------------------------------------------------------------------
// Laws of the date arithmetic
// ------------------------------------------------------------------

/// The day before the day after a date is that date.
pub proof fn law_prev_undoes_next(d: CalendarDate)
    requires
        valid_date(d),
        next_date_spec(d) is Some,
    ensures
        valid_date(next_date_spec(d)->0),
        prev_date_spec(next_date_spec(d)->0) == Some(d),
{
}

/// The day after the day before a date is that date.
pub proof fn law_next_undoes_prev(d: CalendarDate)
    requires
        valid_date(d),
        prev_date_spec(d) is Some,
    ensures
        valid_date(prev_date_spec(d)->0),
        next_date_spec(prev_date_spec(d)->0) == Some(d),
{
}

} // verus!
