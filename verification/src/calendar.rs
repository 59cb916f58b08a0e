//! Calendar arithmetic through chrono.
//!
//! The engine stores an instant as whole seconds since the Unix epoch, in an
//! `I64` value. Everything that needs a civil calendar — splitting an
//! instant into year, month, day or hour, assembling a date from parts,
//! shifting by calendar months, parsing a written timestamp — goes through
//! chrono behind the trusted items here; each result is a pure function of
//! its arguments, so it is given a name that the callers' contracts use.
//! Out-of-range instants (chrono covers roughly years -262143 to 262142)
//! make the part extractors fall back to zero.

use vstd::prelude::*;

use chrono::Datelike;
use chrono::Timelike;

verus! {

/// The calendar year of an epoch instant, as chrono computes it; zero when
/// the instant is outside chrono's range.
pub uninterp spec fn year_of(secs: i64) -> i64;

/// The calendar month (1 to 12) of an epoch instant; zero out of range.
pub uninterp spec fn month_of(secs: i64) -> i64;

/// The day of the month (1 to 31) of an epoch instant; zero out of range.
pub uninterp spec fn day_of(secs: i64) -> i64;

/// The hour of the day (0 to 23) of an epoch instant; zero out of range.
pub uninterp spec fn hour_of(secs: i64) -> i64;

/// The epoch instant of a calendar date's midnight, when the date is valid
/// and in range.
pub uninterp spec fn date_timestamp_of(year: i32, month: u32, day: u32) -> Option<i64>;

/// The epoch instant `months` calendar months after `secs`, clamped to the
/// end of the target month, when both instants are in range.
pub uninterp spec fn month_add_of(secs: i64, months: u32) -> Option<i64>;

/// The epoch instant `months` calendar months before `secs`, clamped to the
/// end of the target month, when both instants are in range.
pub uninterp spec fn month_sub_of(secs: i64, months: u32) -> Option<i64>;

/// The epoch instant a written `YYYY-MM-DD HH:MM:SS` timestamp denotes, when
/// it parses.
pub uninterp spec fn text_timestamp_of(s: Seq<char>) -> Option<i64>;

/// Relies on chrono's DateTime::from_timestamp and Datelike::year: the year
/// is a function of the instant alone.
#[verifier::external_body]
pub fn timestamp_year(secs: i64) -> (r: i64)
    ensures
        r == year_of(secs),
{
    match chrono::DateTime::<chrono::Utc>::from_timestamp(secs, 0) {
        Some(d) => d.year() as i64,
        None => 0,
    }
}

/// Relies on chrono's DateTime::from_timestamp and Datelike::month: the
/// month is a function of the instant alone.
#[verifier::external_body]
pub fn timestamp_month(secs: i64) -> (r: i64)
    ensures
        r == month_of(secs),
{
    match chrono::DateTime::<chrono::Utc>::from_timestamp(secs, 0) {
        Some(d) => d.month() as i64,
        None => 0,
    }
}

/// Relies on chrono's DateTime::from_timestamp and Datelike::day: the day is
/// a function of the instant alone.
#[verifier::external_body]
pub fn timestamp_day(secs: i64) -> (r: i64)
    ensures
        r == day_of(secs),
{
    match chrono::DateTime::<chrono::Utc>::from_timestamp(secs, 0) {
        Some(d) => d.day() as i64,
        None => 0,
    }
}

/// Relies on chrono's DateTime::from_timestamp and Timelike::hour: the hour
/// is a function of the instant alone, between 0 and 23.
#[verifier::external_body]
pub fn timestamp_hour(secs: i64) -> (r: i64)
    ensures
        r == hour_of(secs),
        0 <= r < 24,
{
    match chrono::DateTime::<chrono::Utc>::from_timestamp(secs, 0) {
        Some(d) => d.hour() as i64,
        None => 0,
    }
}

/// Relies on chrono's NaiveDate::from_ymd_opt, and_hms_opt and timestamp:
/// the instant of a date's midnight is a function of the date alone, and is
/// absent exactly when chrono rejects the parts.
#[verifier::external_body]
pub fn date_to_timestamp(year: i32, month: u32, day: u32) -> (r: Option<i64>)
    ensures
        r == date_timestamp_of(year, month, day),
{
    chrono::NaiveDate::from_ymd_opt(year, month, day)
        .and_then(|d| d.and_hms_opt(0, 0, 0))
        .map(|dt| dt.and_utc().timestamp())
}

/// Relies on chrono's DateTime::from_timestamp and checked_add_months: the
/// shifted instant is a function of the instant and the month count alone.
#[verifier::external_body]
pub fn add_months_to_timestamp(secs: i64, months: u32) -> (r: Option<i64>)
    ensures
        r == month_add_of(secs, months),
{
    chrono::DateTime::<chrono::Utc>::from_timestamp(secs, 0)
        .and_then(|dt| dt.checked_add_months(chrono::Months::new(months)))
        .map(|d| d.timestamp())
}

/// Relies on chrono's DateTime::from_timestamp and checked_sub_months: the
/// shifted instant is a function of the instant and the month count alone.
#[verifier::external_body]
pub fn sub_months_from_timestamp(secs: i64, months: u32) -> (r: Option<i64>)
    ensures
        r == month_sub_of(secs, months),
{
    chrono::DateTime::<chrono::Utc>::from_timestamp(secs, 0)
        .and_then(|dt| dt.checked_sub_months(chrono::Months::new(months)))
        .map(|d| d.timestamp())
}

/// Relies on chrono's NaiveDateTime::parse_from_str with the fixed format
/// `%Y-%m-%d %H:%M:%S`: the parse is a function of the text alone.
#[verifier::external_body]
pub fn parse_timestamp(s: &str) -> (r: Option<i64>)
    ensures
        r == text_timestamp_of(s@),
{
    chrono::NaiveDateTime::parse_from_str(s, "%Y-%m-%d %H:%M:%S")
        .ok()
        .map(|dt| dt.and_utc().timestamp())
}

/// Relies on chrono's Utc::now: the result is the clock's current instant,
/// of which nothing is promised.
#[verifier::external_body]
pub fn now_timestamp() -> i64 {
    chrono::Utc::now().timestamp()
}

} // verus!
