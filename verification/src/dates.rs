//! Trusted wrappers around `chrono` for calendar dates and timestamps.
//!
//! A calendar date is carried through the library as its day number in the
//! proleptic Gregorian calendar (day 1 = 0001-01-01, as
//! `NaiveDate::num_days_from_ce` counts them); a timestamp as its number of
//! non-leap seconds since the Unix epoch. What only `chrono` can compute —
//! parsing a date from text against a format string, and rendering one — is
//! named by uninterpreted spec functions: both are functions of their
//! arguments alone.

use std::fmt::Write;
use vstd::prelude::*;

verus! {

/// Day number of `NaiveDate::MIN` (January 1, year -262143).
pub const MIN_DATE_DAYS: i32 = -95_746_129;

/// Day number of `NaiveDate::MAX` (December 31, year 262142).
pub const MAX_DATE_DAYS: i32 = 95_745_399;

/// Seconds since the epoch of the earliest `chrono` datetime, midnight of
/// `NaiveDate::MIN`.
pub const MIN_TIMESTAMP_SECS: i64 = -8_334_601_228_800;

/// Seconds since the epoch of the latest `chrono` datetime, the last second
/// of `NaiveDate::MAX`.
pub const MAX_TIMESTAMP_SECS: i64 = 8_210_266_876_799;

pub open spec fn valid_date_days(days: int) -> bool {
    MIN_DATE_DAYS <= days <= MAX_DATE_DAYS
}

pub open spec fn valid_timestamp_secs(secs: int) -> bool {
    MIN_TIMESTAMP_SECS <= secs <= MAX_TIMESTAMP_SECS
}

/// What `NaiveDate::parse_from_str` accepts and returns, as a day number: a
/// function of the text and the format string alone.
pub uninterp spec fn date_parse_spec(s: Seq<char>, fmt: Seq<char>) -> Option<i32>;

/// What `NaiveDateTime::parse_from_str` accepts and returns, as seconds since
/// the epoch: a function of the text and the format string alone.
pub uninterp spec fn datetime_parse_spec(s: Seq<char>, fmt: Seq<char>) -> Option<i64>;

/// How `chrono` renders the date with day number `days` under a format
/// string (or, when the format string is invalid, the empty rendering): a
/// function of the day number and the format string alone.
pub uninterp spec fn date_format_spec(days: i32, fmt: Seq<char>) -> Seq<char>;

/// How `chrono` renders the timestamp `secs` under a format string (or, when
/// the format string is invalid, the empty rendering): a function of the
/// seconds and the format string alone.
pub uninterp spec fn datetime_format_spec(secs: i64, fmt: Seq<char>) -> Seq<char>;

/// Relies on NaiveDate::parse_from_str and NaiveDate::num_days_from_ce: a
/// parsed date is a valid `NaiveDate`, so its day number lies in the range
/// spanned by `NaiveDate::MIN` and `NaiveDate::MAX`.
#[verifier::external_body]
pub fn parse_date_days(s: &str, fmt: &str) -> (r: Option<i32>)
    ensures
        r == date_parse_spec(s@, fmt@),
        r is Some ==> valid_date_days(r->0 as int),
{
    match chrono::NaiveDate::parse_from_str(s, fmt) {
        Ok(date) => Some(chrono::Datelike::num_days_from_ce(&date)),
        Err(_) => None,
    }
}

/// Relies on NaiveDateTime::parse_from_str and NaiveDateTime::and_utc: a
/// parsed datetime is a valid `NaiveDateTime`, so its timestamp lies in the
/// range spanned by the earliest and latest `chrono` datetimes.
#[verifier::external_body]
pub fn parse_datetime_secs(s: &str, fmt: &str) -> (r: Option<i64>)
    ensures
        r == datetime_parse_spec(s@, fmt@),
        r is Some ==> valid_timestamp_secs(r->0 as int),
{
    match chrono::NaiveDateTime::parse_from_str(s, fmt) {
        Ok(datetime) => Some(datetime.and_utc().timestamp()),
        Err(_) => None,
    }
}

/// Relies on NaiveDate::from_num_days_from_ce_opt, which succeeds for every
/// day number in the valid range, and on `NaiveDate::format`, whose rendering
/// depends on the date and the format string alone. A format string that
/// `chrono` rejects renders as the empty string instead of panicking.
#[verifier::external_body]
pub fn format_date(days: i32, fmt: &str) -> (r: String)
    requires
        valid_date_days(days as int),
    ensures
        r@ == date_format_spec(days, fmt@),
{
    let date = chrono::NaiveDate::from_num_days_from_ce_opt(days).unwrap();
    let mut out = String::new();
    match write!(out, "{}", date.format(fmt)) {
        Ok(()) => out,
        Err(_) => String::new(),
    }
}

/// Relies on DateTime::from_timestamp, which succeeds for every number of
/// seconds in the valid range, and on `NaiveDateTime::format`, whose
/// rendering depends on the datetime and the format string alone. A format
/// string that `chrono` rejects renders as the empty string instead of
/// panicking.
#[verifier::external_body]
pub fn format_datetime(secs: i64, fmt: &str) -> (r: String)
    requires
        valid_timestamp_secs(secs as int),
    ensures
        r@ == datetime_format_spec(secs, fmt@),
{
    let datetime = chrono::DateTime::from_timestamp(secs, 0).unwrap().naive_utc();
    let mut out = String::new();
    match write!(out, "{}", datetime.format(fmt)) {
        Ok(()) => out,
        Err(_) => String::new(),
    }
}

} // verus!
