//! Resolution of a datetime-range parameter: a format string and two bounds
//! in seconds since the epoch. The fallback-and-swap policy is the same as
//! for the date-range parameter.

use vstd::prelude::*;

use crate::dates::{datetime_parse_spec, parse_datetime_secs, valid_timestamp_secs};
use crate::raw::{RawColumn, RawValue};

verus! {

/// The built-in format, an ISO calendar date and time of day.
pub open spec fn spec_default_datetime_format() -> Seq<char> {
    "%Y-%m-%d %H:%M:%S"@
}

/// Seconds of 1980-01-01 12:00:00, the built-in lower bound.
pub const DEFAULT_AFTER_SECS: i64 = 315_576_000;

/// Seconds of 2000-01-01 12:00:00, the built-in upper bound.
pub const DEFAULT_BEFORE_SECS: i64 = 946_728_000;

pub struct DatetimeParameter {
    pub format: String,
    pub after: i64,
    pub before: i64,
}

pub open spec fn spec_datetime_format(raw: RawValue) -> Option<Seq<char>> {
    match raw {
        RawValue::Str(s) => Some(s@),
        RawValue::Missing => Some(spec_default_datetime_format()),
        _ => None,
    }
}

pub open spec fn spec_datetime_bound(
    raw: RawValue,
    default_text: Seq<char>,
    fmt: Seq<char>,
) -> Option<i64> {
    match raw {
        RawValue::Str(s) => datetime_parse_spec(s@, fmt),
        RawValue::Missing => datetime_parse_spec(default_text, fmt),
        _ => None,
    }
}

/// The resolved triple: (format, after, before), bounds ordered.
pub open spec fn spec_datetime_parameter(column: RawColumn) -> (Seq<char>, i64, i64) {
    let fallback = (spec_default_datetime_format(), DEFAULT_AFTER_SECS, DEFAULT_BEFORE_SECS);
    match spec_datetime_format(column.spec_param("format"@)) {
        None => fallback,
        Some(fmt) => {
            let after = spec_datetime_bound(
                column.spec_param("after"@),
                "1980-01-01 12:00:00"@,
                fmt,
            );
            let before = spec_datetime_bound(
                column.spec_param("before"@),
                "2000-01-01 12:00:00"@,
                fmt,
            );
            match (after, before) {
                (Some(a), Some(b)) => if a <= b {
                    (fmt, a, b)
                } else {
                    (fmt, b, a)
                },
                _ => fallback,
            }
        },
    }
}

impl DatetimeParameter {
    pub fn new(column: &RawColumn) -> (r: DatetimeParameter)
        ensures
            (r.format@, r.after, r.before) == spec_datetime_parameter(*column),
            valid_timestamp_secs(r.after as int),
            valid_timestamp_secs(r.before as int),
            r.after <= r.before,
    {
        let fmt: String = match column.param("format") {
            RawValue::Str(s) => s.clone(),
            RawValue::Missing => "%Y-%m-%d %H:%M:%S".to_owned(),
            _ => {
                return Self::fallback();
            },
        };
        let after = match column.param("after") {
            RawValue::Str(s) => parse_datetime_secs(s.as_str(), fmt.as_str()),
            RawValue::Missing => parse_datetime_secs("1980-01-01 12:00:00", fmt.as_str()),
            _ => None,
        };
        let before = match column.param("before") {
            RawValue::Str(s) => parse_datetime_secs(s.as_str(), fmt.as_str()),
            RawValue::Missing => parse_datetime_secs("2000-01-01 12:00:00", fmt.as_str()),
            _ => None,
        };
        match (after, before) {
            (Some(a), Some(b)) => {
                if a <= b {
                    DatetimeParameter { format: fmt, after: a, before: b }
                } else {
                    DatetimeParameter { format: fmt, after: b, before: a }
                }
            },
            _ => Self::fallback(),
        }
    }

    fn fallback() -> (r: DatetimeParameter)
        ensures
            r.format@ == spec_default_datetime_format(),
            r.after == DEFAULT_AFTER_SECS,
            r.before == DEFAULT_BEFORE_SECS,
            valid_timestamp_secs(r.after as int),
            valid_timestamp_secs(r.before as int),
    {
        DatetimeParameter {
            format: "%Y-%m-%d %H:%M:%S".to_owned(),
            after: DEFAULT_AFTER_SECS,
            before: DEFAULT_BEFORE_SECS,
        }
    }
}

} // verus!
