//! Resolution of a date-range parameter: a format string and two bounds.
//!
//! Both bounds are parsed with the resolved format; an absent bound falls
//! back to a default text, parsed with that same format. Any failure — a
//! wrongly-typed format, a bound that the format cannot parse — reverts the
//! whole triple to the built-in defaults. Inverted bounds are swapped.

use vstd::prelude::*;

use crate::dates::{date_parse_spec, parse_date_days, valid_date_days};
use crate::raw::{RawColumn, RawValue};

verus! {

/// The built-in format, an ISO calendar date.
pub open spec fn spec_default_date_format() -> Seq<char> {
    "%Y-%m-%d"@
}

/// Day number of 1980-01-01, the built-in lower bound.
pub const DEFAULT_AFTER_DAYS: i32 = 722_815;

/// Day number of 2000-01-01, the built-in upper bound.
pub const DEFAULT_BEFORE_DAYS: i32 = 730_120;

pub struct DateParameter {
    pub format: String,
    pub after: i32,
    pub before: i32,
}

/// The resolved format: a string stands for itself, an absent parameter for
/// the default, and any other shape refuses the triple.
pub open spec fn spec_date_format(raw: RawValue) -> Option<Seq<char>> {
    match raw {
        RawValue::Str(s) => Some(s@),
        RawValue::Missing => Some(spec_default_date_format()),
        _ => None,
    }
}

/// One bound: its text (or the default text when absent) parsed with the
/// resolved format.
pub open spec fn spec_date_bound(raw: RawValue, default_text: Seq<char>, fmt: Seq<char>) -> Option<
    i32,
> {
    match raw {
        RawValue::Str(s) => date_parse_spec(s@, fmt),
        RawValue::Missing => date_parse_spec(default_text, fmt),
        _ => None,
    }
}

/// The resolved triple: (format, after, before), bounds ordered.
pub open spec fn spec_date_parameter(column: RawColumn) -> (Seq<char>, i32, i32) {
    let fallback = (spec_default_date_format(), DEFAULT_AFTER_DAYS, DEFAULT_BEFORE_DAYS);
    match spec_date_format(column.spec_param("format"@)) {
        None => fallback,
        Some(fmt) => {
            let after = spec_date_bound(column.spec_param("after"@), "1980-01-01"@, fmt);
            let before = spec_date_bound(column.spec_param("before"@), "2000-01-01"@, fmt);
            match (after, before) {
                (Some(a), Some(b)) => if a <= b {
                    (fmt, a, b)
                } else {
                    (fmt, b, a)
                },
                _ => fallback,
            }
        },
    }
}

impl DateParameter {
    pub fn new(column: &RawColumn) -> (r: DateParameter)
        ensures
            (r.format@, r.after, r.before) == spec_date_parameter(*column),
            valid_date_days(r.after as int),
            valid_date_days(r.before as int),
            r.after <= r.before,
    {
        let fmt: String = match column.param("format") {
            RawValue::Str(s) => s.clone(),
            RawValue::Missing => "%Y-%m-%d".to_owned(),
            _ => {
                return Self::fallback();
            },
        };
        let after = match column.param("after") {
            RawValue::Str(s) => parse_date_days(s.as_str(), fmt.as_str()),
            RawValue::Missing => parse_date_days("1980-01-01", fmt.as_str()),
            _ => None,
        };
        let before = match column.param("before") {
            RawValue::Str(s) => parse_date_days(s.as_str(), fmt.as_str()),
            RawValue::Missing => parse_date_days("2000-01-01", fmt.as_str()),
            _ => None,
        };
        match (after, before) {
            (Some(a), Some(b)) => {
                if a <= b {
                    DateParameter { format: fmt, after: a, before: b }
                } else {
                    DateParameter { format: fmt, after: b, before: a }
                }
            },
            _ => Self::fallback(),
        }
    }

    fn fallback() -> (r: DateParameter)
        ensures
            r.format@ == spec_default_date_format(),
            r.after == DEFAULT_AFTER_DAYS,
            r.before == DEFAULT_BEFORE_DAYS,
            valid_date_days(r.after as int),
            valid_date_days(r.before as int),
    {
        DateParameter {
            format: "%Y-%m-%d".to_owned(),
            after: DEFAULT_AFTER_DAYS,
            before: DEFAULT_BEFORE_DAYS,
        }
    }
}

} // verus!
