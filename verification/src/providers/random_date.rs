//! The bounded random date and datetime providers: uniform draws between two
//! parsed bounds, carrying the format string for row-wise rendering.

use vstd::prelude::*;

use crate::dates::{
    valid_date_days, valid_timestamp_secs, MAX_DATE_DAYS, MAX_TIMESTAMP_SECS, MIN_DATE_DAYS,
    MIN_TIMESTAMP_SECS,
};
use crate::parameters::date::{spec_date_parameter, DateParameter};
use crate::parameters::datetime::{spec_datetime_parameter, DatetimeParameter};
use crate::providers::provider::Value;
use crate::raw::RawColumn;
use crate::rng::{random_i32_range, random_i64_range};

verus! {

#[derive(Clone, Debug, PartialEq)]
pub struct DateProvider {
    pub format: String,
    pub after: i32,
    pub before: i32,
}

impl DateProvider {
    pub open spec fn wf(&self) -> bool {
        &&& valid_date_days(self.after as int)
        &&& valid_date_days(self.before as int)
        &&& self.after <= self.before
    }

    /// A uniform draw in `[after, before)`; when the bounds coincide, that
    /// single day.
    pub fn value(&self, _index: u32) -> (r: Value)
        requires
            self.wf(),
        ensures
            r matches Value::Date(d, f) && f@ == self.format@ && self.after <= d <= self.before && (
            self.after < self.before ==> d < self.before),
            crate::providers::provider::value_wf(r),
    {
        let day = if self.after < self.before {
            random_i32_range(self.after, self.before)
        } else {
            self.after
        };
        Value::Date(day, self.format.clone())
    }

    /// A uniform draw over the whole representable calendar, ignoring the
    /// configured bounds.
    pub fn corrupted_value(&self, _index: u32) -> (r: Value)
        ensures
            r matches Value::Date(d, f) && f@ == self.format@,
            crate::providers::provider::value_wf(r),
    {
        Value::Date(random_i32_range(MIN_DATE_DAYS, MAX_DATE_DAYS), self.format.clone())
    }

    pub fn new_from_raw(column: &RawColumn) -> (r: DateProvider)
        ensures
            r.wf(),
            (r.format@, r.after, r.before) == spec_date_parameter(*column),
    {
        let parameter = DateParameter::new(column);
        DateProvider {
            format: parameter.format,
            after: parameter.after,
            before: parameter.before,
        }
    }
}

#[derive(Clone, Debug, PartialEq)]
pub struct DatetimeProvider {
    pub format: String,
    pub after: i64,
    pub before: i64,
}

impl DatetimeProvider {
    pub open spec fn wf(&self) -> bool {
        &&& valid_timestamp_secs(self.after as int)
        &&& valid_timestamp_secs(self.before as int)
        &&& self.after <= self.before
    }

    /// A uniform draw in `[after, before)`; when the bounds coincide, that
    /// single second.
    pub fn value(&self, _index: u32) -> (r: Value)
        requires
            self.wf(),
        ensures
            r matches Value::Timestamp(s, f) && f@ == self.format@ && self.after <= s
                <= self.before && (self.after < self.before ==> s < self.before),
            crate::providers::provider::value_wf(r),
    {
        let secs = if self.after < self.before {
            random_i64_range(self.after, self.before)
        } else {
            self.after
        };
        Value::Timestamp(secs, self.format.clone())
    }

    /// A uniform draw over the whole representable time line, ignoring the
    /// configured bounds.
    pub fn corrupted_value(&self, _index: u32) -> (r: Value)
        ensures
            r matches Value::Timestamp(s, f) && f@ == self.format@,
            crate::providers::provider::value_wf(r),
    {
        Value::Timestamp(
            random_i64_range(MIN_TIMESTAMP_SECS, MAX_TIMESTAMP_SECS),
            self.format.clone(),
        )
    }

    pub fn new_from_raw(column: &RawColumn) -> (r: DatetimeProvider)
        ensures
            r.wf(),
            (r.format@, r.after, r.before) == spec_datetime_parameter(*column),
    {
        let parameter = DatetimeParameter::new(column);
        DatetimeProvider {
            format: parameter.format,
            after: parameter.after,
            before: parameter.before,
        }
    }
}

} // verus!
