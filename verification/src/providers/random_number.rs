//! The bounded random integer provider: uniform over `[min, max)`.

use vstd::prelude::*;

use crate::parameters::int32::{spec_i32_parameter, I32Parameter};
use crate::providers::provider::Value;
use crate::raw::RawColumn;
use crate::rng::random_i32_range;

verus! {

pub const DEFAULT_MIN: i32 = i32::MIN;

pub const DEFAULT_MAX: i32 = i32::MAX;

#[derive(Clone, Copy, Debug, PartialEq, Eq, Structural)]
pub struct I32Provider {
    pub min: i32,
    pub max: i32,
}

impl I32Provider {
    pub open spec fn wf(&self) -> bool {
        self.min < self.max
    }

    /// A uniform draw within the configured bounds.
    pub fn value(&self, _index: u32) -> (r: Value)
        requires
            self.wf(),
        ensures
            r matches Value::Int32(v) && self.min <= v < self.max,
    {
        Value::Int32(random_i32_range(self.min, self.max))
    }

    /// A uniform draw over almost the whole `i32` range, ignoring the
    /// configured bounds.
    pub fn corrupted_value(&self, _index: u32) -> (r: Value)
        ensures
            r is Int32,
    {
        Value::Int32(random_i32_range(i32::MIN, i32::MAX))
    }

    /// Resolved bounds; an empty or inverted range reverts to the defaults.
    pub fn new_from_raw(column: &RawColumn) -> (r: I32Provider)
        ensures
            r.wf(),
            ({
                let min = spec_i32_parameter(column.spec_param("min"@), DEFAULT_MIN);
                let max = spec_i32_parameter(column.spec_param("max"@), DEFAULT_MAX);
                if min >= max {
                    r == (I32Provider { min: DEFAULT_MIN, max: DEFAULT_MAX })
                } else {
                    r == (I32Provider { min, max })
                }
            }),
    {
        let min = I32Parameter::new(column, "min", DEFAULT_MIN).value;
        let max = I32Parameter::new(column, "max", DEFAULT_MAX).value;
        if min >= max {
            I32Provider { min: DEFAULT_MIN, max: DEFAULT_MAX }
        } else {
            I32Provider { min, max }
        }
    }
}


/// A bounded draw over a single-element range has only one possible
/// outcome: with `max == min + 1`, every value in `[min, max)` is `min`.
pub proof fn lemma_single_element_range(min: i32, max: i32, v: i32)
    requires
        min <= v < max,
        max == min + 1,
    ensures
        v == min,
{
}

} // verus!
