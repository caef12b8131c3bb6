//! The sequential integer provider: a pure function of the row index.

use vstd::prelude::*;

use crate::parameters::int32::{spec_i32_parameter, I32Parameter};
use crate::providers::provider::Value;
use crate::raw::RawColumn;
use crate::rng::random_i32_range;

verus! {

pub const DEFAULT_START: i32 = 0;

pub const DEFAULT_STEP: i32 = 1;

#[derive(Clone, Copy, Debug, PartialEq, Eq, Structural)]
pub struct IncrementIntegerProvider {
    pub start: i32,
    pub step: i32,
}

impl IncrementIntegerProvider {
    /// Whether `start + index * step` stays in `i32` at this index, the
    /// intermediate product included.
    pub open spec fn index_ok(&self, index: u32) -> bool {
        &&& index <= i32::MAX
        &&& i32::MIN <= index * self.step <= i32::MAX
        &&& i32::MIN <= self.start + index * self.step <= i32::MAX
    }

    /// The deterministic value: `start + index * step`.
    pub fn value(&self, index: u32) -> (r: Value)
        requires
            self.index_ok(index),
        ensures
            r == Value::Int32((self.start + index * self.step) as i32),
    {
        Value::Int32(self.start + (index as i32) * self.step)
    }

    /// A uniform draw over almost the whole `i32` range, ignoring the
    /// configured sequence.
    pub fn corrupted_value(&self, _index: u32) -> (r: Value)
        ensures
            r is Int32,
    {
        Value::Int32(random_i32_range(i32::MIN, i32::MAX))
    }

    pub fn new_from_raw(column: &RawColumn) -> (r: IncrementIntegerProvider)
        ensures
            r.start == spec_i32_parameter(column.spec_param("start"@), DEFAULT_START),
            r.step == spec_i32_parameter(column.spec_param("step"@), DEFAULT_STEP),
    {
        let start_param = I32Parameter::new(column, "start", DEFAULT_START);
        let step_param = I32Parameter::new(column, "step", DEFAULT_STEP);
        IncrementIntegerProvider { start: start_param.value, step: step_param.value }
    }
}

} // verus!
