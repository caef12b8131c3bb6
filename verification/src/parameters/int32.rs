//! Resolution of a 32-bit integer parameter.

use vstd::prelude::*;

use crate::raw::{RawColumn, RawValue};

verus! {

pub struct I32Parameter {
    pub value: i32,
}

/// An integer in `i32` range resolves to itself; anything absent, of another
/// shape, or outside `i32` range resolves to the default.
pub open spec fn spec_i32_parameter(raw: RawValue, default_value: i32) -> i32 {
    match raw {
        RawValue::Int(v) => if i32::MIN <= v <= i32::MAX {
            v as i32
        } else {
            default_value
        },
        _ => default_value,
    }
}

impl I32Parameter {
    pub fn new(column: &RawColumn, param_name: &str, default_value: i32) -> (r: I32Parameter)
        ensures
            r.value == spec_i32_parameter(column.spec_param(param_name@), default_value),
    {
        let value = match column.param(param_name) {
            RawValue::Int(v) => {
                let v = *v;
                if v < i32::MIN as i64 || v > i32::MAX as i64 {
                    default_value
                } else {
                    v as i32
                }
            },
            _ => default_value,
        };
        I32Parameter { value }
    }
}

} // verus!
