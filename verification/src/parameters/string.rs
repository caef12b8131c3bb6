//! Resolution of a string parameter.

use vstd::prelude::*;

use crate::raw::{RawColumn, RawValue};

verus! {

pub struct StringParameter {
    pub value: String,
}

/// A string resolves to itself; anything absent or of another shape resolves
/// to the default.
pub open spec fn spec_string_parameter(raw: RawValue, default_value: Seq<char>) -> Seq<char> {
    match raw {
        RawValue::Str(s) => s@,
        _ => default_value,
    }
}

impl StringParameter {
    pub fn new(column: &RawColumn, param_name: &str, default_value: &str) -> (r: StringParameter)
        ensures
            r.value@ == spec_string_parameter(column.spec_param(param_name@), default_value@),
    {
        let value = match column.param(param_name) {
            RawValue::Str(s) => s.clone(),
            _ => default_value.to_owned(),
        };
        StringParameter { value }
    }
}

} // verus!
