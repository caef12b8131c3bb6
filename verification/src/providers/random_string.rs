//! The random alphanumeric text provider: uniform length in a configured
//! range, uniform alphanumeric chars. Free text has no wrong distribution,
//! so corruption is a documented no-op.

use vstd::prelude::*;

use crate::parameters::urange::URangeParameter;
use crate::providers::provider::Value;
use crate::providers::strings::{is_alnum_char, random_alphanumeric};
use crate::raw::RawColumn;
use crate::rng::random_u32_range;

verus! {

pub const DEFAULT_LENGTH: u32 = 10;

#[derive(Clone, Copy, Debug, PartialEq, Eq, Structural)]
pub struct AlphanumericProvider {
    pub min_length: u32,
    pub max_length: u32,
}

impl AlphanumericProvider {
    pub open spec fn wf(&self) -> bool {
        self.min_length < self.max_length
    }

    /// A random alphanumeric string whose length is a uniform draw in the
    /// configured half-open range.
    pub fn value(&self, _index: u32) -> (r: Value)
        requires
            self.wf(),
        ensures
            r matches Value::Str(s) && self.min_length <= s@.len() < self.max_length && forall|
                i: int,
            | 0 <= i < s@.len() ==> is_alnum_char(#[trigger] s@[i]),
    {
        let len = random_u32_range(self.min_length, self.max_length);
        Value::Str(random_alphanumeric(len))
    }

    /// Free text has no wrong distribution: corruption draws an ordinary
    /// value.
    pub fn corrupted_value(&self, index: u32) -> (r: Value)
        requires
            self.wf(),
        ensures
            r matches Value::Str(s) && self.min_length <= s@.len() < self.max_length && forall|
                i: int,
            | 0 <= i < s@.len() ==> is_alnum_char(#[trigger] s@[i]),
    {
        self.value(index)
    }

    pub fn new_from_raw(column: &RawColumn) -> (r: AlphanumericProvider)
        ensures
            r.wf(),
            (r.min_length, r.max_length) == URangeParameter::spec_new(
                column.spec_param("length"@),
                DEFAULT_LENGTH,
            ),
    {
        let range = URangeParameter::new(column, "length", DEFAULT_LENGTH);
        proof {
            lemma_urange_nonempty(column.spec_param("length"@), DEFAULT_LENGTH);
        }
        AlphanumericProvider { min_length: range.min, max_length: range.max }
    }
}

/// A resolved unsigned range is never empty: every path yields either a
/// checked `lo < hi` pair or `[v, v+1)`.
proof fn lemma_urange_nonempty(raw: crate::raw::RawValue, default_value: u32)
    requires
        default_value < u32::MAX,
    ensures
        ({
            let r = URangeParameter::spec_new(raw, default_value);
            r.0 < r.1
        }),
{
}

} // verus!
