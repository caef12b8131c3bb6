//! The random boolean provider: a 50/50 draw. There is no invalid boolean,
//! so corruption is a documented no-op.

use vstd::prelude::*;

use crate::providers::provider::Value;
use crate::raw::RawColumn;
use crate::rng::random_bool;

verus! {

#[derive(Clone, Copy, Debug, PartialEq, Eq, Structural)]
pub struct BoolProvider {}

impl BoolProvider {
    pub fn value(&self, _index: u32) -> (r: Value)
        ensures
            r is Bool,
    {
        Value::Bool(random_bool())
    }

    /// No invalid boolean exists: corruption draws an ordinary value.
    pub fn corrupted_value(&self, index: u32) -> (r: Value)
        ensures
            r is Bool,
    {
        self.value(index)
    }

    pub fn new_from_raw(_column: &RawColumn) -> BoolProvider {
        BoolProvider {  }
    }
}

} // verus!
