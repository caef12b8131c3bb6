//! Presence policies: the per-row decision whether a column's value is
//! materialized or null.

use vstd::prelude::*;

use crate::parameters::percentage::{
    spec_percentage_parameter, PercentageParameter, PERCENT_SCALE,
};
use crate::raw::RawColumn;
use crate::rng::random_u32_range;

verus! {

/// A stateless decision over a fixed probability, in millionths.
#[derive(Clone, Copy, Debug, PartialEq, Eq, Structural)]
pub enum Presence {
    /// Every row is present; the column can never be null.
    AlwaysPresent,
    /// No row is present; the column is always null.
    NeverPresent,
    /// Each row is present with the given probability.
    SometimesPresent(u32),
}

impl Presence {
    /// A sometimes-present probability lies strictly between never and
    /// always.
    pub open spec fn wf(&self) -> bool {
        self matches Presence::SometimesPresent(p) ==> 0 < *p < PERCENT_SCALE
    }

    /// Decides one row: always-present rows are always there,
    /// never-present rows never, and the rest is a Bernoulli draw.
    pub fn is_next_present(&self) -> (r: bool)
        requires
            self.wf(),
        ensures
            *self is AlwaysPresent ==> r,
            *self is NeverPresent ==> !r,
    {
        match self {
            Presence::AlwaysPresent => true,
            Presence::NeverPresent => false,
            Presence::SometimesPresent(p) => random_u32_range(0, PERCENT_SCALE) < *p,
        }
    }

    /// Whether this policy can ever produce null: the column's declared
    /// nullability.
    pub fn can_be_null(&self) -> (r: bool)
        ensures
            r == !(*self is AlwaysPresent),
    {
        match self {
            Presence::AlwaysPresent => false,
            _ => true,
        }
    }
}

/// The policy a resolved presence probability selects.
pub open spec fn spec_presence_choice(millionths: u32) -> Presence {
    if millionths == 0 {
        Presence::NeverPresent
    } else if millionths == PERCENT_SCALE {
        Presence::AlwaysPresent
    } else {
        Presence::SometimesPresent(millionths)
    }
}

/// Resolves the presence parameter (default: always present) and picks the
/// fitting policy.
pub fn new_from_raw(column: &RawColumn) -> (r: Presence)
    ensures
        r == spec_presence_choice(
            spec_percentage_parameter(column.spec_param("presence"@), PERCENT_SCALE),
        ),
        r.wf(),
{
    let parameter = PercentageParameter::new(column, "presence", PERCENT_SCALE);
    if parameter.value == 0 {
        Presence::NeverPresent
    } else if parameter.value == PERCENT_SCALE {
        Presence::AlwaysPresent
    } else {
        Presence::SometimesPresent(parameter.value)
    }
}

} // verus!
