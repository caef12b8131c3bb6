//! A corpus-backed provider: a uniform pick among preloaded lines. The lines
//! are read by the caller and handed in as plain values.

use vstd::prelude::*;

use crate::providers::constant::ListStringProvider;

verus! {

/// Wraps preloaded corpus lines as a uniform-choice provider.
pub fn new(values: Vec<String>) -> (r: Box<ListStringProvider>)
    ensures
        r.data == values,
{
    Box::new(ListStringProvider::new(values))
}

} // verus!
