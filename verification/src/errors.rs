//! The library's error type for configuration defects.

use vstd::prelude::*;

verus! {

/// A defect in the declarative schema: an unknown provider, a column without
/// the pieces it needs, an empty schema.
#[derive(Debug, Clone, PartialEq)]
pub enum FakeLakeError {
    BadYAMLFormat(String),
}

impl FakeLakeError {
    /// The human-readable description carried by the error.
    pub fn message(&self) -> (r: &str)
        ensures
            *self matches FakeLakeError::BadYAMLFormat(m) && r@ == m@,
    {
        match self {
            FakeLakeError::BadYAMLFormat(m) => m.as_str(),
        }
    }
}

} // verus!
