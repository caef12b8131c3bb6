//! The provider catalog: per-column value sources, each honoring one
//! contract — `value(index)` yields a value of the provider's fixed kind,
//! and `corrupted_value(index)` yields a value of that same kind drawn from
//! a deliberately wrong distribution.

pub mod constant;
pub mod email;
pub mod external;
pub mod increment;
pub mod provider;
pub mod random_bool;
pub mod random_date;
pub mod random_number;
pub mod random_string;
pub mod strings;
