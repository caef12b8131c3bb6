//! Parameter resolvers: pure, never-failing functions that turn the
//! loosely-typed declarative input into safe typed parameters, substituting
//! a documented default for anything absent, wrongly typed or out of range.

pub mod date;
pub mod datetime;
pub mod int32;
pub mod percentage;
pub mod string;
pub mod urange;
pub mod wstring;
