//! Synthetic structured-data generation: a catalog of typed per-column value
//! providers, presence (null-injection) and corruption policies, parameter
//! resolution from loosely-typed configuration input, and the batching logic
//! that assembles generated values into columnar arrays or row-wise records.
//!
//! Everything random goes through small trusted wrappers around `fastrand`;
//! calendar arithmetic goes through small trusted wrappers around `chrono`.
//! All remaining logic is verified.

pub mod batch;
pub mod config;
pub mod dates;
pub mod errors;
pub mod logger;
pub mod output;
pub mod parameters;
pub mod presence;
pub mod providers;
pub mod raw;
pub mod rng;
pub mod rows;
pub mod text;
