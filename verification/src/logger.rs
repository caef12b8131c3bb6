//! Verbosity levels: how a verbosity count maps to a logging level.

use vstd::prelude::*;

verus! {

/// The library's own levels; the embedding program maps them onto its
/// logging backend.
#[derive(Clone, Copy, Debug, PartialEq, Eq, Structural)]
pub enum LogLevel {
    Info,
    Debug,
    Trace,
}

/// Zero is informational, one adds debug output, anything more traces.
pub fn get_level(verbose_level: u8) -> (r: LogLevel)
    ensures
        verbose_level == 0 ==> r == LogLevel::Info,
        verbose_level == 1 ==> r == LogLevel::Debug,
        verbose_level >= 2 ==> r == LogLevel::Trace,
{
    match verbose_level {
        0u8 => LogLevel::Info,
        1u8 => LogLevel::Debug,
        _ => LogLevel::Trace,
    }
}

} // verus!
