//! Trusted wrappers around the `fastrand` thread-local generator.
//!
//! Each wrapper states only what `fastrand`'s source guarantees of every
//! outcome: a draw from a non-empty range lies in that range. Nothing is
//! assumed about which value comes back, so callers are verified for every
//! possible draw.

use vstd::prelude::*;

verus! {

/// Relies on fastrand::bool: a random boolean; nothing is known of the outcome.
#[verifier::external_body]
pub fn random_bool() -> bool {
    fastrand::bool()
}

/// Relies on fastrand::u32: a uniform draw from the half-open range
/// `lo..hi`, which panics only on an empty range.
#[verifier::external_body]
pub fn random_u32_range(lo: u32, hi: u32) -> (r: u32)
    requires
        lo < hi,
    ensures
        lo <= r < hi,
{
    fastrand::u32(lo..hi)
}

/// Relies on fastrand::u32: a uniform draw from the inclusive range
/// `lo..=hi`, which panics only on an empty range.
#[verifier::external_body]
pub fn random_u32_inclusive(lo: u32, hi: u32) -> (r: u32)
    requires
        lo <= hi,
    ensures
        lo <= r <= hi,
{
    fastrand::u32(lo..=hi)
}

/// Relies on fastrand::i32: a uniform draw from the half-open range
/// `lo..hi`, which panics only on an empty range.
#[verifier::external_body]
pub fn random_i32_range(lo: i32, hi: i32) -> (r: i32)
    requires
        lo < hi,
    ensures
        lo <= r < hi,
{
    fastrand::i32(lo..hi)
}

/// Relies on fastrand::i64: a uniform draw from the half-open range
/// `lo..hi`, which panics only on an empty range.
#[verifier::external_body]
pub fn random_i64_range(lo: i64, hi: i64) -> (r: i64)
    requires
        lo < hi,
    ensures
        lo <= r < hi,
{
    fastrand::i64(lo..hi)
}

/// Relies on fastrand::usize: a uniform index below `n`, which panics only
/// on an empty range.
#[verifier::external_body]
pub fn random_index_below(n: usize) -> (r: usize)
    requires
        n > 0,
    ensures
        r < n,
{
    fastrand::usize(..n)
}

/// Relies on fastrand::alphanumeric: a random char drawn from a-z, A-Z and 0-9.
#[verifier::external_body]
pub fn random_alphanumeric_char() -> (r: char)
    ensures
        ('a' <= r && r <= 'z') || ('A' <= r && r <= 'Z') || ('0' <= r && r <= '9'),
{
    fastrand::alphanumeric()
}

} // verus!
