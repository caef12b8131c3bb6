//! Random text: uniformly drawn alphanumeric strings, and uniformly drawn
//! Unicode strings over all scalar values.

use vstd::prelude::*;

use crate::rng::{random_alphanumeric_char, random_u32_inclusive};
use crate::text::{char_from_u32, push_char};

verus! {

pub open spec fn is_alnum_char(c: char) -> bool {
    ('a' <= c && c <= 'z') || ('A' <= c && c <= 'Z') || ('0' <= c && c <= '9')
}

/// A random string of exactly `n` alphanumeric chars.
pub fn random_alphanumeric(n: u32) -> (r: String)
    ensures
        r@.len() == n,
        forall|i: int| 0 <= i < r@.len() ==> is_alnum_char(#[trigger] r@[i]),
{
    let mut out = String::new();
    let mut i: u32 = 0;
    while i < n
        invariant
            i <= n,
            out@.len() == i,
            forall|j: int| 0 <= j < out@.len() ==> is_alnum_char(#[trigger] out@[j]),
        decreases n - i,
    {
        let c = random_alphanumeric_char();
        push_char(&mut out, c);
        i = i + 1;
    }
    out
}

/// The number of Unicode scalar values that are not chars: the surrogates.
const SURROGATE_GAP: u32 = 0x800;

/// The largest draw: every scalar value, with the surrogate gap removed.
const MAX_CHAR_DRAW: u32 = 0x10FFFF - 0x800;

/// A random string of exactly `n` chars, uniform over all scalar values.
pub fn random_characters(n: u32) -> (r: String)
    ensures
        r@.len() == n,
{
    let mut out = String::new();
    let mut i: u32 = 0;
    while i < n
        invariant
            i <= n,
            out@.len() == i,
        decreases n - i,
    {
        let draw = random_u32_inclusive(0, MAX_CHAR_DRAW);
        // Draws at or above the surrogate range shift past it.
        let code: u32 = if draw >= 0xD800 {
            draw + SURROGATE_GAP
        } else {
            draw
        };
        match char_from_u32(code) {
            Some(c) => {
                push_char(&mut out, c);
            },
            None => {
                proof {
                    assert(false);
                }
            },
        }
        i = i + 1;
    }
    out
}

} // verus!
