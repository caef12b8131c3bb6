//! Resolution of an unsigned range parameter.
//!
//! A scalar `v` expands to the range `[v, v+1)`; a textual `"min..max"` is
//! split on the first `".."` and both sides are read as integers. A side that
//! is negative or not below `u32::MAX` falls back to the default; a malformed
//! or inverted range reverts wholly to `[default, default+1)`.

use vstd::prelude::*;

use crate::raw::{RawColumn, RawValue};
use crate::text::{find_sub, matches_at, parse_i64, spec_contains, spec_parse_i64};

verus! {

pub struct URangeParameter {
    pub min: u32,
    pub max: u32,
}

/// One scalar side: in range it stands for itself, outside it for the default.
pub open spec fn spec_urange_side(v: i64, default_value: u32) -> u32 {
    if v < 0 || v >= u32::MAX {
        default_value
    } else {
        v as u32
    }
}

/// Position of the first occurrence of `needle`, as a spec-level recursion.
pub open spec fn first_occurrence(s: Seq<char>, needle: Seq<char>) -> Option<int>
    decreases s.len(),
{
    if needle.len() == 0 {
        Some(0)
    } else if s.len() < needle.len() {
        None
    } else if s.take(needle.len() as int) == needle {
        Some(0)
    } else {
        match first_occurrence(s.skip(1), needle) {
            None => None,
            Some(j) => Some(j + 1),
        }
    }
}

pub proof fn lemma_first_occurrence(s: Seq<char>, needle: Seq<char>)
    ensures
        match first_occurrence(s, needle) {
            Some(i) => matches_at(s, needle, i) && forall|j: int|
                0 <= j < i ==> !matches_at(s, needle, j),
            None => !spec_contains(s, needle),
        },
    decreases s.len(),
{
    if needle.len() == 0 {
        assert(s.subrange(0, 0) =~= needle);
    } else if s.len() < needle.len() {
        assert forall|i: int| !matches_at(s, needle, i) by {}
    } else if s.take(needle.len() as int) == needle {
        assert(s.subrange(0, needle.len() as int) =~= s.take(needle.len() as int));
    } else {
        lemma_first_occurrence(s.skip(1), needle);
        let t = s.skip(1);
        assert forall|j: int| 0 <= j && j + needle.len() <= t.len() implies (matches_at(
            t,
            needle,
            j,
        ) == matches_at(s, needle, j + 1)) by {
            assert forall|k: int| 0 <= k < needle.len() implies #[trigger] t.subrange(
                j,
                j + needle.len(),
            )[k] == s.subrange(j + 1, j + 1 + needle.len())[k] by {
                assert(t[j + k] == s[j + 1 + k]);
            }
            assert(t.subrange(j, j + needle.len()) =~= s.subrange(j + 1, j + 1 + needle.len()));
        }
        assert(s.subrange(0, needle.len() as int) =~= s.take(needle.len() as int));
        match first_occurrence(t, needle) {
            None => {
                assert forall|i: int| !matches_at(s, needle, i) by {
                    if 1 <= i && i + needle.len() <= s.len() {
                        assert(!matches_at(t, needle, i - 1));
                    }
                }
            },
            Some(j) => {
                assert(matches_at(s, needle, j + 1));
                assert forall|i: int| 0 <= i < j + 1 implies !matches_at(s, needle, i) by {
                    if i >= 1 {
                        assert(!matches_at(t, needle, i - 1));
                    }
                }
            },
        }
    }
}

/// The whole-range fallback.
pub open spec fn spec_urange_default(default_value: u32) -> (u32, u32) {
    (default_value, (default_value + 1) as u32)
}

/// What a textual range parameter resolves to.
pub open spec fn spec_urange_from_text(s: Seq<char>, default_value: u32) -> (u32, u32) {
    match first_occurrence(s, seq!['.', '.']) {
        None => match spec_parse_i64(s) {
            Some(v) => (spec_urange_side(v, default_value), (spec_urange_side(v, default_value)
                + 1) as u32),
            None => spec_urange_default(default_value),
        },
        Some(i) => {
            let left = s.take(i);
            let right = s.skip(i + 2);
            if spec_contains(right, seq!['.', '.']) {
                spec_urange_default(default_value)
            } else {
                match (spec_parse_i64(trimmed(left)), spec_parse_i64(trimmed(right))) {
                    (Some(l), Some(r)) => {
                        let lo = spec_urange_side(l, default_value);
                        let hi = spec_urange_side(r, default_value);
                        if lo < hi {
                            (lo, hi)
                        } else {
                            spec_urange_default(default_value)
                        }
                    },
                    _ => spec_urange_default(default_value),
                }
            }
        },
    }
}

pub open spec fn is_space(c: char) -> bool {
    c == ' ' || c == '\t' || c == '\n' || c == '\r'
}

/// `s` without its leading and trailing ASCII whitespace.
pub open spec fn trimmed(s: Seq<char>) -> Seq<char>
    decreases s.len(),
{
    if s.len() == 0 {
        s
    } else if is_space(s[0]) {
        trimmed(s.skip(1))
    } else if is_space(s.last()) {
        trimmed(s.drop_last())
    } else {
        s
    }
}

/// Strips leading and trailing ASCII whitespace.
pub fn trim_spaces(s: &str) -> (r: &str)
    ensures
        r@ == trimmed(s@),
{
    let n = s.unicode_len();
    let mut lo: usize = 0;
    let mut hi: usize = n;
    proof {
        assert(s@.subrange(0, n as int) =~= s@);
    }
    while lo < hi
        invariant
            lo <= hi <= n,
            n == s@.len(),
            trimmed(s@) == trimmed(s@.subrange(lo as int, hi as int)),
        decreases hi - lo,
    {
        let c = s.get_char(lo);
        proof {
            assert(s@.subrange(lo as int, hi as int)[0] == s@[lo as int]);
            assert(s@.subrange(lo as int, hi as int).skip(1) =~= s@.subrange(lo + 1, hi as int));
        }
        if c == ' ' || c == '\t' || c == '\n' || c == '\r' {
            lo = lo + 1;
        } else {
            let d = s.get_char(hi - 1);
            proof {
                let part = s@.subrange(lo as int, hi as int);
                assert(part.last() == s@[hi - 1]);
                assert(part.drop_last() =~= s@.subrange(lo as int, hi - 1));
            }
            if d == ' ' || d == '\t' || d == '\n' || d == '\r' {
                hi = hi - 1;
            } else {
                // Both ends are settled: the middle is the trimmed value.
                proof {
                    let part = s@.subrange(lo as int, hi as int);
                    assert(!is_space(part[0]));
                    assert(!is_space(part.last()));
                    assert(trimmed(part) == part);
                }
                return s.substring_char(lo, hi);
            }
        }
    }
    proof {
        assert(s@.subrange(lo as int, hi as int).len() == 0);
    }
    s.substring_char(lo, hi)
}

/// Reads one side of a textual range.
fn urange_side_from_text(part: &str, default_value: u32) -> (r: Option<u32>)
    requires
        default_value < u32::MAX,
    ensures
        match spec_parse_i64(trimmed(part@)) {
            Some(v) => r == Some(spec_urange_side(v, default_value)),
            None => r is None,
        },
{
    let cleaned = trim_spaces(part);
    match parse_i64(cleaned) {
        Some(v) => {
            if v < 0 || v >= u32::MAX as i64 {
                Some(default_value)
            } else {
                Some(v as u32)
            }
        },
        None => None,
    }
}

impl URangeParameter {
    pub open spec fn spec_new(raw: RawValue, default_value: u32) -> (u32, u32) {
        match raw {
            RawValue::Int(v) => (spec_urange_side(v, default_value), (spec_urange_side(
                v,
                default_value,
            ) + 1) as u32),
            RawValue::Str(s) => spec_urange_from_text(s@, default_value),
            _ => spec_urange_default(default_value),
        }
    }

    pub fn new(column: &RawColumn, param_name: &str, default_value: u32) -> (r: URangeParameter)
        requires
            default_value < u32::MAX,
        ensures
            (r.min, r.max) == Self::spec_new(column.spec_param(param_name@), default_value),
    {
        let (min, max): (u32, u32) = match column.param(param_name) {
            RawValue::Int(v) => {
                let v = *v;
                let side = if v < 0 || v >= u32::MAX as i64 {
                    default_value
                } else {
                    v as u32
                };
                (side, side + 1)
            },
            RawValue::Str(s) => urange_from_text(s.as_str(), default_value),
            _ => (default_value, default_value + 1),
        };
        URangeParameter { min, max }
    }
}

fn urange_from_text(s: &str, default_value: u32) -> (r: (u32, u32))
    requires
        default_value < u32::MAX,
    ensures
        r == spec_urange_from_text(s@, default_value),
{
    proof {
        reveal_strlit("..");
        assert(".."@ =~= seq!['.', '.']);
        lemma_first_occurrence(s@, seq!['.', '.']);
    }
    let n = s.unicode_len();
    let found = find_sub(s, "..");
    match found {
        None => {
            proof {
                match first_occurrence(s@, seq!['.', '.']) {
                    Some(k) => {
                        assert(matches_at(s@, seq!['.', '.'], k));
                        assert(false);
                    },
                    None => {},
                }
            }
            match parse_i64(s) {
                Some(v) => {
                    if v < 0 || v >= u32::MAX as i64 {
                        (default_value, default_value + 1)
                    } else {
                        (v as u32, v as u32 + 1)
                    }
                },
                None => (default_value, default_value + 1),
            }
        },
        Some(i) => {
            proof {
                match first_occurrence(s@, seq!['.', '.']) {
                    Some(k) => {
                        if k < i as int {
                            assert(!matches_at(s@, seq!['.', '.'], k));
                            assert(false);
                        }
                        if (i as int) < k {
                            assert(!matches_at(s@, seq!['.', '.'], i as int));
                            assert(false);
                        }
                        assert(k == i as int);
                    },
                    None => {
                        assert(!spec_contains(s@, seq!['.', '.']));
                        assert(matches_at(s@, seq!['.', '.'], i as int));
                        assert(false);
                    },
                }
            }
            let left = s.substring_char(0, i);
            let right = s.substring_char(i + 2, n);
            proof {
                assert(left@ =~= s@.take(i as int));
                assert(right@ =~= s@.skip(i + 2));
            }
            if contains_two_dots(right) {
                (default_value, default_value + 1)
            } else {
                let l = urange_side_from_text(left, default_value);
                let r = urange_side_from_text(right, default_value);
                match (l, r) {
                    (Some(lo), Some(hi)) => {
                        if lo < hi {
                            (lo, hi)
                        } else {
                            (default_value, default_value + 1)
                        }
                    },
                    _ => (default_value, default_value + 1),
                }
            }
        },
    }
}

fn contains_two_dots(s: &str) -> (r: bool)
    ensures
        r == spec_contains(s@, seq!['.', '.']),
{
    proof {
        reveal_strlit("..");
        assert(".."@ =~= seq!['.', '.']);
    }
    crate::text::contains_sub(s, "..")
}

} // verus!
