//! Verified text helpers: decimal rendering of integers, decimal parsing,
//! substring search, ASCII lowercasing and splitting of dotted identifiers.
//!
//! The single trusted item here is `push_char`, a wrapper around
//! `String::push`, which vstd does not specify.

use vstd::prelude::*;

verus! {

/// Relies on String::push: appends one `char` to the end of the string.
#[verifier::external_body]
pub fn push_char(s: &mut String, c: char)
    ensures
        final(s)@ == old(s)@.push(c),
{
    s.push(c);
}

pub open spec fn is_digit(c: char) -> bool {
    '0' <= c && c <= '9'
}

pub open spec fn digit_char(d: int) -> char {
    if d == 0 {
        '0'
    } else if d == 1 {
        '1'
    } else if d == 2 {
        '2'
    } else if d == 3 {
        '3'
    } else if d == 4 {
        '4'
    } else if d == 5 {
        '5'
    } else if d == 6 {
        '6'
    } else if d == 7 {
        '7'
    } else if d == 8 {
        '8'
    } else {
        '9'
    }
}

pub open spec fn digit_val(c: char) -> int {
    c as int - '0' as int
}

/// The decimal digits of `n`, most significant first, with no leading zeros
/// (except for `n == 0`, rendered as "0").
pub open spec fn spec_decimal(n: nat) -> Seq<char>
    decreases n,
{
    if n < 10 {
        seq![digit_char(n as int)]
    } else {
        spec_decimal(n / 10).push(digit_char((n % 10) as int))
    }
}

/// The decimal rendering of a signed value: a '-' sign before the digits of
/// the magnitude when negative.
pub open spec fn spec_decimal_signed(v: int) -> Seq<char> {
    if v < 0 {
        seq!['-'] + spec_decimal((-v) as nat)
    } else {
        spec_decimal(v as nat)
    }
}

fn decimal_digit(d: u64) -> (c: char)
    requires
        d < 10,
    ensures
        c == digit_char(d as int),
{
    match d {
        0u64 => '0',
        1u64 => '1',
        2u64 => '2',
        3u64 => '3',
        4u64 => '4',
        5u64 => '5',
        6u64 => '6',
        7u64 => '7',
        8u64 => '8',
        _ => '9',
    }
}

pub fn u64_to_string(n: u64) -> (s: String)
    ensures
        s@ == spec_decimal(n as nat),
{
    if n == 0 {
        let s = "0".to_owned();
        proof {
            reveal_strlit("0");
            assert(s@ =~= seq!['0']);
        }
        return s;
    }
    let mut digits: Vec<char> = Vec::new();
    let mut rest: u64 = n;
    proof {
        assert(spec_decimal(n as nat) =~= spec_decimal(n as nat) + digits@.reverse());
    }
    // Least significant digit first.
    while rest > 0
        invariant
            rest > 0 ==> spec_decimal(n as nat) == spec_decimal(rest as nat) + digits@.reverse(),
            rest == 0 ==> spec_decimal(n as nat) == digits@.reverse(),
        decreases rest,
    {
        let d = rest % 10;
        let c = decimal_digit(d);
        let next = rest / 10;
        proof {
            let before = digits@;
            assert((before.push(c)).reverse() =~= seq![c] + before.reverse());
            if next == 0 {
                assert(spec_decimal(rest as nat) =~= seq![digit_char(d as int)]);
                assert(seq![c] + before.reverse() =~= spec_decimal(rest as nat) + before.reverse());
            } else {
                assert(spec_decimal(rest as nat)
                    == spec_decimal(next as nat).push(digit_char(d as int)));
                assert(spec_decimal(next as nat) + (seq![c] + before.reverse())
                    =~= spec_decimal(rest as nat) + before.reverse());
            }
        }
        digits.push(c);
        rest = next;
    }
    let ghost all = digits@;
    let mut s = String::new();
    let mut i: usize = digits.len();
    proof {
        assert(s@ =~= all.reverse().take(0));
    }
    while i > 0
        invariant
            i <= all.len(),
            digits@ == all,
            spec_decimal(n as nat) == all.reverse(),
            s@ == all.reverse().take(all.len() - i),
        decreases i,
    {
        i = i - 1;
        let c = digits[i];
        push_char(&mut s, c);
        proof {
            assert(all.reverse().take(all.len() - i)
                =~= all.reverse().take(all.len() - (i + 1)).push(all.reverse()[all.len() - i - 1]));
        }
    }
    proof {
        assert(s@ =~= all.reverse());
    }
    s
}

pub fn i64_to_string(v: i64) -> (s: String)
    ensures
        s@ == spec_decimal_signed(v as int),
{
    if v >= 0 {
        u64_to_string(v as u64)
    } else {
        let magnitude: u64 = ((-(v + 1)) as u64) + 1;
        let digits = u64_to_string(magnitude);
        let mut s = String::new();
        push_char(&mut s, '-');
        let mut out = s;
        out.append(digits.as_str());
        proof {
            assert(out@ =~= seq!['-'] + spec_decimal(magnitude as nat));
        }
        out
    }
}

pub fn i32_to_string(v: i32) -> (s: String)
    ensures
        s@ == spec_decimal_signed(v as int),
{
    i64_to_string(v as i64)
}

pub fn bool_to_string(b: bool) -> (s: String)
    ensures
        b ==> s@ == "true"@,
        !b ==> s@ == "false"@,
{
    if b {
        "true".to_owned()
    } else {
        "false".to_owned()
    }
}


pub open spec fn all_digits(s: Seq<char>) -> bool {
    forall|i: int| 0 <= i < s.len() ==> is_digit(#[trigger] s[i])
}

/// The value of a sequence of decimal digits, most significant first.
pub open spec fn digits_val(s: Seq<char>) -> int
    decreases s.len(),
{
    if s.len() == 0 {
        0
    } else {
        digits_val(s.drop_last()) * 10 + digit_val(s.last())
    }
}

pub proof fn lemma_digits_val_bounds(s: Seq<char>)
    requires
        all_digits(s),
    ensures
        digits_val(s) >= 0,
    decreases s.len(),
{
    if s.len() > 0 {
        assert(all_digits(s.drop_last()));
        lemma_digits_val_bounds(s.drop_last());
    }
}

proof fn lemma_digits_val_step(s: Seq<char>, i: int)
    requires
        0 <= i < s.len(),
    ensures
        digits_val(s.take(i + 1)) == digits_val(s.take(i)) * 10 + digit_val(s[i]),
{
    assert(s.take(i + 1).drop_last() =~= s.take(i));
    assert(s.take(i + 1).last() == s[i]);
}

proof fn lemma_digits_val_monotone(s: Seq<char>, i: int)
    requires
        all_digits(s),
        0 <= i <= s.len(),
    ensures
        digits_val(s.take(i)) <= digits_val(s),
    decreases s.len() - i,
{
    if i < s.len() {
        lemma_digits_val_step(s, i);
        assert(all_digits(s.take(i)));
        lemma_digits_val_bounds(s.take(i));
        lemma_digits_val_monotone(s, i + 1);
    } else {
        assert(s.take(i) =~= s);
    }
}

/// The digits (and their value) accepted by an unsigned decimal parse:
/// a non-empty run of ASCII digits whose value fits the target type.
pub open spec fn spec_parse_u32(s: Seq<char>) -> Option<u32> {
    let digits: Seq<char> = if s.len() > 0 && s[0] == '+' {
        s.skip(1)
    } else {
        s
    };
    if digits.len() > 0 && all_digits(digits) && digits_val(digits) <= u32::MAX {
        Some(digits_val(digits) as u32)
    } else {
        None
    }
}

fn digit_value_of(c: char) -> (r: Option<u64>)
    ensures
        r is Some <==> is_digit(c),
        r is Some ==> r->0 == digit_val(c) && r->0 < 10,
{
    if '0' <= c && c <= '9' {
        Some((c as u32 as u64) - ('0' as u32 as u64))
    } else {
        None
    }
}

/// Parses a run of decimal digits `s[from..]` into a value, or `None` when the
/// run is empty, holds a non-digit, or its value is above `limit`.
fn parse_digit_run(s: &str, from: usize, limit: u64) -> (r: Option<u64>)
    requires
        from as int <= s@.len(),
    ensures
        ({
            let digits = s@.skip(from as int);
            &&& (r is Some <==> digits.len() > 0 && all_digits(digits) && digits_val(digits)
                <= limit)
            &&& r is Some ==> r->0 == digits_val(digits)
        }),
{
    let ghost digits = s@.skip(from as int);
    let n = s.unicode_len();
    if from == n {
        return None;
    }
    let mut acc: u64 = 0;
    let mut i: usize = from;
    proof {
        assert(digits.take(0) =~= Seq::<char>::empty());
    }
    while i < n
        invariant
            from <= i <= n,
            n == s@.len(),
            digits == s@.skip(from as int),
            all_digits(digits.take(i - from)),
            acc == digits_val(digits.take(i - from)),
            acc <= limit,
        decreases n - i,
    {
        let c = s.get_char(i);
        proof {
            assert(digits[i - from] == s@[i as int]);
        }
        match digit_value_of(c) {
            None => {
                proof {
                    assert(!is_digit(digits[i - from]));
                }
                return None;
            },
            Some(d) => {
                proof {
                    lemma_digits_val_step(digits, i - from);
                    assert(digits.take(i - from + 1).drop_last() =~= digits.take(i - from));
                }
                if acc > limit / 10 || (acc == limit / 10 && d > limit % 10) {
                    // The prefix already exceeds the limit; the full run can
                    // only be at least as large.
                    proof {
                        let over = i - from + 1;
                        assert(digits_val(digits.take(over)) > limit);
                        if all_digits(digits) {
                            lemma_digits_val_monotone(digits, over);
                        }
                    }
                    return None;
                }
                acc = acc * 10 + d;
            },
        }
        i = i + 1;
        proof {
            assert(digits.take(i - from).drop_last() =~= digits.take(i - from - 1));
        }
    }
    proof {
        assert(digits.take(n - from) =~= digits);
    }
    Some(acc)
}

pub fn parse_u32(s: &str) -> (r: Option<u32>)
    ensures
        r == spec_parse_u32(s@),
{
    let n = s.unicode_len();
    let from: usize = if n > 0 && s.get_char(0) == '+' {
        1
    } else {
        proof {
            assert(s@.skip(0) =~= s@);
        }
        0
    };
    match parse_digit_run(s, from, u32::MAX as u64) {
        Some(v) => Some(v as u32),
        None => None,
    }
}


/// Character-by-character equality of two string slices.
pub fn str_eq(a: &str, b: &str) -> (r: bool)
    ensures
        r == (a@ == b@),
{
    let na = a.unicode_len();
    let nb = b.unicode_len();
    if na != nb {
        return false;
    }
    let mut i: usize = 0;
    while i < na
        invariant
            i <= na,
            na == a@.len(),
            na == b@.len(),
            forall|j: int| 0 <= j < i ==> a@[j] == b@[j],
        decreases na - i,
    {
        if a.get_char(i) != b.get_char(i) {
            return false;
        }
        i = i + 1;
    }
    proof {
        assert(a@ =~= b@);
    }
    true
}

/// `needle` occurs in `hay` starting at position `i`.
pub open spec fn matches_at(hay: Seq<char>, needle: Seq<char>, i: int) -> bool {
    0 <= i && i + needle.len() <= hay.len() && hay.subrange(i, i + needle.len()) == needle
}

pub open spec fn spec_contains(hay: Seq<char>, needle: Seq<char>) -> bool {
    exists|i: int| matches_at(hay, needle, i)
}

fn match_at(hay: &str, needle: &str, i: usize) -> (r: bool)
    requires
        i + needle@.len() <= hay@.len(),
    ensures
        r == matches_at(hay@, needle@, i as int),
{
    let n = needle.unicode_len();
    let nh = hay.unicode_len();
    let mut j: usize = 0;
    while j < n
        invariant
            j <= n,
            n == needle@.len(),
            nh == hay@.len(),
            i + n <= nh,
            forall|k: int| 0 <= k < j ==> hay@[i + k] == needle@[k],
        decreases n - j,
    {
        if hay.get_char(i + j) != needle.get_char(j) {
            proof {
                assert(hay@.subrange(i as int, i + needle@.len())[j as int] == hay@[i + j]);
            }
            return false;
        }
        j = j + 1;
    }
    proof {
        assert(hay@.subrange(i as int, i + needle@.len()) =~= needle@);
    }
    true
}

/// Position of the first occurrence of `needle` in `hay`, if any.
pub fn find_sub(hay: &str, needle: &str) -> (r: Option<usize>)
    ensures
        match r {
            Some(i) => matches_at(hay@, needle@, i as int) && forall|j: int|
                0 <= j < i ==> !matches_at(hay@, needle@, j),
            None => !spec_contains(hay@, needle@),
        },
{
    let nh = hay.unicode_len();
    let nn = needle.unicode_len();
    if nn > nh {
        return None;
    }
    if nn == 0 {
        proof {
            assert(hay@.subrange(0, 0) =~= needle@);
        }
        return Some(0);
    }
    let mut i: usize = 0;
    while i <= nh - nn
        invariant
            0 < nn <= nh,
            nh == hay@.len(),
            nn == needle@.len(),
            i <= nh - nn + 1,
            forall|j: int| 0 <= j < i ==> !matches_at(hay@, needle@, j),
        decreases nh - i,
    {
        if match_at(hay, needle, i) {
            return Some(i);
        }
        i = i + 1;
    }
    None
}

pub fn contains_sub(hay: &str, needle: &str) -> (r: bool)
    ensures
        r == spec_contains(hay@, needle@),
{
    match find_sub(hay, needle) {
        Some(_) => true,
        None => false,
    }
}


/// Relies on char::from_u32: `Some` exactly for code points that are neither
/// surrogates (0xD800..0xE000) nor above char::MAX; the returned char has the
/// given scalar value.
#[verifier::external_body]
pub fn char_from_u32(c: u32) -> (r: Option<char>)
    ensures
        r is Some <==> (c < 0xD800 || (0xE000 <= c && c <= 0x10FFFF)),
        r is Some ==> r->0 == (c as char),
{
    char::from_u32(c)
}

/// ASCII lowercasing of one char; other chars are unchanged.
pub open spec fn lower_char(c: char) -> char {
    if 'A' <= c && c <= 'Z' {
        ((c as int) + 32) as char
    } else {
        c
    }
}

pub open spec fn spec_ascii_lower(s: Seq<char>) -> Seq<char> {
    s.map_values(|c: char| lower_char(c))
}

fn to_lower_char(c: char) -> (r: char)
    ensures
        r == lower_char(c),
{
    if 'A' <= c && c <= 'Z' {
        let code: u32 = (c as u32) + 32;
        match char_from_u32(code) {
            Some(l) => l,
            None => {
                proof {
                    assert(false);
                }
                c
            },
        }
    } else {
        c
    }
}

/// Lowercases the ASCII letters of a string; all other chars are kept.
pub fn to_ascii_lowercase(s: &str) -> (r: String)
    ensures
        r@ == spec_ascii_lower(s@),
{
    let n = s.unicode_len();
    let mut out = String::new();
    let mut i: usize = 0;
    proof {
        assert(out@ =~= spec_ascii_lower(s@.take(0)));
    }
    while i < n
        invariant
            i <= n,
            n == s@.len(),
            out@ == spec_ascii_lower(s@.take(i as int)),
        decreases n - i,
    {
        let c = s.get_char(i);
        let l = to_lower_char(c);
        push_char(&mut out, l);
        proof {
            assert(spec_ascii_lower(s@.take(i + 1))
                =~= spec_ascii_lower(s@.take(i as int)).push(lower_char(s@[i as int])));
        }
        i = i + 1;
    }
    proof {
        assert(s@.take(n as int) =~= s@);
    }
    out
}

/// Position of the first occurrence of `c` in `s`, if any.
pub fn find_char(s: &str, c: char) -> (r: Option<usize>)
    ensures
        match r {
            Some(i) => i < s@.len() && s@[i as int] == c && forall|j: int|
                0 <= j < i ==> s@[j] != c,
            None => forall|j: int| 0 <= j < s@.len() ==> s@[j] != c,
        },
{
    let n = s.unicode_len();
    let mut i: usize = 0;
    while i < n
        invariant
            i <= n,
            n == s@.len(),
            forall|j: int| 0 <= j < i ==> s@[j] != c,
        decreases n - i,
    {
        if s.get_char(i) == c {
            return Some(i);
        }
        i = i + 1;
    }
    None
}

/// The digits accepted by a signed 64-bit decimal parse: an optional sign,
/// then a non-empty run of digits whose value fits `i64`.
pub open spec fn spec_parse_i64(s: Seq<char>) -> Option<i64> {
    let negative = s.len() > 0 && s[0] == '-';
    let digits: Seq<char> = if s.len() > 0 && (s[0] == '-' || s[0] == '+') {
        s.skip(1)
    } else {
        s
    };
    if digits.len() > 0 && all_digits(digits) {
        if negative && -digits_val(digits) >= i64::MIN {
            Some((-digits_val(digits)) as i64)
        } else if !negative && digits_val(digits) <= i64::MAX {
            Some(digits_val(digits) as i64)
        } else {
            None
        }
    } else {
        None
    }
}

pub fn parse_i64(s: &str) -> (r: Option<i64>)
    ensures
        r == spec_parse_i64(s@),
{
    let n = s.unicode_len();
    let negative = n > 0 && s.get_char(0) == '-';
    let from: usize = if n > 0 && (s.get_char(0) == '-' || s.get_char(0) == '+') {
        1
    } else {
        proof {
            assert(s@.skip(0) =~= s@);
        }
        0
    };
    if negative {
        // The magnitude of i64::MIN is one above i64::MAX.
        match parse_digit_run(s, from, 9_223_372_036_854_775_808u64) {
            Some(v) => {
                if v == 9_223_372_036_854_775_808u64 {
                    Some(i64::MIN)
                } else {
                    Some(-(v as i64))
                }
            },
            None => None,
        }
    } else {
        match parse_digit_run(s, from, i64::MAX as u64) {
            Some(v) => Some(v as i64),
            None => None,
        }
    }
}

/// `s` with every occurrence of `c` removed.
pub open spec fn strip_char(s: Seq<char>, c: char) -> Seq<char>
    decreases s.len(),
{
    if s.len() == 0 {
        seq![]
    } else if s.last() == c {
        strip_char(s.drop_last(), c)
    } else {
        strip_char(s.drop_last(), c).push(s.last())
    }
}

pub fn remove_char(s: &str, c: char) -> (r: String)
    ensures
        r@ == strip_char(s@, c),
{
    let n = s.unicode_len();
    let mut out = String::new();
    let mut i: usize = 0;
    proof {
        assert(out@ =~= strip_char(s@.take(0), c));
    }
    while i < n
        invariant
            i <= n,
            n == s@.len(),
            out@ == strip_char(s@.take(i as int), c),
        decreases n - i,
    {
        let d = s.get_char(i);
        proof {
            assert(s@.take(i + 1).drop_last() =~= s@.take(i as int));
            assert(s@.take(i + 1).last() == s@[i as int]);
        }
        if d != c {
            push_char(&mut out, d);
        }
        i = i + 1;
    }
    proof {
        assert(s@.take(n as int) =~= s@);
    }
    out
}


pub open spec fn ten_pow(k: nat) -> int
    decreases k,
{
    if k == 0 {
        1
    } else {
        10 * ten_pow((k - 1) as nat)
    }
}

pub proof fn lemma_digits_val_upper(s: Seq<char>)
    requires
        all_digits(s),
    ensures
        digits_val(s) < ten_pow(s.len()),
    decreases s.len(),
{
    if s.len() > 0 {
        assert(all_digits(s.drop_last()));
        lemma_digits_val_upper(s.drop_last());
        assert(is_digit(s.last()));
        assert(digit_val(s.last()) <= 9);
    }
}

pub open spec fn has_nonzero_digit(s: Seq<char>) -> bool {
    exists|i: int| 0 <= i < s.len() && digit_val(#[trigger] s[i]) != 0
}

/// Whether every char of the string is an ASCII digit.
pub fn all_digits_exec(s: &str) -> (r: bool)
    ensures
        r == all_digits(s@),
{
    let n = s.unicode_len();
    let mut i: usize = 0;
    while i < n
        invariant
            i <= n,
            n == s@.len(),
            forall|j: int| 0 <= j < i ==> is_digit(#[trigger] s@[j]),
        decreases n - i,
    {
        let c = s.get_char(i);
        if !('0' <= c && c <= '9') {
            return false;
        }
        i = i + 1;
    }
    true
}

/// Whether some char of the string is a digit other than '0'.
pub fn has_nonzero_digit_exec(s: &str) -> (r: bool)
    ensures
        r == has_nonzero_digit(s@),
{
    let n = s.unicode_len();
    let mut i: usize = 0;
    while i < n
        invariant
            i <= n,
            n == s@.len(),
            forall|j: int| 0 <= j < i ==> digit_val(#[trigger] s@[j]) == 0,
        decreases n - i,
    {
        let c = s.get_char(i);
        if c != '0' {
            proof {
                assert(digit_val(s@[i as int]) != 0);
            }
            return true;
        }
        i = i + 1;
    }
    false
}

/// Position of the first occurrence of `c`, as a spec-level recursion.
pub open spec fn first_index_of(s: Seq<char>, c: char) -> Option<int>
    decreases s.len(),
{
    if s.len() == 0 {
        None
    } else if s[0] == c {
        Some(0)
    } else {
        match first_index_of(s.skip(1), c) {
            None => None,
            Some(j) => Some(j + 1),
        }
    }
}

pub proof fn lemma_first_index_of(s: Seq<char>, c: char)
    ensures
        match first_index_of(s, c) {
            Some(i) => 0 <= i < s.len() && s[i] == c && forall|j: int| 0 <= j < i ==> s[j] != c,
            None => forall|j: int| 0 <= j < s.len() ==> s[j] != c,
        },
    decreases s.len(),
{
    if s.len() > 0 && s[0] != c {
        lemma_first_index_of(s.skip(1), c);
        let t = s.skip(1);
        assert(forall|j: int| 0 <= j < t.len() ==> t[j] == s[j + 1]);
        match first_index_of(t, c) {
            None => {
                assert forall|j: int| 0 <= j < s.len() implies s[j] != c by {
                    if j > 0 {
                        assert(t[j - 1] != c);
                    }
                }
            },
            Some(i) => {
                assert(s[i + 1] == t[i]);
                assert forall|j: int| 0 <= j < i + 1 implies s[j] != c by {
                    if j > 0 {
                        assert(t[j - 1] != c);
                    }
                }
            },
        }
    }
}


/// A clone of a string list is the same list: cloning a string yields an
/// equal string.
pub fn clone_strings(v: &Vec<String>) -> (r: Vec<String>)
    ensures
        r@ == v@,
{
    let r = v.clone();
    proof {
        assert forall|i: int| 0 <= i < v@.len() implies r@[i] == v@[i] by {
            assert(cloned::<String>(v@[i], r@[i]));
        }
        assert(r@ =~= v@);
    }
    r
}

} // verus!
