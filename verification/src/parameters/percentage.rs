//! Resolution of a probability parameter.
//!
//! Probabilities are carried as whole millionths, so that presence and
//! corruption draws stay in integer arithmetic: `0` is never, `PERCENT_SCALE`
//! is always. An integer input clamps to the nearest bound; a real input is
//! read as a decimal numeral and clamped to `[0, 1]`, keeping its first six
//! fractional digits; anything else resolves to the default.

use vstd::prelude::*;

use crate::raw::{RawColumn, RawValue};
use crate::text::{
    all_digits, all_digits_exec, digit_val, digits_val, first_index_of, has_nonzero_digit,
    has_nonzero_digit_exec, is_digit, lemma_digits_val_upper, lemma_first_index_of, ten_pow,
    find_char,
};

verus! {

/// One whole: a probability of 1 in millionths.
pub const PERCENT_SCALE: u32 = 1_000_000;

pub struct PercentageParameter {
    pub value: u32,
}

/// The first six fractional digits, padded with zeros.
pub open spec fn pad6(s: Seq<char>) -> Seq<char> {
    if s.len() >= 6 {
        s.take(6)
    } else {
        s + Seq::new((6 - s.len()) as nat, |i: int| '0')
    }
}

/// The millionths denoted by a decimal numeral: an optional sign, a
/// non-empty run of integer digits, then optionally a point and fractional
/// digits. Negative numerals clamp to 0, numerals of one or more to one
/// whole; anything else is `None`.
pub open spec fn spec_parse_percent(s: Seq<char>) -> Option<u32> {
    let negative = s.len() > 0 && s[0] == '-';
    let body: Seq<char> = if s.len() > 0 && (s[0] == '-' || s[0] == '+') {
        s.skip(1)
    } else {
        s
    };
    let parts: (Seq<char>, Seq<char>) = match first_index_of(body, '.') {
        Some(i) => (body.take(i), body.skip(i + 1)),
        None => (body, Seq::<char>::empty()),
    };
    if parts.0.len() > 0 && all_digits(parts.0) && all_digits(parts.1) {
        if negative {
            Some(0)
        } else if has_nonzero_digit(parts.0) {
            Some(PERCENT_SCALE)
        } else {
            Some(digits_val(pad6(parts.1)) as u32)
        }
    } else {
        None
    }
}

/// An integer probability clamps to the nearest bound of `[0, 1]`.
pub open spec fn spec_clamp_int_percent(v: i64) -> u32 {
    if v <= 0 {
        0
    } else {
        PERCENT_SCALE
    }
}

pub open spec fn spec_percentage_parameter(raw: RawValue, default_value: u32) -> u32 {
    match raw {
        RawValue::Int(v) => spec_clamp_int_percent(v),
        RawValue::Real(s) => match spec_parse_percent(s@) {
            Some(v) => v,
            None => default_value,
        },
        _ => default_value,
    }
}


proof fn lemma_ten_pow_small()
    ensures
        ten_pow(0) == 1,
        ten_pow(1) == 10,
        ten_pow(2) == 100,
        ten_pow(3) == 1000,
        ten_pow(4) == 10000,
        ten_pow(5) == 100000,
        ten_pow(6) == 1000000,
{
    assert(ten_pow(0) == 1);
    assert(ten_pow(1) == 10 * ten_pow(0));
    assert(ten_pow(2) == 10 * ten_pow(1));
    assert(ten_pow(3) == 10 * ten_pow(2));
    assert(ten_pow(4) == 10 * ten_pow(3));
    assert(ten_pow(5) == 10 * ten_pow(4));
    assert(ten_pow(6) == 10 * ten_pow(5));
}

pub proof fn lemma_parse_percent_bounded(s: Seq<char>)
    ensures
        spec_parse_percent(s) is Some ==> spec_parse_percent(s)->0 <= PERCENT_SCALE,
{
    let negative = s.len() > 0 && s[0] == '-';
    let body: Seq<char> = if s.len() > 0 && (s[0] == '-' || s[0] == '+') {
        s.skip(1)
    } else {
        s
    };
    let parts: (Seq<char>, Seq<char>) = match first_index_of(body, '.') {
        Some(i) => (body.take(i), body.skip(i + 1)),
        None => (body, Seq::<char>::empty()),
    };
    if parts.0.len() > 0 && all_digits(parts.0) && all_digits(parts.1) && !negative
        && !has_nonzero_digit(parts.0) {
        let padded = pad6(parts.1);
        assert forall|k: int| 0 <= k < padded.len() implies is_digit(#[trigger] padded[k]) by {
            if k < parts.1.len() {
                assert(padded[k] == parts.1[k]);
            } else {
                assert(padded[k] == '0');
            }
        }
        lemma_digits_val_upper(padded);
        crate::text::lemma_digits_val_bounds(padded);
        lemma_ten_pow_small();
    }
}

/// The millionths denoted by the first six digits of a fractional part.
fn frac_millionths(s: &str) -> (r: u32)
    requires
        all_digits(s@),
    ensures
        r == digits_val(pad6(s@)),
        r < PERCENT_SCALE,
{
    let ghost padded = pad6(s@);
    let n = s.unicode_len();
    proof {
        assert forall|k: int| 0 <= k < 6 implies is_digit(#[trigger] padded[k]) by {
            if k < s@.len() {
                assert(padded[k] == s@[k]);
            } else {
                assert(padded[k] == '0');
            }
        }
        assert(padded.len() == 6);
    }
    let mut acc: u32 = 0;
    let mut k: usize = 0;
    proof {
        assert(padded.take(0) =~= Seq::<char>::empty());
        lemma_ten_pow_small();
    }
    while k < 6
        invariant
            k <= 6,
            n == s@.len(),
            padded == pad6(s@),
            padded.len() == 6,
            all_digits(s@),
            forall|j: int| 0 <= j < 6 ==> is_digit(#[trigger] padded[j]),
            acc == digits_val(padded.take(k as int)),
            acc < ten_pow(k as nat),
            ten_pow(k as nat) <= 1_000_000,
        decreases 6 - k,
    {
        let c: char = if k < n {
            let c = s.get_char(k);
            proof {
                assert(padded[k as int] == s@[k as int]);
            }
            c
        } else {
            proof {
                assert(padded[k as int] == '0');
            }
            '0'
        };
        let d: u32 = (c as u32) - ('0' as u32);
        proof {
            assert(is_digit(padded[k as int]));
            assert(d == digit_val(padded[k as int]));
            assert(padded.take(k + 1).drop_last() =~= padded.take(k as int));
            assert(padded.take(k + 1).last() == padded[k as int]);
            assert(ten_pow((k + 1) as nat) == 10 * ten_pow(k as nat));
            lemma_ten_pow_small();
        }
        acc = acc * 10 + d;
        k = k + 1;
    }
    proof {
        assert(padded.take(6) =~= padded);
    }
    acc
}

/// Reads a decimal numeral as clamped millionths.
pub fn percent_from_text(s: &str) -> (r: Option<u32>)
    ensures
        r == spec_parse_percent(s@),
{
    let n = s.unicode_len();
    let negative = n > 0 && s.get_char(0) == '-';
    let start: usize = if n > 0 && (s.get_char(0) == '-' || s.get_char(0) == '+') {
        1
    } else {
        0
    };
    let body = s.substring_char(start, n);
    proof {
        if start == 0 {
            assert(s@.skip(0) =~= s@.subrange(0, s@.len() as int));
        } else {
            assert(s@.skip(1) =~= s@.subrange(1, s@.len() as int));
        }
        lemma_first_index_of(body@, '.');
    }
    let nb = body.unicode_len();
    let found = find_char(body, '.');
    let (int_str, frac_str): (&str, &str) = match found {
        Some(i) => {
            proof {
                match first_index_of(body@, '.') {
                    Some(k) => {
                        if k < i as int {
                            assert(body@[k] != '.');
                        }
                        if (i as int) < k {
                            assert(body@[i as int] != '.');
                        }
                        assert(k == i as int);
                    },
                    None => {
                        assert(body@[i as int] != '.');
                    },
                }
            }
            (body.substring_char(0, i), body.substring_char(i + 1, nb))
        },
        None => {
            proof {
                match first_index_of(body@, '.') {
                    Some(k) => {
                        assert(body@[k] != '.');
                    },
                    None => {},
                }
            }
            (body, "")
        },
    };
    proof {
        reveal_strlit("");
        match first_index_of(body@, '.') {
            Some(i) => {
                assert(int_str@ =~= body@.take(i));
                assert(frac_str@ =~= body@.skip(i + 1));
            },
            None => {
                assert(frac_str@ =~= Seq::<char>::empty());
            },
        }
    }
    let ghost sbody: Seq<char> = if s@.len() > 0 && (s@[0] == '-' || s@[0] == '+') {
        s@.skip(1)
    } else {
        s@
    };
    proof {
        assert(body@ == sbody);
        match first_index_of(sbody, '.') {
            Some(i) => {
                assert(int_str@ == sbody.take(i));
                assert(frac_str@ == sbody.skip(i + 1));
            },
            None => {
                assert(int_str@ == sbody);
                assert(frac_str@ == Seq::<char>::empty());
            },
        }
    }
    let int_len = int_str.unicode_len();
    if int_len == 0 || !all_digits_exec(int_str) || !all_digits_exec(frac_str) {
        return None;
    }
    if negative {
        Some(0)
    } else if has_nonzero_digit_exec(int_str) {
        Some(PERCENT_SCALE)
    } else {
        Some(frac_millionths(frac_str))
    }
}

impl PercentageParameter {
    pub fn new(column: &RawColumn, param_name: &str, default_value: u32) -> (r:
        PercentageParameter)
        requires
            default_value <= PERCENT_SCALE,
        ensures
            r.value == spec_percentage_parameter(column.spec_param(param_name@), default_value),
            r.value <= PERCENT_SCALE,
    {
        let value = match column.param(param_name) {
            RawValue::Int(v) => if *v <= 0 {
                0
            } else {
                PERCENT_SCALE
            },
            RawValue::Real(s) => match percent_from_text(s.as_str()) {
                Some(v) => v,
                None => default_value,
            },
            _ => default_value,
        };
        proof {
            let raw = column.spec_param(param_name@);
            if raw is Real {
                lemma_parse_percent_bounded(raw->Real_0@);
            }
        }
        PercentageParameter { value }
    }
}


/// Resolving a probability never fails and never leaves `[0, 1]`: whatever
/// the input, the result is a clamped probability, resolving the same input
/// twice gives the same value, and a negative number always resolves to
/// zero.
pub proof fn lemma_percentage_resolution(raw: RawValue, default_value: u32)
    requires
        default_value <= PERCENT_SCALE,
    ensures
        spec_percentage_parameter(raw, default_value) <= PERCENT_SCALE,
        spec_percentage_parameter(raw, default_value) == spec_percentage_parameter(
            raw,
            default_value,
        ),
        raw matches RawValue::Int(v) && v < 0 ==> spec_percentage_parameter(raw, default_value)
            == 0,
        raw matches RawValue::Real(s) && s@.len() > 0 && s@[0] == '-' && spec_parse_percent(s@)
            is Some ==> spec_percentage_parameter(raw, default_value) == 0,
{
    if raw is Real {
        lemma_parse_percent_bounded(raw->Real_0@);
    }
}

} // verus!
