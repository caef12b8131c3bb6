//! Resolution of a weighted string-list parameter.
//!
//! The input may be a single scalar, a list of scalars, or a list of
//! `{value, weight}` entries. Every shape resolves to a list of weighted
//! strings; a missing or malformed weight counts as 1, and numbers are kept
//! as their decimal text.

use vstd::prelude::*;

use crate::raw::{RawColumn, RawEntry, RawField, RawItem, RawValue};
use crate::text::{i64_to_string, spec_decimal_signed};

verus! {

/// A string with a selection weight.
#[derive(Clone, Debug, PartialEq)]
pub struct WStringParameter {
    pub value: String,
    pub weight: u32,
}

/// A declared weight: absent counts as 1, and so does one outside `u32`.
pub open spec fn spec_weight(weight: Option<i64>) -> u32 {
    match weight {
        None => 1,
        Some(v) => if 0 <= v <= u32::MAX {
            v as u32
        } else {
            1
        },
    }
}

pub open spec fn spec_entry_weight(weight: RawField) -> u32 {
    match weight {
        RawField::Int(v) => spec_weight(Some(v)),
        _ => 1,
    }
}

/// What one list item resolves to, as (text, weight).
pub open spec fn spec_wstring_item(item: RawItem, default_value: Seq<char>) -> (Seq<char>, u32) {
    match item {
        RawItem::Str(s) => (s@, 1u32),
        RawItem::Real(r) => (r@, 1u32),
        RawItem::Int(i) => (spec_decimal_signed(i as int), 1u32),
        RawItem::Entry(e) => {
            let w = spec_entry_weight(e.weight);
            match e.value {
                RawField::Str(s) => (s@, w),
                RawField::Real(r) => (r@, w),
                RawField::Int(i) => (spec_decimal_signed(i as int), w),
                _ => (default_value, 1u32),
            }
        },
        RawItem::Other => (default_value, 1u32),
    }
}

/// Every `{value, weight}` entry carries a value; an entry without one is a
/// configuration defect on which the resolver is not defined.
pub open spec fn wf_wstring_raw(raw: RawValue) -> bool {
    match raw {
        RawValue::List(items) => forall|i: int|
            0 <= i < items@.len() ==> !((#[trigger] items@[i]) matches RawItem::Entry(e)
                && e.value is Missing),
        _ => true,
    }
}

/// What the whole parameter resolves to.
pub open spec fn spec_wstring_parameters(raw: RawValue, default_value: Seq<char>) -> Seq<
    (Seq<char>, u32),
> {
    match raw {
        RawValue::Int(i) => seq![(spec_decimal_signed(i as int), 1u32)],
        RawValue::Real(r) => seq![(r@, 1u32)],
        RawValue::Str(s) => seq![(s@, 1u32)],
        RawValue::List(items) => item_views(items@, default_value),
        _ => seq![(default_value, 1u32)],
    }
}

pub open spec fn wstring_view(p: WStringParameter) -> (Seq<char>, u32) {
    (p.value@, p.weight)
}

/// The views of a resolved list, for stating what `new` returns.
pub open spec fn wstring_views(ps: Seq<WStringParameter>) -> Seq<(Seq<char>, u32)> {
    ps.map_values(|p: WStringParameter| wstring_view(p))
}

pub open spec fn item_views(items: Seq<RawItem>, default_value: Seq<char>) -> Seq<
    (Seq<char>, u32),
> {
    items.map_values(|it: RawItem| spec_wstring_item(it, default_value))
}

/// A declared weight: absent counts as 1, and so does one outside `u32`.
pub fn extract_weight(_column_name: &str, weight: Option<i64>) -> (r: u32)
    ensures
        r == spec_weight(weight),
{
    match weight {
        None => 1,
        Some(v) => {
            if 0 <= v && v <= u32::MAX as i64 {
                v as u32
            } else {
                1
            }
        },
    }
}

impl WStringParameter {
    pub fn new_from_str(value: &str) -> (r: WStringParameter)
        ensures
            r.value@ == value@,
            r.weight == 1,
    {
        WStringParameter { value: value.to_owned(), weight: 1 }
    }

    pub fn new_from_i64(value: &i64) -> (r: WStringParameter)
        ensures
            r.value@ == spec_decimal_signed(*value as int),
            r.weight == 1,
    {
        WStringParameter { value: i64_to_string(*value), weight: 1 }
    }

    fn new_from_entry(column_name: &str, entry: &RawEntry, default_value: &str) -> (r:
        WStringParameter)
        requires
            !(entry.value is Missing),
        ensures
            wstring_view(r) == spec_wstring_item(RawItem::Entry(*entry), default_value@),
    {
        let weight = match &entry.weight {
            RawField::Int(v) => extract_weight(column_name, Some(*v)),
            _ => 1,
        };
        match &entry.value {
            RawField::Str(s) => WStringParameter { value: s.clone(), weight },
            RawField::Real(r) => WStringParameter { value: r.clone(), weight },
            RawField::Int(i) => WStringParameter { value: i64_to_string(*i), weight },
            _ => WStringParameter { value: default_value.to_owned(), weight: 1 },
        }
    }

    fn new_from_item(column_name: &str, item: &RawItem, default_value: &str) -> (r:
        WStringParameter)
        requires
            !(*item matches RawItem::Entry(e) && e.value is Missing),
        ensures
            wstring_view(r) == spec_wstring_item(*item, default_value@),
    {
        match item {
            RawItem::Str(s) => WStringParameter::new_from_str(s.as_str()),
            RawItem::Real(r) => WStringParameter::new_from_str(r.as_str()),
            RawItem::Int(v) => WStringParameter::new_from_i64(v),
            RawItem::Entry(e) => WStringParameter::new_from_entry(column_name, e, default_value),
            RawItem::Other => WStringParameter { value: default_value.to_owned(), weight: 1 },
        }
    }

    pub fn new(column: &RawColumn, param_name: &str, default_value: &str) -> (r: Vec<
        WStringParameter,
    >)
        requires
            wf_wstring_raw(column.spec_param(param_name@)),
        ensures
            wstring_views(r@) == spec_wstring_parameters(
                column.spec_param(param_name@),
                default_value@,
            ),
    {
        let ghost raw = column.spec_param(param_name@);
        let column_name = column.name.as_str();
        let out: Vec<WStringParameter> = match column.param(param_name) {
            RawValue::Int(i) => {
                let mut out: Vec<WStringParameter> = Vec::new();
                out.push(WStringParameter::new_from_i64(i));
                out
            },
            RawValue::Real(r) => {
                let mut out: Vec<WStringParameter> = Vec::new();
                out.push(WStringParameter::new_from_str(r.as_str()));
                out
            },
            RawValue::Str(s) => {
                let mut out: Vec<WStringParameter> = Vec::new();
                out.push(WStringParameter::new_from_str(s.as_str()));
                out
            },
            RawValue::List(items) => {
                let ghost default_seq = default_value@;
                let n = items.len();
                let mut out: Vec<WStringParameter> = Vec::new();
                let mut i: usize = 0;
                proof {
                    assert(wstring_views(out@) =~~= item_views(items@.take(0), default_seq));
                }
                while i < n
                    invariant
                        i <= n,
                        n == items@.len(),
                        raw == RawValue::List(*items),
                        wf_wstring_raw(raw),
                        default_seq == default_value@,
                        wstring_views(out@) == item_views(items@.take(i as int), default_seq),
                    decreases n - i,
                {
                    let item_ref = &items[i];
                    proof {
                        assert(*item_ref == items@[i as int]);
                    }
                    let p: WStringParameter = WStringParameter::new_from_item(
                        column_name,
                        item_ref,
                        default_value,
                    );
                    proof {
                        assert(wstring_view(p) == spec_wstring_item(items@[i as int], default_seq));
                        assert(items@.take(i + 1).drop_last() =~= items@.take(i as int));
                        assert(item_views(items@.take(i + 1), default_seq) =~~= item_views(
                            items@.take(i as int),
                            default_seq,
                        ).push(spec_wstring_item(items@[i as int], default_seq)));
                        assert(wstring_views(out@.push(p)) =~~= wstring_views(out@).push(
                            wstring_view(p),
                        ));
                    }
                    out.push(p);
                    i = i + 1;
                }
                proof {
                    assert(items@.take(n as int) =~= items@);
                }
                out
            },
            _ => {
                let mut out: Vec<WStringParameter> = Vec::new();
                out.push(WStringParameter::new_from_str(default_value));
                out
            },
        };
        proof {
            assert(wstring_views(out@) =~~= spec_wstring_parameters(raw, default_value@));
        }
        out
    }
}

} // verus!
