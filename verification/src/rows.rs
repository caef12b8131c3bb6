//! Row-wise materialization: rendering one value to text, one row to
//! delimited fields, and one row to an ordered record for structured
//! output.

use vstd::prelude::*;

use crate::config::{emitted_value_ok, Column};
use crate::dates::{date_format_spec, datetime_format_spec, format_date, format_datetime};
use crate::providers::provider::{value_wf, Provider, Value};
use crate::text::{bool_to_string, i32_to_string, spec_decimal_signed};

verus! {

/// The text a value renders to: numerics and booleans in their natural
/// form, calendar values under their carried format string.
pub open spec fn spec_render(v: Value) -> Seq<char> {
    match v {
        Value::Bool(b) => if b {
            "true"@
        } else {
            "false"@
        },
        Value::Int32(x) => spec_decimal_signed(x as int),
        Value::Str(s) => s@,
        Value::Date(days, fmt) => date_format_spec(days, fmt@),
        Value::Timestamp(secs, fmt) => datetime_format_spec(secs, fmt@),
    }
}

/// Renders one value to text.
pub fn render_value(v: &Value) -> (r: String)
    requires
        value_wf(*v),
    ensures
        r@ == spec_render(*v),
{
    match v {
        Value::Bool(b) => bool_to_string(*b),
        Value::Int32(x) => i32_to_string(*x),
        Value::Str(s) => s.clone(),
        Value::Date(days, fmt) => format_date(*days, fmt.as_str()),
        Value::Timestamp(secs, fmt) => format_datetime(*secs, fmt.as_str()),
    }
}

/// What a delimited-text cell must hold: a never-present column renders
/// empty, an always-present one renders an emitted value, any non-empty
/// cell is the rendering of an emitted value meeting the provider's
/// obligation, and an uncorrupted deterministic provider renders its exact
/// value.
pub open spec fn csv_cell_ok(col: Column, index: u32, s: Seq<char>) -> bool {
    &&& (col.presence is NeverPresent ==> s == Seq::<char>::empty())
    &&& (col.presence is AlwaysPresent ==> exists|v: Value|
        #[trigger] emitted_value_ok(col, index, v) && s == spec_render(v))
    &&& (s == Seq::<char>::empty() || exists|v: Value|
        #[trigger] emitted_value_ok(col, index, v) && s == spec_render(v))
    &&& ((col.presence is AlwaysPresent && col.provider.corrupted == 0) ==> {
        let prov = col.provider.provider;
        &&& (prov matches Provider::IncrementInteger(q) ==> s == spec_decimal_signed(
            q.start + index * q.step,
        ))
        &&& (prov matches Provider::ConstantString(q) ==> s == q.data@)
    })
}

/// The header line of a delimited-text output: the column names in order.
pub fn csv_header(columns: &Vec<Column>) -> (r: Vec<String>)
    ensures
        r@.len() == columns@.len(),
        forall|c: int| 0 <= c < r@.len() ==> (#[trigger] r@[c])@ == columns@[c].name@,
{
    let n = columns.len();
    let mut out: Vec<String> = Vec::new();
    let mut c: usize = 0;
    while c < n
        invariant
            c <= n,
            n == columns@.len(),
            out@.len() == c,
            forall|k: int| 0 <= k < c ==> (#[trigger] out@[k])@ == columns@[k].name@,
        decreases n - c,
    {
        out.push(columns[c].name.clone());
        c = c + 1;
    }
    out
}

/// One row of a delimited-text output: every column renders to one field,
/// a missing value to the empty field.
pub fn csv_row(columns: &Vec<Column>, index: u32) -> (r: Vec<String>)
    requires
        forall|c: int| 0 <= c < columns@.len() ==> (#[trigger] columns@[c]).wf(),
        forall|c: int|
            0 <= c < columns@.len() ==> (#[trigger] columns@[c]).provider.index_ok(index),
    ensures
        r@.len() == columns@.len(),
        forall|c: int| 0 <= c < r@.len() ==> csv_cell_ok(columns@[c], index, (#[trigger] r@[c])@),
{
    let n = columns.len();
    let mut out: Vec<String> = Vec::new();
    let mut c: usize = 0;
    while c < n
        invariant
            c <= n,
            n == columns@.len(),
            forall|k: int| 0 <= k < columns@.len() ==> (#[trigger] columns@[k]).wf(),
            forall|k: int|
                0 <= k < columns@.len() ==> (#[trigger] columns@[k]).provider.index_ok(index),
            out@.len() == c,
            forall|k: int|
                0 <= k < c ==> csv_cell_ok(columns@[k], index, (#[trigger] out@[k])@),
        decreases n - c,
    {
        let cell: String = match columns[c].emit(index) {
            Some(v) => {
                let rendered = render_value(&v);
                proof {
                    assert(emitted_value_ok(columns@[c as int], index, v));
                    assert(rendered@ == spec_render(v));
                }
                rendered
            },
            None => String::new(),
        };
        out.push(cell);
        c = c + 1;
    }
    out
}

/// One field of a structured-text record, already rendered: calendar
/// values become their formatted text.
#[derive(Clone, Debug, PartialEq)]
pub enum JsonField {
    Bool(bool),
    Int(i32),
    Str(String),
}

/// The structured field a value becomes: booleans and integers as
/// themselves, text as itself, calendar values as their rendered text.
pub open spec fn json_field_matches(v: Value, f: JsonField) -> bool {
    match v {
        Value::Bool(b) => f == JsonField::Bool(b),
        Value::Int32(x) => f == JsonField::Int(x),
        Value::Str(s) => f matches JsonField::Str(t) && t@ == s@,
        Value::Date(days, fmt) => f matches JsonField::Str(t) && t@ == date_format_spec(
            days,
            fmt@,
        ),
        Value::Timestamp(secs, fmt) => f matches JsonField::Str(t) && t@ == datetime_format_spec(
            secs,
            fmt@,
        ),
    }
}

/// What a record field must hold: it carries the column's name, it is the
/// field of an emitted value meeting the provider's obligation, and an
/// uncorrupted deterministic provider yields its exact field.
pub open spec fn record_field_ok(col: Column, index: u32, name: Seq<char>, f: JsonField) -> bool {
    &&& name == col.name@
    &&& exists|v: Value| #[trigger] emitted_value_ok(col, index, v) && json_field_matches(v, f)
    &&& ((col.provider.corrupted == 0) ==> {
        let prov = col.provider.provider;
        &&& (prov matches Provider::IncrementInteger(q) ==> f == JsonField::Int(
            (q.start + index * q.step) as i32,
        ))
        &&& (prov matches Provider::ConstantString(q) ==> f matches JsonField::Str(s) && s@
            == q.data@)
    })
}

/// One row of a structured-text output: the present columns, in column
/// order, as (name, field) pairs; missing values are omitted entirely.
pub fn row_record(columns: &Vec<Column>, index: u32) -> (r: Vec<(String, JsonField)>)
    requires
        forall|c: int| 0 <= c < columns@.len() ==> (#[trigger] columns@[c]).wf(),
        forall|c: int|
            0 <= c < columns@.len() ==> (#[trigger] columns@[c]).provider.index_ok(index),
    ensures
        r@.len() <= columns@.len(),
        forall|k: int|
            0 <= k < r@.len() ==> exists|c: int|
                0 <= c < columns@.len() && record_field_ok(
                    #[trigger] columns@[c],
                    index,
                    (#[trigger] r@[k]).0@,
                    r@[k].1,
                ),
        (forall|c: int| 0 <= c < columns@.len() ==> (#[trigger] columns@[c]).presence
            is AlwaysPresent) ==> {
            &&& r@.len() == columns@.len()
            &&& forall|c: int|
                0 <= c < r@.len() ==> record_field_ok(
                    columns@[c],
                    index,
                    (#[trigger] r@[c]).0@,
                    r@[c].1,
                )
        },
{
    let n = columns.len();
    let mut out: Vec<(String, JsonField)> = Vec::new();
    let mut c: usize = 0;
    while c < n
        invariant
            c <= n,
            n == columns@.len(),
            forall|k: int| 0 <= k < columns@.len() ==> (#[trigger] columns@[k]).wf(),
            forall|k: int|
                0 <= k < columns@.len() ==> (#[trigger] columns@[k]).provider.index_ok(index),
            out@.len() <= c,
            forall|k: int|
                0 <= k < out@.len() ==> exists|j: int|
                    0 <= j < columns@.len() && record_field_ok(
                        #[trigger] columns@[j],
                        index,
                        (#[trigger] out@[k]).0@,
                        out@[k].1,
                    ),
            (forall|k: int| 0 <= k < columns@.len() ==> (#[trigger] columns@[k]).presence
                is AlwaysPresent) ==> {
                &&& out@.len() == c
                &&& forall|k: int|
                    0 <= k < c ==> record_field_ok(
                        columns@[k],
                        index,
                        (#[trigger] out@[k]).0@,
                        out@[k].1,
                    )
            },
        decreases n - c,
    {
        match columns[c].emit(index) {
            Some(v) => {
                let field: JsonField = match v {
                    Value::Bool(b) => JsonField::Bool(b),
                    Value::Int32(x) => JsonField::Int(x),
                    Value::Str(s) => JsonField::Str(s),
                    Value::Date(days, fmt) => JsonField::Str(format_date(days, fmt.as_str())),
                    Value::Timestamp(secs, fmt) => JsonField::Str(
                        format_datetime(secs, fmt.as_str()),
                    ),
                };
                let name = columns[c].name.clone();
                proof {
                    assert(record_field_ok(columns@[c as int], index, name@, field));
                }
                out.push((name, field));
            },
            None => {},
        }
        c = c + 1;
    }
    out
}

} // verus!
