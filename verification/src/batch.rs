//! Columnar batch generation: a window of row indices materialized as one
//! typed, nullable array per column, and the window plan that covers a row
//! count with fixed-size batches.

use vstd::prelude::*;

use crate::config::{emitted_value_ok, Column};
use crate::providers::provider::{Value, ValueKind};

verus! {

/// Day number of 1970-01-01 in the proleptic Gregorian calendar: columnar
/// sinks store dates as days since this epoch.
pub const EPOCH_DAYS_FROM_CE: i32 = 719_163;

/// One column of one window, as a typed nullable array of plain values.
/// Dates are days since the Unix epoch; timestamps seconds since it.
#[derive(Clone, Debug, PartialEq)]
pub enum ColumnData {
    Bool(Vec<Option<bool>>),
    Int32(Vec<Option<i32>>),
    Str(Vec<Option<String>>),
    Date(Vec<Option<i32>>),
    Timestamp(Vec<Option<i64>>),
}

pub open spec fn column_data_kind(d: ColumnData) -> ValueKind {
    match d {
        ColumnData::Bool(_) => ValueKind::Bool,
        ColumnData::Int32(_) => ValueKind::Int32,
        ColumnData::Str(_) => ValueKind::Str,
        ColumnData::Date(_) => ValueKind::Date,
        ColumnData::Timestamp(_) => ValueKind::Timestamp,
    }
}

pub open spec fn column_data_len(d: ColumnData) -> nat {
    match d {
        ColumnData::Bool(v) => v@.len(),
        ColumnData::Int32(v) => v@.len(),
        ColumnData::Str(v) => v@.len(),
        ColumnData::Date(v) => v@.len(),
        ColumnData::Timestamp(v) => v@.len(),
    }
}

/// Whether the cell at `i` is filled.
pub open spec fn column_data_present(d: ColumnData, i: int) -> bool {
    match d {
        ColumnData::Bool(v) => v@[i] is Some,
        ColumnData::Int32(v) => v@[i] is Some,
        ColumnData::Str(v) => v@[i] is Some,
        ColumnData::Date(v) => v@[i] is Some,
        ColumnData::Timestamp(v) => v@[i] is Some,
    }
}

impl ColumnData {
    /// How many rows this array covers.
    pub fn len(&self) -> (r: usize)
        ensures
            r == column_data_len(*self),
    {
        match self {
            ColumnData::Bool(v) => v.len(),
            ColumnData::Int32(v) => v.len(),
            ColumnData::Str(v) => v.len(),
            ColumnData::Date(v) => v.len(),
            ColumnData::Timestamp(v) => v.len(),
        }
    }
}

/// A filled boolean cell holds an emitted value of its column.
pub open spec fn bool_cell_ok(col: Column, index: u32, cell: Option<bool>) -> bool {
    cell matches Some(b) ==> emitted_value_ok(col, index, Value::Bool(b))
}

pub open spec fn int_cell_ok(col: Column, index: u32, cell: Option<i32>) -> bool {
    cell matches Some(x) ==> emitted_value_ok(col, index, Value::Int32(x))
}

pub open spec fn str_cell_ok(col: Column, index: u32, cell: Option<String>) -> bool {
    cell matches Some(s) ==> emitted_value_ok(col, index, Value::Str(s))
}

/// A filled date cell is the emitted day number shifted to the epoch; the
/// carried format string is dropped by the columnar layout.
pub open spec fn date_cell_ok(col: Column, index: u32, cell: Option<i32>) -> bool {
    cell matches Some(days) ==> exists|v: Value|
        #[trigger] emitted_value_ok(col, index, v) && (v matches Value::Date(d, _) && d as int
            == days + EPOCH_DAYS_FROM_CE)
}

pub open spec fn timestamp_cell_ok(col: Column, index: u32, cell: Option<i64>) -> bool {
    cell matches Some(secs) ==> exists|v: Value|
        #[trigger] emitted_value_ok(col, index, v) && (v matches Value::Timestamp(s, _) && s
            == secs)
}

/// The typed cell one emission becomes, with calendar payloads converted to
/// epoch-relative plain values.
pub open spec fn cell_of_value(v: Value) -> ColumnCell {
    match v {
        Value::Bool(b) => ColumnCell::Bool(b),
        Value::Int32(x) => ColumnCell::Int32(x),
        Value::Str(s) => ColumnCell::Str(s),
        Value::Date(days, _) => ColumnCell::Date((days - EPOCH_DAYS_FROM_CE) as i32),
        Value::Timestamp(secs, _) => ColumnCell::Timestamp(secs),
    }
}

#[derive(Clone, Debug, PartialEq)]
pub enum ColumnCell {
    Bool(bool),
    Int32(i32),
    Str(String),
    Date(i32),
    Timestamp(i64),
}

/// Materializes one column over the window of rows
/// `[start_index, start_index + rows_to_generate)`: presence decides each
/// cell, and every filled cell has the column's logical type, so packing
/// into one typed array cannot fail.
pub fn batch_column(column: &Column, start_index: u32, rows_to_generate: u32) -> (r: ColumnData)
    requires
        column.wf(),
        start_index + rows_to_generate <= u32::MAX,
        forall|i: u32|
            start_index <= i < start_index + rows_to_generate ==> column.provider.index_ok(i),
    ensures
        column_data_len(r) == rows_to_generate,
        column_data_kind(r) == column.spec_kind(),
        column.presence is AlwaysPresent ==> forall|i: int|
            0 <= i < rows_to_generate ==> column_data_present(r, i),
        column.presence is NeverPresent ==> forall|i: int|
            0 <= i < rows_to_generate ==> !column_data_present(r, i),
        r matches ColumnData::Bool(v) ==> forall|i: int|
            0 <= i < rows_to_generate ==> bool_cell_ok(
                *column,
                (start_index + i) as u32,
                #[trigger] v@[i],
            ),
        r matches ColumnData::Int32(v) ==> forall|i: int|
            0 <= i < rows_to_generate ==> int_cell_ok(
                *column,
                (start_index + i) as u32,
                #[trigger] v@[i],
            ),
        r matches ColumnData::Str(v) ==> forall|i: int|
            0 <= i < rows_to_generate ==> str_cell_ok(
                *column,
                (start_index + i) as u32,
                #[trigger] v@[i],
            ),
        r matches ColumnData::Date(v) ==> forall|i: int|
            0 <= i < rows_to_generate ==> date_cell_ok(
                *column,
                (start_index + i) as u32,
                #[trigger] v@[i],
            ),
        r matches ColumnData::Timestamp(v) ==> forall|i: int|
            0 <= i < rows_to_generate ==> timestamp_cell_ok(
                *column,
                (start_index + i) as u32,
                #[trigger] v@[i],
            ),
        ({
            let prov = column.provider.provider;
            (column.presence is AlwaysPresent && column.provider.corrupted == 0
                && prov is IncrementInteger) ==> {
                let q = prov->IncrementInteger_0;
                r matches ColumnData::Int32(v) && forall|i: int|
                    0 <= i < rows_to_generate ==> v@[i] == Some(
                        (q.start + (start_index + i) * q.step) as i32,
                    )
            }
        }),
{
    match column.provider.kind() {
        ValueKind::Bool => {
            let mut cells: Vec<Option<bool>> = Vec::new();
            let mut i: u32 = 0;
            while i < rows_to_generate
                invariant
                    i <= rows_to_generate,
                    column.wf(),
                    start_index + rows_to_generate <= u32::MAX,
                    column.spec_kind() == ValueKind::Bool,
                    forall|k: u32|
                        start_index <= k < start_index + rows_to_generate
                            ==> column.provider.index_ok(k),
                    cells@.len() == i,
                    column.presence is AlwaysPresent ==> forall|k: int|
                        0 <= k < i ==> cells@[k] is Some,
                    column.presence is NeverPresent ==> forall|k: int|
                        0 <= k < i ==> cells@[k] is None,
                    forall|k: int|
                        0 <= k < i ==> bool_cell_ok(
                            *column,
                            (start_index + k) as u32,
                            #[trigger] cells@[k],
                        ),
                decreases rows_to_generate - i,
            {
                match column.emit(start_index + i) {
                    Some(Value::Bool(b)) => {
                        proof {
                            assert(emitted_value_ok(*column, (start_index + i) as u32, Value::Bool(b)));
                        }
                        cells.push(Some(b))
                    },
                    Some(_) => {
                        proof {
                            assert(false);
                        }
                    },
                    None => cells.push(None),
                }
                i = i + 1;
            }
            ColumnData::Bool(cells)
        },
        ValueKind::Int32 => {
            let ghost inc = column.provider.provider;
            let ghost corrupted = column.provider.corrupted;
            let mut cells: Vec<Option<i32>> = Vec::new();
            let mut i: u32 = 0;
            while i < rows_to_generate
                invariant
                    i <= rows_to_generate,
                    column.wf(),
                    start_index + rows_to_generate <= u32::MAX,
                    column.spec_kind() == ValueKind::Int32,
                    inc == column.provider.provider,
                    corrupted == column.provider.corrupted,
                    forall|k: u32|
                        start_index <= k < start_index + rows_to_generate
                            ==> column.provider.index_ok(k),
                    cells@.len() == i,
                    column.presence is AlwaysPresent ==> forall|k: int|
                        0 <= k < i ==> cells@[k] is Some,
                    column.presence is NeverPresent ==> forall|k: int|
                        0 <= k < i ==> cells@[k] is None,
                    (column.presence is AlwaysPresent && corrupted == 0
                        && inc is IncrementInteger) ==> {
                        let q = inc->IncrementInteger_0;
                        forall|k: int|
                            0 <= k < i ==> cells@[k] == Some(
                                (q.start + (start_index + k) * q.step) as i32,
                            )
                    },
                    forall|k: int|
                        0 <= k < i ==> int_cell_ok(
                            *column,
                            (start_index + k) as u32,
                            #[trigger] cells@[k],
                        ),
                decreases rows_to_generate - i,
            {
                match column.emit(start_index + i) {
                    Some(Value::Int32(x)) => {
                        proof {
                            assert(emitted_value_ok(*column, (start_index + i) as u32, Value::Int32(x)));
                        }
                        cells.push(Some(x))
                    },
                    Some(_) => {
                        proof {
                            assert(false);
                        }
                    },
                    None => cells.push(None),
                }
                i = i + 1;
            }
            ColumnData::Int32(cells)
        },
        ValueKind::Str => {
            let mut cells: Vec<Option<String>> = Vec::new();
            let mut i: u32 = 0;
            while i < rows_to_generate
                invariant
                    i <= rows_to_generate,
                    column.wf(),
                    start_index + rows_to_generate <= u32::MAX,
                    column.spec_kind() == ValueKind::Str,
                    forall|k: u32|
                        start_index <= k < start_index + rows_to_generate
                            ==> column.provider.index_ok(k),
                    cells@.len() == i,
                    column.presence is AlwaysPresent ==> forall|k: int|
                        0 <= k < i ==> cells@[k] is Some,
                    column.presence is NeverPresent ==> forall|k: int|
                        0 <= k < i ==> cells@[k] is None,
                    forall|k: int|
                        0 <= k < i ==> str_cell_ok(
                            *column,
                            (start_index + k) as u32,
                            #[trigger] cells@[k],
                        ),
                decreases rows_to_generate - i,
            {
                match column.emit(start_index + i) {
                    Some(Value::Str(s)) => {
                        proof {
                            assert(emitted_value_ok(*column, (start_index + i) as u32, Value::Str(s)));
                        }
                        cells.push(Some(s))
                    },
                    Some(_) => {
                        proof {
                            assert(false);
                        }
                    },
                    None => cells.push(None),
                }
                i = i + 1;
            }
            ColumnData::Str(cells)
        },
        ValueKind::Date => {
            let mut cells: Vec<Option<i32>> = Vec::new();
            let mut i: u32 = 0;
            while i < rows_to_generate
                invariant
                    i <= rows_to_generate,
                    column.wf(),
                    start_index + rows_to_generate <= u32::MAX,
                    column.spec_kind() == ValueKind::Date,
                    forall|k: u32|
                        start_index <= k < start_index + rows_to_generate
                            ==> column.provider.index_ok(k),
                    cells@.len() == i,
                    column.presence is AlwaysPresent ==> forall|k: int|
                        0 <= k < i ==> cells@[k] is Some,
                    column.presence is NeverPresent ==> forall|k: int|
                        0 <= k < i ==> cells@[k] is None,
                    forall|k: int|
                        0 <= k < i ==> date_cell_ok(
                            *column,
                            (start_index + k) as u32,
                            #[trigger] cells@[k],
                        ),
                decreases rows_to_generate - i,
            {
                match column.emit(start_index + i) {
                    Some(Value::Date(days, fmt)) => {
                        let cell: i32 = days - EPOCH_DAYS_FROM_CE;
                        proof {
                            assert(emitted_value_ok(
                                *column,
                                (start_index + i) as u32,
                                Value::Date(days, fmt),
                            ));
                            assert(date_cell_ok(*column, (start_index + i) as u32, Some(cell)));
                        }
                        cells.push(Some(cell));
                    },
                    Some(_) => {
                        proof {
                            assert(false);
                        }
                    },
                    None => cells.push(None),
                }
                i = i + 1;
            }
            ColumnData::Date(cells)
        },
        ValueKind::Timestamp => {
            let mut cells: Vec<Option<i64>> = Vec::new();
            let mut i: u32 = 0;
            while i < rows_to_generate
                invariant
                    i <= rows_to_generate,
                    column.wf(),
                    start_index + rows_to_generate <= u32::MAX,
                    column.spec_kind() == ValueKind::Timestamp,
                    forall|k: u32|
                        start_index <= k < start_index + rows_to_generate
                            ==> column.provider.index_ok(k),
                    cells@.len() == i,
                    column.presence is AlwaysPresent ==> forall|k: int|
                        0 <= k < i ==> cells@[k] is Some,
                    column.presence is NeverPresent ==> forall|k: int|
                        0 <= k < i ==> cells@[k] is None,
                    forall|k: int|
                        0 <= k < i ==> timestamp_cell_ok(
                            *column,
                            (start_index + k) as u32,
                            #[trigger] cells@[k],
                        ),
                decreases rows_to_generate - i,
            {
                match column.emit(start_index + i) {
                    Some(Value::Timestamp(secs, fmt)) => {
                        proof {
                            assert(emitted_value_ok(
                                *column,
                                (start_index + i) as u32,
                                Value::Timestamp(secs, fmt),
                            ));
                            assert(timestamp_cell_ok(
                                *column,
                                (start_index + i) as u32,
                                Some(secs),
                            ));
                        }
                        cells.push(Some(secs))
                    },
                    Some(_) => {
                        proof {
                            assert(false);
                        }
                    },
                    None => cells.push(None),
                }
                i = i + 1;
            }
            ColumnData::Timestamp(cells)
        },
    }
}

/// The windows that cover `rows` in batches of `batch_size`: each window is
/// (first row index, row count).
pub open spec fn spec_window(rows: u32, batch_size: u32, k: int) -> (u32, u32) {
    let start = k * batch_size;
    if start + batch_size <= rows {
        ((k * batch_size) as u32, batch_size)
    } else {
        ((k * batch_size) as u32, (rows - start) as u32)
    }
}

/// The window plan: consecutive windows of at most `batch_size` rows whose
/// counts add up to exactly `rows`.
pub fn batch_windows(rows: u32, batch_size: u32) -> (r: Vec<(u32, u32)>)
    requires
        batch_size > 0,
    ensures
        forall|k: int| 0 <= k < r@.len() ==> #[trigger] r@[k] == spec_window(rows, batch_size, k),
        forall|k: int|
            0 <= k < r@.len() ==> 0 < (#[trigger] r@[k]).1 <= batch_size && r@[k].0 + r@[k].1
                <= rows,
        windows_total(r@) == rows,
        rows > 0 ==> r@.len() > 0,
{
    let mut out: Vec<(u32, u32)> = Vec::new();
    let mut start: u32 = 0;
    proof {
        assert(out@.len() * batch_size == 0) by (nonlinear_arith)
            requires
                out@.len() == 0,
        ;
    }
    while start < rows
        invariant
            start <= rows,
            batch_size > 0,
            start == out@.len() * batch_size || start == rows,
            forall|k: int|
                0 <= k < out@.len() ==> #[trigger] out@[k] == spec_window(rows, batch_size, k),
            forall|k: int|
                0 <= k < out@.len() ==> 0 < (#[trigger] out@[k]).1 <= batch_size && out@[k].0
                    + out@[k].1 <= rows,
            windows_total(out@) == start,
        decreases rows - start,
    {
        let count = if rows - start >= batch_size {
            batch_size
        } else {
            rows - start
        };
        proof {
            let ghost w = out@;
            assert(w.push((start, count)).drop_last() =~= w);
            assert((w.len() + 1) * batch_size == w.len() * batch_size + batch_size)
                by (nonlinear_arith);
        }
        out.push((start, count));
        start = start + count;
    }
    out
}

/// The number of rows a window plan covers in total.
pub open spec fn windows_total(ws: Seq<(u32, u32)>) -> int
    decreases ws.len(),
{
    if ws.len() == 0 {
        0
    } else {
        windows_total(ws.drop_last()) + ws.last().1
    }
}

} // verus!
