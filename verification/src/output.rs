//! Output dispatch: the three sink families, their file extensions, and the
//! schema a columnar sink derives from the configuration.

use vstd::prelude::*;

use crate::config::{Column, Config, OutputType};
use crate::providers::provider::ValueKind;

verus! {

/// The delimited-text sink: writes one header line, then one line per row.
#[derive(Debug, PartialEq, Eq, Structural, Clone, Copy)]
pub struct OutputCsv {
    pub delimiter: u8,
}

impl OutputCsv {
    pub fn new(delimiter: u8) -> (r: OutputCsv)
        ensures
            r.delimiter == delimiter,
    {
        OutputCsv { delimiter }
    }

    pub fn get_extension(&self) -> (r: &'static str)
        ensures
            r@ == ".csv"@,
    {
        ".csv"
    }
}

/// The structured-text sink: one record per line, or one wrapped array.
#[derive(Debug, PartialEq, Eq, Structural, Clone, Copy)]
pub struct OutputJson {
    pub wrap_up: bool,
}

impl OutputJson {
    pub fn new(wrap_up: bool) -> (r: OutputJson)
        ensures
            r.wrap_up == wrap_up,
    {
        OutputJson { wrap_up }
    }

    pub fn get_extension(&self) -> (r: &'static str)
        ensures
            r@ == ".json"@,
    {
        ".json"
    }
}

/// The columnar-binary sink.
#[derive(Debug, PartialEq, Eq, Structural, Clone, Copy)]
pub struct OutputParquet;

impl OutputParquet {
    pub fn get_extension(&self) -> (r: &'static str)
        ensures
            r@ == ".parquet"@,
    {
        ".parquet"
    }
}

/// The output family a configuration selects: the configured one, or the
/// columnar-binary default when none is given.
pub open spec fn spec_output_choice(config: Config) -> OutputType {
    match config.info {
        Some(info) => match info.output_format {
            Some(format) => format,
            None => OutputType::Parquet(),
        },
        None => OutputType::Parquet(),
    }
}

pub fn get_corresponding_output(config: &Config) -> (r: OutputType)
    ensures
        r == spec_output_choice(*config),
{
    match &config.info {
        Some(info) => match &info.output_format {
            Some(format) => *format,
            None => OutputType::Parquet(),
        },
        None => OutputType::Parquet(),
    }
}

/// One field of the schema a columnar sink writes: the column's name, its
/// logical type, and whether it may hold nulls.
#[derive(Clone, Debug, PartialEq)]
pub struct ColumnSchema {
    pub name: String,
    pub kind: ValueKind,
    pub nullable: bool,
}

/// Derives the schema: one field per column, nullable exactly when the
/// column's presence policy can produce null.
pub fn get_schema_from_config(config: &Config) -> (r: Vec<ColumnSchema>)
    ensures
        r@.len() == config.columns@.len(),
        forall|i: int|
            0 <= i < r@.len() ==> {
                let f = #[trigger] r@[i];
                &&& f.name@ == config.columns@[i].name@
                &&& f.kind == config.columns@[i].spec_kind()
                &&& f.nullable == !(config.columns@[i].presence is AlwaysPresent)
            },
{
    let n = config.columns.len();
    let mut fields: Vec<ColumnSchema> = Vec::new();
    let mut i: usize = 0;
    while i < n
        invariant
            i <= n,
            n == config.columns@.len(),
            fields@.len() == i,
            forall|k: int|
                0 <= k < i ==> {
                    let f = #[trigger] fields@[k];
                    &&& f.name@ == config.columns@[k].name@
                    &&& f.kind == config.columns@[k].spec_kind()
                    &&& f.nullable == !(config.columns@[k].presence is AlwaysPresent)
                },
        decreases n - i,
    {
        let column = &config.columns[i];
        let field = ColumnSchema {
            name: column.name.clone(),
            kind: column.provider.kind(),
            nullable: column.can_be_null(),
        };
        fields.push(field);
        i = i + 1;
    }
    fields
}

} // verus!
