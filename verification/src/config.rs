//! The validated schema: columns with their providers and presence
//! policies, and the file-level settings.

use vstd::prelude::*;

use crate::errors::FakeLakeError;
use crate::presence::{new_from_raw as presence_from_raw, spec_presence_choice, Presence};
use crate::parameters::percentage::{spec_percentage_parameter, PERCENT_SCALE};
use crate::providers::provider::{
    builder_input_ok, corrupted_obligation, family_built, spec_provider_selection,
    value_obligation, CorruptedProvider, Corpora, Provider, ProviderBuilder, Value, ValueKind,
};
use crate::raw::{RawColumn, RawValue};
use crate::text::{contains_sub, spec_ascii_lower, spec_contains, str_eq, strip_char};

verus! {

/// One column of the schema: its name, its (possibly corrupted) value
/// source, and its presence policy.
#[derive(Clone, Debug)]
pub struct Column {
    pub name: String,
    pub provider: CorruptedProvider,
    pub presence: Presence,
}

impl Column {
    pub open spec fn wf(&self) -> bool {
        &&& self.provider.wf()
        &&& self.presence.wf()
    }

    /// The column's logical type: fixed by its provider.
    pub open spec fn spec_kind(&self) -> ValueKind {
        self.provider.spec_kind()
    }

    pub fn is_next_present(&self) -> (r: bool)
        requires
            self.wf(),
        ensures
            self.presence is AlwaysPresent ==> r,
            self.presence is NeverPresent ==> !r,
    {
        self.presence.is_next_present()
    }

    pub fn can_be_null(&self) -> (r: bool)
        ensures
            r == !(self.presence is AlwaysPresent),
    {
        self.presence.can_be_null()
    }

    /// One emission for this column at a row: presence first — a missing
    /// row never invokes the provider — then the possibly-corrupted value.
    pub fn emit(&self, index: u32) -> (r: Option<Value>)
        requires
            self.wf(),
            self.provider.index_ok(index),
        ensures
            self.presence is AlwaysPresent ==> r is Some,
            self.presence is NeverPresent ==> r is None,
            r matches Some(v) ==> emitted_value_ok(*self, index, v),
    {
        if self.is_next_present() {
            Some(self.provider.value(index))
        } else {
            None
        }
    }
}

/// What every present emission of a column satisfies: the column's logical
/// type, a well-formed payload, and one of the provider's two obligations —
/// always the plain one when corruption is off.
pub open spec fn emitted_value_ok(col: Column, index: u32, v: Value) -> bool {
    &&& crate::providers::provider::value_kind(v) == col.spec_kind()
    &&& crate::providers::provider::value_wf(v)
    &&& (value_obligation(col.provider.provider, index, v) || corrupted_obligation(
        col.provider.provider,
        v,
    ))
    &&& (col.provider.corrupted == 0 ==> value_obligation(col.provider.provider, index, v))
}

/// One column as the declarative input hands it over, before validation.
#[derive(Clone, Debug)]
pub struct RawColumnDef {
    pub name: Option<String>,
    pub provider: Option<String>,
    pub column: RawColumn,
}

impl RawColumnDef {
    /// Whether this definition can become a column: it is named, it names a
    /// provider, and the registry knows that provider.
    pub open spec fn ok(&self) -> bool {
        &&& self.name is Some
        &&& self.provider is Some
        &&& spec_provider_selection(spec_ascii_lower(self.provider->0@)) is Some
    }
}

impl Column {
    /// Builds the columns of a schema. Any definition without a name or a
    /// provider, or naming an unknown provider, refuses the whole schema;
    /// parameter defects never do.
    pub fn generate_columns(defs: &Vec<RawColumnDef>, corpora: &Corpora) -> (r: Result<
        Vec<Column>,
        FakeLakeError,
    >)
        requires
            corpora.wf(),
            forall|i: int|
                0 <= i < defs@.len() ==> ((#[trigger] defs@[i]).provider is Some
                    ==> builder_input_ok(
                    spec_ascii_lower(defs@[i].provider->0@),
                    defs@[i].column,
                )),
        ensures
            r is Ok <==> (forall|i: int| 0 <= i < defs@.len() ==> (#[trigger] defs@[i]).ok()),
            r matches Ok(columns) ==> {
                &&& columns@.len() == defs@.len()
                &&& forall|i: int|
                    0 <= i < defs@.len() ==> {
                        let c = #[trigger] columns@[i];
                        &&& c.wf()
                        &&& c.name@ == defs@[i].name->0@
                        &&& c.presence == spec_presence_choice(
                            spec_percentage_parameter(
                                defs@[i].column.spec_param("presence"@),
                                PERCENT_SCALE,
                            ),
                        )
                        &&& c.provider.corrupted == spec_percentage_parameter(
                            defs@[i].column.spec_param("corrupted"@),
                            0,
                        )
                        &&& family_built(
                            spec_provider_selection(spec_ascii_lower(defs@[i].provider->0@))->0,
                            c.provider.provider,
                            *corpora,
                            defs@[i].column,
                        )
                    }
            },
    {
        let n = defs.len();
        let mut columns: Vec<Column> = Vec::new();
        let mut i: usize = 0;
        while i < n
            invariant
                i <= n,
                n == defs@.len(),
                corpora.wf(),
                forall|k: int|
                    0 <= k < defs@.len() ==> ((#[trigger] defs@[k]).provider is Some
                        ==> builder_input_ok(
                        spec_ascii_lower(defs@[k].provider->0@),
                        defs@[k].column,
                    )),
                columns@.len() == i,
                forall|k: int| 0 <= k < i ==> (#[trigger] defs@[k]).ok(),
                forall|k: int|
                    0 <= k < i ==> {
                        let c = #[trigger] columns@[k];
                        &&& c.wf()
                        &&& c.name@ == defs@[k].name->0@
                        &&& c.presence == spec_presence_choice(
                            spec_percentage_parameter(
                                defs@[k].column.spec_param("presence"@),
                                PERCENT_SCALE,
                            ),
                        )
                        &&& c.provider.corrupted == spec_percentage_parameter(
                            defs@[k].column.spec_param("corrupted"@),
                            0,
                        )
                        &&& family_built(
                            spec_provider_selection(spec_ascii_lower(defs@[k].provider->0@))->0,
                            c.provider.provider,
                            *corpora,
                            defs@[k].column,
                        )
                    },
            decreases n - i,
        {
            let def = &defs[i];
            let name: String = match &def.name {
                Some(name) => name.clone(),
                None => {
                    return Err(
                        FakeLakeError::BadYAMLFormat(
                            "One column in the schema has no name specified.".to_owned(),
                        ),
                    );
                },
            };
            let provider_id: &String = match &def.provider {
                Some(p) => p,
                None => {
                    return Err(
                        FakeLakeError::BadYAMLFormat(
                            "One column in the schema has no provider specified.".to_owned(),
                        ),
                    );
                },
            };
            let raw = &def.column;
            let presence = presence_from_raw(raw);
            let provider = match ProviderBuilder::get_corresponding_provider(
                provider_id.as_str(),
                raw,
                corpora,
            ) {
                Ok(value) => value,
                Err(e) => {
                    return Err(e);
                },
            };
            let provider = CorruptedProvider::new_from_raw(raw, provider);
            let column = Column { name, provider, presence };
            columns.push(column);
            i = i + 1;
        }
        Ok(columns)
    }
}


/// The output family and its per-family setting.
#[derive(Debug, Clone, Copy, PartialEq, Eq, Structural)]
pub enum OutputType {
    Parquet(),
    Csv(u8),
    Json(bool),
}

/// The file-level settings of one requested output.
#[derive(Debug, Clone)]
pub struct Info {
    /// The stem of the output file; "output" when not specified.
    pub output_name: Option<String>,
    /// The output family; columnar-binary when not specified.
    pub output_format: Option<OutputType>,
    pub rows: Option<u32>,
}

/// A whole validated configuration: the schema and its settings.
#[derive(Debug, Clone)]
pub struct Config {
    pub columns: Vec<Column>,
    pub info: Option<Info>,
}

pub const DEFAULT_ROWS: u32 = 1_000_000;

impl Config {
    pub open spec fn wf(&self) -> bool {
        forall|i: int| 0 <= i < self.columns@.len() ==> (#[trigger] self.columns@[i]).wf()
    }

    /// The configured output stem, or "output".
    pub open spec fn spec_output_stem(&self) -> Seq<char> {
        match self.info {
            Some(info) => match info.output_name {
                Some(name) => name@,
                None => "output"@,
            },
            None => "output"@,
        }
    }

    /// The output file name: the stem with the extension appended, unless
    /// the stem already contains it.
    pub fn get_output_file_name(&self, extension: &str) -> (r: String)
        ensures
            spec_contains(self.spec_output_stem(), extension@) ==> r@ == self.spec_output_stem(),
            !spec_contains(self.spec_output_stem(), extension@) ==> r@ == self.spec_output_stem()
                + extension@,
    {
        let file_name: &str = match &self.info {
            Some(info) => match &info.output_name {
                Some(name) => name.as_str(),
                None => "output",
            },
            None => "output",
        };
        if contains_sub(file_name, extension) {
            return file_name.to_owned();
        }
        let mut out = file_name.to_owned();
        out.append(extension);
        out
    }

    /// The configured row count, or one million.
    pub fn get_number_of_rows(&self) -> (r: u32)
        ensures
            r == match self.info {
                Some(info) => match info.rows {
                    Some(rows) => rows,
                    None => DEFAULT_ROWS,
                },
                None => DEFAULT_ROWS,
            },
    {
        match &self.info {
            Some(info) => match info.rows {
                Some(rows) => rows,
                None => DEFAULT_ROWS,
            },
            None => DEFAULT_ROWS,
        }
    }
}

/// What a raw delimiter parameter resolves to: a single one-byte char
/// stands for itself, everything else for a comma.
pub open spec fn spec_delimiter(raw: RawValue) -> u8 {
    match raw {
        RawValue::Str(s) => if s@.len() == 1 && (s@[0] as int) < 128 {
            s@[0] as u8
        } else {
            44u8
        },
        _ => 44u8,
    }
}

/// What a raw wrap-up parameter resolves to: a boolean stands for itself,
/// everything else for false.
pub open spec fn spec_wrap_up(raw: RawValue) -> bool {
    match raw {
        RawValue::Bool(b) => b,
        _ => false,
    }
}

/// What a raw row count resolves to: an integer is truncated to `u32`; a
/// string is read as a decimal numeral with `_` separators removed.
pub open spec fn spec_rows(raw: RawValue) -> Option<u32> {
    match raw {
        RawValue::Int(v) => Some(v as u32),
        RawValue::Str(s) => crate::text::spec_parse_u32(strip_char(s@, '_')),
        _ => None,
    }
}

impl Info {
    /// Reads the file-level settings; every defect resolves to a default,
    /// never to an error.
    pub fn parse_info_section(section: &RawColumn) -> (r: Info)
        ensures
            ({
                let name_raw = section.spec_param("output_name"@);
                &&& (name_raw matches RawValue::Str(s) ==> r.output_name matches Some(n) && n@
                    == s@)
                &&& (!(name_raw is Str) ==> r.output_name is None)
            }),
            ({
                let fmt_raw = section.spec_param("output_format"@);
                &&& (fmt_raw matches RawValue::Str(s) && s@ == "parquet"@ ==> r.output_format
                    == Some(OutputType::Parquet()))
                &&& (fmt_raw matches RawValue::Str(s) && s@ == "csv"@ ==> r.output_format == Some(
                    OutputType::Csv(spec_delimiter(section.spec_param("delimiter"@))),
                ))
                &&& (fmt_raw matches RawValue::Str(s) && s@ == "json"@ ==> r.output_format == Some(
                    OutputType::Json(spec_wrap_up(section.spec_param("wrap_up"@))),
                ))
                &&& (fmt_raw matches RawValue::Str(s) && s@ != "parquet"@ && s@ != "csv"@ && s@
                    != "json"@ ==> r.output_format is None)
                &&& (!(fmt_raw is Str) ==> r.output_format is None)
            }),
            r.rows == spec_rows(section.spec_param("rows"@)),
    {
        let output_name: Option<String> = match section.param("output_name") {
            RawValue::Str(s) => Some(s.clone()),
            _ => None,
        };
        proof {
            // The three family names have different lengths, so a setting
            // can only be one of them.
            reveal_strlit("parquet");
            reveal_strlit("csv");
            reveal_strlit("json");
            assert("parquet"@.len() == 7);
            assert("csv"@.len() == 3);
            assert("json"@.len() == 4);
        }
        let output_format: Option<OutputType> = match section.param("output_format") {
            RawValue::Str(s) => {
                if str_eq(s.as_str(), "parquet") {
                    Some(OutputType::Parquet())
                } else if str_eq(s.as_str(), "csv") {
                    Some(OutputType::Csv(read_delimiter(section)))
                } else if str_eq(s.as_str(), "json") {
                    Some(OutputType::Json(read_wrap_up(section)))
                } else {
                    None
                }
            },
            _ => None,
        };
        let rows: Option<u32> = match section.param("rows") {
            RawValue::Int(v) => Some(#[verifier::truncate] (*v as u32)),
            RawValue::Str(s) => {
                let cleaned = crate::text::remove_char(s.as_str(), '_');
                crate::text::parse_u32(cleaned.as_str())
            },
            _ => None,
        };
        Info { output_name, output_format, rows }
    }
}

fn read_delimiter(section: &RawColumn) -> (r: u8)
    ensures
        r == spec_delimiter(section.spec_param("delimiter"@)),
{
    match section.param("delimiter") {
        RawValue::Str(s) => {
            let n = s.as_str().unicode_len();
            if n == 1 {
                let c = s.as_str().get_char(0);
                let code = c as u32;
                if code < 128 {
                    proof {
                        assert(code < 256 ==> code as u8 == code) by (bit_vector);
                    }
                    code as u8
                } else {
                    44u8
                }
            } else {
                44u8
            }
        },
        _ => 44u8,
    }
}

fn read_wrap_up(section: &RawColumn) -> (r: bool)
    ensures
        r == spec_wrap_up(section.spec_param("wrap_up"@)),
{
    match section.param("wrap_up") {
        RawValue::Bool(b) => *b,
        _ => false,
    }
}

} // verus!
