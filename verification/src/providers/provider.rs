//! The generated value model, the provider sum type, the corruption
//! decorator and the provider registry.

use vstd::prelude::*;

use crate::dates::{valid_date_days, valid_timestamp_secs};
use crate::errors::FakeLakeError;
use crate::parameters::percentage::{PercentageParameter, PERCENT_SCALE};
use crate::providers::constant;
use crate::providers::constant::{wf_string_data_raw, DEFAULT_CONSTANT};
use crate::providers::email::EmailProvider;
use crate::providers::external;
use crate::providers::increment::IncrementIntegerProvider;
use crate::providers::random_bool::BoolProvider;
use crate::providers::random_date::{DateProvider, DatetimeProvider};
use crate::providers::random_number::I32Provider;
use crate::providers::random_string::AlphanumericProvider;
use crate::providers::strings::is_alnum_char;
use crate::raw::RawColumn;
use crate::rng::random_u32_range;
use crate::text::{spec_ascii_lower, to_ascii_lowercase};
use crate::providers::constant::{
    ConstantStringProvider, ListStringProvider, WeightedListStringProvider,
};

verus! {

/// A generated value. Dates carry their day number in the proleptic
/// Gregorian calendar and timestamps their seconds since the epoch, each
/// together with the format string under which row-wise sinks render them.
#[derive(Clone, Debug, PartialEq)]
pub enum Value {
    Bool(bool),
    Int32(i32),
    Str(String),
    Date(i32, String),
    Timestamp(i64, String),
}

/// The kind of a value: the logical type of a column.
#[derive(Clone, Copy, Debug, PartialEq, Eq, Structural)]
pub enum ValueKind {
    Bool,
    Int32,
    Str,
    Date,
    Timestamp,
}

pub open spec fn value_kind(v: Value) -> ValueKind {
    match v {
        Value::Bool(_) => ValueKind::Bool,
        Value::Int32(_) => ValueKind::Int32,
        Value::Str(_) => ValueKind::Str,
        Value::Date(_, _) => ValueKind::Date,
        Value::Timestamp(_, _) => ValueKind::Timestamp,
    }
}

/// A well-formed value: its date or timestamp payload lies in the range the
/// calendar wrappers accept, so rendering cannot fail.
pub open spec fn value_wf(v: Value) -> bool {
    match v {
        Value::Date(days, _) => valid_date_days(days as int),
        Value::Timestamp(secs, _) => valid_timestamp_secs(secs as int),
        _ => true,
    }
}

impl Value {
    /// The kind of this value, learned by inspection.
    pub fn kind(&self) -> (k: ValueKind)
        ensures
            k == value_kind(*self),
    {
        match self {
            Value::Bool(_) => ValueKind::Bool,
            Value::Int32(_) => ValueKind::Int32,
            Value::Str(_) => ValueKind::Str,
            Value::Date(_, _) => ValueKind::Date,
            Value::Timestamp(_, _) => ValueKind::Timestamp,
        }
    }
}

/// A per-column value source: the closed catalog of generators.
#[derive(Clone, Debug)]
pub enum Provider {
    IncrementInteger(IncrementIntegerProvider),
    RandomI32(I32Provider),
    RandomBool(BoolProvider),
    RandomDate(DateProvider),
    RandomDatetime(DatetimeProvider),
    Alphanumeric(AlphanumericProvider),
    ConstantString(ConstantStringProvider),
    ListString(ListStringProvider),
    WeightedString(WeightedListStringProvider),
    Email(EmailProvider),
}

/// What `value(index)` promises, entry by entry of the catalog:
/// deterministic variants exactly, random variants by their range.
pub open spec fn value_obligation(p: Provider, index: u32, r: Value) -> bool {
    &&& (p matches Provider::IncrementInteger(q) ==> r == Value::Int32(
        (q.start + index * q.step) as i32,
    ))
    &&& (p matches Provider::RandomI32(q) ==> (r matches Value::Int32(v) && q.min <= v < q.max))
    &&& (p matches Provider::RandomBool(_) ==> r is Bool)
    &&& (p matches Provider::RandomDate(q) ==> (r matches Value::Date(d, f) && f@ == q.format@
        && q.after <= d <= q.before && (q.after < q.before ==> d < q.before)))
    &&& (p matches Provider::RandomDatetime(q) ==> (r matches Value::Timestamp(s, f) && f@
        == q.format@ && q.after <= s <= q.before && (q.after < q.before ==> s < q.before)))
    &&& (p matches Provider::Alphanumeric(q) ==> (r matches Value::Str(s) && q.min_length
        <= s@.len() < q.max_length && forall|i: int|
        0 <= i < s@.len() ==> is_alnum_char(#[trigger] s@[i])))
    &&& (p matches Provider::ConstantString(q) ==> (r matches Value::Str(s) && s@ == q.data@))
    &&& (p matches Provider::ListString(q) ==> (r matches Value::Str(s) && exists|i: int|
        0 <= i < q.data@.len() && s@ == #[trigger] q.data@[i]@))
    &&& (p matches Provider::WeightedString(q) ==> (r matches Value::Str(s) && exists|i: int|
        0 <= i < q.data@.len() && s@ == (#[trigger] q.data@[i]).value@))
    &&& (p matches Provider::Email(q) ==> (r matches Value::Str(s) && s@.len() == 11
        + q.domain@.len() && s@[10] == '@' && s@.skip(11) == q.domain@ && forall|i: int|
        0 <= i < 10 ==> is_alnum_char(#[trigger] s@[i])))
}

/// What `corrupted_value(index)` promises: the kind is preserved, formats
/// are kept, and text variants substitute free alphanumeric text.
pub open spec fn corrupted_obligation(p: Provider, r: Value) -> bool {
    &&& (p matches Provider::RandomDate(q) ==> (r matches Value::Date(d, f) && f@ == q.format@))
    &&& (p matches Provider::RandomDatetime(q) ==> (r matches Value::Timestamp(s, f) && f@
        == q.format@))
    &&& (p matches Provider::Alphanumeric(q) ==> (r matches Value::Str(s) && q.min_length
        <= s@.len() < q.max_length && forall|i: int|
        0 <= i < s@.len() ==> is_alnum_char(#[trigger] s@[i])))
    &&& (p matches Provider::ConstantString(_) ==> (r matches Value::Str(s) && s@.len() == 10
        && forall|i: int| 0 <= i < s@.len() ==> is_alnum_char(#[trigger] s@[i])))
    &&& (p matches Provider::ListString(_) ==> (r matches Value::Str(s) && s@.len() == 10
        && forall|i: int| 0 <= i < s@.len() ==> is_alnum_char(#[trigger] s@[i])))
    &&& (p matches Provider::WeightedString(_) ==> (r matches Value::Str(s) && s@.len() == 10
        && forall|i: int| 0 <= i < s@.len() ==> is_alnum_char(#[trigger] s@[i])))
    &&& (p matches Provider::Email(_) ==> (r matches Value::Str(s) && s@.len() == 10 && forall|
        i: int,
    | 0 <= i < s@.len() ==> is_alnum_char(#[trigger] s@[i])))
}

impl Provider {
    /// The construction invariant every catalog entry upholds.
    pub open spec fn wf(&self) -> bool {
        match self {
            Provider::IncrementInteger(_) => true,
            Provider::RandomI32(p) => p.wf(),
            Provider::RandomBool(_) => true,
            Provider::RandomDate(p) => p.wf(),
            Provider::RandomDatetime(p) => p.wf(),
            Provider::Alphanumeric(p) => p.wf(),
            Provider::ConstantString(_) => true,
            Provider::ListString(p) => p.wf(),
            Provider::WeightedString(p) => p.wf(),
            Provider::Email(_) => true,
        }
    }

    /// The fixed kind of every value this provider emits: the column's
    /// logical type, known statically.
    pub open spec fn spec_kind(&self) -> ValueKind {
        match self {
            Provider::IncrementInteger(_) => ValueKind::Int32,
            Provider::RandomI32(_) => ValueKind::Int32,
            Provider::RandomBool(_) => ValueKind::Bool,
            Provider::RandomDate(_) => ValueKind::Date,
            Provider::RandomDatetime(_) => ValueKind::Timestamp,
            Provider::Alphanumeric(_) => ValueKind::Str,
            Provider::ConstantString(_) => ValueKind::Str,
            Provider::ListString(_) => ValueKind::Str,
            Provider::WeightedString(_) => ValueKind::Str,
            Provider::Email(_) => ValueKind::Str,
        }
    }

    /// Whether `value(index)` is defined at this index: the sequential
    /// provider's arithmetic must stay in `i32`.
    pub open spec fn index_ok(&self, index: u32) -> bool {
        match self {
            Provider::IncrementInteger(p) => p.index_ok(index),
            _ => true,
        }
    }

    /// The column's logical type, read off the provider itself rather than
    /// probed from a generated value.
    pub fn kind(&self) -> (k: ValueKind)
        ensures
            k == self.spec_kind(),
    {
        match self {
            Provider::IncrementInteger(_) => ValueKind::Int32,
            Provider::RandomI32(_) => ValueKind::Int32,
            Provider::RandomBool(_) => ValueKind::Bool,
            Provider::RandomDate(_) => ValueKind::Date,
            Provider::RandomDatetime(_) => ValueKind::Timestamp,
            Provider::Alphanumeric(_) => ValueKind::Str,
            Provider::ConstantString(_) => ValueKind::Str,
            Provider::ListString(_) => ValueKind::Str,
            Provider::WeightedString(_) => ValueKind::Str,
            Provider::Email(_) => ValueKind::Str,
        }
    }

    /// The value for one row. Deterministic variants are pinned exactly;
    /// random variants are pinned to their configured range.
    pub fn value(&self, index: u32) -> (r: Value)
        requires
            self.wf(),
            self.index_ok(index),
        ensures
            value_kind(r) == self.spec_kind(),
            value_wf(r),
            value_obligation(*self, index, r),
    {
        match self {
            Provider::IncrementInteger(p) => p.value(index),
            Provider::RandomI32(p) => p.value(index),
            Provider::RandomBool(p) => p.value(index),
            Provider::RandomDate(p) => p.value(index),
            Provider::RandomDatetime(p) => p.value(index),
            Provider::Alphanumeric(p) => p.value(index),
            Provider::ConstantString(p) => p.value(index),
            Provider::ListString(p) => p.value(index),
            Provider::WeightedString(p) => p.value(index),
            Provider::Email(p) => p.value(index),
        }
    }

    /// A value of the same kind drawn from a deliberately wrong
    /// distribution; for booleans and free-form text, a documented no-op.
    pub fn corrupted_value(&self, index: u32) -> (r: Value)
        requires
            self.wf(),
        ensures
            value_kind(r) == self.spec_kind(),
            value_wf(r),
            corrupted_obligation(*self, r),
    {
        match self {
            Provider::IncrementInteger(p) => p.corrupted_value(index),
            Provider::RandomI32(p) => p.corrupted_value(index),
            Provider::RandomBool(p) => p.corrupted_value(index),
            Provider::RandomDate(p) => p.corrupted_value(index),
            Provider::RandomDatetime(p) => p.corrupted_value(index),
            Provider::Alphanumeric(p) => p.corrupted_value(index),
            Provider::ConstantString(p) => p.corrupted_value(index),
            Provider::ListString(p) => p.corrupted_value(index),
            Provider::WeightedString(p) => p.corrupted_value(index),
            Provider::Email(p) => p.corrupted_value(index),
        }
    }
}


/// Decides whether one emission is corrupted: a uniform draw against the
/// corruption probability, in millionths. Probability zero never corrupts
/// and probability one always does.
pub fn corruption_draw(corrupted: u32) -> (b: bool)
    requires
        corrupted <= PERCENT_SCALE,
    ensures
        corrupted == 0 ==> !b,
        corrupted == PERCENT_SCALE ==> b,
{
    random_u32_range(0, PERCENT_SCALE) < corrupted
}

/// Wraps a provider so that each emission is, with the configured
/// probability, replaced by a value of the same kind from the wrong
/// distribution. Probability zero leaves the provider untouched.
#[derive(Clone, Debug)]
pub struct CorruptedProvider {
    pub provider: Provider,
    pub corrupted: u32,
}

impl CorruptedProvider {
    pub open spec fn wf(&self) -> bool {
        &&& self.provider.wf()
        &&& self.corrupted <= PERCENT_SCALE
    }

    pub open spec fn spec_kind(&self) -> ValueKind {
        self.provider.spec_kind()
    }

    pub open spec fn index_ok(&self, index: u32) -> bool {
        self.provider.index_ok(index)
    }

    pub fn kind(&self) -> (k: ValueKind)
        ensures
            k == self.spec_kind(),
    {
        self.provider.kind()
    }

    /// One emission: presence has already been decided; this decides
    /// corruption and delegates. The kind never changes, so downstream
    /// typed serialization cannot fail because of corruption; and with
    /// probability zero the inner provider's own contract holds.
    pub fn value(&self, index: u32) -> (r: Value)
        requires
            self.wf(),
            self.index_ok(index),
        ensures
            value_kind(r) == self.spec_kind(),
            value_wf(r),
            value_obligation(self.provider, index, r) || corrupted_obligation(self.provider, r),
            self.corrupted == 0 ==> value_obligation(self.provider, index, r),
            self.corrupted == PERCENT_SCALE ==> corrupted_obligation(self.provider, r),
    {
        if self.corrupted == 0 {
            self.provider.value(index)
        } else if corruption_draw(self.corrupted) {
            self.provider.corrupted_value(index)
        } else {
            self.provider.value(index)
        }
    }

    pub fn corrupted_value(&self, index: u32) -> (r: Value)
        requires
            self.wf(),
        ensures
            value_kind(r) == self.spec_kind(),
            value_wf(r),
            corrupted_obligation(self.provider, r),
    {
        self.provider.corrupted_value(index)
    }

    /// Reads the corruption probability (default zero) and wraps the
    /// provider with it.
    pub fn new_from_raw(column: &RawColumn, provider: Provider) -> (r: CorruptedProvider)
        requires
            provider.wf(),
        ensures
            r.wf(),
            r.provider == provider,
            r.corrupted == crate::parameters::percentage::spec_percentage_parameter(
                column.spec_param("corrupted"@),
                0,
            ),
    {
        let corrupted = PercentageParameter::new(column, "corrupted", 0).value;
        CorruptedProvider { provider, corrupted }
    }
}

/// Name corpora for the person providers, loaded once by the caller and
/// shared by reference.
pub struct Corpora {
    pub first_names: Vec<String>,
    pub last_names: Vec<String>,
}

impl Corpora {
    pub open spec fn wf(&self) -> bool {
        &&& self.first_names@.len() > 0
        &&& self.last_names@.len() > 0
    }
}

/// Whether a dotted identifier selects `name`: it equals the name or
/// continues it with a further dotted segment, which is ignored.
pub open spec fn matches_id(id: Seq<char>, name: Seq<char>) -> bool {
    ||| id == name
    ||| (id.len() > name.len() && id.take(name.len() as int) == name && id[name.len() as int]
        == '.')
}

fn id_selects(id: &str, name: &str) -> (r: bool)
    ensures
        r == matches_id(id@, name@),
{
    let ni = id.unicode_len();
    let nn = name.unicode_len();
    if ni == nn {
        crate::text::str_eq(id, name)
    } else if ni > nn {
        let head = id.substring_char(0, nn);
        proof {
            assert(id@.take(nn as int) =~= head@);
        }
        crate::text::str_eq(head, name) && id.get_char(nn) == '.'
    } else {
        false
    }
}

/// The catalog families a dotted identifier can select.
#[derive(Clone, Copy, Debug, PartialEq, Eq, Structural)]
pub enum ProviderFamily {
    IncrementInteger,
    PersonEmail,
    PersonFirstName,
    PersonLastName,
    RandomBool,
    RandomDate,
    RandomDatetime,
    RandomI32,
    RandomAlphanumeric,
    ConstantText,
}

/// The registry's lookup, name by name in lookup order.
pub open spec fn spec_provider_selection(id: Seq<char>) -> Option<ProviderFamily> {
    if matches_id(id, "increment.integer"@) {
        Some(ProviderFamily::IncrementInteger)
    } else if matches_id(id, "person.email"@) {
        Some(ProviderFamily::PersonEmail)
    } else if matches_id(id, "person.fname"@) {
        Some(ProviderFamily::PersonFirstName)
    } else if matches_id(id, "person.lname"@) {
        Some(ProviderFamily::PersonLastName)
    } else if matches_id(id, "random.bool"@) {
        Some(ProviderFamily::RandomBool)
    } else if matches_id(id, "random.date.date"@) {
        Some(ProviderFamily::RandomDate)
    } else if matches_id(id, "random.date.datetime"@) {
        Some(ProviderFamily::RandomDatetime)
    } else if matches_id(id, "random.number.i32"@) {
        Some(ProviderFamily::RandomI32)
    } else if matches_id(id, "random.string.alphanumeric"@) {
        Some(ProviderFamily::RandomAlphanumeric)
    } else if matches_id(id, "constant.string"@) {
        Some(ProviderFamily::ConstantText)
    } else {
        None
    }
}

/// What the registry builds for each family, from the column's parameters.
pub open spec fn family_built(
    family: ProviderFamily,
    p: Provider,
    corpora: Corpora,
    column: RawColumn,
) -> bool {
    match family {
        ProviderFamily::IncrementInteger => p matches Provider::IncrementInteger(q) && q.start
            == crate::parameters::int32::spec_i32_parameter(
            column.spec_param("start"@),
            crate::providers::increment::DEFAULT_START,
        ) && q.step == crate::parameters::int32::spec_i32_parameter(
            column.spec_param("step"@),
            crate::providers::increment::DEFAULT_STEP,
        ),
        ProviderFamily::PersonEmail => p matches Provider::Email(q) && q.domain@
            == crate::parameters::string::spec_string_parameter(
            column.spec_param("domain"@),
            crate::providers::email::DEFAULT_DOMAIN@,
        ),
        ProviderFamily::PersonFirstName => p matches Provider::ListString(q) && q.data@
            == corpora.first_names@,
        ProviderFamily::PersonLastName => p matches Provider::ListString(q) && q.data@
            == corpora.last_names@,
        ProviderFamily::RandomBool => p is RandomBool,
        ProviderFamily::RandomDate => p matches Provider::RandomDate(q) && (q.format@, q.after,
            q.before,
        ) == crate::parameters::date::spec_date_parameter(column),
        ProviderFamily::RandomDatetime => p matches Provider::RandomDatetime(q) && (q.format@,
            q.after, q.before,
        ) == crate::parameters::datetime::spec_datetime_parameter(column),
        ProviderFamily::RandomI32 => p matches Provider::RandomI32(q) && ({
            let min = crate::parameters::int32::spec_i32_parameter(
                column.spec_param("min"@),
                crate::providers::random_number::DEFAULT_MIN,
            );
            let max = crate::parameters::int32::spec_i32_parameter(
                column.spec_param("max"@),
                crate::providers::random_number::DEFAULT_MAX,
            );
            if min >= max {
                q == (I32Provider {
                    min: crate::providers::random_number::DEFAULT_MIN,
                    max: crate::providers::random_number::DEFAULT_MAX,
                })
            } else {
                q == (I32Provider { min, max })
            }
        }),
        ProviderFamily::RandomAlphanumeric => p matches Provider::Alphanumeric(q) && (q.min_length,
            q.max_length,
        ) == crate::parameters::urange::URangeParameter::spec_new(
            column.spec_param("length"@),
            crate::providers::random_string::DEFAULT_LENGTH,
        ),
        ProviderFamily::ConstantText => constant::string_provider_built(
            p,
            column.spec_param("data"@),
            DEFAULT_CONSTANT@,
        ),
    }
}

pub fn unknown_provider(wrong_provider: &str) -> (r: FakeLakeError)
    ensures
        r is BadYAMLFormat,
{
    let mut message = "Unknown provider: ".to_owned();
    message.append(wrong_provider);
    FakeLakeError::BadYAMLFormat(message)
}

/// What the registry needs of the column's parameters for a given provider
/// identifier: only the fixed-text provider constrains its raw input.
pub open spec fn builder_input_ok(id_lower: Seq<char>, column: RawColumn) -> bool {
    spec_provider_selection(id_lower) == Some(ProviderFamily::ConstantText)
        ==> wf_string_data_raw(column.spec_param("data"@), DEFAULT_CONSTANT@)
}

/// The registry: a lookup table from dotted identifiers to constructors.
pub struct ProviderBuilder {}

impl ProviderBuilder {
    /// Selects and builds the provider for a dotted identifier, case
    /// folded. An identifier no entry matches is refused.
    pub fn get_corresponding_provider(provider: &str, column: &RawColumn, corpora: &Corpora) -> (r:
        Result<Provider, FakeLakeError>)
        requires
            corpora.wf(),
            builder_input_ok(spec_ascii_lower(provider@), *column),
        ensures
            match spec_provider_selection(spec_ascii_lower(provider@)) {
                None => r is Err,
                Some(family) => r matches Ok(p) && p.wf() && family_built(
                    family,
                    p,
                    *corpora,
                    *column,
                ),
            },
    {
        let lowered = to_ascii_lowercase(provider);
        let id = lowered.as_str();
        if id_selects(id, "increment.integer") {
            Ok(Provider::IncrementInteger(IncrementIntegerProvider::new_from_raw(column)))
        } else if id_selects(id, "person.email") {
            Ok(Provider::Email(crate::providers::email::EmailProvider::new_from_raw(column)))
        } else if id_selects(id, "person.fname") {
            Ok(Provider::ListString(constant::ListStringProvider::new(crate::text::clone_strings(&corpora.first_names))))
        } else if id_selects(id, "person.lname") {
            Ok(Provider::ListString(constant::ListStringProvider::new(crate::text::clone_strings(&corpora.last_names))))
        } else if id_selects(id, "random.bool") {
            Ok(Provider::RandomBool(crate::providers::random_bool::BoolProvider::new_from_raw(column)))
        } else if id_selects(id, "random.date.date") {
            Ok(Provider::RandomDate(DateProvider::new_from_raw(column)))
        } else if id_selects(id, "random.date.datetime") {
            Ok(Provider::RandomDatetime(DatetimeProvider::new_from_raw(column)))
        } else if id_selects(id, "random.number.i32") {
            Ok(Provider::RandomI32(crate::providers::random_number::I32Provider::new_from_raw(column)))
        } else if id_selects(id, "random.string.alphanumeric") {
            Ok(Provider::Alphanumeric(
                crate::providers::random_string::AlphanumericProvider::new_from_raw(column),
            ))
        } else if id_selects(id, "constant.string") {
            Ok(constant::new_from_raw(column))
        } else {
            Err(unknown_provider(provider))
        }
    }
}

} // verus!
