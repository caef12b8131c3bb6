//! The composed email provider: a random local part joined to a configured
//! domain.

use vstd::prelude::*;

use crate::parameters::string::{spec_string_parameter, StringParameter};
use crate::providers::provider::Value;
use crate::providers::strings::{is_alnum_char, random_alphanumeric};
use crate::raw::RawColumn;
use crate::text::push_char;

verus! {

pub const DEFAULT_DOMAIN: &'static str = "example.com";

#[derive(Clone, Debug, PartialEq)]
pub struct EmailProvider {
    pub domain: String,
}

impl EmailProvider {
    /// A random alphanumeric ten-char local part, '@', then the configured
    /// domain.
    pub fn value(&self, _index: u32) -> (r: Value)
        ensures
            r matches Value::Str(s) && s@.len() == 11 + self.domain@.len() && s@[10] == '@'
                && s@.skip(11) == self.domain@ && forall|i: int|
                0 <= i < 10 ==> is_alnum_char(#[trigger] s@[i]),
    {
        let mut address = random_alphanumeric(10);
        let ghost local = address@;
        push_char(&mut address, '@');
        address.append(self.domain.as_str());
        proof {
            assert(address@.skip(11) =~= self.domain@);
            assert(forall|i: int| 0 <= i < 10 ==> address@[i] == local[i]);
        }
        Value::Str(address)
    }

    /// Corruption leaves the configured domain behind: free alphanumeric
    /// text of length ten, with no domain attached.
    pub fn corrupted_value(&self, _index: u32) -> (r: Value)
        ensures
            r matches Value::Str(s) && s@.len() == 10 && forall|i: int|
                0 <= i < s@.len() ==> is_alnum_char(#[trigger] s@[i]),
    {
        Value::Str(random_alphanumeric(10))
    }

    pub fn new_from_raw(column: &RawColumn) -> (r: EmailProvider)
        ensures
            r.domain@ == spec_string_parameter(column.spec_param("domain"@), DEFAULT_DOMAIN@),
    {
        let domain_parameter = StringParameter::new(column, "domain", DEFAULT_DOMAIN);
        EmailProvider { domain: domain_parameter.value }
    }
}

} // verus!
