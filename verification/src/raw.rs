//! The loosely-typed declarative input that parameter resolution consumes.
//!
//! A configuration column arrives as a bag of named parameters whose values
//! may have any shape: a number, a real kept as its text, a string, a list,
//! a `{value, weight}` entry, something else entirely, or nothing at all.
//! The resolvers in `parameters` turn these into safe typed parameters and
//! never fail. The configuration loader (outside this library) converts its
//! markup tree into this model one node at a time.

use vstd::prelude::*;

use crate::text::str_eq;

verus! {

/// One field of a `{value, weight}` list entry.
#[derive(Clone, Debug, PartialEq)]
pub enum RawField {
    /// An integer node.
    Int(i64),
    /// A real number node, kept as its text.
    Real(String),
    /// A string node.
    Str(String),
    /// The key is absent.
    Missing,
    /// A node of any other shape.
    Other,
}

/// A `{value, weight}` entry of a weighted list.
#[derive(Clone, Debug, PartialEq)]
pub struct RawEntry {
    pub value: RawField,
    pub weight: RawField,
}

/// One item of a list parameter.
#[derive(Clone, Debug, PartialEq)]
pub enum RawItem {
    Int(i64),
    Real(String),
    Str(String),
    Entry(RawEntry),
    Other,
}

/// The value of one named parameter.
#[derive(Clone, Debug, PartialEq)]
pub enum RawValue {
    Int(i64),
    Real(String),
    Str(String),
    Bool(bool),
    List(Vec<RawItem>),
    /// The parameter is absent from the column.
    Missing,
    /// A node of any other shape.
    Other,
}

/// A column of the declarative schema: its name and its named parameters.
#[derive(Clone, Debug)]
pub struct RawColumn {
    pub name: String,
    pub params: Vec<(String, RawValue)>,
}

/// The value of the first parameter named `key`, or `Missing`.
pub open spec fn spec_lookup(params: Seq<(String, RawValue)>, key: Seq<char>) -> RawValue
    decreases params.len(),
{
    if params.len() == 0 {
        RawValue::Missing
    } else if params[0].0@ == key {
        params[0].1
    } else {
        spec_lookup(params.skip(1), key)
    }
}

impl RawColumn {
    pub open spec fn spec_param(&self, key: Seq<char>) -> RawValue {
        spec_lookup(self.params@, key)
    }

    /// Looks a parameter up by name; an absent parameter reads as `Missing`.
    pub fn param(&self, key: &str) -> (r: &RawValue)
        ensures
            *r == self.spec_param(key@),
    {
        let n = self.params.len();
        let mut i: usize = 0;
        proof {
            assert(self.params@.skip(0) =~= self.params@);
        }
        while i < n
            invariant
                i <= n,
                n == self.params@.len(),
                spec_lookup(self.params@, key@) == spec_lookup(self.params@.skip(i as int), key@),
            decreases n - i,
        {
            proof {
                assert(self.params@.skip(i as int)[0] == self.params@[i as int]);
                assert(self.params@.skip(i as int).skip(1) =~= self.params@.skip(i + 1));
            }
            if str_eq(self.params[i].0.as_str(), key) {
                return &self.params[i].1;
            }
            i = i + 1;
        }
        proof {
            assert(self.params@.skip(n as int) =~= Seq::<(String, RawValue)>::empty());
        }
        &RawValue::Missing
    }
}

} // verus!
