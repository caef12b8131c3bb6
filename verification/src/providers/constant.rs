//! Fixed-text providers: one constant string, a uniform choice among a list,
//! or a weight-biased choice. Corruption substitutes free alphanumeric text.

use vstd::prelude::*;

use crate::parameters::wstring::{
    spec_wstring_parameters, wf_wstring_raw, wstring_view, wstring_views, WStringParameter,
};
use crate::providers::provider::Value;
use crate::providers::strings::{is_alnum_char, random_alphanumeric};
use crate::raw::{RawColumn, RawValue};
use crate::rng::{random_index_below, random_u32_range};

verus! {

pub const DEFAULT_CONSTANT: &'static str = "constant";

#[derive(Clone, Debug, PartialEq)]
pub struct ConstantStringProvider {
    pub data: String,
}

impl ConstantStringProvider {
    pub fn new(data: String) -> (r: ConstantStringProvider)
        ensures
            r.data == data,
    {
        ConstantStringProvider { data }
    }

    /// Always the configured text.
    pub fn value(&self, _index: u32) -> (r: Value)
        ensures
            r matches Value::Str(s) && s@ == self.data@,
    {
        Value::Str(self.data.clone())
    }

    /// Free alphanumeric text of length ten, away from the constant.
    pub fn corrupted_value(&self, _index: u32) -> (r: Value)
        ensures
            r matches Value::Str(s) && s@.len() == 10 && forall|i: int|
                0 <= i < s@.len() ==> is_alnum_char(#[trigger] s@[i]),
    {
        Value::Str(random_alphanumeric(10))
    }
}

#[derive(Clone, Debug, PartialEq)]
pub struct ListStringProvider {
    pub data: Vec<String>,
}

impl ListStringProvider {
    pub open spec fn wf(&self) -> bool {
        self.data@.len() > 0
    }

    pub fn new(values: Vec<String>) -> (r: ListStringProvider)
        ensures
            r.data == values,
    {
        ListStringProvider { data: values }
    }

    /// A uniform choice among the configured texts.
    pub fn value(&self, _index: u32) -> (r: Value)
        requires
            self.wf(),
        ensures
            r matches Value::Str(s) && exists|i: int|
                0 <= i < self.data@.len() && s@ == #[trigger] self.data@[i]@,
    {
        let index = random_index_below(self.data.len());
        let chosen = self.data[index].clone();
        proof {
            assert(chosen@ == self.data@[index as int]@);
        }
        Value::Str(chosen)
    }

    /// Free alphanumeric text of length ten, away from the list.
    pub fn corrupted_value(&self, _index: u32) -> (r: Value)
        ensures
            r matches Value::Str(s) && s@.len() == 10 && forall|i: int|
                0 <= i < s@.len() ==> is_alnum_char(#[trigger] s@[i]),
    {
        Value::Str(random_alphanumeric(10))
    }
}

/// The total of the weights of a resolved list.
pub open spec fn spec_weight_sum(ws: Seq<(Seq<char>, u32)>) -> int
    decreases ws.len(),
{
    if ws.len() == 0 {
        0
    } else {
        spec_weight_sum(ws.drop_last()) + ws.last().1
    }
}

pub proof fn lemma_weight_sum_prefix(ws: Seq<(Seq<char>, u32)>, i: int)
    requires
        0 <= i <= ws.len(),
    ensures
        0 <= spec_weight_sum(ws.take(i)) <= spec_weight_sum(ws),
    decreases ws.len() - i,
{
    if i == ws.len() {
        assert(ws.take(i) =~= ws);
        lemma_weight_sum_nonneg(ws);
    } else {
        assert(ws.take(i + 1).drop_last() =~= ws.take(i));
        assert(ws.take(i + 1).last() == ws[i]);
        lemma_weight_sum_prefix(ws, i + 1);
        lemma_weight_sum_nonneg(ws.take(i));
    }
}

pub proof fn lemma_weight_sum_nonneg(ws: Seq<(Seq<char>, u32)>)
    ensures
        spec_weight_sum(ws) >= 0,
    decreases ws.len(),
{
    if ws.len() > 0 {
        lemma_weight_sum_nonneg(ws.drop_last());
    }
}

/// The sum seen from the front: the head's weight plus the rest.
pub proof fn lemma_weight_sum_front(ws: Seq<(Seq<char>, u32)>)
    requires
        ws.len() > 0,
    ensures
        spec_weight_sum(ws) == ws[0].1 + spec_weight_sum(ws.skip(1)),
    decreases ws.len(),
{
    if ws.len() == 1 {
        assert(ws.drop_last() =~= Seq::<(Seq<char>, u32)>::empty());
        assert(ws.skip(1) =~= Seq::<(Seq<char>, u32)>::empty());
    } else {
        lemma_weight_sum_front(ws.drop_last());
        assert(ws.drop_last()[0] == ws[0]);
        assert(ws.skip(1).drop_last() =~= ws.drop_last().skip(1));
        assert(ws.skip(1).last() == ws.last());
    }
}

/// The first entry whose cumulative weight reaches the draw.
pub open spec fn spec_weighted_pick(ws: Seq<(Seq<char>, u32)>, random: int) -> Seq<char>
    decreases ws.len(),
{
    if ws.len() == 0 {
        Seq::<char>::empty()
    } else if ws[0].1 >= random {
        ws[0].0
    } else {
        spec_weighted_pick(ws.skip(1), random - ws[0].1)
    }
}

/// A draw within the total weight always lands on one of the entries.
pub proof fn lemma_weighted_pick_member(ws: Seq<(Seq<char>, u32)>, random: int)
    requires
        ws.len() > 0,
        random <= spec_weight_sum(ws),
    ensures
        exists|i: int| 0 <= i < ws.len() && spec_weighted_pick(ws, random) == (#[trigger] ws[i]).0,
    decreases ws.len(),
{
    lemma_weight_sum_front(ws);
    if ws[0].1 >= random {
        assert(spec_weighted_pick(ws, random) == ws[0].0);
    } else {
        lemma_weight_sum_nonneg(ws.skip(1));
        assert(ws.skip(1).len() > 0);
        lemma_weighted_pick_member(ws.skip(1), random - ws[0].1);
        let t = ws.skip(1);
        let j = choose|j: int|
            0 <= j < t.len() && spec_weighted_pick(t, random - ws[0].1) == (#[trigger] t[j]).0;
        assert(ws[j + 1] == t[j]);
    }
}

#[derive(Clone, Debug, PartialEq)]
pub struct WeightedListStringProvider {
    pub data: Vec<WStringParameter>,
    pub sum: u32,
}

impl WeightedListStringProvider {
    /// The weights sum to the recorded total, there is an entry, and the
    /// total is positive, so a draw is possible.
    pub open spec fn wf(&self) -> bool {
        &&& self.data@.len() > 0
        &&& self.sum == spec_weight_sum(wstring_views(self.data@))
        &&& self.sum >= 1
    }

    pub fn new(parameters: Vec<WStringParameter>) -> (r: WeightedListStringProvider)
        requires
            spec_weight_sum(wstring_views(parameters@)) <= u32::MAX,
        ensures
            r.data == parameters,
            r.sum == spec_weight_sum(wstring_views(parameters@)),
    {
        let ghost ws = wstring_views(parameters@);
        let n = parameters.len();
        let mut sum: u32 = 0;
        let mut i: usize = 0;
        proof {
            assert(ws.take(0) =~= Seq::<(Seq<char>, u32)>::empty());
        }
        while i < n
            invariant
                i <= n,
                n == parameters@.len(),
                ws == wstring_views(parameters@),
                spec_weight_sum(ws) <= u32::MAX,
                sum == spec_weight_sum(ws.take(i as int)),
            decreases n - i,
        {
            let w = parameters[i].weight;
            proof {
                assert(ws[i as int] == wstring_view(parameters@[i as int]));
                assert(ws.take(i + 1).drop_last() =~= ws.take(i as int));
                assert(ws.take(i + 1).last() == ws[i as int]);
                lemma_weight_sum_prefix(ws, i + 1);
            }
            sum = sum + w;
            i = i + 1;
        }
        proof {
            assert(ws.take(n as int) =~= ws);
        }
        WeightedListStringProvider { data: parameters, sum }
    }

    /// A biased draw: a uniform integer in `[1, sum]` mapped through the
    /// cumulative weights.
    pub fn weighted_random(&self) -> (r: String)
        requires
            self.wf(),
        ensures
            exists|i: int|
                0 <= i < self.data@.len() && r@ == (#[trigger] self.data@[i]).value@,
    {
        let random: u32 = random_u32_range(0, self.sum) + 1;
        let picked = self.get_from_weight(random);
        proof {
            lemma_weighted_pick_member(wstring_views(self.data@), random as int);
            let ws = wstring_views(self.data@);
            let i = choose|i: int|
                0 <= i < ws.len() && spec_weighted_pick(ws, random as int) == (#[trigger] ws[i]).0;
            assert(ws[i] == wstring_view(self.data@[i]));
        }
        picked
    }

    /// The first entry whose cumulative weight reaches `random`.
    pub fn get_from_weight(&self, random: u32) -> (r: String)
        requires
            self.wf(),
            random <= self.sum,
        ensures
            r@ == spec_weighted_pick(wstring_views(self.data@), random as int),
    {
        let ghost ws = wstring_views(self.data@);
        let n = self.data.len();
        let mut weight_sum: u32 = 0;
        let mut i: usize = 0;
        proof {
            assert(ws.take(0) =~= Seq::<(Seq<char>, u32)>::empty());
            assert(ws.skip(0) =~= ws);
        }
        while i < n
            invariant
                i <= n,
                n == self.data@.len(),
                ws == wstring_views(self.data@),
                self.wf(),
                random <= self.sum,
                weight_sum == spec_weight_sum(ws.take(i as int)),
                weight_sum <= random,
                i > 0 ==> weight_sum < random,
                spec_weighted_pick(ws, random as int) == spec_weighted_pick(
                    ws.skip(i as int),
                    random - weight_sum,
                ),
            decreases n - i,
        {
            let w = self.data[i].weight;
            proof {
                assert(ws[i as int] == wstring_view(self.data@[i as int]));
                assert(ws.take(i + 1).drop_last() =~= ws.take(i as int));
                assert(ws.take(i + 1).last() == ws[i as int]);
                lemma_weight_sum_prefix(ws, i + 1);
                assert(ws.skip(i as int)[0] == ws[i as int]);
                assert(ws.skip(i as int).skip(1) =~= ws.skip(i + 1));
            }
            weight_sum = weight_sum + w;
            if weight_sum >= random {
                let chosen = self.data[i].value.clone();
                return chosen;
            }
            i = i + 1;
        }
        // The draw is at most the total weight, so some entry was reached.
        proof {
            assert(ws.take(n as int) =~= ws);
            assert(false);
        }
        String::new()
    }

    /// A biased choice among the configured texts.
    pub fn value(&self, _index: u32) -> (r: Value)
        requires
            self.wf(),
        ensures
            r matches Value::Str(s) && exists|i: int|
                0 <= i < self.data@.len() && s@ == (#[trigger] self.data@[i]).value@,
    {
        Value::Str(self.weighted_random())
    }

    /// Free alphanumeric text of length ten, away from the table.
    pub fn corrupted_value(&self, _index: u32) -> (r: Value)
        ensures
            r matches Value::Str(s) && s@.len() == 10 && forall|i: int|
                0 <= i < s@.len() ==> is_alnum_char(#[trigger] s@[i]),
    {
        Value::Str(random_alphanumeric(10))
    }
}


/// What the string-provider builder needs of its raw `data` parameter:
/// the resolved list is non-empty and small enough to index and weigh in
/// `u32`, and — unless it is a single constant — its weights add up to at
/// least one, so a draw is possible.
pub open spec fn wf_string_data_raw(raw: RawValue, default_value: Seq<char>) -> bool {
    let ws = spec_wstring_parameters(raw, default_value);
    &&& wf_wstring_raw(raw)
    &&& ws.len() >= 1
    &&& ws.len() <= u32::MAX
    &&& spec_weight_sum(ws) <= u32::MAX
    &&& (ws.len() == 1 || spec_weight_sum(ws) >= 1)
}

/// What the fixed-text selection builds from a resolved list: one entry is
/// a constant, all weights one a uniform list, anything else a weighted
/// choice, always carrying exactly the resolved texts and weights.
pub open spec fn string_provider_built(
    p: crate::providers::provider::Provider,
    raw: RawValue,
    default_value: Seq<char>,
) -> bool {
    let ws = spec_wstring_parameters(raw, default_value);
    &&& (ws.len() == 1 ==> (p matches crate::providers::provider::Provider::ConstantString(q)
        && q.data@ == ws[0].0))
    &&& (ws.len() != 1 && spec_weight_sum(ws) == ws.len() ==> (p matches
        crate::providers::provider::Provider::ListString(q) && q.data@.map_values(|s: String| s@)
        == ws.map_values(|w: (Seq<char>, u32)| w.0)))
    &&& (ws.len() != 1 && spec_weight_sum(ws) != ws.len() ==> (p matches
        crate::providers::provider::Provider::WeightedString(q) && wstring_views(q.data@) == ws
        && q.sum == spec_weight_sum(ws)))
}

/// Picks the fitting provider for a resolved list: one entry is a constant,
/// all weights one a uniform list, anything else a weighted choice.
pub fn new_from_raw(column: &RawColumn) -> (r: crate::providers::provider::Provider)
    requires
        wf_string_data_raw(column.spec_param("data"@), DEFAULT_CONSTANT@),
    ensures
        r.wf(),
        r.spec_kind() == crate::providers::provider::ValueKind::Str,
        string_provider_built(r, column.spec_param("data"@), DEFAULT_CONSTANT@),
{
    let ghost ws = spec_wstring_parameters(column.spec_param("data"@), DEFAULT_CONSTANT@);
    let data_option = WStringParameter::new(column, "data", DEFAULT_CONSTANT);
    proof {
        assert(wstring_views(data_option@) == ws);
        assert(wstring_views(data_option@).len() == data_option@.len());
    }
    if data_option.len() == 1 {
        let text = data_option[0].value.clone();
        proof {
            assert(text@ == wstring_views(data_option@)[0].0);
        }
        crate::providers::provider::Provider::ConstantString(ConstantStringProvider::new(text))
    } else {
        let w = WeightedListStringProvider::new(data_option);
        if w.sum as usize == w.data.len() {
            let n = w.data.len();
            let mut values: Vec<String> = Vec::new();
            let mut i: usize = 0;
            proof {
                assert(values@.map_values(|s: String| s@) =~= ws.map_values(
                    |p: (Seq<char>, u32)| p.0,
                ).take(0));
            }
            while i < n
                invariant
                    i <= n,
                    n == w.data@.len(),
                    ws == wstring_views(w.data@),
                    values@.map_values(|s: String| s@) == ws.map_values(
                        |p: (Seq<char>, u32)| p.0,
                    ).take(i as int),
                decreases n - i,
            {
                let v = w.data[i].value.clone();
                proof {
                    assert(ws[i as int] == wstring_view(w.data@[i as int]));
                    assert(values@.push(v).map_values(|s: String| s@) =~= values@.map_values(
                        |s: String| s@,
                    ).push(v@));
                    assert(ws.map_values(|p: (Seq<char>, u32)| p.0).take(i + 1) =~= ws.map_values(
                        |p: (Seq<char>, u32)| p.0,
                    ).take(i as int).push(ws[i as int].0));
                }
                values.push(v);
                i = i + 1;
            }
            proof {
                assert(ws.map_values(|p: (Seq<char>, u32)| p.0).take(n as int) =~= ws.map_values(
                    |p: (Seq<char>, u32)| p.0,
                ));
            }
            crate::providers::provider::Provider::ListString(ListStringProvider::new(values))
        } else {
            crate::providers::provider::Provider::WeightedString(w)
        }
    }
}

} // verus!
