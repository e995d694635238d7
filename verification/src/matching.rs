//! When a rule answers a request, and how specific a rule is.

use crate::form::{
    distinct_names, form_pairs, last_wins, lemma_last_wins_names, lemma_last_wins_size,
    lemma_last_wins_value, FormFields,
};
use crate::interchange::{Method, MockRule, MockRuleView, WhenRulesView};
use crate::request::{text_eq, UnpackedRequest, UnpackedRequestView};
use vstd::prelude::*;
use vstd::set_lib::lemma_subset_equality;

verus! {

/// How specific a match specification is: one for a form constraint plus one
/// for a method constraint.
pub open spec fn priority(when: WhenRulesView) -> nat {
    let form: nat = if when.form_data.len() > 0 {
        1
    } else {
        0
    };
    let method: nat = if when.method is Some {
        1
    } else {
        0
    };
    form + method
}

/// The fields of a request are exactly the expected ones: as many names as
/// there are expected pairs, and every expected pair present with its value.
pub open spec fn params_match(
    expected: Seq<(Seq<char>, Seq<char>)>,
    fields: Map<Seq<char>, Seq<char>>,
) -> bool {
    &&& fields.dom().len() == expected.len()
    &&& forall|i: int|
        0 <= i < expected.len() ==> fields.contains_key((#[trigger] expected[i]).0)
            && fields[expected[i].0] == expected[i].1
}

/// A rule answers a request whose body has the given form fields: the paths
/// are equal, a method constraint is met, and a non-empty list of form pairs
/// is met exactly.
pub open spec fn matches_fields(
    rule: MockRuleView,
    req: UnpackedRequestView,
    fields: Map<Seq<char>, Seq<char>>,
) -> bool {
    &&& rule.when.match_path == req.path
    &&& (rule.when.method matches Some(method) ==> method.token() == req.method)
    &&& (rule.when.form_data.len() > 0 ==> params_match(rule.when.form_data, fields))
}

/// A rule answers a request; the form fields are those of the request's body.
pub open spec fn rule_matches(rule: MockRuleView, req: UnpackedRequestView) -> bool {
    matches_fields(rule, req, last_wins(form_pairs(req.body)))
}

/// A rule without a form constraint answers whatever the body holds.
pub proof fn lemma_no_form_constraint(
    rule: MockRuleView,
    req: UnpackedRequestView,
    fields: Map<Seq<char>, Seq<char>>,
    others: Map<Seq<char>, Seq<char>>,
)
    requires
        rule.when.form_data.len() == 0,
    ensures
        matches_fields(rule, req, fields) == matches_fields(rule, req, others),
{
}

/// A rule without a method constraint answers every method.
pub proof fn lemma_no_method_constraint(
    rule: MockRuleView,
    req: UnpackedRequestView,
    method: Seq<char>,
    fields: Map<Seq<char>, Seq<char>>,
)
    requires
        rule.when.method is None,
    ensures
        matches_fields(rule, req, fields) == matches_fields(
            rule,
            UnpackedRequestView { method, ..req },
            fields,
        ),
{
}

/// A rule answers no request for another path, and a rule without
/// constraints answers every request for its path.
pub proof fn lemma_path_is_exact(
    rule: MockRuleView,
    req: UnpackedRequestView,
    fields: Map<Seq<char>, Seq<char>>,
)
    ensures
        rule.when.match_path != req.path ==> !matches_fields(rule, req, fields),
        priority(rule.when) == 0 ==> matches_fields(rule, req, fields) == (rule.when.match_path
            == req.path),
{
}

/// Where no name stands twice among the expected pairs, the fields of a
/// request match them only if they are those pairs and nothing else: a
/// request with one field more or one field less does not match.
pub proof fn lemma_params_match_exact(
    expected: Seq<(Seq<char>, Seq<char>)>,
    fields: Map<Seq<char>, Seq<char>>,
)
    requires
        distinct_names(expected),
        fields.dom().finite(),
    ensures
        params_match(expected, fields) <==> fields == last_wins(expected),
{
    let wanted = last_wins(expected);
    lemma_last_wins_size(expected);
    assert forall|i: int| 0 <= i < expected.len() implies wanted.contains_key(
        (#[trigger] expected[i]).0,
    ) && wanted[expected[i].0] == expected[i].1 by {
        lemma_last_wins_value(expected, i);
    }
    if params_match(expected, fields) {
        assert forall|name: Seq<char>| wanted.dom().contains(name) implies fields.dom().contains(
            name,
        ) by {
            lemma_last_wins_names(expected, name);
            let i = choose|i: int| 0 <= i < expected.len() && #[trigger] expected[i].0 == name;
            assert(fields.contains_key(expected[i].0));
        }
        lemma_subset_equality(wanted.dom(), fields.dom());
        assert forall|name: Seq<char>| fields.dom().contains(name) implies fields[name]
            == wanted[name] by {
            lemma_last_wins_names(expected, name);
            let i = choose|i: int| 0 <= i < expected.len() && #[trigger] expected[i].0 == name;
            assert(fields[expected[i].0] == expected[i].1);
        }
        assert(fields =~= wanted);
    }
}

impl MockRule {
    /// How specific the rule is, from 0 to 2.
    pub fn priority(&self) -> (level: u8)
        ensures
            level == priority(self@.when),
            level <= 2,
    {
        let form_data: u8 = if self.when.form_data.is_empty() {
            0
        } else {
            1
        };
        let method: u8 = if self.when.method.is_some() {
            1
        } else {
            0
        };
        form_data + method
    }

    /// Whether a request's method token is the one a rule asks for.
    pub fn method_match(method: &Method, req_method: &str) -> (same: bool)
        ensures
            same == (method.token() == req_method@),
    {
        text_eq(method.as_str(), req_method)
    }

    /// Whether the given form fields are exactly the pairs of the rule.
    pub fn params_match(&self, fields: &FormFields) -> (exact: bool)
        ensures
            exact == params_match(self@.when.form_data, fields@),
    {
        let expected = &self.when.form_data;
        if fields.len() != expected.len() {
            return false;
        }
        let mut at: usize = 0;
        while at < expected.len()
            invariant
                at <= expected.len(),
                fields@.dom().len() == expected.len(),
                expected.deep_view() == self@.when.form_data,
                forall|i: int|
                    0 <= i < at ==> fields@.contains_key(
                        (#[trigger] expected.deep_view()[i]).0,
                    ) && fields@[expected.deep_view()[i].0] == expected.deep_view()[i].1,
            decreases expected.len() - at,
        {
            let ghost pair = expected.deep_view()[at as int];
            let met = match fields.get(&expected[at].0) {
                Some(value) => *value == expected[at].1,
                None => false,
            };
            if !met {
                assert(self@.when.form_data[at as int] == pair);
                return false;
            }
            at += 1;
        }
        true
    }

    /// Whether the form fields of the request's body are exactly the pairs of
    /// the rule.
    pub fn check_params_match(&self, req: &UnpackedRequest) -> (exact: bool)
        ensures
            exact == params_match(self@.when.form_data, last_wins(form_pairs(req@.body))),
    {
        let fields = FormFields::parse(req.body.as_slice());
        self.params_match(&fields)
    }

    /// Whether the rule answers a request whose body has the given fields.
    pub fn matches_fields(&self, req: &UnpackedRequest, fields: &FormFields) -> (answers: bool)
        ensures
            answers == matches_fields(self@, req@, fields@),
    {
        let path_match = self.when.match_path == req.path;
        let method_match = match &self.when.method {
            Some(method) => MockRule::method_match(method, req.method.as_str()),
            None => true,
        };
        let params_match = self.when.form_data.is_empty() || self.params_match(fields);
        path_match && params_match && method_match
    }

    /// Whether the rule answers the request.
    pub fn matches(&self, req: &UnpackedRequest) -> (answers: bool)
        ensures
            answers == rule_matches(self@, req@),
    {
        let fields = FormFields::parse(req.body.as_slice());
        self.matches_fields(req, &fields)
    }
}

} // verus!
