//! The order of a rule list: most specific first, and among rules of one
//! priority the one installed last first.

use crate::interchange::{MockRule, MockRuleView};
use crate::matching::{matches_fields, priority};
use crate::request::UnpackedRequestView;
use vstd::prelude::*;

verus! {

/// The views of a list of rules.
pub open spec fn rule_views(rules: Seq<MockRule>) -> Seq<MockRuleView> {
    rules.map_values(|rule: MockRule| rule@)
}

/// No rule stands behind a less specific one.
pub open spec fn by_priority(rules: Seq<MockRuleView>) -> bool {
    forall|i: int, j: int|
        0 <= i <= j < rules.len() ==> priority(rules[i].when) >= priority(rules[j].when)
}

/// The number of leading rules that are more specific than the given level:
/// the place at which a new rule of that level goes.
pub open spec fn place_for(rules: Seq<MockRuleView>, level: nat) -> int
    decreases rules.len(),
{
    if rules.len() == 0 || priority(rules[0].when) <= level {
        0
    } else {
        1 + place_for(rules.drop_first(), level)
    }
}

/// The list after a rule is installed: the rule goes behind the rules that
/// are more specific and before all others, which keep their order.
pub open spec fn installed(rules: Seq<MockRuleView>, rule: MockRuleView) -> Seq<MockRuleView> {
    rules.insert(place_for(rules, priority(rule.when)), rule)
}

/// The place of the first rule that answers the request, if one does.
pub open spec fn first_match(
    rules: Seq<MockRuleView>,
    req: UnpackedRequestView,
    fields: Map<Seq<char>, Seq<char>>,
) -> Option<int>
    decreases rules.len(),
{
    if rules.len() == 0 {
        None
    } else if matches_fields(rules[0], req, fields) {
        Some(0)
    } else {
        match first_match(rules.drop_first(), req, fields) {
            Some(at) => Some(at + 1),
            None => None,
        }
    }
}

/// The place for a new rule lies within the list; the rules before it are
/// more specific than the level, and the rule at it, if any, is not.
pub proof fn lemma_place_for(rules: Seq<MockRuleView>, level: nat)
    ensures
        0 <= place_for(rules, level) <= rules.len(),
        forall|i: int|
            0 <= i < place_for(rules, level) ==> priority((#[trigger] rules[i]).when) > level,
        place_for(rules, level) < rules.len() ==> priority(
            rules[place_for(rules, level)].when,
        ) <= level,
    decreases rules.len(),
{
    if rules.len() > 0 && priority(rules[0].when) > level {
        let rest = rules.drop_first();
        lemma_place_for(rest, level);
        assert forall|i: int| 0 <= i < place_for(rules, level) implies priority(
            (#[trigger] rules[i]).when,
        ) > level by {
            if i > 0 {
                assert(rules[i] == rest[i - 1]);
            }
        }
        if place_for(rules, level) < rules.len() {
            assert(rules[place_for(rules, level)] == rest[place_for(rest, level)]);
        }
    }
}

/// Installing a rule into an ordered list leaves the list ordered and one
/// rule longer. The new rule stands behind the rules that are more specific
/// and before every other rule; the rules that were there keep their order.
pub proof fn lemma_installed_by_priority(rules: Seq<MockRuleView>, rule: MockRuleView)
    requires
        by_priority(rules),
    ensures
        by_priority(installed(rules, rule)),
        installed(rules, rule).len() == rules.len() + 1,
        installed(rules, rule)[place_for(rules, priority(rule.when))] == rule,
        installed(rules, rule).remove(place_for(rules, priority(rule.when))) == rules,
        forall|j: int|
            place_for(rules, priority(rule.when)) < j < installed(rules, rule).len() ==> priority(
                (#[trigger] installed(rules, rule)[j]).when,
            ) <= priority(rule.when),
        forall|j: int|
            0 <= j < place_for(rules, priority(rule.when)) ==> priority(
                (#[trigger] installed(rules, rule)[j]).when,
            ) > priority(rule.when),
{
    let level = priority(rule.when);
    let at = place_for(rules, level);
    let after = installed(rules, rule);
    lemma_place_for(rules, level);
    assert(after.remove(at) =~= rules);
    assert forall|j: int| at < j < after.len() implies priority((#[trigger] after[j]).when)
        <= level by {
        assert(after[j] == rules[j - 1]);
        assert(priority(rules[at].when) >= priority(rules[j - 1].when));
    }
    assert forall|j: int| 0 <= j < at implies priority((#[trigger] after[j]).when) > level by {
        assert(after[j] == rules[j]);
    }
    assert forall|i: int, j: int| 0 <= i <= j < after.len() implies priority(after[i].when)
        >= priority(after[j].when) by {
        if i < at && j < at {
            assert(after[i] == rules[i] && after[j] == rules[j]);
        } else if i < at && j == at {
            assert(after[i] == rules[i]);
        } else if i < at && j > at {
            assert(after[i] == rules[i] && after[j] == rules[j - 1]);
        } else if i == at {
        } else {
            assert(after[i] == rules[i - 1] && after[j] == rules[j - 1]);
        }
    }
}

/// The first match is the first rule in list order that answers the request;
/// there is none exactly when no rule answers it.
pub proof fn lemma_first_match(
    rules: Seq<MockRuleView>,
    req: UnpackedRequestView,
    fields: Map<Seq<char>, Seq<char>>,
)
    ensures
        match first_match(rules, req, fields) {
            Some(at) => 0 <= at < rules.len() && matches_fields(rules[at], req, fields)
                && forall|j: int| 0 <= j < at ==> !matches_fields(#[trigger] rules[j], req, fields),
            None => forall|j: int|
                0 <= j < rules.len() ==> !matches_fields(#[trigger] rules[j], req, fields),
        },
    decreases rules.len(),
{
    if rules.len() > 0 && !matches_fields(rules[0], req, fields) {
        let rest = rules.drop_first();
        lemma_first_match(rest, req, fields);
        match first_match(rest, req, fields) {
            Some(at) => {
                assert(rules[at + 1] == rest[at]);
                assert forall|j: int| 0 <= j < at + 1 implies !matches_fields(
                    #[trigger] rules[j],
                    req,
                    fields,
                ) by {
                    if j > 0 {
                        assert(rules[j] == rest[j - 1]);
                    }
                }
            },
            None => {
                assert forall|j: int| 0 <= j < rules.len() implies !matches_fields(
                    #[trigger] rules[j],
                    req,
                    fields,
                ) by {
                    if j > 0 {
                        assert(rules[j] == rest[j - 1]);
                    }
                }
            },
        }
    }
}

/// A place is the first match when the rule there answers the request and
/// no rule before it does.
pub proof fn lemma_first_match_is(
    rules: Seq<MockRuleView>,
    req: UnpackedRequestView,
    fields: Map<Seq<char>, Seq<char>>,
    at: int,
)
    requires
        0 <= at < rules.len(),
        matches_fields(rules[at], req, fields),
        forall|j: int| 0 <= j < at ==> !matches_fields(#[trigger] rules[j], req, fields),
    ensures
        first_match(rules, req, fields) == Some(at),
{
    lemma_first_match(rules, req, fields);
}

/// A rule installed last answers before every rule that is not more
/// specific: where it answers a request that no more specific rule answers,
/// it is the first match, whatever was installed before it.
pub proof fn lemma_latest_wins(
    rules: Seq<MockRuleView>,
    rule: MockRuleView,
    req: UnpackedRequestView,
    fields: Map<Seq<char>, Seq<char>>,
)
    requires
        by_priority(rules),
        matches_fields(rule, req, fields),
        forall|j: int|
            0 <= j < rules.len() && priority((#[trigger] rules[j]).when) > priority(rule.when)
                ==> !matches_fields(rules[j], req, fields),
    ensures
        first_match(installed(rules, rule), req, fields) == Some(
            place_for(rules, priority(rule.when)),
        ),
{
    let at = place_for(rules, priority(rule.when));
    let after = installed(rules, rule);
    lemma_place_for(rules, priority(rule.when));
    assert forall|j: int| 0 <= j < at implies !matches_fields(#[trigger] after[j], req, fields) by {
        assert(after[j] == rules[j]);
    }
    lemma_first_match_is(after, req, fields, at);
}

/// A more specific rule answers before a less specific one, whichever was
/// installed first: a request that both answer is never answered by the
/// less specific one.
pub proof fn lemma_specific_wins(
    rules: Seq<MockRuleView>,
    req: UnpackedRequestView,
    fields: Map<Seq<char>, Seq<char>>,
    i: int,
    j: int,
)
    requires
        by_priority(rules),
        0 <= i < rules.len(),
        0 <= j < rules.len(),
        priority(rules[i].when) > priority(rules[j].when),
        matches_fields(rules[i], req, fields),
    ensures
        first_match(rules, req, fields) matches Some(at) && at < j,
{
    lemma_first_match(rules, req, fields);
    if j <= i {
        assert(priority(rules[j].when) >= priority(rules[i].when));
    }
}

/// Installing a rule adds one copy of it to the list and takes nothing
/// away.
pub proof fn lemma_installed_adds_one(rules: Seq<MockRuleView>, rule: MockRuleView)
    ensures
        installed(rules, rule).to_multiset() == rules.to_multiset().insert(rule),
{
    lemma_place_for(rules, priority(rule.when));
    vstd::seq_lib::to_multiset_insert(rules, place_for(rules, priority(rule.when)), rule);
}

/// The list after the same rule is installed a number of times in a row.
pub open spec fn installed_times(rules: Seq<MockRuleView>, rule: MockRuleView, times: nat) -> Seq<
    MockRuleView,
>
    decreases times,
{
    if times == 0 {
        rules
    } else {
        installed(installed_times(rules, rule, (times - 1) as nat), rule)
    }
}

/// Installing the same rule a number of times leaves that many more copies
/// of it in an ordered list, and every other rule as often as before.
pub proof fn lemma_installed_times(rules: Seq<MockRuleView>, rule: MockRuleView, times: nat)
    requires
        by_priority(rules),
    ensures
        by_priority(installed_times(rules, rule, times)),
        installed_times(rules, rule, times).len() == rules.len() + times,
        installed_times(rules, rule, times).to_multiset().count(rule) == rules.to_multiset().count(
            rule,
        ) + times,
        forall|other: MockRuleView|
            other != rule ==> installed_times(rules, rule, times).to_multiset().count(other)
                == rules.to_multiset().count(other),
    decreases times,
{
    if times > 0 {
        let before = installed_times(rules, rule, (times - 1) as nat);
        lemma_installed_times(rules, rule, (times - 1) as nat);
        lemma_installed_by_priority(before, rule);
        lemma_installed_adds_one(before, rule);
    }
}

/// After the same rule is installed one or more times, a copy of it is the
/// first match of every request that it answers and that no more specific
/// rule answers.
pub proof fn lemma_installed_times_wins(
    rules: Seq<MockRuleView>,
    rule: MockRuleView,
    times: nat,
    req: UnpackedRequestView,
    fields: Map<Seq<char>, Seq<char>>,
)
    requires
        by_priority(rules),
        times > 0,
        matches_fields(rule, req, fields),
        forall|j: int|
            0 <= j < rules.len() && priority((#[trigger] rules[j]).when) > priority(rule.when)
                ==> !matches_fields(rules[j], req, fields),
    ensures
        first_match(installed_times(rules, rule, times), req, fields) matches Some(at)
            && installed_times(rules, rule, times)[at] == rule,
{
    let before = installed_times(rules, rule, (times - 1) as nat);
    lemma_installed_times(rules, rule, (times - 1) as nat);
    lemma_installed_by_priority(before, rule);
    assert forall|j: int|
        0 <= j < before.len() && priority((#[trigger] before[j]).when) > priority(
            rule.when,
        ) implies !matches_fields(before[j], req, fields) by {
        lemma_kept_rules(rules, rule, (times - 1) as nat, j);
    }
    lemma_latest_wins(before, rule, req, fields);
}

/// Every rule of the list after repeated installs is the installed rule or
/// one of the rules that were there before.
proof fn lemma_kept_rules(rules: Seq<MockRuleView>, rule: MockRuleView, times: nat, at: int)
    requires
        0 <= at < installed_times(rules, rule, times).len(),
    ensures
        installed_times(rules, rule, times)[at] == rule || exists|j: int|
            0 <= j < rules.len() && #[trigger] rules[j] == installed_times(rules, rule, times)[at],
    decreases times,
{
    if times == 0 {
        assert(rules[at] == installed_times(rules, rule, times)[at]);
    } else {
        let before = installed_times(rules, rule, (times - 1) as nat);
        let place = place_for(before, priority(rule.when));
        lemma_place_for(before, priority(rule.when));
        if at < place {
            assert(installed(before, rule)[at] == before[at]);
            lemma_kept_rules(rules, rule, (times - 1) as nat, at);
        } else if at > place {
            assert(installed(before, rule)[at] == before[at - 1]);
            lemma_kept_rules(rules, rule, (times - 1) as nat, at - 1);
        }
    }
}

} // verus!
