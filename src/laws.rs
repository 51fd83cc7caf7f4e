//! General facts about the verdict of a list of rules.
use vstd::prelude::*;

use crate::glob::candidate_of;
use crate::pattern::Conclusion;
use crate::rule_set::{last_decisive, matched_by, outcomes, verdict, Globreeks};

verus! {

/// When no conclusion is decisive, `last_decisive` finds none.
proof fn lemma_no_decisive(s: Seq<Conclusion>)
    requires
        forall|i: int| 0 <= i < s.len() ==> #[trigger] s[i] == Conclusion::NonMatching,
    ensures
        last_decisive(s) == Conclusion::NonMatching,
    decreases s.len(),
{
    if s.len() > 0 {
        assert(s.last() == s[s.len() - 1]);
        lemma_no_decisive(s.drop_last());
    }
}

/// `last_decisive` returns the conclusion at the last decisive position.
proof fn lemma_last_decisive_at(s: Seq<Conclusion>, k: int)
    requires
        0 <= k < s.len(),
        s[k] != Conclusion::NonMatching,
        forall|j: int| k < j < s.len() ==> #[trigger] s[j] == Conclusion::NonMatching,
    ensures
        last_decisive(s) == s[k],
    decreases s.len(),
{
    if k < s.len() - 1 {
        assert(s.last() == s[s.len() - 1]);
        let t = s.drop_last();
        assert forall|j: int| k < j < t.len() implies #[trigger] t[j] == Conclusion::NonMatching by {
            assert(t[j] == s[j]);
        }
        lemma_last_decisive_at(t, k);
    }
}

/// An empty list of rules excludes every path.
pub proof fn empty_rules_exclude(hit: spec_fn(Seq<char>) -> bool)
    ensures
        !verdict(Seq::empty(), hit),
{
    assert(outcomes(Seq::empty(), hit).len() == 0);
}

/// A path that no rule matches is excluded.
pub proof fn unmatched_is_excluded(rules: Seq<(Seq<char>, bool)>, hit: spec_fn(Seq<char>) -> bool)
    requires
        forall|i: int| 0 <= i < rules.len() ==> !hit(#[trigger] rules[i].0),
    ensures
        !verdict(rules, hit),
{
    let s = outcomes(rules, hit);
    assert forall|i: int| 0 <= i < s.len() implies #[trigger] s[i] == Conclusion::NonMatching by {
        assert(!hit(rules[i].0));
    }
    lemma_no_decisive(s);
}

/// The last rule that matches a path decides: the path is included exactly
/// when that rule is not negated, whatever the rules before it say.
pub proof fn last_match_decides(
    rules: Seq<(Seq<char>, bool)>,
    hit: spec_fn(Seq<char>) -> bool,
    k: int,
)
    requires
        0 <= k < rules.len(),
        hit(rules[k].0),
        forall|j: int| k < j < rules.len() ==> !hit(#[trigger] rules[j].0),
    ensures
        verdict(rules, hit) == !rules[k].1,
{
    let s = outcomes(rules, hit);
    assert forall|j: int| k < j < s.len() implies #[trigger] s[j] == Conclusion::NonMatching by {
        assert(!hit(rules[j].0));
    }
    lemma_last_decisive_at(s, k);
}

/// Order decides between two rules that both match a path: an including
/// rule followed by an excluding one excludes the path, and the same two
/// rules the other way round admit it.
pub proof fn order_decides(
    admit_rule: (Seq<char>, bool),
    deny_rule: (Seq<char>, bool),
    hit: spec_fn(Seq<char>) -> bool,
)
    requires
        hit(admit_rule.0),
        !admit_rule.1,
        hit(deny_rule.0),
        deny_rule.1,
    ensures
        !verdict(seq![admit_rule, deny_rule], hit),
        verdict(seq![deny_rule, admit_rule], hit),
{
    last_match_decides(seq![admit_rule, deny_rule], hit, 1);
    last_match_decides(seq![deny_rule, admit_rule], hit, 1);
}

/// Two evaluations of one path against one rule set agree, since the
/// verdict depends on the rules and the path alone.
pub proof fn evaluation_is_repeatable(g: &Globreeks, path: Seq<char>, first: bool, second: bool)
    requires
        first == verdict(g@, matched_by(candidate_of(path))),
        second == verdict(g@, matched_by(candidate_of(path))),
    ensures
        first == second,
{
}

} // verus!
