//! The rule set: an ordered list of compiled patterns, and the
//! "last decisive match wins" evaluation over it.
use vstd::prelude::*;

use crate::glob::{
    candidate_matches, candidate_of, fits_engine, glob_accepts, glob_error, new_candidate,
};
use crate::pattern::{conclusion_of, glob_part, rule_of, Conclusion, InvalidPattern, Pattern};

verus! {

/// The texts of a list of raw patterns.
pub open spec fn texts(raws: Seq<&str>) -> Seq<Seq<char>> {
    raws.map_values(|s: &str| s@)
}

/// The rules that a list of raw patterns compiles to, in the same order.
pub open spec fn rules_of(raws: Seq<Seq<char>>) -> Seq<(Seq<char>, bool)> {
    raws.map_values(|raw: Seq<char>| rule_of(raw))
}

/// Whether every raw pattern of the list is within the engine's limits.
pub open spec fn all_fit(raws: Seq<Seq<char>>) -> bool {
    forall|i: int| 0 <= i < raws.len() ==> fits_engine(glob_part(#[trigger] raws[i]))
}

/// Whether the glob engine accepts every raw pattern of the list.
pub open spec fn all_valid(raws: Seq<Seq<char>>) -> bool {
    forall|i: int| 0 <= i < raws.len() ==> glob_accepts(glob_part(#[trigger] raws[i]))
}

/// `i` is the position of the first raw pattern that the glob engine rejects.
pub open spec fn first_invalid(raws: Seq<Seq<char>>, i: int) -> bool {
    &&& 0 <= i < raws.len()
    &&& !glob_accepts(glob_part(raws[i]))
    &&& forall|j: int| 0 <= j < i ==> glob_accepts(glob_part(#[trigger] raws[j]))
}

/// The glob test that a candidate undergoes: whether a glob matches it.
pub open spec fn matched_by(c: globset::Candidate) -> spec_fn(Seq<char>) -> bool {
    |glob: Seq<char>| candidate_matches(glob, c)
}

/// What each rule concludes of a path, in rule order, where `hit` tells
/// which globs match the path.
pub open spec fn outcomes(rules: Seq<(Seq<char>, bool)>, hit: spec_fn(Seq<char>) -> bool) -> Seq<
    Conclusion,
> {
    rules.map_values(|rule: (Seq<char>, bool)| conclusion_of(hit(rule.0), rule.1))
}

/// The last conclusion other than `NonMatching`, or `NonMatching` if there is none.
pub open spec fn last_decisive(s: Seq<Conclusion>) -> Conclusion
    decreases s.len(),
{
    if s.len() == 0 {
        Conclusion::NonMatching
    } else if s.last() != Conclusion::NonMatching {
        s.last()
    } else {
        last_decisive(s.drop_last())
    }
}

/// The verdict of a list of rules on a path: included exactly when the last
/// rule that matches it is not negated.
pub open spec fn verdict(rules: Seq<(Seq<char>, bool)>, hit: spec_fn(Seq<char>) -> bool) -> bool {
    last_decisive(outcomes(rules, hit)) == Conclusion::Matches
}

/// An ordered, immutable set of rules. Build it with [`Globreeks::new`] and
/// query it with [`Globreeks::evaluate`].
#[derive(Debug, Clone)]
pub struct Globreeks {
    patterns: Vec<Pattern>,
}

impl View for Globreeks {
    type V = Seq<(Seq<char>, bool)>;

    closed spec fn view(&self) -> Seq<(Seq<char>, bool)> {
        self.patterns@.map_values(|p: Pattern| p@)
    }
}

impl Globreeks {
    /// Compiles the raw patterns, in order. The first one that the glob
    /// engine rejects ends the construction with its error. Each pattern
    /// must be within the engine's limits (see [`Pattern::fits_engine`]).
    pub fn new(glob_list: &[&str]) -> (r: Result<Globreeks, InvalidPattern>)
        requires
            all_fit(texts(glob_list@)),
        ensures
            r is Ok <==> all_valid(texts(glob_list@)),
            r is Ok ==> r->Ok_0@ == rules_of(texts(glob_list@)),
            r is Err ==> exists|i: int|
                first_invalid(texts(glob_list@), i) && r->Err_0.pattern@ == #[trigger] texts(
                    glob_list@,
                )[i] && r->Err_0.cause == glob_error(glob_part(texts(glob_list@)[i])),
    {
        let ghost raws = texts(glob_list@);
        let mut patterns: Vec<Pattern> = Vec::new();
        let mut i: usize = 0;
        while i < glob_list.len()
            invariant
                i <= glob_list@.len(),
                raws == texts(glob_list@),
                all_fit(raws),
                patterns@.len() == i,
                forall|j: int| 0 <= j < i ==> glob_accepts(glob_part(#[trigger] raws[j])),
                forall|j: int| 0 <= j < i ==> #[trigger] patterns@[j]@ == rule_of(raws[j]),
            decreases glob_list@.len() - i,
        {
            assert(fits_engine(glob_part(raws[i as int])));
            match Pattern::new(glob_list[i]) {
                Ok(p) => patterns.push(p),
                Err(e) => {
                    assert(first_invalid(raws, i as int));
                    return Err(e);
                },
            }
            i += 1;
        }
        let r = Globreeks { patterns };
        assert(r@ =~= rules_of(raws));
        Ok(r)
    }

    /// Whether the rules include the candidate: the last rule that matches it
    /// decides, and a candidate that no rule matches is excluded.
    pub fn evaluate_candidate(&self, path: &globset::Candidate) -> (r: bool)
        ensures
            r == verdict(self@, matched_by(*path)),
    {
        let ghost all = outcomes(self@, matched_by(*path));
        let mut last = Conclusion::NonMatching;
        let mut i: usize = 0;
        while i < self.patterns.len()
            invariant
                i <= self.patterns@.len(),
                all == outcomes(self@, matched_by(*path)),
                last == last_decisive(all.take(i as int)),
            decreases self.patterns@.len() - i,
        {
            let c = self.patterns[i].matches(path);
            assert(all.take(i + 1).drop_last() =~= all.take(i as int));
            if c != Conclusion::NonMatching {
                last = c;
            }
            i += 1;
        }
        assert(all.take(i as int) =~= all);
        last == Conclusion::Matches
    }

    /// Whether the rules include the path; see [`Globreeks::evaluate_candidate`].
    pub fn evaluate(&self, path: &str) -> (r: bool)
        ensures
            r == verdict(self@, matched_by(candidate_of(path@))),
    {
        self.evaluate_candidate(&new_candidate(path))
    }
}

} // verus!
