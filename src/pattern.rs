//! The pattern compiler: one raw pattern string becomes a compiled glob and a
//! polarity.
use vstd::prelude::*;

use vstd::string::StrSliceExecFns;

use crate::glob::{
    candidate_matches, compile_glob, count_char, default_options, fits_engine, glob_accepts,
    glob_error, matcher_glob, matcher_matches, MAX_GLOB_CHARS, MAX_OPEN_BRACES,
};

verus! {

/// The marker that makes a pattern exclude what it matches.
pub const NEGATION_MARKER: char = '!';

/// What one pattern says of one path.
#[derive(PartialEq, Eq, Structural, Debug, Clone, Copy)]
pub enum Conclusion {
    /// The pattern matched and is not negated.
    Matches,
    /// The pattern matched and is negated.
    Exclusion,
    /// The pattern did not match, whatever its polarity.
    NonMatching,
}

/// Whether a raw pattern starts with the negation marker.
pub open spec fn is_negated(raw: Seq<char>) -> bool {
    raw.len() > 0 && raw[0] == NEGATION_MARKER
}

/// The glob text of a raw pattern: the raw text without a leading negation marker.
pub open spec fn glob_part(raw: Seq<char>) -> Seq<char> {
    if is_negated(raw) {
        raw.drop_first()
    } else {
        raw
    }
}

/// A compiled rule as the rule logic sees it: its glob text and whether it is negated.
pub open spec fn rule_of(raw: Seq<char>) -> (Seq<char>, bool) {
    (glob_part(raw), is_negated(raw))
}

/// What a rule with the given polarity concludes when its glob does or does not match.
pub open spec fn conclusion_of(hit: bool, negated: bool) -> Conclusion {
    if !hit {
        Conclusion::NonMatching
    } else if negated {
        Conclusion::Exclusion
    } else {
        Conclusion::Matches
    }
}

/// A raw pattern that the glob engine rejected.
#[derive(Debug, Clone)]
pub struct InvalidPattern {
    /// The raw pattern as it was given, negation marker included.
    pub pattern: String,
    /// The glob engine's syntax error.
    pub cause: globset::Error,
}

/// Relies on `str::strip_prefix` with a `char`: `Some` of the rest exactly
/// when `s` starts with `c`.
#[verifier::external_body]
fn strip_char_prefix(s: &str, c: char) -> (r: Option<&str>)
    ensures
        r is Some <==> (s@.len() > 0 && s@[0] == c),
        r is Some ==> r->Some_0@ == s@.drop_first(),
{
    s.strip_prefix(c)
}

/// One rule: a compiled glob and its polarity.
#[derive(Debug)]
pub struct Pattern {
    glob: globset::GlobMatcher,
    negative: bool,
}

impl Pattern {
    /// The matcher was compiled with the engine's default options.
    #[verifier::type_invariant]
    spec fn inv(&self) -> bool {
        default_options(self.glob)
    }
}

impl Clone for Pattern {
    fn clone(&self) -> (r: Pattern)
        ensures
            r@ == self@,
    {
        proof {
            use_type_invariant(self);
        }
        Pattern { glob: self.glob.clone(), negative: self.negative }
    }
}

impl View for Pattern {
    type V = (Seq<char>, bool);

    closed spec fn view(&self) -> (Seq<char>, bool) {
        (matcher_glob(self.glob), self.negative)
    }
}

impl Pattern {
    /// Compiles a raw pattern. A leading negation marker is stripped and
    /// recorded; the rest goes to the glob engine as it is, and must be
    /// within the engine's limits.
    pub fn new(raw: &str) -> (r: Result<Pattern, InvalidPattern>)
        requires
            fits_engine(glob_part(raw@)),
        ensures
            r is Ok <==> glob_accepts(glob_part(raw@)),
            r is Ok ==> r->Ok_0@ == rule_of(raw@),
            r is Err ==> r->Err_0.pattern@ == raw@ && r->Err_0.cause == glob_error(
                glob_part(raw@),
            ),
    {
        let (negative, glob) = match strip_char_prefix(raw, NEGATION_MARKER) {
            Some(rest) => (true, rest),
            None => (false, raw),
        };
        assert(glob@ == glob_part(raw@));
        match compile_glob(glob) {
            Ok(matcher) => Ok(Pattern { glob: matcher, negative }),
            Err(cause) => Err(InvalidPattern { pattern: raw.to_owned(), cause }),
        }
    }

    /// Whether the glob part of a raw pattern is within the engine's limits,
    /// as [`Pattern::new`] requires.
    pub fn fits_engine(raw: &str) -> (r: bool)
        ensures
            r == fits_engine(glob_part(raw@)),
    {
        let n = raw.unicode_len();
        let start: usize = if n > 0 && raw.get_char(0) == NEGATION_MARKER {
            1
        } else {
            0
        };
        assert(raw@.subrange(start as int, n as int) =~= glob_part(raw@));
        if n - start > MAX_GLOB_CHARS {
            return false;
        }
        let mut braces: usize = 0;
        let mut i: usize = n;
        while i > start
            invariant
                start <= i <= n,
                n == raw@.len(),
                braces <= n - i,
                braces == count_char(raw@.subrange(i as int, n as int), '{'),
            decreases i,
        {
            i -= 1;
            assert(raw@.subrange(i as int, n as int).drop_first() =~= raw@.subrange(
                i + 1,
                n as int,
            ));
            if raw.get_char(i) == '{' {
                braces += 1;
            }
        }
        braces <= MAX_OPEN_BRACES
    }

    /// Tests a candidate against this rule.
    pub fn matches(&self, path: &globset::Candidate) -> (r: Conclusion)
        ensures
            r == conclusion_of(candidate_matches(self@.0, *path), self@.1),
    {
        proof {
            use_type_invariant(self);
        }
        match (matcher_matches(&self.glob, path), self.negative) {
            (true, false) => Conclusion::Matches,
            (true, true) => Conclusion::Exclusion,
            (false, _) => Conclusion::NonMatching,
        }
    }
}

} // verus!
