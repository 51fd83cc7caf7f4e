//! The glob engine: the calls into `globset` that the rule logic relies on.
//!
//! Glob syntax is entirely the engine's business. What the engine computes is
//! given names here, and each wrapper states its result over those names.
use vstd::prelude::*;

verus! {

#[verifier::external_type_specification]
#[verifier::external_body]
pub struct ExGlobMatcher(globset::GlobMatcher);

#[verifier::external_type_specification]
#[verifier::external_body]
pub struct ExGlobError(globset::Error);

#[verifier::external_type_specification]
#[verifier::external_body]
pub struct ExCandidate<'a>(globset::Candidate<'a>);

/// Whether `globset::Glob::new` accepts `glob` as glob syntax.
pub uninterp spec fn glob_accepts(glob: Seq<char>) -> bool;

/// The glob text that a matcher was compiled from: what
/// `GlobMatcher::glob` followed by `Glob::glob` hands back.
pub uninterp spec fn matcher_glob(m: globset::GlobMatcher) -> Seq<char>;

/// Whether a matcher was built with `globset`'s default options, as
/// `Glob::compile_matcher` builds it (see `GlobOptions`).
pub uninterp spec fn default_options(m: globset::GlobMatcher) -> bool;

/// The error that `globset::Glob::new` returns for a glob text it rejects.
pub uninterp spec fn glob_error(glob: Seq<char>) -> globset::Error;

/// The longest glob text, in characters, that is handed to the engine.
pub const MAX_GLOB_CHARS: usize = 1024;

/// The most `{` characters that a glob text handed to the engine may hold.
pub const MAX_OPEN_BRACES: usize = 64;

/// How many times `c` occurs in `s`.
pub open spec fn count_char(s: Seq<char>, c: char) -> nat
    decreases s.len(),
{
    if s.len() == 0 {
        0
    } else {
        (if s[0] == c {
            1nat
        } else {
            0nat
        }) + count_char(s.drop_first(), c)
    }
}

/// Whether a glob text is small enough for the engine to compile without
/// failing: the regex it becomes then nests well under the regex parser's
/// limit of 250 (each `{` adds at most three levels) and its automaton stays
/// far below the 10 MiB size limit.
pub open spec fn fits_engine(glob: Seq<char>) -> bool {
    glob.len() <= MAX_GLOB_CHARS && count_char(glob, '{') <= MAX_OPEN_BRACES
}

/// The candidate that `globset::Candidate::new` makes of a path. Lifetimes
/// play no part in specifications, hence `'static` here.
pub uninterp spec fn candidate_of(path: Seq<char>) -> globset::Candidate<'static>;

/// Whether a matcher compiled from `glob` with the default options matches
/// the candidate `c`.
pub uninterp spec fn candidate_matches(glob: Seq<char>, c: globset::Candidate) -> bool;

/// Relies on the derived `Clone` of `globset::GlobMatcher`, which clones the
/// glob that the matcher was compiled from.
pub assume_specification[ <globset::GlobMatcher as std::clone::Clone>::clone ](
    m: &globset::GlobMatcher,
) -> (r: globset::GlobMatcher)
    ensures
        matcher_glob(r) == matcher_glob(*m),
        default_options(r) == default_options(*m),
;

/// Relies on the derived `Clone` of `globset::Error`; nothing is claimed of the copy.
pub assume_specification[ <globset::Error as std::clone::Clone>::clone ](
    e: &globset::Error,
) -> globset::Error;

/// Relies on `globset::Glob::new`, which succeeds exactly on valid glob
/// syntax, and on `Glob::compile_matcher`, which keeps the glob it was
/// built from (what `GlobMatcher::glob` hands back) with the default options.
/// `compile_matcher` panics where the regex fails to build, which the
/// precondition rules out.
#[verifier::external_body]
pub(crate) fn compile_glob(glob: &str) -> (r: Result<globset::GlobMatcher, globset::Error>)
    requires
        fits_engine(glob@),
    ensures
        r is Ok <==> glob_accepts(glob@),
        r is Ok ==> matcher_glob(r->Ok_0) == glob@ && default_options(r->Ok_0),
        r is Err ==> r->Err_0 == glob_error(glob@),
{
    match globset::Glob::new(glob) {
        Ok(g) => Ok(g.compile_matcher()),
        Err(e) => Err(e),
    }
}

/// Relies on `globset::Candidate::new`: the candidate depends on the path alone.
#[verifier::external_body]
pub(crate) fn new_candidate<'a>(path: &'a str) -> (r: globset::Candidate<'a>)
    ensures
        r == candidate_of(path@),
{
    globset::Candidate::new(path)
}

/// Relies on `globset::GlobMatcher::is_match_candidate`: with the default
/// options the answer depends on the glob text and the candidate alone.
#[verifier::external_body]
pub(crate) fn matcher_matches(m: &globset::GlobMatcher, c: &globset::Candidate) -> (r: bool)
    requires
        default_options(*m),
    ensures
        r == candidate_matches(matcher_glob(*m), *c),
{
    m.is_match_candidate(c)
}

} // verus!
