//! Decides whether a path is included by an ordered list of glob patterns,
//! where a later pattern overrides the verdict of an earlier one.
//!
//! A pattern that starts with `!` excludes what it matches; any other pattern
//! includes it. The verdict for a path is given by the last pattern that
//! matches it, and a path that no pattern matches is excluded. This lets a
//! broad exclusion such as `!**/node_modules/**/build/**` be followed by a
//! narrower pattern that makes an exception to it.
//!
//! See [`Globreeks`] for the rule set itself.

pub mod glob;
pub mod laws;
pub mod pattern;
pub mod rule_set;

pub use pattern::{Conclusion, InvalidPattern, Pattern};
pub use rule_set::Globreeks;
pub use globset::{Candidate, Glob, GlobMatcher};
