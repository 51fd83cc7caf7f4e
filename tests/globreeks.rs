use globreeks::{Conclusion, Globreeks, InvalidPattern, Pattern};
use globset::Candidate;

#[test]
fn test_basic() -> Result<(), InvalidPattern> {
    let reeks = Globreeks::new(&["**/*.{js,ts}", "!bundle*.js", "bundle1.js"])?;

    assert!(reeks.evaluate("somewhere/some_file.js"));
    assert!(!reeks.evaluate("bundle2137.js"));
    assert!(reeks.evaluate("bundle1.js"));
    assert!(!reeks.evaluate("readme.txt"));

    Ok(())
}

#[test]
fn empty_rule_set_excludes_everything() {
    let reeks = Globreeks::new(&[]).unwrap();
    assert!(!reeks.evaluate(""));
    assert!(!reeks.evaluate("a.js"));
    assert!(!reeks.evaluate("some/deep/path.txt"));
}

#[test]
fn unmatched_path_is_excluded() {
    let reeks = Globreeks::new(&["*.js", "!*.ts"]).unwrap();
    assert!(!reeks.evaluate("readme.md"));
}

#[test]
fn order_of_two_matching_rules_decides() {
    let admit_then_deny = Globreeks::new(&["*.js", "!a*"]).unwrap();
    let deny_then_admit = Globreeks::new(&["!a*", "*.js"]).unwrap();
    assert!(!admit_then_deny.evaluate("app.js"));
    assert!(deny_then_admit.evaluate("app.js"));
}

#[test]
fn repeated_evaluation_agrees() {
    let reeks = Globreeks::new(&["**/*.{js,ts}", "!bundle*.js", "bundle1.js"]).unwrap();
    for path in ["bundle1.js", "bundle2137.js", "readme.txt", "x/y.ts"] {
        let first = reeks.evaluate(path);
        let second = reeks.evaluate(path);
        assert_eq!(first, second);
    }
}

#[test]
fn negation_marker_is_stripped() {
    let p = Pattern::new("!foo*").unwrap();
    assert_eq!(p.matches(&Candidate::new("foobar")), Conclusion::Exclusion);
    assert_eq!(p.matches(&Candidate::new("!foobar")), Conclusion::NonMatching);
    let q = Pattern::new("foo*").unwrap();
    assert_eq!(q.matches(&Candidate::new("foobar")), Conclusion::Matches);
    assert_eq!(q.matches(&Candidate::new("bar")), Conclusion::NonMatching);
}

#[test]
fn negated_rule_excludes_after_broad_rule() {
    let reeks = Globreeks::new(&["*", "!foo*"]).unwrap();
    assert!(!reeks.evaluate("foobar"));
    assert!(reeks.evaluate("bar"));
}

#[test]
fn only_one_marker_is_stripped() {
    let reeks = Globreeks::new(&["!!foo"]).unwrap();
    assert!(!reeks.evaluate("!foo"));
    assert!(!reeks.evaluate("foo"));
    let p = Pattern::new("!!foo").unwrap();
    assert_eq!(p.matches(&Candidate::new("!foo")), Conclusion::Exclusion);
}

#[test]
fn construction_stops_at_first_invalid_pattern() {
    let err = Globreeks::new(&["*.js", "[unterminated", "*.ts"]).unwrap_err();
    assert_eq!(err.pattern, "[unterminated");
    assert_eq!(err.cause.kind(), &globset::ErrorKind::UnclosedClass);
}

#[test]
fn first_of_two_invalid_patterns_is_reported() {
    let err = Globreeks::new(&["{a,b", "[x"]).unwrap_err();
    assert_eq!(err.pattern, "{a,b");
    assert_eq!(err.cause.kind(), &globset::ErrorKind::UnclosedAlternates);
}

#[test]
fn invalid_negated_pattern_keeps_marker_in_error() {
    let err = Pattern::new("![oops").unwrap_err();
    assert_eq!(err.pattern, "![oops");
}

#[test]
fn lone_marker_is_handed_to_the_engine() {
    // an empty glob is valid syntax for the engine and matches only the empty path
    let reeks = Globreeks::new(&["*", "!"]).unwrap();
    assert!(!reeks.evaluate(""));
    assert!(reeks.evaluate("a"));
}

#[test]
fn exception_from_broad_exclusion() {
    let reeks = Globreeks::new(&[
        "**",
        "!**/node_modules/**/build/**",
        "node_modules/@signalapp/better-sqlite3/build/Release/better_sqlite3.node",
    ])
    .unwrap();
    assert!(reeks.evaluate("node_modules/@signalapp/better-sqlite3/build/Release/better_sqlite3.node"));
    assert!(!reeks.evaluate("node_modules/other/build/x.node"));
    assert!(reeks.evaluate("src/main.rs"));
}

#[test]
fn evaluate_candidate_agrees_with_evaluate() {
    let reeks = Globreeks::new(&["**/*.{js,ts}", "!bundle*.js", "bundle1.js"]).unwrap();
    for path in ["bundle1.js", "bundle2137.js", "readme.txt", "somewhere/some_file.js"] {
        assert_eq!(reeks.evaluate_candidate(&Candidate::new(path)), reeks.evaluate(path));
    }
}

#[test]
fn cloned_rule_set_gives_same_verdicts() {
    let reeks = Globreeks::new(&["*.js", "!b*"]).unwrap();
    let copy = reeks.clone();
    assert!(copy.evaluate("a.js"));
    assert!(!copy.evaluate("b.js"));
}

#[test]
fn engine_limits_are_checked() {
    assert!(Pattern::fits_engine("**/*.{js,ts}"));
    assert!(Pattern::fits_engine(""));
    assert!(Pattern::fits_engine(&"a".repeat(1024)));
    assert!(!Pattern::fits_engine(&"a".repeat(1025)));
    let negated = format!("!{}", "a".repeat(1024));
    assert!(Pattern::fits_engine(&negated));
    assert!(Pattern::fits_engine(&"{".repeat(64)));
    assert!(!Pattern::fits_engine(&"{".repeat(65)));
    let braces = format!("{}{}", "{a,".repeat(64), "}".repeat(64));
    assert!(Pattern::fits_engine(&braces));
    assert!(Globreeks::new(&[braces.as_str()]).unwrap().evaluate("a"));
}

#[test]
fn error_cause_is_the_engines_error() {
    let err = Pattern::new("!{a,b").unwrap_err();
    assert_eq!(err.pattern, "!{a,b");
    assert_eq!(err.cause, globset::Glob::new("{a,b").unwrap_err());
}

#[test]
fn reexported_candidate_works() {
    let reeks = Globreeks::new(&["*.rs"]).unwrap();
    assert!(reeks.evaluate_candidate(&globreeks::Candidate::new("main.rs")));
}
