use rust_parser::front_end::finds_include;
use rust_parser::{outcome_of, outcome_report, parse_qasm3, run, usage_report, validate, ValidationError};

fn args(items: &[&str]) -> Vec<String> {
    items.iter().map(|s| s.to_string()).collect()
}

#[test]
fn test_parse() {
    let source = "OPENQASM 3.0;\nqubit q;";
    assert!(parse_qasm3(source).is_ok());
}

#[test]
fn valid_program_exits_zero_silently() {
    let report = run(&args(&["prog", "OPENQASM 3.0;\nqubit q;"])).unwrap();
    assert_eq!(report.exit_code, 0);
    assert_eq!(report.diagnostic, None);
}

#[test]
fn missing_version_and_terminator_fails() {
    assert_eq!(parse_qasm3("qubit q"), Err(ValidationError::ParseFailed));
    let report = run(&args(&["prog", "qubit q"])).unwrap();
    assert_eq!(report.exit_code, 1);
    assert_eq!(report.diagnostic.as_deref(), Some("Error: Parsing failed"));
}

#[test]
fn no_arguments_shows_usage() {
    let report = run(&args(&["prog"])).unwrap();
    assert_eq!(report.exit_code, 1);
    assert_eq!(report.diagnostic.as_deref(), Some("Usage: prog <qasm-string>"));
}

#[test]
fn empty_argument_list_shows_usage() {
    let report = run(&Vec::new()).unwrap();
    assert_eq!(report.exit_code, 1);
    assert_eq!(report.diagnostic.as_deref(), Some("Usage:  <qasm-string>"));
}

#[test]
fn two_sources_show_usage_without_validating() {
    // The second source is invalid; only the usage line comes back.
    let report = run(&args(&["prog", "OPENQASM 3.0;\nqubit q;", "qubit q"])).unwrap();
    assert_eq!(report.exit_code, 1);
    assert_eq!(report.diagnostic.as_deref(), Some("Usage: prog <qasm-string>"));
}

#[test]
fn empty_source_is_judged_by_the_front_end() {
    // The front end's grammar makes no version line mandatory, so an empty
    // program parses without error.
    assert_eq!(validate(""), Some(Ok(())));
    let report = run(&args(&["prog", ""])).unwrap();
    assert_eq!(report.exit_code, 0);
}

#[test]
fn repeated_validation_gives_the_same_outcome() {
    for source in ["OPENQASM 3.0;\nqubit q;", "qubit q", "OPENQASM 3.0;\nqubit[2] q;\nh q[0];"] {
        let first = validate(source);
        let second = validate(source);
        assert_eq!(first, second);
        let a = run(&args(&["prog", source])).unwrap();
        let b = run(&args(&["prog", source])).unwrap();
        assert_eq!(a.exit_code, b.exit_code);
        assert_eq!(a.diagnostic, b.diagnostic);
    }
}

#[test]
fn gate_program_is_valid() {
    assert_eq!(validate("OPENQASM 3.0;\nqubit[2] q;\nh q[0];"), Some(Ok(())));
}

#[test]
fn unbalanced_bracket_is_invalid() {
    assert_eq!(validate("OPENQASM 3.0;\nqubit[2 q;"), Some(Err(ValidationError::ParseFailed)));
}

#[test]
fn include_is_left_to_the_caller() {
    assert_eq!(validate("OPENQASM 3.0;\ninclude \"gates.inc\";"), None);
    assert!(run(&args(&["prog", "include \"gates.inc\";"])).is_none());
}

#[test]
fn include_lookup() {
    assert!(finds_include("include"));
    assert!(finds_include("x; // include y"));
    assert!(!finds_include("includ"));
    assert!(!finds_include(""));
    assert!(!finds_include("OPENQASM 3.0;\nqubit q;"));
    assert!(finds_include("ïnclude include"));
    assert!(finds_include("include;"));
    assert!(finds_include("xinclude \"a.inc\";"));
    assert!(finds_include("includeé"));
    assert!(!finds_include("qubit included;"));
    assert!(!finds_include("include_2 include9 includeX"));
    assert!(finds_include("include_2 include"));
}

#[test]
fn identifier_starting_with_include_is_validated() {
    assert_eq!(validate("OPENQASM 3.0;\nqubit included;"), Some(Ok(())));
}

#[test]
fn verdict_maps_to_outcome() {
    assert_eq!(outcome_of(false), Ok(()));
    assert_eq!(outcome_of(true), Err(ValidationError::ParseFailed));
    assert_eq!(ValidationError::ParseFailed.message(), "Parsing failed");
}

#[test]
fn reports_for_outcomes() {
    let ok = outcome_report(&Ok(()));
    assert_eq!(ok.exit_code, 0);
    assert!(ok.diagnostic.is_none());
    let err = outcome_report(&Err(ValidationError::ParseFailed));
    assert_eq!(err.exit_code, 1);
    assert_eq!(err.diagnostic.as_deref(), Some("Error: Parsing failed"));
    let usage = usage_report("bench");
    assert_eq!(usage.exit_code, 1);
    assert_eq!(usage.diagnostic.as_deref(), Some("Usage: bench <qasm-string>"));
}

fn nested(prefix: &str, unit: &str, chars: usize) -> String {
    let mut s = prefix.to_string();
    while s.chars().count() + unit.chars().count() < chars {
        s.push_str(unit);
    }
    s
}

#[test]
fn deepest_nesting_below_the_bound_is_validated() {
    let limit = rust_parser::front_end::MAX_SOURCE_CHARS;
    for (prefix, unit) in [("", "{"), ("x = ", "("), ("x = ", "["), ("x = ", "-"), ("x = ", "!"), ("", "{("), ("", "ctrl @ ")] {
        let source = nested(prefix, unit, limit);
        assert!(source.chars().count() < limit);
        assert_eq!(validate(&source), Some(Err(ValidationError::ParseFailed)));
    }
}

#[test]
fn text_at_the_bound_is_left_to_the_caller() {
    let limit = rust_parser::front_end::MAX_SOURCE_CHARS;
    let at_bound = "x".repeat(limit);
    assert_eq!(validate(&at_bound), None);
    assert!(run(&args(&["prog", &at_bound])).is_none());
    let below = format!("OPENQASM 3.0;\nqubit q;{}", " ".repeat(limit - 23));
    assert_eq!(below.chars().count(), limit - 1);
    assert_eq!(validate(&below), Some(Ok(())));
}
