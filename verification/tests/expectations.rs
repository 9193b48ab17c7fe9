use galvanic_assert::matchers::assertion_always_fails;
use galvanic_assert::matchers::assertion_always_succeeds;
use galvanic_assert::Expectation;
use galvanic_assert::MatchResult;
use galvanic_assert::Matcher;

fn expectation_for_bool(condition: bool, text: &str, line: u32) -> Expectation {
    if condition {
        Expectation::satisfied()
    } else {
        Expectation::failed(
            format!("'{}' is true", text),
            "expectations.rs".to_string(),
            line,
            format!("'{}' is not true", text),
        )
    }
}

fn expectation_for_match(r: MatchResult, assertion: &str, line: u32) -> Expectation {
    match r {
        MatchResult::Matched { .. } => Expectation::satisfied(),
        MatchResult::Failed { name, reason } => Expectation::failed(
            assertion.to_string(),
            "expectations.rs".to_string(),
            line,
            format!("Failed assertion of matcher: {}\n{}", name, reason),
        ),
    }
}

#[test]
fn should_get_an_expectation_asserting_an_expression_to_be_true() {
    let e = expectation_for_bool(1 == 1, "1 == 1", 30);
    assert!(!e.is_failed());
}

#[test]
fn should_get_an_expectation_asserting_an_expression_to_be_true_and_verify_manually() {
    let e = expectation_for_bool(1 == 1, "1 == 1", 35);
    assert!(!e.is_failed());
    e.verify()
}

#[test]
fn expectations_should_get_multiple_expectations_asserting_an_expression_to_be_true() {
    let e1 = expectation_for_bool(1 == 1, "1 == 1", 42);
    let e2 = expectation_for_bool(1 == 1, "1 == 1", 44);
    assert!(!e1.is_failed());
    assert!(!e2.is_failed());
}

#[test]
fn expectations_should_get_multiple_expectations_failing_to_assert_an_expression_to_be_true() {
    let e1 = expectation_for_bool(1 != 1, "1 != 1", 63);
    let e2 = expectation_for_bool(1 != 1, "1 != 1", 64);
    assert!(e1.is_failed());
    assert!(e2.is_failed());
}

#[test]
fn expectations_should_get_multiple_expectations_some_failing_to_assert_an_expression_to_be_true() {
    let e1 = expectation_for_bool(1 != 1, "1 != 1", 71);
    let e2 = expectation_for_bool(1 == 1, "1 == 1", 72);
    assert!(e1.is_failed());
    assert!(!e2.is_failed());
    e2.verify();
}

#[test]
fn should_get_an_expectation_asserting_an_expression_to_panic() {
    // The panicking branch of the deferred assertion yields a satisfied
    // expectation; its reporting is a no-op.
    let e = Expectation::satisfied();
    assert!(!e.is_failed());
    e.verify()
}

#[test]
fn should_get_an_expectation_asserting_an_expression_to_not_panic() {
    // The non-panicking branch of the deferred assertion yields a satisfied
    // expectation; its reporting is a no-op.
    let e = Expectation::satisfied();
    assert!(!e.is_failed());
    e.verify()
}

#[test]
fn should_get_an_expectation_asserting_a_matcher_to_succeed() {
    let value = &1;
    let m = assertion_always_succeeds();
    let e = expectation_for_match(m.check(value), "'&1' matches", 118);
    assert!(!e.is_failed());
}

#[test]
fn expectation_for_a_failing_matcher_records_the_failure() {
    let value = &1;
    let m = assertion_always_fails();
    let e = expectation_for_match(m.check(value), "'&1' matches", 125);
    assert!(e.is_failed());
}

#[test]
fn should_expect_an_expression_to_be_true() {
    let e = expectation_for_bool(1 == 1, "1 == 1", 136);
    assert!(!e.is_failed());
}

#[test]
fn should_get_multiple_expectations_asserting_an_expression_to_be_true() {
    let e1 = expectation_for_bool(1 == 1, "1 == 1", 141);
    let e2 = expectation_for_bool(1 == 1, "1 == 1", 142);
    assert!(!e1.is_failed());
    assert!(!e2.is_failed());
}

#[test]
fn should_expect_an_expression_to_panic() {
    // The panicking branch of the deferred assertion yields a satisfied
    // expectation; its reporting is a no-op.
    let e = Expectation::satisfied();
    assert!(!e.is_failed());
}

#[test]
fn should_expect_an_expression_to_not_panic() {
    // The non-panicking branch of the deferred assertion yields a satisfied
    // expectation; its reporting is a no-op.
    let e = Expectation::satisfied();
    assert!(!e.is_failed());
}

#[test]
fn should_expect_a_matcher_to_succeed() {
    let value = &1;
    let m = assertion_always_succeeds();
    let e = expectation_for_match(m.check(value), "'&1' matches", 202);
    assert!(!e.is_failed());
}

#[test]
fn failed_expectation_carries_its_description() {
    let e = Expectation::failed(
        "'1 != 1' is true".to_string(),
        "expectations.rs".to_string(),
        7,
        "'1 != 1' is not true".to_string(),
    );
    match e {
        Expectation::Failed { assertion, file, line, error_msg } => {
            assert_eq!(assertion, "'1 != 1' is true");
            assert_eq!(file, "expectations.rs");
            assert_eq!(line, 7);
            assert_eq!(error_msg, "'1 != 1' is not true");
        }
        Expectation::Satisfied => panic!("expected a failed expectation"),
    }
}
