use galvanic_assert::matchers::equal_to;
use galvanic_assert::matchers::variant::maybe_err;
use galvanic_assert::matchers::variant::maybe_ok;
use galvanic_assert::matchers::variant::maybe_some;
use galvanic_assert::MatchResultBuilder;
use galvanic_assert::Matcher;

#[allow(dead_code)]
#[derive(Debug)]
enum MyEnum {
    Var1,
    Var2 { x: i32 },
}

#[test]
fn variant_matchers_should_succeed() {
    let is_var1 = |actual: &MyEnum| {
        let builder = MatchResultBuilder::for_("is_variant");
        match actual {
            &MyEnum::Var1 { .. } => builder.matched(),
            _ => builder.failed_because("passed variant does not match 'MyEnum::Var1'"),
        }
    };
    assert!(is_var1.check(&MyEnum::Var1).is_matched());
}

#[test]
fn variant_matchers_should_fail() {
    let is_var2 = |actual: &MyEnum| {
        let builder = MatchResultBuilder::for_("is_variant");
        match actual {
            &MyEnum::Var2 { .. } => builder.matched(),
            _ => builder.failed_because("passed variant does not match 'MyEnum::Var2'"),
        }
    };
    assert!(!is_var2.check(&MyEnum::Var1).is_matched());
}

#[test]
fn should_succeed() {
    let maybe_int = Some(2);
    assert!(maybe_some(equal_to(2)).check(&maybe_int).is_matched());
}

#[test]
fn maybe_some_should_fail_because_of_none_value() {
    let maybe_int: Option<i32> = None;
    assert!(!maybe_some(equal_to(2)).check(&maybe_int).is_matched());
}

#[test]
fn maybe_some_should_fail_because_nested_matcher_fails() {
    let maybe_int = Some(3);
    assert!(!maybe_some(equal_to(2)).check(&maybe_int).is_matched());
}

#[test]
fn maybe_ok_should_succeed() {
    let maybe_int: Result<i32, String> = Ok(2);
    assert!(maybe_ok(equal_to(2)).check(&maybe_int).is_matched());
}

#[test]
fn maybe_ok_should_fail_because_of_err_value() {
    let maybe_int: Result<i32, String> = Err("Failed".to_owned());
    assert!(!maybe_ok(equal_to(2)).check(&maybe_int).is_matched());
}

#[test]
fn maybe_ok_should_fail_because_nested_matcher_fails() {
    let maybe_int: Result<i32, String> = Ok(3);
    assert!(!maybe_ok(equal_to(2)).check(&maybe_int).is_matched());
}

#[test]
fn maybe_err_should_succeed() {
    let maybe_int: Result<String, i32> = Err(2);
    assert!(maybe_err(equal_to(2)).check(&maybe_int).is_matched());
}

#[test]
fn maybe_err_should_fail_because_of_ok_value() {
    let maybe_int: Result<String, i32> = Ok("Ok".to_owned());
    assert!(!maybe_err(equal_to(2)).check(&maybe_int).is_matched());
}

#[test]
fn maybe_err_should_fail_because_nested_matcher_fails() {
    let maybe_int: Result<String, i32> = Err(3);
    assert!(!maybe_err(equal_to(2)).check(&maybe_int).is_matched());
}
