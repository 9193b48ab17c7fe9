//! Matchers over single values: constants, negation, comparisons and
//! closeness.  Submodules hold the combinators and the matchers for
//! collections, maps and `Option`/`Result` values.

use vstd::prelude::*;
use vstd::std_specs::cmp::PartialEqSpec;
use vstd::std_specs::cmp::PartialOrdSpec;
use vstd::std_specs::ops::AddSpec;
use vstd::std_specs::ops::SubSpec;
use vstd::string::StringExecFns;

use core::cmp::Ordering;

use crate::debug_string;
use crate::Matcher;
use crate::MatchResult;
use crate::MatchResultBuilder;

pub mod collection;
pub mod combinators;
pub mod dir_structure;
pub mod variant;

verus! {

/// A matcher which matches every value.
pub struct AlwaysMatches;

impl<T> Matcher<T> for AlwaysMatches {
    open spec fn reliable(&self) -> bool {
        true
    }

    open spec fn check_req(&self, actual: T) -> bool {
        true
    }

    open spec fn spec_matches(&self, actual: T) -> bool {
        true
    }

    open spec fn spec_name(&self, actual: T) -> Seq<char> {
        "succeeds_always"@
    }

    fn check(&self, actual: &T) -> (r: MatchResult) {
        MatchResultBuilder::for_("succeeds_always").matched()
    }
}

/// A matcher which always matches.
pub fn assertion_always_succeeds() -> AlwaysMatches {
    AlwaysMatches
}

/// A matcher which matches every value, reported under its own name.
pub struct AnyValue;

impl<T> Matcher<T> for AnyValue {
    open spec fn reliable(&self) -> bool {
        true
    }

    open spec fn check_req(&self, actual: T) -> bool {
        true
    }

    open spec fn spec_matches(&self, actual: T) -> bool {
        true
    }

    open spec fn spec_name(&self, actual: T) -> Seq<char> {
        "any_value"@
    }

    fn check(&self, actual: &T) -> (r: MatchResult) {
        MatchResultBuilder::for_("any_value").matched()
    }
}

/// A matcher which always matches; the same verdict as
/// `assertion_always_succeeds`.
pub fn any_value() -> AnyValue {
    AnyValue
}

/// A matcher which matches no value.
pub struct AlwaysFails;

impl<T> Matcher<T> for AlwaysFails {
    open spec fn reliable(&self) -> bool {
        true
    }

    open spec fn check_req(&self, actual: T) -> bool {
        true
    }

    open spec fn spec_matches(&self, actual: T) -> bool {
        false
    }

    open spec fn spec_name(&self, actual: T) -> Seq<char> {
        "fails_always"@
    }

    fn check(&self, actual: &T) -> (r: MatchResult) {
        MatchResultBuilder::for_("fails_always").failed_because("This matcher fails always")
    }
}

/// A matcher which never matches.
pub fn assertion_always_fails() -> AlwaysFails {
    AlwaysFails
}

/// A matcher which never matches; the same as `assertion_always_fails`.
pub fn no_value() -> AlwaysFails {
    AlwaysFails
}

/// Accepts a matcher and returns it unmodified; syntactic sugar.
pub fn is<M>(matcher: M) -> (r: M)
    ensures
        r == matcher,
{
    matcher
}

/// A matcher negating the verdict of the matcher it wraps.
pub struct Negation<M> {
    /// The matcher whose verdict is inverted.
    pub inner: M,
}

impl<T, M: Matcher<T>> Matcher<T> for Negation<M> {
    open spec fn reliable(&self) -> bool {
        self.inner.reliable()
    }

    open spec fn check_req(&self, actual: T) -> bool {
        self.inner.check_req(actual)
    }

    open spec fn spec_matches(&self, actual: T) -> bool {
        !self.inner.spec_matches(actual)
    }

    open spec fn spec_name(&self, actual: T) -> Seq<char> {
        "not("@ + self.inner.spec_name(actual) + ")"@
    }

    fn check(&self, actual: &T) -> (r: MatchResult) {
        match self.inner.check(actual) {
            MatchResult::Matched { name } => {
                let reason = name.clone().concat(" is satisfied");
                MatchResultBuilder::for_(
                    String::from_str("not(").concat(name.as_str()).concat(")").as_str(),
                ).failed_because(reason.as_str())
            },
            MatchResult::Failed { name, .. } => {
                MatchResult::Matched {
                    name: String::from_str("not(").concat(name.as_str()).concat(")"),
                }
            },
        }
    }
}

/// A matcher which matches exactly where the given matcher fails.
pub fn not<M>(matcher: M) -> (r: Negation<M>)
    ensures
        r.inner == matcher,
{
    Negation { inner: matcher }
}

/// `not(m)` matches a value exactly where `m` fails, and fails exactly
/// where `m` matches.
pub proof fn lemma_not_inverts<T, M: Matcher<T>>(n: Negation<M>, v: T)
    ensures
        n.spec_matches(v) <==> !n.inner.spec_matches(v),
{
}

/// Matches if the inspected value equals the expected value.
///
/// Not meant for floating point values; use `close_to` there.
pub struct EqualTo<T> {
    /// The value the inspected value is compared with.
    pub expected: T,
}

impl<T: PartialEq + core::fmt::Debug> Matcher<T> for EqualTo<T> {
    /// The verdict is pinned when `==` on `T` obeys its specification.
    open spec fn reliable(&self) -> bool {
        T::obeys_eq_spec()
    }

    open spec fn check_req(&self, actual: T) -> bool {
        true
    }

    open spec fn spec_matches(&self, actual: T) -> bool {
        actual.eq_spec(&self.expected)
    }

    open spec fn spec_name(&self, actual: T) -> Seq<char> {
        "equal"@
    }

    fn check(&self, actual: &T) -> (r: MatchResult) {
        let builder = MatchResultBuilder::for_("equal");
        if *actual == self.expected {
            builder.matched()
        } else {
            builder.failed_comparison(actual, &self.expected)
        }
    }
}

/// Matches if the inspected value equals the expected value.
pub fn equal_to<T: PartialEq + core::fmt::Debug>(expected: T) -> (m: EqualTo<T>)
    ensures
        m.expected == expected,
{
    EqualTo { expected }
}

/// Matches if the inspected value equals the expected value; the same as
/// `equal_to`.
pub fn eq<T: PartialEq + core::fmt::Debug>(expected: T) -> (m: EqualTo<T>)
    ensures
        m.expected == expected,
{
    EqualTo { expected }
}

/// Matches if the inspected value is less than the expected value.
pub struct LessThan<T> {
    /// The value the inspected value is compared with.
    pub expected: T,
}

impl<T: PartialOrd + core::fmt::Debug> Matcher<T> for LessThan<T> {
    /// The verdict is pinned when `<` on `T` obeys its specification.
    open spec fn reliable(&self) -> bool {
        T::obeys_partial_cmp_spec()
    }

    open spec fn check_req(&self, actual: T) -> bool {
        true
    }

    open spec fn spec_matches(&self, actual: T) -> bool {
        actual.partial_cmp_spec(&self.expected) == Some(Ordering::Less)
    }

    open spec fn spec_name(&self, actual: T) -> Seq<char> {
        "less_than"@
    }

    fn check(&self, actual: &T) -> (r: MatchResult) {
        let builder = MatchResultBuilder::for_("less_than");
        if *actual < self.expected {
            builder.matched()
        } else {
            builder.failed_comparison(actual, &self.expected)
        }
    }
}

/// Matches if the inspected value is less than the expected value.
pub fn less_than<T: PartialOrd + core::fmt::Debug>(expected: T) -> (m: LessThan<T>)
    ensures
        m.expected == expected,
{
    LessThan { expected }
}

/// Matches if the inspected value is less than the expected value; the same
/// as `less_than`.
pub fn lt<T: PartialOrd + core::fmt::Debug>(expected: T) -> (m: LessThan<T>)
    ensures
        m.expected == expected,
{
    LessThan { expected }
}

/// Matches if the inspected value is greater than the expected value.
pub struct GreaterThan<T> {
    /// The value the inspected value is compared with.
    pub expected: T,
}

impl<T: PartialOrd + core::fmt::Debug> Matcher<T> for GreaterThan<T> {
    /// The verdict is pinned when `>` on `T` obeys its specification.
    open spec fn reliable(&self) -> bool {
        T::obeys_partial_cmp_spec()
    }

    open spec fn check_req(&self, actual: T) -> bool {
        true
    }

    open spec fn spec_matches(&self, actual: T) -> bool {
        actual.partial_cmp_spec(&self.expected) == Some(Ordering::Greater)
    }

    open spec fn spec_name(&self, actual: T) -> Seq<char> {
        "greater_than"@
    }

    fn check(&self, actual: &T) -> (r: MatchResult) {
        let builder = MatchResultBuilder::for_("greater_than");
        if *actual > self.expected {
            builder.matched()
        } else {
            builder.failed_comparison(actual, &self.expected)
        }
    }
}

/// Matches if the inspected value is greater than the expected value.
pub fn greater_than<T: PartialOrd + core::fmt::Debug>(expected: T) -> (m: GreaterThan<T>)
    ensures
        m.expected == expected,
{
    GreaterThan { expected }
}

/// Matches if the inspected value is greater than the expected value; the
/// same as `greater_than`.
pub fn gt<T: PartialOrd + core::fmt::Debug>(expected: T) -> (m: GreaterThan<T>)
    ensures
        m.expected == expected,
{
    GreaterThan { expected }
}

/// Matches if the inspected value is less than or equal to the expected
/// value.
pub struct LessThanOrEqual<T> {
    /// The value the inspected value is compared with.
    pub expected: T,
}

impl<T: PartialOrd + core::fmt::Debug> Matcher<T> for LessThanOrEqual<T> {
    /// The verdict is pinned when `<=` on `T` obeys its specification.
    open spec fn reliable(&self) -> bool {
        T::obeys_partial_cmp_spec()
    }

    open spec fn check_req(&self, actual: T) -> bool {
        true
    }

    open spec fn spec_matches(&self, actual: T) -> bool {
        actual.partial_cmp_spec(&self.expected) matches Some(
            Ordering::Less
            | Ordering::Equal,
        )
    }

    open spec fn spec_name(&self, actual: T) -> Seq<char> {
        "less_than_or_equal"@
    }

    fn check(&self, actual: &T) -> (r: MatchResult) {
        let builder = MatchResultBuilder::for_("less_than_or_equal");
        if *actual <= self.expected {
            builder.matched()
        } else {
            builder.failed_comparison(actual, &self.expected)
        }
    }
}

/// Matches if the inspected value is less than or equal to the expected
/// value.
pub fn less_than_or_equal<T: PartialOrd + core::fmt::Debug>(expected: T) -> (m: LessThanOrEqual<
    T,
>)
    ensures
        m.expected == expected,
{
    LessThanOrEqual { expected }
}

/// Matches if the inspected value is less than or equal to the expected
/// value; the same as `less_than_or_equal`.
pub fn leq<T: PartialOrd + core::fmt::Debug>(expected: T) -> (m: LessThanOrEqual<T>)
    ensures
        m.expected == expected,
{
    LessThanOrEqual { expected }
}

/// Matches if the inspected value is greater than or equal to the expected
/// value.
pub struct GreaterThanOrEqual<T> {
    /// The value the inspected value is compared with.
    pub expected: T,
}

impl<T: PartialOrd + core::fmt::Debug> Matcher<T> for GreaterThanOrEqual<T> {
    /// The verdict is pinned when `>=` on `T` obeys its specification.
    open spec fn reliable(&self) -> bool {
        T::obeys_partial_cmp_spec()
    }

    open spec fn check_req(&self, actual: T) -> bool {
        true
    }

    open spec fn spec_matches(&self, actual: T) -> bool {
        actual.partial_cmp_spec(&self.expected) matches Some(
            Ordering::Greater
            | Ordering::Equal,
        )
    }

    open spec fn spec_name(&self, actual: T) -> Seq<char> {
        "greater_than_or_equal"@
    }

    fn check(&self, actual: &T) -> (r: MatchResult) {
        let builder = MatchResultBuilder::for_("greater_than_or_equal");
        if *actual >= self.expected {
            builder.matched()
        } else {
            builder.failed_comparison(actual, &self.expected)
        }
    }
}

/// Matches if the inspected value is greater than or equal to the expected
/// value.
pub fn greater_than_or_equal<T: PartialOrd + core::fmt::Debug>(expected: T) -> (m:
    GreaterThanOrEqual<T>)
    ensures
        m.expected == expected,
{
    GreaterThanOrEqual { expected }
}

/// Matches if the inspected value is greater than or equal to the expected
/// value; the same as `greater_than_or_equal`.
pub fn geq<T: PartialOrd + core::fmt::Debug>(expected: T) -> (m: GreaterThanOrEqual<T>)
    ensures
        m.expected == expected,
{
    GreaterThanOrEqual { expected }
}

/// Matches if the inspected value lies in a closed interval.
///
/// Meant for floating point values, where a comparison for exact equality is
/// too strict.
pub struct CloseTo<T> {
    /// The lower end of the accepted interval.
    pub lo: T,
    /// The upper end of the accepted interval.
    pub hi: T,
}

impl<T: Copy + PartialOrd + core::fmt::Debug> Matcher<T> for CloseTo<T> {
    /// The verdict is pinned when comparison on `T` obeys its specification;
    /// for floating point values nothing is promised, as their comparisons
    /// carry no specification.
    open spec fn reliable(&self) -> bool {
        T::obeys_partial_cmp_spec()
    }

    open spec fn check_req(&self, actual: T) -> bool {
        true
    }

    open spec fn spec_matches(&self, actual: T) -> bool {
        &&& self.lo.partial_cmp_spec(&actual) matches Some(
            Ordering::Less
            | Ordering::Equal,
        )
        &&& actual.partial_cmp_spec(&self.hi) matches Some(
            Ordering::Less
            | Ordering::Equal,
        )
    }

    open spec fn spec_name(&self, actual: T) -> Seq<char> {
        "close_to"@
    }

    fn check(&self, actual: &T) -> (r: MatchResult) {
        let builder = MatchResultBuilder::for_("close_to");
        if self.lo <= *actual && *actual <= self.hi {
            builder.matched()
        } else {
            let reason = debug_string(actual).concat(" should be between ").concat(
                debug_string(&self.lo).as_str(),
            ).concat(" and ").concat(debug_string(&self.hi).as_str());
            builder.failed_because(reason.as_str())
        }
    }
}

/// Matches if the inspected value is within `eps` of `expected` on either
/// side.
pub fn close_to<T>(expected: T, eps: T) -> (m: CloseTo<T>) where
    T: Copy + PartialOrd + core::ops::Add<Output = T> + core::ops::Sub<Output = T> + core::fmt::Debug,

    requires
        expected.sub_req(eps),
        expected.add_req(eps),
    ensures
        T::obeys_sub_spec() ==> m.lo == expected.sub_spec(eps),
        T::obeys_add_spec() ==> m.hi == expected.add_spec(eps),
{
    CloseTo { lo: expected - eps, hi: expected + eps }
}

/// Matches if the inspected value and the expected value are the same
/// object, that is, reside at the same address.
///
/// Address identity is outside what the specification models, so only
/// `on_match` is promised: a match implies the two values are equal.
pub struct SameObject<'a, T> {
    /// The reference the inspected value is compared with.
    pub expected: &'a T,
}

/// Relies on `core::ptr::eq`: true exactly when both references point at the
/// same address.  References to the same address hold the same value.
#[verifier::external_body]
fn same_address<T: ?Sized>(a: &T, b: &T) -> (r: bool)
    ensures
        r ==> a == b,
{
    core::ptr::eq(a, b)
}

impl<'a, T: core::fmt::Debug> Matcher<T> for SameObject<'a, T> {
    /// The verdict depends on addresses, which the specification does not
    /// model, so it is never pinned.
    open spec fn reliable(&self) -> bool {
        false
    }

    open spec fn check_req(&self, actual: T) -> bool {
        true
    }

    open spec fn spec_matches(&self, actual: T) -> bool {
        actual == *self.expected
    }

    open spec fn spec_name(&self, actual: T) -> Seq<char> {
        "same_object"@
    }

    /// A match guarantees that the two values are equal.
    open spec fn on_match(&self, actual: T) -> bool {
        actual == *self.expected
    }

    fn check(&self, actual: &T) -> (r: MatchResult) {
        let builder = MatchResultBuilder::for_("same_object");
        if same_address(actual, self.expected) {
            builder.matched()
        } else {
            builder.failed_comparison(actual, self.expected)
        }
    }
}

/// Matches if the inspected value and `expected` are the same object.
pub fn same_object<'a, T: core::fmt::Debug>(expected: &'a T) -> (m: SameObject<'a, T>)
    ensures
        m.expected == expected,
{
    SameObject { expected }
}

/// Accepts a matcher and returns it unmodified; syntactic sugar.
pub fn has<M>(matcher: M) -> (r: M)
    ensures
        r == matcher,
{
    matcher
}

} // verus!
