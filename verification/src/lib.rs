//! Matcher-based assertions for tests.
//!
//! A `Matcher` is a predicate over values of some type `T`: checking a value
//! yields a `MatchResult` that either reports a match or carries a diagnostic
//! explaining the failure.  Matchers compose: `All` and `Any` combine several
//! matchers over the same type conjunctively or disjunctively, and `not`
//! inverts one.  An `Expectation` records the outcome of a check so that it
//! can be reported later instead of immediately.
//!
//! Every matcher's meaning is captured by the specification functions of the
//! [`Matcher`] trait, and each `check` implementation is verified against
//! them.

use vstd::prelude::*;
use vstd::string::StringExecFns;

pub mod matchers;

verus! {

/// The outcome of checking one value against one matcher.
#[derive(Debug)]
pub enum MatchResult {
    /// The matcher matched the value under inspection.
    Matched {
        /// The name of the matcher.
        name: String,
    },
    /// The matcher failed to match the value under inspection.
    Failed {
        /// The name of the matcher.
        name: String,
        /// Why the matcher failed.
        reason: String,
    },
}

impl MatchResult {
    /// The matcher name carried by the result.
    pub open spec fn spec_name(&self) -> Seq<char> {
        match self {
            MatchResult::Matched { name } => name@,
            MatchResult::Failed { name, .. } => name@,
        }
    }

    /// The diagnostic carried by a failed result; empty for a match.
    pub open spec fn spec_reason(&self) -> Seq<char> {
        match self {
            MatchResult::Matched { .. } => Seq::empty(),
            MatchResult::Failed { reason, .. } => reason@,
        }
    }

    /// Whether the result reports a match.
    pub fn is_matched(&self) -> (b: bool)
        ensures
            b == (*self is Matched),
    {
        matches!(self, MatchResult::Matched { .. })
    }
}

/// The trait implemented by all matchers.
///
/// The specification functions fix what `check` may return:
///
/// * `spec_matches` is the meaning of the matcher: which values it accepts.
/// * `spec_name` is the name the returned result carries for a given value.
/// * `reliable` states the assumptions under which the verdict is pinned to
///   `spec_matches` — typically that the element type's comparison operators
///   obey their specifications, or that a supplied predicate is
///   deterministic.  Where it does not hold (floating point, address
///   identity) nothing is promised of the verdict.
/// * `check_req` is what a caller must establish before calling `check`,
///   such as the preconditions of a supplied closure.
/// * `on_match` is knowledge that every match carries even when `reliable`
///   does not hold.
pub trait Matcher<T> {
    /// The assumptions under which the verdict equals `spec_matches`.
    spec fn reliable(&self) -> bool;

    /// What a caller must establish before calling `check`.
    spec fn check_req(&self, actual: T) -> bool;

    /// The meaning of the matcher: does it accept `actual`?
    spec fn spec_matches(&self, actual: T) -> bool;

    /// The name carried by the result of checking `actual`.
    spec fn spec_name(&self, actual: T) -> Seq<char>;

    /// What every match guarantees, reliable or not.
    open spec fn on_match(&self, actual: T) -> bool {
        true
    }

    /// Checks the passed value against the matcher.
    ///
    /// Values are taken by immutable reference: a matcher never changes the
    /// value it inspects, so checking is repeatable.
    fn check(&self, actual: &T) -> (r: MatchResult)
        requires
            self.check_req(*actual),
        ensures
            self.reliable() ==> ((r is Matched) <==> self.spec_matches(*actual)),
            self.reliable() ==> r.spec_name() == self.spec_name(*actual),
            r is Matched ==> self.on_match(*actual),
    ;
}

/// A matcher's verdict depends on the matcher and the inspected value alone:
/// any two results that `check`'s contract allows for the same matcher and
/// value agree on the verdict and on the name, so checking twice yields the
/// same outcome.
pub proof fn lemma_check_deterministic<T, M: Matcher<T>>(
    m: &M,
    v: T,
    r1: MatchResult,
    r2: MatchResult,
)
    requires
        m.reliable(),
        (r1 is Matched) <==> m.spec_matches(v),
        (r2 is Matched) <==> m.spec_matches(v),
        r1.spec_name() == m.spec_name(v),
        r2.spec_name() == m.spec_name(v),
    ensures
        (r1 is Matched) <==> (r2 is Matched),
        r1.spec_name() == r2.spec_name(),
{
}

/// The result a matcher closure assigns to `a`, as a specification value.
///
/// Kept opaque: [`lemma_closure_verdict_agrees`] ties it to what the
/// closure actually returned.
#[verifier::opaque]
pub open spec fn closure_verdict<T, F: Fn(&T) -> MatchResult>(f: F, a: T) -> MatchResult {
    choose|r: MatchResult| call_ensures(f, (&a,), r)
}

/// Whether a matcher closure is deterministic: any two results its
/// specification allows for the same argument are equal.
pub open spec fn deterministic_matcher<T, F: Fn(&T) -> MatchResult>(f: F) -> bool {
    forall|a: &T, r1: MatchResult, r2: MatchResult|
        #![trigger call_ensures(f, (a,), r1), call_ensures(f, (a,), r2)]
        call_ensures(f, (a,), r1) && call_ensures(f, (a,), r2) ==> r1 == r2
}

/// A result the closure actually returned for an argument is the verdict
/// `closure_verdict` assigns to it, as long as the closure is
/// deterministic.
pub proof fn lemma_closure_verdict_agrees<T, F: Fn(&T) -> MatchResult>(
    f: F,
    a: T,
    r: MatchResult,
)
    requires
        deterministic_matcher(f),
        call_ensures(f, (&a,), r),
    ensures
        closure_verdict(f, a) == r,
{
    reveal(closure_verdict);
    let picked = choose|r2: MatchResult| call_ensures(f, (&a,), r2);
    assert(call_ensures(f, (&a,), picked));
}

/// A closure producing a `MatchResult` can be used as a matcher.
///
/// The closure must be repeatably callable, as combinators may invoke a
/// matcher several times across a composition.
impl<T, F: Fn(&T) -> MatchResult> Matcher<T> for F {
    /// The verdict is pinned when the closure is deterministic.
    open spec fn reliable(&self) -> bool {
        deterministic_matcher(*self)
    }

    /// The closure must be callable on the inspected value.
    open spec fn check_req(&self, actual: T) -> bool {
        call_requires(*self, (&actual,))
    }

    open spec fn spec_matches(&self, actual: T) -> bool {
        closure_verdict(*self, actual) is Matched
    }

    open spec fn spec_name(&self, actual: T) -> Seq<char> {
        closure_verdict(*self, actual).spec_name()
    }

    fn check(&self, actual: &T) -> (r: MatchResult) {
        let r = self(actual);
        proof {
            if deterministic_matcher(*self) {
                lemma_closure_verdict_agrees(*self, *actual, r);
            }
        }
        r
    }
}

/// A matcher wrapping another one under a new name.
///
/// Checking passes through to the wrapped matcher; a failed result is
/// reported under the new name, a match is passed on unchanged.
pub struct Renamed<M> {
    name: String,
    inner: M,
}

impl<M> Renamed<M> {
    /// The name a failure is reported under.
    pub closed spec fn new_name(&self) -> Seq<char> {
        self.name@
    }

    /// The matcher whose verdict is passed through.
    pub closed spec fn inner(&self) -> M {
        self.inner
    }
}

impl<T, M: Matcher<T>> Matcher<T> for Renamed<M> {
    open spec fn reliable(&self) -> bool {
        self.inner().reliable()
    }

    open spec fn check_req(&self, actual: T) -> bool {
        self.inner().check_req(actual)
    }

    open spec fn spec_matches(&self, actual: T) -> bool {
        self.inner().spec_matches(actual)
    }

    /// The wrapped matcher's name on a match, the new name on a failure.
    open spec fn spec_name(&self, actual: T) -> Seq<char> {
        if self.inner().spec_matches(actual) {
            self.inner().spec_name(actual)
        } else {
            self.new_name()
        }
    }

    open spec fn on_match(&self, actual: T) -> bool {
        self.inner().on_match(actual)
    }

    fn check(&self, actual: &T) -> (r: MatchResult) {
        match self.inner.check(actual) {
            MatchResult::Failed { reason, .. } => {
                MatchResult::Failed { name: self.name.clone(), reason }
            },
            r => r,
        }
    }
}

/// Creates a matcher with a new name from a given matcher.
///
/// The returned matcher executes the passed one and replaces the name of a
/// failed result with the given `name`.
pub fn rename_matcher<M>(name: String, matcher: M) -> (r: Renamed<M>)
    ensures
        r.new_name() == name@,
        r.inner() == matcher,
{
    Renamed { name, inner: matcher }
}

/// Renders a value through `core::fmt::Debug`, for failure diagnostics.
/// Relies on std's `format!`; nothing is assumed about the resulting text.
#[verifier::external_body]
pub(crate) fn debug_string<T: core::fmt::Debug + ?Sized>(value: &T) -> String {
    format!("{:?}", value)
}

/// A builder for `MatchResult`s.
///
/// Create one with `new()` or `for_()` and finish it with `matched()`,
/// `failed_because()` or `failed_comparison()`.
pub struct MatchResultBuilder {
    matcher_name: String,
}

impl MatchResultBuilder {
    /// The matcher name the builder was created with.
    pub closed spec fn name(&self) -> Seq<char> {
        self.matcher_name@
    }

    /// Creates a builder for an anonymous matcher.
    pub fn new() -> (r: MatchResultBuilder)
        ensures
            r.name() == "_unknown_"@,
    {
        MatchResultBuilder { matcher_name: String::from_str("_unknown_") }
    }

    /// Creates a builder for a matcher with the given `name`.
    pub fn for_(name: &str) -> (r: MatchResultBuilder)
        ensures
            r.name() == name@,
    {
        MatchResultBuilder { matcher_name: String::from_str(name) }
    }

    /// Finishes the builder: the matcher matched the inspected value.
    pub fn matched(self) -> (r: MatchResult)
        ensures
            r is Matched,
            r.spec_name() == self.name(),
    {
        MatchResult::Matched { name: self.matcher_name }
    }

    /// Finishes the builder: the matcher failed, for the given `reason`.
    pub fn failed_because(self, reason: &str) -> (r: MatchResult)
        ensures
            r is Failed,
            r.spec_name() == self.name(),
            r.spec_reason() == "  Because: "@ + reason@,
    {
        MatchResult::Failed {
            name: self.matcher_name,
            reason: String::from_str("  Because: ").concat(reason),
        }
    }

    /// Finishes the builder: the matcher failed, showing the `actual` and
    /// `expected` values in the diagnostic.
    pub fn failed_comparison<T: core::fmt::Debug>(self, actual: &T, expected: &T) -> (r:
        MatchResult)
        ensures
            r is Failed,
            r.spec_name() == self.name(),
    {
        let reason = String::from_str("  Expected: ").concat(
            debug_string(expected).as_str(),
        ).concat("\n  Got: ").concat(debug_string(actual).as_str());
        MatchResult::Failed { name: self.matcher_name, reason }
    }
}

impl core::convert::From<bool> for MatchResult {
    /// `true` converts to a match, `false` to an anonymous failure.
    fn from(result: bool) -> (r: MatchResult)
        ensures
            (r is Matched) <==> result,
    {
        if result {
            MatchResultBuilder::new().matched()
        } else {
            MatchResultBuilder::new().failed_because("Boolean expression evaluated to false")
        }
    }
}

impl vstd::std_specs::convert::FromSpecImpl<bool> for MatchResult {
    /// The exact result value holds a freshly built `String`, which the
    /// specification cannot pin down; the verdict is stated on `from`
    /// itself.
    open spec fn obeys_from_spec() -> bool {
        false
    }

    open spec fn from_spec(v: bool) -> MatchResult {
        vstd::pervasive::arbitrary()
    }
}

impl<T> core::convert::From<Option<T>> for MatchResult {
    /// A `Some` converts to a match, a `None` to an anonymous failure.
    fn from(result: Option<T>) -> (r: MatchResult)
        ensures
            (r is Matched) <==> (result is Some),
    {
        match result {
            Some(..) => MatchResultBuilder::new().matched(),
            None => MatchResultBuilder::new().failed_because("Option was `None`"),
        }
    }
}

impl<T> vstd::std_specs::convert::FromSpecImpl<Option<T>> for MatchResult {
    /// The exact result value holds a freshly built `String`, which the
    /// specification cannot pin down; the verdict is stated on `from`
    /// itself.
    open spec fn obeys_from_spec() -> bool {
        false
    }

    open spec fn from_spec(v: Option<T>) -> MatchResult {
        vstd::pervasive::arbitrary()
    }
}

impl<T, E: core::fmt::Debug> core::convert::From<Result<T, E>> for MatchResult {
    /// An `Ok` converts to a match, an `Err` to a failure showing the
    /// error.
    fn from(result: Result<T, E>) -> (r: MatchResult)
        ensures
            (r is Matched) <==> (result is Ok),
    {
        match result {
            Ok(..) => MatchResultBuilder::new().matched(),
            Err(err) => MatchResultBuilder::new().failed_because(debug_string(&err).as_str()),
        }
    }
}

impl<T, E: core::fmt::Debug> vstd::std_specs::convert::FromSpecImpl<Result<T, E>> for MatchResult {
    /// The exact result value holds a freshly built `String`, which the
    /// specification cannot pin down; the verdict is stated on `from`
    /// itself.
    open spec fn obeys_from_spec() -> bool {
        false
    }

    open spec fn from_spec(v: Result<T, E>) -> MatchResult {
        vstd::pervasive::arbitrary()
    }
}

impl core::convert::From<MatchResult> for bool {
    /// A result converts to whether it reports a match.
    fn from(result: MatchResult) -> (b: bool)
        ensures
            b == (result is Matched),
    {
        match result {
            MatchResult::Matched { .. } => true,
            MatchResult::Failed { .. } => false,
        }
    }
}

impl vstd::std_specs::convert::FromSpecImpl<MatchResult> for bool {
    open spec fn obeys_from_spec() -> bool {
        true
    }

    open spec fn from_spec(v: MatchResult) -> bool {
        v is Matched
    }
}

impl<'a> core::convert::From<&'a MatchResult> for bool {
    /// A result converts to whether it reports a match.
    fn from(result: &'a MatchResult) -> (b: bool)
        ensures
            b == (*result is Matched),
    {
        match result {
            MatchResult::Matched { .. } => true,
            MatchResult::Failed { .. } => false,
        }
    }
}

impl<'a> vstd::std_specs::convert::FromSpecImpl<&'a MatchResult> for bool {
    open spec fn obeys_from_spec() -> bool {
        true
    }

    open spec fn from_spec(v: &'a MatchResult) -> bool {
        *v is Matched
    }
}

/// The recorded outcome of a deferred assertion.
///
/// Construction evaluates the assertion immediately; only the reporting is
/// deferred.  The two states are terminal: nothing changes an expectation
/// after it is built.  For this reason two expectations are independent,
/// and each failure is reported whatever became of the other.
pub enum Expectation {
    /// The assertion failed.
    Failed {
        /// A representation of the failed assertion.
        assertion: String,
        /// The file the expectation was created in.
        file: String,
        /// The source line the expectation was created at.
        line: u32,
        /// Why the expectation was not met.
        error_msg: String,
    },
    /// The assertion held.
    Satisfied,
}

impl Expectation {
    /// Creates a failed expectation.
    pub fn failed(assertion: String, file: String, line: u32, error_msg: String) -> (e:
        Expectation)
        ensures
            e == (Expectation::Failed { assertion, file, line, error_msg }),
    {
        Expectation::Failed { assertion, file, line, error_msg }
    }

    /// Creates a satisfied expectation.
    pub fn satisfied() -> (e: Expectation)
        ensures
            e == Expectation::Satisfied,
    {
        Expectation::Satisfied
    }

    /// Whether the expectation records a failure.
    pub fn is_failed(&self) -> (b: bool)
        ensures
            b == (*self is Failed),
    {
        matches!(self, Expectation::Failed { .. })
    }

    /// Verifies that the assertion recorded by the expectation held.
    ///
    /// Only a satisfied expectation may be verified: on a failed one this
    /// does not return.
    pub fn verify(self)
        requires
            self is Satisfied,
    {
        match self {
            Expectation::Satisfied => (),
            Expectation::Failed { .. } => vstd::pervasive::unreached(),
        }
    }
}

} // verus!
