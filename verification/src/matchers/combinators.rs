//! Combinators joining several matchers over one input type: `All` checks
//! them conjunctively, `Any` disjunctively.  Both are built incrementally,
//! `All::of(m1).and(m2)` and `Any::of(m1).or(m2)`, and evaluate left to
//! right with short-circuit.

use vstd::prelude::*;

use crate::Matcher;
use crate::MatchResult;
use crate::MatchResultBuilder;

verus! {

/// Two matchers evaluated in sequence; both must match.
///
/// `check` evaluates `first`, and `second` only if `first` matched.  On
/// failure the result is that of the first failing matcher.
pub struct Conj<A, B> {
    /// The matcher evaluated first.
    pub first: A,
    /// The matcher evaluated second.
    pub second: B,
}

impl<T, A: Matcher<T>, B: Matcher<T>> Matcher<T> for Conj<A, B> {
    open spec fn reliable(&self) -> bool {
        self.first.reliable() && self.second.reliable()
    }

    open spec fn check_req(&self, actual: T) -> bool {
        self.first.check_req(actual) && self.second.check_req(actual)
    }

    open spec fn spec_matches(&self, actual: T) -> bool {
        self.first.spec_matches(actual) && self.second.spec_matches(actual)
    }

    /// The name of the first failing matcher; on a match, of the last one.
    open spec fn spec_name(&self, actual: T) -> Seq<char> {
        if !self.first.spec_matches(actual) {
            self.first.spec_name(actual)
        } else {
            self.second.spec_name(actual)
        }
    }

    fn check(&self, actual: &T) -> (r: MatchResult) {
        let r1 = self.first.check(actual);
        if r1.is_matched() {
            self.second.check(actual)
        } else {
            r1
        }
    }
}

/// A matcher joining multiple matchers conjunctively.
///
/// Use `of()` to create one and `and()` to add further matchers.
pub struct All<M> {
    /// The combined matcher checked by this combinator.
    pub matcher: M,
}

impl<M> All<M> {
    /// Creates a conjunctive matcher starting with the given matcher.
    pub fn of(matcher: M) -> (r: All<M>)
        ensures
            r.matcher == matcher,
    {
        All { matcher }
    }

    /// Adds the given matcher conjunctively, evaluated after the present
    /// ones.
    pub fn and<N>(self, matcher: N) -> (r: All<Conj<M, N>>)
        ensures
            r.matcher.first == self.matcher,
            r.matcher.second == matcher,
    {
        All { matcher: Conj { first: self.matcher, second: matcher } }
    }
}

impl<T, M: Matcher<T>> Matcher<T> for All<M> {
    open spec fn reliable(&self) -> bool {
        self.matcher.reliable()
    }

    open spec fn check_req(&self, actual: T) -> bool {
        self.matcher.check_req(actual)
    }

    open spec fn spec_matches(&self, actual: T) -> bool {
        self.matcher.spec_matches(actual)
    }

    open spec fn spec_name(&self, actual: T) -> Seq<char> {
        self.matcher.spec_name(actual)
    }

    fn check(&self, actual: &T) -> (r: MatchResult) {
        self.matcher.check(actual)
    }
}

/// `All::of(m1).and(m2)` matches a value exactly when both `m1` and `m2`
/// match it; where it fails, its diagnostic is the first failing matcher's:
/// `m1`'s if `m1` fails, else `m2`'s.
pub proof fn lemma_all_of_and<T, A: Matcher<T>, B: Matcher<T>>(c: All<Conj<A, B>>, v: T)
    ensures
        c.spec_matches(v) <==> (c.matcher.first.spec_matches(v)
            && c.matcher.second.spec_matches(v)),
        !c.matcher.first.spec_matches(v) ==> c.spec_name(v) == c.matcher.first.spec_name(v),
        c.matcher.first.spec_matches(v) && !c.matcher.second.spec_matches(v) ==> c.spec_name(v)
            == c.matcher.second.spec_name(v),
{
}

/// Two matchers evaluated in sequence; one match suffices.
///
/// `check` evaluates `first`, and `second` only if `first` failed.  A match
/// is reported under the combinator's own name; a failure is the second
/// matcher's, the last evaluated.
pub struct Disj<A, B> {
    /// The matcher evaluated first.
    pub first: A,
    /// The matcher evaluated second.
    pub second: B,
}

impl<T, A: Matcher<T>, B: Matcher<T>> Matcher<T> for Disj<A, B> {
    open spec fn reliable(&self) -> bool {
        self.first.reliable() && self.second.reliable()
    }

    open spec fn check_req(&self, actual: T) -> bool {
        self.first.check_req(actual) && self.second.check_req(actual)
    }

    open spec fn spec_matches(&self, actual: T) -> bool {
        self.first.spec_matches(actual) || self.second.spec_matches(actual)
    }

    /// The combinator's own name on a match; the last failure's name
    /// otherwise.
    open spec fn spec_name(&self, actual: T) -> Seq<char> {
        if self.spec_matches(actual) {
            "any_of"@
        } else {
            self.second.spec_name(actual)
        }
    }

    fn check(&self, actual: &T) -> (r: MatchResult) {
        let r1 = self.first.check(actual);
        if r1.is_matched() {
            return MatchResultBuilder::for_("any_of").matched();
        }
        let r2 = self.second.check(actual);
        if r2.is_matched() {
            MatchResultBuilder::for_("any_of").matched()
        } else {
            r2
        }
    }
}

/// A matcher joining multiple matchers disjunctively.
///
/// Use `of()` to create one and `or()` to add further matchers.
pub struct Any<M> {
    /// The combined matcher checked by this combinator.
    pub matcher: M,
}

impl<M> Any<M> {
    /// Creates a disjunctive matcher starting with the given matcher.
    pub fn of(matcher: M) -> (r: Any<M>)
        ensures
            r.matcher == matcher,
    {
        Any { matcher }
    }

    /// Adds the given matcher disjunctively, evaluated after the present
    /// ones.
    pub fn or<N>(self, matcher: N) -> (r: Any<Disj<M, N>>)
        ensures
            r.matcher.first == self.matcher,
            r.matcher.second == matcher,
    {
        Any { matcher: Disj { first: self.matcher, second: matcher } }
    }
}

impl<T, M: Matcher<T>> Matcher<T> for Any<M> {
    open spec fn reliable(&self) -> bool {
        self.matcher.reliable()
    }

    open spec fn check_req(&self, actual: T) -> bool {
        self.matcher.check_req(actual)
    }

    open spec fn spec_matches(&self, actual: T) -> bool {
        self.matcher.spec_matches(actual)
    }

    /// The combinator's own name on a match; the failure's name otherwise.
    open spec fn spec_name(&self, actual: T) -> Seq<char> {
        if self.spec_matches(actual) {
            "any_of"@
        } else {
            self.matcher.spec_name(actual)
        }
    }

    fn check(&self, actual: &T) -> (r: MatchResult) {
        let inner = self.matcher.check(actual);
        if inner.is_matched() {
            MatchResultBuilder::for_("any_of").matched()
        } else {
            inner
        }
    }
}

/// `Any::of(m1).or(m2)` matches a value exactly when at least one of `m1`,
/// `m2` matches it; where it fails, both failed, and its diagnostic is
/// `m2`'s, the last evaluated.
pub proof fn lemma_any_of_or<T, A: Matcher<T>, B: Matcher<T>>(d: Any<Disj<A, B>>, v: T)
    ensures
        d.spec_matches(v) <==> (d.matcher.first.spec_matches(v)
            || d.matcher.second.spec_matches(v)),
        (!d.matcher.first.spec_matches(v) && !d.matcher.second.spec_matches(v)) ==> d.spec_name(v)
            == d.matcher.second.spec_name(v),
{
}

} // verus!
