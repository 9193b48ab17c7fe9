//! Matchers over `Option` and `Result` values: each unwraps the inspected
//! value and applies a nested matcher to its content, failing when the
//! value holds the other variant.

use vstd::prelude::*;

use crate::Matcher;
use crate::MatchResult;
use crate::MatchResultBuilder;

verus! {

/// Matches the content of an `Option` against a nested matcher; fails on
/// `None`.
pub struct MaybeSome<M> {
    /// The matcher applied to the content of a `Some`.
    pub inner: M,
}

impl<T, M: Matcher<T>> Matcher<Option<T>> for MaybeSome<M> {
    open spec fn reliable(&self) -> bool {
        self.inner.reliable()
    }

    open spec fn check_req(&self, actual: Option<T>) -> bool {
        match actual {
            Some(x) => self.inner.check_req(x),
            None => true,
        }
    }

    /// The value is a `Some` whose content the nested matcher accepts.
    open spec fn spec_matches(&self, actual: Option<T>) -> bool {
        match actual {
            Some(x) => self.inner.spec_matches(x),
            None => false,
        }
    }

    open spec fn spec_name(&self, actual: Option<T>) -> Seq<char> {
        match actual {
            Some(x) => self.inner.spec_name(x),
            None => "maybe_some"@,
        }
    }

    open spec fn on_match(&self, actual: Option<T>) -> bool {
        match actual {
            Some(x) => self.inner.on_match(x),
            None => true,
        }
    }

    fn check(&self, actual: &Option<T>) -> (r: MatchResult) {
        match actual {
            Some(x) => self.inner.check(x),
            None => MatchResultBuilder::for_("maybe_some").failed_because(
                "passed Option is None; cannot evaluate nested matcher",
            ),
        }
    }
}

/// Matches the content of an `Option` against the given matcher.
pub fn maybe_some<M>(matcher: M) -> (m: MaybeSome<M>)
    ensures
        m.inner == matcher,
{
    MaybeSome { inner: matcher }
}

/// Matches the content of an `Ok` against a nested matcher; fails on `Err`.
pub struct MaybeOk<M> {
    /// The matcher applied to the content of an `Ok`.
    pub inner: M,
}

impl<T, E, M: Matcher<T>> Matcher<Result<T, E>> for MaybeOk<M> {
    open spec fn reliable(&self) -> bool {
        self.inner.reliable()
    }

    open spec fn check_req(&self, actual: Result<T, E>) -> bool {
        match actual {
            Ok(x) => self.inner.check_req(x),
            Err(_) => true,
        }
    }

    /// The value is an `Ok` whose content the nested matcher accepts.
    open spec fn spec_matches(&self, actual: Result<T, E>) -> bool {
        match actual {
            Ok(x) => self.inner.spec_matches(x),
            Err(_) => false,
        }
    }

    open spec fn spec_name(&self, actual: Result<T, E>) -> Seq<char> {
        match actual {
            Ok(x) => self.inner.spec_name(x),
            Err(_) => "maybe_ok"@,
        }
    }

    open spec fn on_match(&self, actual: Result<T, E>) -> bool {
        match actual {
            Ok(x) => self.inner.on_match(x),
            Err(_) => true,
        }
    }

    fn check(&self, actual: &Result<T, E>) -> (r: MatchResult) {
        match actual {
            Ok(x) => self.inner.check(x),
            Err(_) => MatchResultBuilder::for_("maybe_ok").failed_because(
                "passed Result is Err; cannot evaluate nested matcher",
            ),
        }
    }
}

/// Matches the content of an `Ok` against the given matcher.
pub fn maybe_ok<M>(matcher: M) -> (m: MaybeOk<M>)
    ensures
        m.inner == matcher,
{
    MaybeOk { inner: matcher }
}

/// Matches the content of an `Err` against a nested matcher; fails on `Ok`.
pub struct MaybeErr<M> {
    /// The matcher applied to the content of an `Err`.
    pub inner: M,
}

impl<T, E, M: Matcher<E>> Matcher<Result<T, E>> for MaybeErr<M> {
    open spec fn reliable(&self) -> bool {
        self.inner.reliable()
    }

    open spec fn check_req(&self, actual: Result<T, E>) -> bool {
        match actual {
            Ok(_) => true,
            Err(e) => self.inner.check_req(e),
        }
    }

    /// The value is an `Err` whose content the nested matcher accepts.
    open spec fn spec_matches(&self, actual: Result<T, E>) -> bool {
        match actual {
            Ok(_) => false,
            Err(e) => self.inner.spec_matches(e),
        }
    }

    open spec fn spec_name(&self, actual: Result<T, E>) -> Seq<char> {
        match actual {
            Ok(_) => "maybe_err"@,
            Err(e) => self.inner.spec_name(e),
        }
    }

    open spec fn on_match(&self, actual: Result<T, E>) -> bool {
        match actual {
            Ok(_) => true,
            Err(e) => self.inner.on_match(e),
        }
    }

    fn check(&self, actual: &Result<T, E>) -> (r: MatchResult) {
        match actual {
            Ok(_) => MatchResultBuilder::for_("maybe_err").failed_because(
                "passed Result is Ok; cannot evaluate nested matcher",
            ),
            Err(e) => self.inner.check(e),
        }
    }
}

/// Matches the content of an `Err` against the given matcher.
pub fn maybe_err<M>(matcher: M) -> (m: MaybeErr<M>)
    ensures
        m.inner == matcher,
{
    MaybeErr { inner: matcher }
}

} // verus!
