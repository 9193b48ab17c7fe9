//! Matchers over collections and maps: element containment, order,
//! sortedness, elementwise predicates and key/value lookup.
//!
//! Collection matchers inspect a `Vec` of elements; map matchers inspect a
//! `HashMap` or a `BTreeMap`.  Their meaning is stated over the mathematical
//! view of the collection: a sequence, a multiset, or a map.

use vstd::prelude::*;
use vstd::laws_cmp::obeys_cmp;
use vstd::laws_eq::obeys_concrete_eq;
use vstd::multiset::Multiset;
use vstd::seq_lib::lemma_multiset_commutative;
use vstd::string::StringExecFns;
use vstd::std_specs::cmp::OrdSpec;
use vstd::std_specs::cmp::PartialOrdSpec;
use vstd::std_specs::hash::builds_valid_hashers;
use vstd::std_specs::hash::obeys_key_model;
use vstd::std_specs::cmp::PartialEqSpec;

use core::cmp::Ordering;

use std::collections::BTreeMap;
use std::collections::HashMap;

use crate::debug_string;
use crate::rename_matcher;
use crate::Matcher;
use crate::MatchResult;
use crate::MatchResultBuilder;
use crate::Renamed;

verus! {

broadcast use vstd::seq_lib::group_to_multiset_ensures, vstd::multiset::group_multiset_axioms, vstd::std_specs::hash::group_hash_axioms, vstd::std_specs::btree::group_btree_axioms, vstd::set::group_set_axioms;

/// Under `obeys_concrete_eq`, the executable `==` on `T` agrees with
/// mathematical equality.
proof fn concrete_eq_facts<T: PartialEq>()
    requires
        obeys_concrete_eq::<T>(),
    ensures
        T::obeys_eq_spec(),
        forall|x: T, y: T| #[trigger] x.eq_spec(&y) <==> x == y,
{
    reveal(obeys_concrete_eq);
}

/// The index of the first element of `hay` equal to `needle`, if any.
#[verifier::loop_isolation(false)]
fn position_of_ref<T: PartialEq>(hay: &Vec<&T>, needle: &T) -> (r: Option<usize>)
    ensures
        r matches Some(j) ==> 0 <= j < hay@.len(),
        obeys_concrete_eq::<T>() ==> match r {
            Some(j) => 0 <= j < hay@.len() && *hay@[j as int] == *needle,
            None => forall|k: int| 0 <= k < hay@.len() ==> *hay@[k] != *needle,
        },
{
    proof {
        if obeys_concrete_eq::<T>() {
            concrete_eq_facts::<T>();
        }
    }
    let mut j: usize = 0;
    while j < hay.len()
        invariant
            j <= hay@.len(),
            obeys_concrete_eq::<T>() ==> forall|k: int| 0 <= k < j ==> *hay@[k] != *needle,
            obeys_concrete_eq::<T>() ==> T::obeys_eq_spec() && (forall|x: T, y: T|
                #[trigger] x.eq_spec(&y) <==> x == y),
        decreases hay@.len() - j,
    {
        if *hay[j] == *needle {
            return Some(j);
        }
        j += 1;
    }
    None
}

/// Matches if the inspected collection holds all and only the expected
/// elements, in any order.
pub struct ContainsInAnyOrder<T> {
    expected_elements: Vec<T>,
}

impl<T> ContainsInAnyOrder<T> {
    /// The elements the matcher expects.
    pub closed spec fn expected(&self) -> Seq<T> {
        self.expected_elements@
    }
}

impl<T: PartialEq + core::fmt::Debug> Matcher<Vec<T>> for ContainsInAnyOrder<T> {
    /// The verdict is pinned when `==` on `T` agrees with mathematical
    /// equality.
    open spec fn reliable(&self) -> bool {
        obeys_concrete_eq::<T>()
    }

    open spec fn check_req(&self, actual: Vec<T>) -> bool {
        true
    }

    /// The inspected elements and the expected elements form the same
    /// multiset.
    open spec fn spec_matches(&self, actual: Vec<T>) -> bool {
        actual@.to_multiset() == self.expected().to_multiset()
    }

    open spec fn spec_name(&self, actual: Vec<T>) -> Seq<char> {
        "contains_in_any_order"@
    }

    #[verifier::loop_isolation(false)]
    fn check(&self, actual: &Vec<T>) -> (r: MatchResult) {
        let builder = MatchResultBuilder::for_("contains_in_any_order");
        let ghost expected_ms = self.expected().to_multiset();

        let mut remaining: Vec<&T> = Vec::new();
        let mut k: usize = 0;
        while k < self.expected_elements.len()
            invariant
                k <= self.expected_elements@.len(),
                remaining@.unref() == self.expected_elements@.subrange(0, k as int),
            decreases self.expected_elements@.len() - k,
        {
            remaining.push(&self.expected_elements[k]);
            proof {
                assert(remaining@.unref() =~= self.expected_elements@.subrange(0, k + 1));
            }
            k += 1;
        }
        proof {
            assert(self.expected_elements@.subrange(0, self.expected_elements@.len() as int)
                =~= self.expected_elements@);
        }

        let mut i: usize = 0;
        while i < actual.len()
            invariant
                i <= actual@.len(),
                obeys_concrete_eq::<T>() ==> remaining@.unref().to_multiset().add(
                    actual@.subrange(0, i as int).to_multiset(),
                ) == expected_ms,
                expected_ms == self.expected().to_multiset(),
            decreases actual@.len() - i,
        {
            let ghost prefix = actual@.subrange(0, i as int);
            let ghost rem_seq = remaining@.unref();
            let element = &actual[i];
            let maybe_pos = position_of_ref(&remaining, element);
            if let Some(idx) = maybe_pos {
                remaining.remove(idx);
                proof {
                    if obeys_concrete_eq::<T>() {
                        assert(remaining@.unref() =~= rem_seq.remove(idx as int));
                        assert(rem_seq[idx as int] == actual@[i as int]);
                        assert(actual@.subrange(0, i + 1) =~= prefix.push(actual@[i as int]));
                        assert(rem_seq.to_multiset().contains(actual@[i as int]));
                        assert(remaining@.unref().to_multiset().add(
                            actual@.subrange(0, i + 1).to_multiset(),
                        ) =~= rem_seq.to_multiset().add(prefix.to_multiset()));
                    }
                }
            } else {
                proof {
                    if obeys_concrete_eq::<T>() {
                        let e = actual@[i as int];
                        assert(!rem_seq.contains(e));
                        assert(rem_seq.to_multiset().count(e) == 0);
                        assert(expected_ms.count(e) == prefix.to_multiset().count(e));
                        let suffix = actual@.subrange(i as int, actual@.len() as int);
                        assert(suffix.len() == actual@.len() - i);
                        assert(actual@ =~= prefix + suffix);
                        lemma_multiset_commutative(prefix, suffix);
                        assert(suffix[0] == e);
                        assert(suffix.contains(e));
                        assert(actual@.to_multiset().count(e) != expected_ms.count(e));
                    }
                }
                let reason = debug_string(actual).concat(
                    " contains an unexpected element: ",
                ).concat(debug_string(element).as_str());
                return builder.failed_because(reason.as_str());
            }
            i += 1;
        }
        proof {
            assert(actual@.subrange(0, actual@.len() as int) =~= actual@);
        }

        if !remaining.is_empty() {
            proof {
                if obeys_concrete_eq::<T>() {
                    assert(remaining@.unref().len() == remaining@.len());
                    assert(expected_ms.len() == remaining@.unref().to_multiset().len()
                        + actual@.to_multiset().len());
                }
            }
            let reason = debug_string(actual).concat(
                " did not contain the following elements: ",
            ).concat(debug_string(&remaining).as_str());
            builder.failed_because(reason.as_str())
        } else {
            proof {
                if obeys_concrete_eq::<T>() {
                    assert(remaining@.unref().len() == 0);
                    assert(remaining@.unref().to_multiset().len() == 0);
                    assert(remaining@.unref().to_multiset() =~= Multiset::<T>::empty());
                    assert(Multiset::<T>::empty().add(actual@.to_multiset())
                        =~= actual@.to_multiset());
                }
            }
            builder.matched()
        }
    }
}

/// Matches if the inspected collection holds all and only the expected
/// elements, in any order.
pub fn contains_in_any_order<T: PartialEq + core::fmt::Debug>(expected_elements: Vec<T>) -> (m:
    ContainsInAnyOrder<T>)
    ensures
        m.expected() == expected_elements@,
{
    ContainsInAnyOrder { expected_elements }
}

/// The verdict of `contains_in_any_order` depends only on the multiset of
/// inspected elements: collections that are permutations of one another
/// match alike.
pub proof fn lemma_contains_in_any_order_ignores_order<T: PartialEq + core::fmt::Debug>(
    m: ContainsInAnyOrder<T>,
    v1: Vec<T>,
    v2: Vec<T>,
)
    requires
        v1@.to_multiset() == v2@.to_multiset(),
    ensures
        m.spec_matches(v1) == m.spec_matches(v2),
{
}

/// Matches if the inspected collection holds all and only the expected
/// elements, in the expected order.
pub struct ContainsInOrder<T> {
    expected_elements: Vec<T>,
}

impl<T> ContainsInOrder<T> {
    /// The elements the matcher expects.
    pub closed spec fn expected(&self) -> Seq<T> {
        self.expected_elements@
    }
}

impl<T: PartialEq + core::fmt::Debug> Matcher<Vec<T>> for ContainsInOrder<T> {
    /// The verdict is pinned when `==` on `T` agrees with mathematical
    /// equality.
    open spec fn reliable(&self) -> bool {
        obeys_concrete_eq::<T>()
    }

    open spec fn check_req(&self, actual: Vec<T>) -> bool {
        true
    }

    /// The inspected elements equal the expected elements, in order.
    open spec fn spec_matches(&self, actual: Vec<T>) -> bool {
        actual@ == self.expected()
    }

    open spec fn spec_name(&self, actual: Vec<T>) -> Seq<char> {
        "contains_in_order"@
    }

    #[verifier::loop_isolation(false)]
    fn check(&self, actual: &Vec<T>) -> (r: MatchResult) {
        let builder = MatchResultBuilder::for_("contains_in_order");
        proof {
            if obeys_concrete_eq::<T>() {
                concrete_eq_facts::<T>();
            }
        }

        if actual.len() > self.expected_elements.len() {
            let reason = String::from_str(
                "The expected list is shorter than the actual list by ",
            ).concat(debug_string(&(actual.len() - self.expected_elements.len())).as_str()).concat(
                " elements",
            );
            return builder.failed_because(reason.as_str());
        }
        if actual.len() < self.expected_elements.len() {
            let reason = String::from_str(
                "The actual list is shorter than the expected list by ",
            ).concat(debug_string(&(self.expected_elements.len() - actual.len())).as_str()).concat(
                " elements",
            );
            return builder.failed_because(reason.as_str());
        }

        let mut nonmatching: Vec<(&T, &T)> = Vec::new();
        let mut i: usize = 0;
        while i < actual.len()
            invariant
                i <= actual@.len(),
                actual@.len() == self.expected().len(),
                obeys_concrete_eq::<T>() ==> ((nonmatching@.len() == 0) <==> (forall|k: int|
                    0 <= k < i ==> actual@[k] == self.expected()[k])),
                obeys_concrete_eq::<T>() ==> T::obeys_eq_spec() && (forall|x: T, y: T|
                    #[trigger] x.eq_spec(&y) <==> x == y),
            decreases actual@.len() - i,
        {
            let act = &actual[i];
            let exp = &self.expected_elements[i];
            if *act != *exp {
                nonmatching.push((act, exp));
            }
            i += 1;
        }

        if !nonmatching.is_empty() {
            proof {
                if obeys_concrete_eq::<T>() {
                    assert(exists|k: int|
                        0 <= k < actual@.len() && actual@[k] != self.expected()[k]);
                }
            }
            let reason = String::from_str(
                "the following actual/expected pairs do not match: ",
            ).concat(debug_string(&nonmatching).as_str());
            builder.failed_because(reason.as_str())
        } else {
            proof {
                if obeys_concrete_eq::<T>() {
                    assert(actual@ =~= self.expected());
                }
            }
            builder.matched()
        }
    }
}

/// Matches if the inspected collection holds all and only the expected
/// elements, in the expected order.
pub fn contains_in_order<T: PartialEq + core::fmt::Debug>(expected_elements: Vec<T>) -> (m:
    ContainsInOrder<T>)
    ensures
        m.expected() == expected_elements@,
{
    ContainsInOrder { expected_elements }
}

/// How many occurrences of `x` are still owed after `taken` of the
/// occurrences in `expected` have been accounted for.
spec fn still_owed<T>(expected: Multiset<T>, taken: Multiset<T>, x: T) -> nat {
    if expected.count(x) > taken.count(x) {
        (expected.count(x) - taken.count(x)) as nat
    } else {
        0
    }
}

/// Matches if the inspected collection holds all of the expected elements,
/// and possibly more.
pub struct ContainsSubset<T> {
    expected_elements: Vec<T>,
}

impl<T> ContainsSubset<T> {
    /// The elements the matcher expects.
    pub closed spec fn expected(&self) -> Seq<T> {
        self.expected_elements@
    }
}

impl<T: PartialEq + core::fmt::Debug> Matcher<Vec<T>> for ContainsSubset<T> {
    /// The verdict is pinned when `==` on `T` agrees with mathematical
    /// equality.
    open spec fn reliable(&self) -> bool {
        obeys_concrete_eq::<T>()
    }

    open spec fn check_req(&self, actual: Vec<T>) -> bool {
        true
    }

    /// The multiset of expected elements is contained in the multiset of
    /// inspected elements.
    open spec fn spec_matches(&self, actual: Vec<T>) -> bool {
        self.expected().to_multiset().subset_of(actual@.to_multiset())
    }

    open spec fn spec_name(&self, actual: Vec<T>) -> Seq<char> {
        "contains_subset"@
    }

    #[verifier::loop_isolation(false)]
    fn check(&self, actual: &Vec<T>) -> (r: MatchResult) {
        let builder = MatchResultBuilder::for_("contains_subset");
        let ghost expected_ms = self.expected().to_multiset();

        let mut remaining: Vec<&T> = Vec::new();
        let mut k: usize = 0;
        while k < self.expected_elements.len()
            invariant
                k <= self.expected_elements@.len(),
                remaining@.unref() == self.expected_elements@.subrange(0, k as int),
            decreases self.expected_elements@.len() - k,
        {
            remaining.push(&self.expected_elements[k]);
            proof {
                assert(remaining@.unref() =~= self.expected_elements@.subrange(0, k + 1));
            }
            k += 1;
        }
        proof {
            assert(self.expected_elements@.subrange(0, self.expected_elements@.len() as int)
                =~= self.expected_elements@);
        }

        let mut i: usize = 0;
        while i < actual.len()
            invariant
                i <= actual@.len(),
                obeys_concrete_eq::<T>() ==> forall|x: T|
                    #[trigger] remaining@.unref().to_multiset().count(x) == still_owed(
                        expected_ms,
                        actual@.subrange(0, i as int).to_multiset(),
                        x,
                    ),
                expected_ms == self.expected().to_multiset(),
            decreases actual@.len() - i,
        {
            let ghost prefix = actual@.subrange(0, i as int);
            let ghost rem_seq = remaining@.unref();
            let element = &actual[i];
            let maybe_pos = position_of_ref(&remaining, element);
            proof {
                assert(actual@.subrange(0, i + 1) =~= prefix.push(actual@[i as int]));
            }
            if let Some(idx) = maybe_pos {
                remaining.remove(idx);
                proof {
                    if obeys_concrete_eq::<T>() {
                        assert(remaining@.unref() =~= rem_seq.remove(idx as int));
                        assert(rem_seq[idx as int] == actual@[i as int]);
                    }
                }
            } else {
                proof {
                    if obeys_concrete_eq::<T>() {
                        let e = actual@[i as int];
                        assert(!rem_seq.contains(e));
                        assert(rem_seq.to_multiset().count(e) == 0);
                    }
                }
            }
            i += 1;
        }
        proof {
            assert(actual@.subrange(0, actual@.len() as int) =~= actual@);
        }

        if !remaining.is_empty() {
            proof {
                if obeys_concrete_eq::<T>() {
                    let x0 = remaining@.unref()[0];
                    assert(remaining@.unref().contains(x0));
                    assert(remaining@.unref().to_multiset().count(x0) > 0);
                    assert(expected_ms.count(x0) > actual@.to_multiset().count(x0));
                }
            }
            let reason = debug_string(actual).concat(
                " did not contain the following elements: ",
            ).concat(debug_string(&remaining).as_str());
            builder.failed_because(reason.as_str())
        } else {
            proof {
                if obeys_concrete_eq::<T>() {
                    assert(remaining@.unref().len() == 0);
                    assert(remaining@.unref().to_multiset().len() == 0);
                    assert forall|x: T| #[trigger] expected_ms.count(x)
                        <= actual@.to_multiset().count(x) by {
                        assert(remaining@.unref().to_multiset().count(x) == 0);
                        assert(still_owed(expected_ms, actual@.to_multiset(), x) == 0);
                    }
                }
            }
            builder.matched()
        }
    }
}

/// Matches if the inspected collection holds all of the expected elements,
/// and possibly more.
pub fn contains_subset<T: PartialEq + core::fmt::Debug>(expected_elements: Vec<T>) -> (m:
    ContainsSubset<T>)
    ensures
        m.expected() == expected_elements@,
{
    ContainsSubset { expected_elements }
}

/// Matches if the inspected value is one of the expected elements.
pub struct ContainedIn<T> {
    expected_to_contain: Vec<T>,
}

impl<T> ContainedIn<T> {
    /// The elements among which the inspected value must occur.
    pub closed spec fn expected(&self) -> Seq<T> {
        self.expected_to_contain@
    }
}

impl<T: PartialEq + core::fmt::Debug> Matcher<T> for ContainedIn<T> {
    /// The verdict is pinned when `==` on `T` agrees with mathematical
    /// equality.
    open spec fn reliable(&self) -> bool {
        obeys_concrete_eq::<T>()
    }

    open spec fn check_req(&self, actual: T) -> bool {
        true
    }

    /// The inspected value occurs among the expected elements.
    open spec fn spec_matches(&self, actual: T) -> bool {
        self.expected().contains(actual)
    }

    open spec fn spec_name(&self, actual: T) -> Seq<char> {
        "containd_in"@
    }

    #[verifier::loop_isolation(false)]
    fn check(&self, actual: &T) -> (r: MatchResult) {
        let builder = MatchResultBuilder::for_("containd_in");
        proof {
            if obeys_concrete_eq::<T>() {
                concrete_eq_facts::<T>();
            }
        }
        let mut j: usize = 0;
        while j < self.expected_to_contain.len()
            invariant
                j <= self.expected().len(),
                obeys_concrete_eq::<T>() ==> forall|k: int| 0 <= k < j
                    ==> self.expected()[k] != *actual,
                obeys_concrete_eq::<T>() ==> T::obeys_eq_spec() && (forall|x: T, y: T|
                    #[trigger] x.eq_spec(&y) <==> x == y),
            decreases self.expected().len() - j,
        {
            let cand = &self.expected_to_contain[j];
            if *actual == *cand {
                proof {
                    if obeys_concrete_eq::<T>() {
                        assert(self.expected()[j as int] == *actual);
                    }
                }
                return builder.matched();
            }
            j += 1;
        }
        let reason = debug_string(&self.expected_to_contain).concat(" does not contain: ").concat(
            debug_string(actual).as_str(),
        );
        builder.failed_because(reason.as_str())
    }
}

/// Matches if the inspected value is one of the expected elements.
pub fn contained_in<T: PartialEq + core::fmt::Debug>(expected_to_contain: Vec<T>) -> (m:
    ContainedIn<T>)
    ensures
        m.expected() == expected_to_contain@,
{
    ContainedIn { expected_to_contain }
}

/// Whether the ordering `o` of a consecutive pair is admissible for a
/// collection sorted in direction `dir`.
///
/// A weakly sorted collection admits equal neighbours; a strictly sorted one
/// does not.
pub open spec fn ord_admits(o: Ordering, dir: Ordering, strict: bool) -> bool {
    if strict {
        o == dir && o != Ordering::Equal
    } else {
        o == dir || o == Ordering::Equal
    }
}

/// Whether every consecutive pair of `s`, ordered by `cmp_spec`, is
/// admissible for direction `dir`.
pub open spec fn pairwise_cmp<T: Ord>(s: Seq<T>, dir: Ordering, strict: bool) -> bool {
    forall|k: int| #![trigger s[k]] 0 <= k < s.len() - 1 ==> ord_admits(
        s[k].cmp_spec(&s[k + 1]),
        dir,
        strict,
    )
}

/// Matches if the inspected collection is sorted in a fixed direction.
pub struct Sorted {
    /// The direction every non-equal consecutive pair must have.
    pub dir: Ordering,
    /// Whether equal consecutive elements are rejected.
    pub strict: bool,
}

/// Returns the ordering of `a` and `b`; the verdict of `Ord::cmp`.
fn cmp_of<T: Ord>(a: &T, b: &T) -> (o: Ordering)
    ensures
        T::obeys_cmp_spec() ==> o == a.cmp_spec(b),
{
    a.cmp(b)
}

/// Whether `a` and `b` are the same ordering.
fn same_ordering(a: Ordering, b: Ordering) -> (r: bool)
    ensures
        r == (a == b),
{
    match (a, b) {
        (Ordering::Less, Ordering::Less) => true,
        (Ordering::Equal, Ordering::Equal) => true,
        (Ordering::Greater, Ordering::Greater) => true,
        _ => false,
    }
}

impl<T: Ord + core::fmt::Debug> Matcher<Vec<T>> for Sorted {
    /// The verdict is pinned when `cmp` on `T` obeys its specification.
    open spec fn reliable(&self) -> bool {
        T::obeys_cmp_spec()
    }

    open spec fn check_req(&self, actual: Vec<T>) -> bool {
        true
    }

    /// Every consecutive pair is admissible for the direction.
    open spec fn spec_matches(&self, actual: Vec<T>) -> bool {
        pairwise_cmp(actual@, self.dir, self.strict)
    }

    open spec fn spec_name(&self, actual: Vec<T>) -> Seq<char> {
        "sorted_according_to"@
    }

    #[verifier::loop_isolation(false)]
    fn check(&self, actual: &Vec<T>) -> (r: MatchResult) {
        let builder = MatchResultBuilder::for_("sorted_according_to");
        if actual.len() == 0 {
            return builder.matched();
        }
        let mut i: usize = 0;
        while i + 1 < actual.len()
            invariant
                i + 1 <= actual@.len(),
                T::obeys_cmp_spec() ==> forall|k: int|
                    #![trigger actual@[k]]
                    0 <= k < i ==> ord_admits(
                        actual@[k].cmp_spec(&actual@[k + 1]),
                        self.dir,
                        self.strict,
                    ),
            decreases actual@.len() - i,
        {
            let o = cmp_of(&actual[i], &actual[i + 1]);
            let fails_direction = !same_ordering(o, self.dir) && !same_ordering(
                o,
                Ordering::Equal,
            );
            if fails_direction {
                let reason = String::from_str("Ordering of iterable is not monotone: ").concat(
                    debug_string(&actual[i]).as_str(),
                ).concat(") not ").concat(debug_string(&self.dir).as_str()).concat(" ").concat(
                    debug_string(&actual[i + 1]).as_str(),
                );
                return builder.failed_because(reason.as_str());
            }
            if self.strict && same_ordering(o, Ordering::Equal) {
                let reason = String::from_str(
                    "Ordering of iterable is not strictly monotone: ",
                ).concat(debug_string(&actual[i]).as_str()).concat(") == ").concat(
                    debug_string(&actual[i + 1]).as_str(),
                );
                return builder.failed_because(reason.as_str());
            }
            i += 1;
        }
        builder.matched()
    }
}

/// Matches if the inspected collection is sorted weakly ascending.
///
/// An empty collection is always sorted.
pub fn sorted_ascending() -> (m: Renamed<Sorted>)
    ensures
        m.new_name() == "sorted_by"@,
        m.inner().dir == Ordering::Less,
        m.inner().strict == false,
{
    rename_matcher(
        String::from_str("sorted_by"),
        Sorted { dir: Ordering::Less, strict: false },
    )
}

/// Matches if the inspected collection is sorted strictly ascending.
///
/// An empty collection is always sorted.
pub fn sorted_strictly_ascending() -> (m: Renamed<Sorted>)
    ensures
        m.new_name() == "sorted_strictly_by"@,
        m.inner().dir == Ordering::Less,
        m.inner().strict == true,
{
    rename_matcher(
        String::from_str("sorted_strictly_by"),
        Sorted { dir: Ordering::Less, strict: true },
    )
}

/// Matches if the inspected collection is sorted weakly descending.
///
/// An empty collection is always sorted.
pub fn sorted_descending() -> (m: Renamed<Sorted>)
    ensures
        m.new_name() == "sorted_by"@,
        m.inner().dir == Ordering::Greater,
        m.inner().strict == false,
{
    rename_matcher(
        String::from_str("sorted_by"),
        Sorted { dir: Ordering::Greater, strict: false },
    )
}

/// Matches if the inspected collection is sorted strictly descending.
///
/// An empty collection is always sorted.
pub fn sorted_strictly_descending() -> (m: Renamed<Sorted>)
    ensures
        m.new_name() == "sorted_strictly_by"@,
        m.inner().dir == Ordering::Greater,
        m.inner().strict == true,
{
    rename_matcher(
        String::from_str("sorted_strictly_by"),
        Sorted { dir: Ordering::Greater, strict: true },
    )
}

/// Empty and singleton collections satisfy every sortedness matcher over a
/// fixed direction, weak or strict.
pub proof fn lemma_sorted_trivial<T: Ord + core::fmt::Debug>(m: Renamed<Sorted>, v: Vec<T>)
    requires
        v@.len() <= 1,
    ensures
        m.spec_matches(v),
{
}

/// A strict sortedness matcher rejects every collection in which two equal
/// elements are neighbours, whatever its direction.
pub proof fn lemma_strict_rejects_equal_neighbours<T: Ord + core::fmt::Debug>(
    m: Renamed<Sorted>,
    v: Vec<T>,
    k: int,
)
    requires
        m.inner().strict,
        obeys_concrete_eq::<T>(),
        obeys_cmp::<T>(),
        0 <= k < v@.len() - 1,
        v@[k] == v@[k + 1],
    ensures
        !m.spec_matches(v),
{
    reveal(obeys_concrete_eq);
    reveal(vstd::laws_cmp::obeys_cmp_partial_ord);
    reveal(vstd::laws_cmp::obeys_cmp_ord);
    assert(v@[k].eq_spec(&v@[k + 1]));
    assert(v@[k].partial_cmp_spec(&v@[k + 1]) == Some(Ordering::Equal));
    assert(v@[k].cmp_spec(&v@[k + 1]) == Ordering::Equal);
    assert(!ord_admits(v@[k].cmp_spec(&v@[k + 1]), m.inner().dir, true));
}

/// The ordering a deterministic two-argument predicate assigns to `a` and
/// `b`, as a specification value.
///
/// Kept opaque: [`lemma_pred_ord_agrees`] ties it to what the predicate
/// actually returned.
#[verifier::opaque]
pub open spec fn pred_ord<T, P: Fn(&T, &T) -> Ordering>(pred: P, a: T, b: T) -> Ordering {
    choose|o: Ordering| call_ensures(pred, (&a, &b), o)
}

/// Whether `pred` is deterministic: any two results its specification
/// allows for the same pair of arguments are equal.
pub open spec fn deterministic_ordering<T, P: Fn(&T, &T) -> Ordering>(pred: P) -> bool {
    forall|a: &T, b: &T, o1: Ordering, o2: Ordering|
        #![trigger call_ensures(pred, (a, b), o1), call_ensures(pred, (a, b), o2)]
        call_ensures(pred, (a, b), o1) && call_ensures(pred, (a, b), o2) ==> o1 == o2
}

/// Whether `pred` may be called on any pair of arguments.
pub open spec fn callable_on_pairs<T, P: Fn(&T, &T) -> Ordering>(pred: P) -> bool {
    forall|a: &T, b: &T| #[trigger] call_requires(pred, (a, b))
}

/// Whether every consecutive pair of `s`, ordered by `pred`, is admissible
/// for direction `dir`.
pub open spec fn pairwise_by<T, P: Fn(&T, &T) -> Ordering>(
    pred: P,
    s: Seq<T>,
    dir: Ordering,
    strict: bool,
) -> bool {
    forall|k: int| #![trigger pred_ord(pred, s[k], s[k + 1])] 0 <= k < s.len() - 1 ==> ord_admits(
        pred_ord(pred, s[k], s[k + 1]),
        dir,
        strict,
    )
}

/// A result the predicate actually returned for a pair is the ordering
/// `pred_ord` assigns to it, as long as the predicate is deterministic.
pub proof fn lemma_pred_ord_agrees<T, P: Fn(&T, &T) -> Ordering>(pred: P, a: T, b: T, o: Ordering)
    requires
        deterministic_ordering(pred),
        call_ensures(pred, (&a, &b), o),
    ensures
        pred_ord(pred, a, b) == o,
{
    reveal(pred_ord);
    let picked = choose|o2: Ordering| call_ensures(pred, (&a, &b), o2);
    assert(call_ensures(pred, (&a, &b), picked));
}

/// One inadmissible pair refutes `pairwise_by`.
proof fn lemma_pairwise_by_counterexample<T, P: Fn(&T, &T) -> Ordering>(
    pred: P,
    s: Seq<T>,
    dir: Ordering,
    strict: bool,
    k: int,
)
    requires
        0 <= k < s.len() - 1,
        !ord_admits(pred_ord(pred, s[k], s[k + 1]), dir, strict),
    ensures
        !pairwise_by(pred, s, dir, strict),
{
}

/// Matches if the inspected collection is sorted according to a supplied
/// ordering predicate.
///
/// The predicate is applied to every consecutive pair of elements.  With a
/// fixed expected ordering, every non-equal pair must have it; without one,
/// the first non-equal pair establishes the direction and every later
/// non-equal pair must agree.  The strict variants also reject equal pairs.
pub struct SortedBy<P> {
    /// The ordering predicate applied to consecutive pairs.
    pub pred: P,
    /// The expected direction, or `None` to accept either direction.
    pub expected: Option<Ordering>,
    /// Whether equal consecutive elements are rejected.
    pub strict: bool,
}

impl<T: core::fmt::Debug, P: Fn(&T, &T) -> Ordering> Matcher<Vec<T>> for SortedBy<P> {
    /// The verdict is pinned when the predicate is deterministic.
    open spec fn reliable(&self) -> bool {
        deterministic_ordering(self.pred)
    }

    /// The predicate must be callable on every pair of elements.
    open spec fn check_req(&self, actual: Vec<T>) -> bool {
        callable_on_pairs(self.pred)
    }

    /// With an expected direction, every consecutive pair is admissible for
    /// it; without one, all pairs are admissible for one single direction.
    open spec fn spec_matches(&self, actual: Vec<T>) -> bool {
        match self.expected {
            Some(dir) => pairwise_by(self.pred, actual@, dir, self.strict),
            None => pairwise_by(self.pred, actual@, Ordering::Less, self.strict) || pairwise_by(
                self.pred,
                actual@,
                Ordering::Greater,
                self.strict,
            ),
        }
    }

    open spec fn spec_name(&self, actual: Vec<T>) -> Seq<char> {
        "sorted_according_to"@
    }

    #[verifier::loop_isolation(false)]
    #[verifier::rlimit(30)]
    fn check(&self, actual: &Vec<T>) -> (r: MatchResult) {
        let builder = MatchResultBuilder::for_("sorted_according_to");
        if actual.len() == 0 {
            return builder.matched();
        }
        let mut prev_ordering: Option<Ordering> = self.expected;
        let mut i: usize = 0;
        while i + 1 < actual.len()
            invariant
                i + 1 <= actual@.len(),
                self.expected is Some ==> prev_ordering == self.expected,
                self.expected is None && self.strict && prev_ordering is None ==> i == 0,
                deterministic_ordering(self.pred) ==> match prev_ordering {
                    Some(d) => {
                        &&& (self.expected is None ==> d != Ordering::Equal && (exists|k: int|
                            #![trigger pred_ord(self.pred, actual@[k], actual@[k + 1])]
                            0 <= k < i && pred_ord(self.pred, actual@[k], actual@[k + 1]) == d))
                        &&& forall|k: int|
                            #![trigger pred_ord(self.pred, actual@[k], actual@[k + 1])]
                            0 <= k < i ==> ord_admits(
                                pred_ord(self.pred, actual@[k], actual@[k + 1]),
                                d,
                                self.strict,
                            )
                    },
                    None => forall|k: int|
                        #![trigger pred_ord(self.pred, actual@[k], actual@[k + 1])]
                        0 <= k < i ==> pred_ord(self.pred, actual@[k], actual@[k + 1])
                            == Ordering::Equal,
                },
            decreases actual@.len() - i,
        {
            let ghost ii = i as int;
            let first = &actual[i];
            let second = &actual[i + 1];
            let o = (self.pred)(first, second);
            proof {
                if deterministic_ordering(self.pred) {
                    lemma_pred_ord_agrees(self.pred, actual@[ii], actual@[ii + 1], o);
                }
            }
            let fails_direction = match prev_ordering {
                Some(p) => !same_ordering(o, p) && !same_ordering(o, Ordering::Equal),
                None => false,
            };
            if fails_direction {
                proof {
                    if deterministic_ordering(self.pred) {
                        let d = prev_ordering->0;
                        lemma_pairwise_by_counterexample(self.pred, actual@, d, self.strict, ii);
                        if self.expected is None {
                            let other = if d == Ordering::Less {
                                Ordering::Greater
                            } else {
                                Ordering::Less
                            };
                            let k0 = choose|k: int|
                                #![trigger pred_ord(self.pred, actual@[k], actual@[k + 1])]
                                0 <= k < i && pred_ord(self.pred, actual@[k], actual@[k + 1])
                                    == d;
                            lemma_pairwise_by_counterexample(
                                self.pred,
                                actual@,
                                other,
                                self.strict,
                                k0,
                            );
                        }
                    }
                }
                let reason = String::from_str("Ordering of iterable is not monotone: ").concat(
                    debug_string(first).as_str(),
                ).concat(") not ").concat(debug_string(&prev_ordering).as_str()).concat(
                    " ",
                ).concat(debug_string(second).as_str());
                return builder.failed_because(reason.as_str());
            }
            if self.strict && same_ordering(o, Ordering::Equal) {
                proof {
                    if deterministic_ordering(self.pred) {
                        match self.expected {
                            Some(dir) => {
                                lemma_pairwise_by_counterexample(
                                    self.pred,
                                    actual@,
                                    dir,
                                    self.strict,
                                    ii,
                                );
                            },
                            None => {
                                lemma_pairwise_by_counterexample(
                                    self.pred,
                                    actual@,
                                    Ordering::Less,
                                    self.strict,
                                    ii,
                                );
                                lemma_pairwise_by_counterexample(
                                    self.pred,
                                    actual@,
                                    Ordering::Greater,
                                    self.strict,
                                    ii,
                                );
                            },
                        }
                    }
                }
                let reason = String::from_str(
                    "Ordering of iterable is not strictly monotone: ",
                ).concat(debug_string(first).as_str()).concat(") == ").concat(
                    debug_string(second).as_str(),
                );
                return builder.failed_because(reason.as_str());
            }
            if prev_ordering.is_none() && !same_ordering(o, Ordering::Equal) {
                prev_ordering = Some(o);
                proof {
                    if deterministic_ordering(self.pred) {
                        assert(0 <= ii < i + 1 && pred_ord(self.pred, actual@[ii], actual@[ii + 1])
                            == o);
                    }
                }
            }
            i += 1;
        }
        proof {
            if deterministic_ordering(self.pred) {
                match self.expected {
                    Some(dir) => {
                        assert(pairwise_by(self.pred, actual@, dir, self.strict));
                    },
                    None => {
                        match prev_ordering {
                            Some(d) => {
                                assert(pairwise_by(self.pred, actual@, d, self.strict));
                            },
                            None => {
                                if self.strict {
                                    assert(actual@.len() <= 1);
                                }
                                assert(pairwise_by(
                                    self.pred,
                                    actual@,
                                    Ordering::Less,
                                    self.strict,
                                ));
                            },
                        }
                    },
                }
            }
        }
        builder.matched()
    }
}

/// Matches if the inspected collection is sorted weakly monotone according
/// to `predicate` in the expected direction.
///
/// An empty collection is always sorted.
pub fn sorted_by<P>(predicate: P, expected_ordering: Ordering) -> (m: Renamed<SortedBy<P>>)
    ensures
        m.new_name() == "sorted_by"@,
        m.inner().pred == predicate,
        m.inner().expected == Some(expected_ordering),
        m.inner().strict == false,
{
    rename_matcher(
        String::from_str("sorted_by"),
        SortedBy { pred: predicate, expected: Some(expected_ordering), strict: false },
    )
}

/// Matches if the inspected collection is sorted strictly monotone
/// according to `predicate` in the expected direction.
///
/// An empty collection is always sorted.
pub fn sorted_strictly_by<P>(predicate: P, expected_ordering: Ordering) -> (m: Renamed<
    SortedBy<P>,
>)
    ensures
        m.new_name() == "sorted_strictly_by"@,
        m.inner().pred == predicate,
        m.inner().expected == Some(expected_ordering),
        m.inner().strict == true,
{
    rename_matcher(
        String::from_str("sorted_strictly_by"),
        SortedBy { pred: predicate, expected: Some(expected_ordering), strict: true },
    )
}

/// Matches if the inspected collection is sorted weakly monotone according
/// to `predicate`, in either direction.
///
/// The first non-equal pair establishes the direction.  An empty collection
/// is always sorted.
pub fn sorted_by_in_any_order<P>(predicate: P) -> (m: Renamed<SortedBy<P>>)
    ensures
        m.new_name() == "sorted_by_in_any_order"@,
        m.inner().pred == predicate,
        m.inner().expected is None,
        m.inner().strict == false,
{
    rename_matcher(
        String::from_str("sorted_by_in_any_order"),
        SortedBy { pred: predicate, expected: None, strict: false },
    )
}

/// Matches if the inspected collection is sorted strictly monotone
/// according to `predicate`, in either direction.
///
/// The first pair establishes the direction.  An empty collection is always
/// sorted.
pub fn sorted_strictly_by_in_any_order<P>(predicate: P) -> (m: Renamed<SortedBy<P>>)
    ensures
        m.new_name() == "sorted_strictly_by_in_any_order"@,
        m.inner().pred == predicate,
        m.inner().expected is None,
        m.inner().strict == true,
{
    rename_matcher(
        String::from_str("sorted_strictly_by_in_any_order"),
        SortedBy { pred: predicate, expected: None, strict: true },
    )
}

/// Empty and singleton collections satisfy every sortedness matcher over a
/// supplied ordering predicate, in any mode.
pub proof fn lemma_sorted_by_trivial<T: core::fmt::Debug, P: Fn(&T, &T) -> Ordering>(
    m: Renamed<SortedBy<P>>,
    v: Vec<T>,
)
    requires
        v@.len() <= 1,
    ensures
        m.spec_matches(v),
{
}

/// The verdict a deterministic one-argument predicate assigns to `a`, as a
/// specification value.
///
/// Kept opaque: [`lemma_pred_holds_agrees`] ties it to what the predicate
/// actually returned.
#[verifier::opaque]
pub open spec fn pred_holds<T, P: Fn(&T) -> bool>(pred: P, a: T) -> bool {
    choose|b: bool| call_ensures(pred, (&a,), b)
}

/// Whether `pred` is deterministic: any two results its specification
/// allows for the same argument are equal.
pub open spec fn deterministic_test<T, P: Fn(&T) -> bool>(pred: P) -> bool {
    forall|a: &T, b1: bool, b2: bool|
        #![trigger call_ensures(pred, (a,), b1), call_ensures(pred, (a,), b2)]
        call_ensures(pred, (a,), b1) && call_ensures(pred, (a,), b2) ==> b1 == b2
}

/// Whether `pred` may be called on any argument.
pub open spec fn callable_on_all<T, P: Fn(&T) -> bool>(pred: P) -> bool {
    forall|a: &T| #[trigger] call_requires(pred, (a,))
}

/// A result the predicate actually returned for an argument is the verdict
/// `pred_holds` assigns to it, as long as the predicate is deterministic.
pub proof fn lemma_pred_holds_agrees<T, P: Fn(&T) -> bool>(pred: P, a: T, b: bool)
    requires
        deterministic_test(pred),
        call_ensures(pred, (&a,), b),
    ensures
        pred_holds(pred, a) == b,
{
    reveal(pred_holds);
    let picked = choose|b2: bool| call_ensures(pred, (&a,), b2);
    assert(call_ensures(pred, (&a,), picked));
}

/// Matches if every element of the inspected collection satisfies the
/// predicate.
///
/// An empty collection always matches: every (that is, no) element
/// satisfies the predicate.
pub struct AllElementsSatisfy<P> {
    /// The predicate every element must satisfy.
    pub pred: P,
}

impl<T: core::fmt::Debug, P: Fn(&T) -> bool> Matcher<Vec<T>> for AllElementsSatisfy<P> {
    /// The verdict is pinned when the predicate is deterministic.
    open spec fn reliable(&self) -> bool {
        deterministic_test(self.pred)
    }

    /// The predicate must be callable on every element.
    open spec fn check_req(&self, actual: Vec<T>) -> bool {
        callable_on_all(self.pred)
    }

    open spec fn spec_matches(&self, actual: Vec<T>) -> bool {
        forall|k: int|
            #![trigger pred_holds(self.pred, actual@[k])]
            0 <= k < actual@.len() ==> pred_holds(self.pred, actual@[k])
    }

    open spec fn spec_name(&self, actual: Vec<T>) -> Seq<char> {
        "all_elements_satisfy"@
    }

    #[verifier::loop_isolation(false)]
    fn check(&self, actual: &Vec<T>) -> (r: MatchResult) {
        let builder = MatchResultBuilder::for_("all_elements_satisfy");
        let mut nonsatisfying: Vec<&T> = Vec::new();
        let mut i: usize = 0;
        while i < actual.len()
            invariant
                i <= actual@.len(),
                deterministic_test(self.pred) ==> ((nonsatisfying@.len() == 0) <==> (forall|
                    k: int,
                |
                    #![trigger pred_holds(self.pred, actual@[k])]
                    0 <= k < i ==> pred_holds(self.pred, actual@[k]))),
            decreases actual@.len() - i,
        {
            let ghost ii = i as int;
            let e = &actual[i];
            let b = (self.pred)(e);
            proof {
                if deterministic_test(self.pred) {
                    lemma_pred_holds_agrees(self.pred, actual@[ii], b);
                }
            }
            if !b {
                nonsatisfying.push(e);
            }
            i += 1;
        }
        if !nonsatisfying.is_empty() {
            let reason = String::from_str(
                "the following elements do not satisfy the predicate: ",
            ).concat(debug_string(&nonsatisfying).as_str());
            builder.failed_because(reason.as_str())
        } else {
            builder.matched()
        }
    }
}

/// Matches if every element of the inspected collection satisfies the
/// predicate.
pub fn all_elements_satisfy<P>(predicate: P) -> (m: AllElementsSatisfy<P>)
    ensures
        m.pred == predicate,
{
    AllElementsSatisfy { pred: predicate }
}

/// Matches if at least one element of the inspected collection satisfies
/// the predicate.
///
/// An empty collection never matches: no element satisfies the predicate.
pub struct SomeElementsSatisfy<P> {
    /// The predicate some element must satisfy.
    pub pred: P,
}

impl<T: core::fmt::Debug, P: Fn(&T) -> bool> Matcher<Vec<T>> for SomeElementsSatisfy<P> {
    /// The verdict is pinned when the predicate is deterministic.
    open spec fn reliable(&self) -> bool {
        deterministic_test(self.pred)
    }

    /// The predicate must be callable on every element.
    open spec fn check_req(&self, actual: Vec<T>) -> bool {
        callable_on_all(self.pred)
    }

    open spec fn spec_matches(&self, actual: Vec<T>) -> bool {
        exists|k: int|
            #![trigger pred_holds(self.pred, actual@[k])]
            0 <= k < actual@.len() && pred_holds(self.pred, actual@[k])
    }

    open spec fn spec_name(&self, actual: Vec<T>) -> Seq<char> {
        "some_elements_satisfy"@
    }

    #[verifier::loop_isolation(false)]
    fn check(&self, actual: &Vec<T>) -> (r: MatchResult) {
        let builder = MatchResultBuilder::for_("some_elements_satisfy");
        let mut i: usize = 0;
        while i < actual.len()
            invariant
                i <= actual@.len(),
                deterministic_test(self.pred) ==> forall|k: int|
                    #![trigger pred_holds(self.pred, actual@[k])]
                    0 <= k < i ==> !pred_holds(self.pred, actual@[k]),
            decreases actual@.len() - i,
        {
            let ghost ii = i as int;
            let b = (self.pred)(&actual[i]);
            proof {
                if deterministic_test(self.pred) {
                    lemma_pred_holds_agrees(self.pred, actual@[ii], b);
                }
            }
            if b {
                return builder.matched();
            }
            i += 1;
        }
        builder.failed_because("no elements satisfy the predicate")
    }
}

/// Matches if at least one element of the inspected collection satisfies
/// the predicate.
pub fn some_elements_satisfy<P>(predicate: P) -> (m: SomeElementsSatisfy<P>)
    ensures
        m.pred == predicate,
{
    SomeElementsSatisfy { pred: predicate }
}

/// The diagnostic for a key/value pair that a map does not hold.
fn entry_reason<K: core::fmt::Debug, V: core::fmt::Debug>(key: &K, value: &V) -> String {
    String::from_str("Entry (").concat(debug_string(key).as_str()).concat(", ").concat(
        debug_string(value).as_str(),
    ).concat(") not found.")
}

/// Matches if the inspected map holds the given key/value pair.
pub struct HasEntry<K, V> {
    key: K,
    value: V,
}

impl<K, V> HasEntry<K, V> {
    /// The key the matcher looks up.
    pub closed spec fn spec_key(&self) -> K {
        self.key
    }

    /// The value the key must map to.
    pub closed spec fn spec_value(&self) -> V {
        self.value
    }
}

impl<
    K: core::hash::Hash + Eq + core::fmt::Debug,
    V: PartialEq + core::fmt::Debug,
    S: core::hash::BuildHasher,
> Matcher<HashMap<K, V, S>> for HasEntry<K, V> {
    /// The verdict is pinned when the key type fits the hash-table model
    /// and `==` on the value type agrees with mathematical equality.
    open spec fn reliable(&self) -> bool {
        obeys_key_model::<K>() && builds_valid_hashers::<S>() && obeys_concrete_eq::<V>()
    }

    open spec fn check_req(&self, actual: HashMap<K, V, S>) -> bool {
        true
    }

    /// The map holds the key, and maps it to the value.
    open spec fn spec_matches(&self, actual: HashMap<K, V, S>) -> bool {
        actual@.contains_key(self.spec_key()) && actual@[self.spec_key()] == self.spec_value()
    }

    open spec fn spec_name(&self, actual: HashMap<K, V, S>) -> Seq<char> {
        "has_entry"@
    }

    fn check(&self, actual: &HashMap<K, V, S>) -> (r: MatchResult) {
        let builder = MatchResultBuilder::for_("has_entry");
        proof {
            if obeys_concrete_eq::<V>() {
                concrete_eq_facts::<V>();
            }
        }
        match actual.get(&self.key) {
            Some(got) => {
                if *got == self.value {
                    builder.matched()
                } else {
                    builder.failed_because(entry_reason(&self.key, &self.value).as_str())
                }
            },
            None => builder.failed_because(entry_reason(&self.key, &self.value).as_str()),
        }
    }
}

impl<K: Ord + core::fmt::Debug, V: PartialEq + core::fmt::Debug> Matcher<BTreeMap<K, V>> for HasEntry<
    K,
    V,
> {
    /// The verdict is pinned when `cmp` on the key type obeys its
    /// specification and `==` on the value type agrees with mathematical
    /// equality.
    open spec fn reliable(&self) -> bool {
        obeys_cmp::<K>() && obeys_concrete_eq::<V>()
    }

    open spec fn check_req(&self, actual: BTreeMap<K, V>) -> bool {
        true
    }

    /// The map holds the key, and maps it to the value.
    open spec fn spec_matches(&self, actual: BTreeMap<K, V>) -> bool {
        actual@.contains_key(self.spec_key()) && actual@[self.spec_key()] == self.spec_value()
    }

    open spec fn spec_name(&self, actual: BTreeMap<K, V>) -> Seq<char> {
        "has_entry"@
    }

    fn check(&self, actual: &BTreeMap<K, V>) -> (r: MatchResult) {
        let builder = MatchResultBuilder::for_("has_entry");
        proof {
            if obeys_concrete_eq::<V>() {
                concrete_eq_facts::<V>();
            }
        }
        match actual.get(&self.key) {
            Some(got) => {
                if *got == self.value {
                    builder.matched()
                } else {
                    builder.failed_because(entry_reason(&self.key, &self.value).as_str())
                }
            },
            None => builder.failed_because(entry_reason(&self.key, &self.value).as_str()),
        }
    }
}

/// Matches if the inspected map holds the given key/value pair.
pub fn has_entry<K, V>(key: K, value: V) -> (m: HasEntry<K, V>)
    ensures
        m.spec_key() == key,
        m.spec_value() == value,
{
    HasEntry { key, value }
}

/// Matches if the inspected map holds the given key.
pub struct HasKey<K> {
    key: K,
}

impl<K> HasKey<K> {
    /// The key the matcher looks up.
    pub closed spec fn spec_key(&self) -> K {
        self.key
    }
}

impl<
    K: core::hash::Hash + Eq + core::fmt::Debug,
    V,
    S: core::hash::BuildHasher,
> Matcher<HashMap<K, V, S>> for HasKey<K> {
    /// The verdict is pinned when the key type fits the hash-table model.
    open spec fn reliable(&self) -> bool {
        obeys_key_model::<K>() && builds_valid_hashers::<S>()
    }

    open spec fn check_req(&self, actual: HashMap<K, V, S>) -> bool {
        true
    }

    /// The map holds the key.
    open spec fn spec_matches(&self, actual: HashMap<K, V, S>) -> bool {
        actual@.contains_key(self.spec_key())
    }

    open spec fn spec_name(&self, actual: HashMap<K, V, S>) -> Seq<char> {
        "has_key"@
    }

    fn check(&self, actual: &HashMap<K, V, S>) -> (r: MatchResult) {
        let builder = MatchResultBuilder::for_("has_key");
        if actual.contains_key(&self.key) {
            builder.matched()
        } else {
            let reason = String::from_str("No entrywith key ").concat(
                debug_string(&self.key).as_str(),
            ).concat(" found");
            builder.failed_because(reason.as_str())
        }
    }
}

impl<K: Ord + core::fmt::Debug, V> Matcher<BTreeMap<K, V>> for HasKey<K> {
    /// The verdict is pinned when `cmp` on the key type obeys its
    /// specification.
    open spec fn reliable(&self) -> bool {
        obeys_cmp::<K>()
    }

    open spec fn check_req(&self, actual: BTreeMap<K, V>) -> bool {
        true
    }

    /// The map holds the key.
    open spec fn spec_matches(&self, actual: BTreeMap<K, V>) -> bool {
        actual@.contains_key(self.spec_key())
    }

    open spec fn spec_name(&self, actual: BTreeMap<K, V>) -> Seq<char> {
        "has_key"@
    }

    fn check(&self, actual: &BTreeMap<K, V>) -> (r: MatchResult) {
        let builder = MatchResultBuilder::for_("has_key");
        if actual.contains_key(&self.key) {
            builder.matched()
        } else {
            let reason = String::from_str("No entrywith key ").concat(
                debug_string(&self.key).as_str(),
            ).concat(" found");
            builder.failed_because(reason.as_str())
        }
    }
}

/// Matches if the inspected map holds the given key.
pub fn has_key<K>(key: K) -> (m: HasKey<K>)
    ensures
        m.spec_key() == key,
{
    HasKey { key }
}

/// Matches if the inspected map holds the given value under some key.
pub struct HasValue<V> {
    value: V,
}

impl<V> HasValue<V> {
    /// The value some key must map to.
    pub closed spec fn spec_value(&self) -> V {
        self.value
    }
}

impl<
    K: core::hash::Hash + Eq + core::fmt::Debug,
    V: PartialEq + core::fmt::Debug,
    S: core::hash::BuildHasher,
> Matcher<HashMap<K, V, S>> for HasValue<V> {
    /// The verdict is pinned when the key type fits the hash-table model
    /// and `==` on the value type agrees with mathematical equality.
    open spec fn reliable(&self) -> bool {
        obeys_key_model::<K>() && builds_valid_hashers::<S>() && obeys_concrete_eq::<V>()
    }

    /// Walking the map's values requires the hash-table model, so `check`
    /// asks for it.
    open spec fn check_req(&self, actual: HashMap<K, V, S>) -> bool {
        obeys_key_model::<K>() && builds_valid_hashers::<S>()
    }

    /// Some key of the map maps to the value.
    open spec fn spec_matches(&self, actual: HashMap<K, V, S>) -> bool {
        actual@.values().contains(self.spec_value())
    }

    open spec fn spec_name(&self, actual: HashMap<K, V, S>) -> Seq<char> {
        "has_value"@
    }

    #[verifier::loop_isolation(false)]
    fn check(&self, actual: &HashMap<K, V, S>) -> (r: MatchResult) {
        let builder = MatchResultBuilder::for_("has_value");
        proof {
            if obeys_concrete_eq::<V>() {
                concrete_eq_facts::<V>();
            }
        }
        for v in it: actual.values()
            invariant
                it.seq().unref().to_set() == actual@.values(),
                obeys_concrete_eq::<V>() ==> forall|j: int|
                    0 <= j < it.index() ==> it.seq().unref()[j] != self.spec_value(),
        {
            if *v == self.value {
                proof {
                    if obeys_concrete_eq::<V>() {
                        assert(it.seq().unref()[it.index()] == self.spec_value());
                        assert(it.seq().unref().to_set().contains(self.spec_value()));
                    }
                }
                return builder.matched();
            }
        }
        let reason = String::from_str("No entry with value ").concat(
            debug_string(&self.value).as_str(),
        ).concat(" found");
        builder.failed_because(reason.as_str())
    }
}

impl<K: Ord + core::fmt::Debug, V: PartialEq + core::fmt::Debug> Matcher<BTreeMap<K, V>> for HasValue<
    V,
> {
    /// The verdict is pinned when `cmp` on the key type obeys its
    /// specification and `==` on the value type agrees with mathematical
    /// equality.
    open spec fn reliable(&self) -> bool {
        obeys_cmp::<K>() && obeys_concrete_eq::<V>()
    }

    /// Walking the map's values requires the ordering model of the keys, so
    /// `check` asks for it.
    open spec fn check_req(&self, actual: BTreeMap<K, V>) -> bool {
        obeys_cmp::<K>()
    }

    /// Some key of the map maps to the value.
    open spec fn spec_matches(&self, actual: BTreeMap<K, V>) -> bool {
        actual@.values().contains(self.spec_value())
    }

    open spec fn spec_name(&self, actual: BTreeMap<K, V>) -> Seq<char> {
        "has_value"@
    }

    #[verifier::loop_isolation(false)]
    fn check(&self, actual: &BTreeMap<K, V>) -> (r: MatchResult) {
        let builder = MatchResultBuilder::for_("has_value");
        proof {
            if obeys_concrete_eq::<V>() {
                concrete_eq_facts::<V>();
            }
        }
        for v in it: actual.values()
            invariant
                it.seq().unref().to_set() == actual@.values(),
                obeys_concrete_eq::<V>() ==> forall|j: int|
                    0 <= j < it.index() ==> it.seq().unref()[j] != self.spec_value(),
        {
            if *v == self.value {
                proof {
                    if obeys_concrete_eq::<V>() {
                        assert(it.seq().unref()[it.index()] == self.spec_value());
                        assert(it.seq().unref().to_set().contains(self.spec_value()));
                    }
                }
                return builder.matched();
            }
        }
        let reason = String::from_str("No entry with value ").concat(
            debug_string(&self.value).as_str(),
        ).concat(" found");
        builder.failed_because(reason.as_str())
    }
}

/// Matches if the inspected map holds the given value under some key.
pub fn has_value<V>(value: V) -> (m: HasValue<V>)
    ensures
        m.spec_value() == value,
{
    HasValue { value }
}

} // verus!
