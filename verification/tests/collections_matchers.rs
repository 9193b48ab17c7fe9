use std::cmp::Ordering;
use std::collections::BTreeMap;
use std::collections::HashMap;

use galvanic_assert::matchers::collection::all_elements_satisfy;
use galvanic_assert::matchers::collection::contained_in;
use galvanic_assert::matchers::collection::contains_in_any_order;
use galvanic_assert::matchers::collection::contains_in_order;
use galvanic_assert::matchers::collection::contains_subset;
use galvanic_assert::matchers::collection::has_entry;
use galvanic_assert::matchers::collection::has_key;
use galvanic_assert::matchers::collection::has_value;
use galvanic_assert::matchers::collection::some_elements_satisfy;
use galvanic_assert::matchers::collection::sorted_ascending;
use galvanic_assert::matchers::collection::sorted_by;
use galvanic_assert::matchers::collection::sorted_by_in_any_order;
use galvanic_assert::matchers::collection::sorted_descending;
use galvanic_assert::matchers::collection::sorted_strictly_ascending;
use galvanic_assert::matchers::collection::sorted_strictly_by;
use galvanic_assert::matchers::collection::sorted_strictly_by_in_any_order;
use galvanic_assert::matchers::collection::sorted_strictly_descending;
use galvanic_assert::Matcher;

#[test]
fn collections_matchers_should_match() {
    assert!(contains_in_any_order(vec![3, 4, 1, 2]).check(&vec![1, 2, 3, 4]).is_matched());
}

#[test]
fn collections_matchers_should_match_empty_collection() {
    let empty: Vec<i32> = Vec::new();
    assert!(contains_in_any_order::<i32>(Vec::new()).check(&empty).is_matched());
}

#[test]
fn collections_matchers_should_fail_due_to_unexpected_element() {
    assert!(!contains_in_any_order(vec![3, 4, 1, 2]).check(&vec![1, 2, 3, 4, 5]).is_matched());
}

#[test]
fn collections_matchers_should_fail_due_to_missing_element() {
    assert!(!contains_in_any_order(vec![3, 4, 1, 2]).check(&vec![1, 2, 4]).is_matched());
}

#[test]
fn should_match() {
    assert!(contains_in_order(vec![1, 2, 3, 4]).check(&vec![1, 2, 3, 4]).is_matched());
}

#[test]
fn should_match_empty_collection() {
    let empty: Vec<i32> = Vec::new();
    assert!(contains_in_order::<i32>(Vec::new()).check(&empty).is_matched());
}

#[test]
fn should_fail_due_to_unexpected_element() {
    assert!(!contains_in_order(vec![1, 2, 3, 4]).check(&vec![1, 2, 3, 4, 5]).is_matched());
}

#[test]
fn should_fail_due_to_missing_element() {
    assert!(!contains_in_order(vec![1, 2, 3, 4]).check(&vec![1, 2, 3]).is_matched());
}

#[test]
fn should_fail_due_to_unordered_element() {
    assert!(!contains_in_order(vec![1, 2, 3, 4]).check(&vec![1, 2, 4, 3]).is_matched());
}

#[test]
fn contains_subset_should_match() {
    assert!(contains_subset(vec![3, 4, 1, 2]).check(&vec![1, 2, 3, 4, 5]).is_matched());
}

#[test]
fn contains_subset_should_match_empty_collection() {
    let empty: Vec<i32> = Vec::new();
    assert!(contains_subset::<i32>(Vec::new()).check(&empty).is_matched());
}

#[test]
fn should_match_empty_subset() {
    assert!(contains_subset::<i32>(Vec::new()).check(&vec![1, 2, 3, 4]).is_matched());
}

#[test]
fn contains_subset_should_fail_due_to_missing_element() {
    assert!(!contains_subset(vec![3, 4, 1, 2]).check(&vec![1, 2, 4]).is_matched());
}

#[test]
fn contained_in_should_match() {
    assert!(contained_in(vec![1, 2, 3, 4]).check(&3).is_matched());
}

#[test]
fn collections_matchers_should_fail() {
    assert!(!contained_in(vec![1, 2, 3, 4]).check(&5).is_matched());
}

#[test]
fn collections_matchers_should_match_single_element() {
    assert!(sorted_by(|a: &i32, b: &i32| a.cmp(b), Ordering::Less).check(&vec![1]).is_matched());
}

#[test]
fn sorted_by_should_match_empty_collection() {
    let empty: Vec<i32> = Vec::new();
    assert!(sorted_by(|a: &i32, b: &i32| a.cmp(b), Ordering::Less).check(&empty).is_matched());
}

#[test]
fn sorted_by_should_match() {
    assert!(
        sorted_by(|a: &i32, b: &i32| a.cmp(b), Ordering::Less).check(&vec![1, 2, 3, 4])
            .is_matched()
    );
}

#[test]
fn collections_matchers_should_match_all_eq() {
    assert!(
        sorted_by(|a: &i32, b: &i32| a.cmp(b), Ordering::Less).check(&vec![1, 1, 1, 1])
            .is_matched()
    );
}

#[test]
fn should_match_some_eq() {
    assert!(
        sorted_by(|a: &i32, b: &i32| a.cmp(b), Ordering::Less).check(&vec![1, 2, 2, 3])
            .is_matched()
    );
}

#[test]
fn collections_matchers_should_match_eq_then_ordered() {
    assert!(
        sorted_by(|a: &i32, b: &i32| a.cmp(b), Ordering::Less).check(&vec![1, 1, 2, 3])
            .is_matched()
    );
}

#[test]
fn collections_matchers_should_fail_unordered() {
    assert!(
        !sorted_by(|a: &i32, b: &i32| b.cmp(a), Ordering::Less).check(&vec![1, 2, 5, 4])
            .is_matched()
    );
}

#[test]
fn collections_matchers_should_fail_some_eq_then_unordered() {
    assert!(
        !sorted_by(|a: &i32, b: &i32| b.cmp(a), Ordering::Less).check(&vec![1, 2, 2, 1])
            .is_matched()
    );
}

#[test]
fn should_match_single_element() {
    assert!(
        sorted_strictly_by(|a: &i32, b: &i32| a.cmp(b), Ordering::Less).check(&vec![1])
            .is_matched()
    );
}

#[test]
fn sorted_strictly_by_should_match_empty_collection() {
    let empty: Vec<i32> = Vec::new();
    assert!(
        sorted_strictly_by(|a: &i32, b: &i32| a.cmp(b), Ordering::Less).check(&empty).is_matched()
    );
}

#[test]
fn sorted_strictly_by_should_match() {
    assert!(
        sorted_strictly_by(|a: &i32, b: &i32| a.cmp(b), Ordering::Less).check(&vec![1, 2, 3, 4])
            .is_matched()
    );
}

#[test]
fn collections_matchers_should_fail_all_eq() {
    assert!(
        !sorted_strictly_by(|a: &i32, b: &i32| a.cmp(b), Ordering::Less).check(&vec![1, 1, 1, 1])
            .is_matched()
    );
}

#[test]
fn collections_matchers_should_fail_not_strict() {
    assert!(
        !sorted_strictly_by(|a: &i32, b: &i32| a.cmp(b), Ordering::Less).check(&vec![1, 2, 2, 3])
            .is_matched()
    );
}

#[test]
fn should_fail_unordered() {
    assert!(
        !sorted_strictly_by(|a: &i32, b: &i32| b.cmp(a), Ordering::Less).check(&vec![1, 2, 5, 4])
            .is_matched()
    );
}

#[test]
fn sorted_by_in_any_order_should_match_single_element() {
    assert!(sorted_by_in_any_order(|a: &i32, b: &i32| a.cmp(b)).check(&vec![1]).is_matched());
}

#[test]
fn sorted_by_in_any_order_should_match_empty_collection() {
    let empty: Vec<i32> = Vec::new();
    assert!(sorted_by_in_any_order(|a: &i32, b: &i32| a.cmp(b)).check(&empty).is_matched());
}

#[test]
fn should_match_sorted_ascending() {
    assert!(
        sorted_by_in_any_order(|a: &i32, b: &i32| a.cmp(b)).check(&vec![1, 2, 2, 4]).is_matched()
    );
}

#[test]
fn should_match_sorted_descending() {
    assert!(
        sorted_by_in_any_order(|a: &i32, b: &i32| a.cmp(b)).check(&vec![4, 2, 2, 1]).is_matched()
    );
}

#[test]
fn should_match_all_eq() {
    assert!(
        sorted_by_in_any_order(|a: &i32, b: &i32| a.cmp(b)).check(&vec![1, 1, 1, 1]).is_matched()
    );
}

#[test]
fn should_match_eq_then_ordered() {
    assert!(
        sorted_by_in_any_order(|a: &i32, b: &i32| a.cmp(b)).check(&vec![1, 1, 2, 3]).is_matched()
    );
}

#[test]
fn sorted_by_in_any_order_should_fail_unordered() {
    assert!(
        !sorted_by_in_any_order(|a: &i32, b: &i32| b.cmp(a)).check(&vec![1, 2, 5, 4]).is_matched()
    );
}

#[test]
fn should_fail_some_eq_then_unordered() {
    assert!(
        !sorted_by_in_any_order(|a: &i32, b: &i32| b.cmp(a)).check(&vec![1, 2, 2, 1]).is_matched()
    );
}

#[test]
fn sorted_strictly_by_in_any_order_should_match_single_element() {
    assert!(
        sorted_strictly_by_in_any_order(|a: &i32, b: &i32| a.cmp(b)).check(&vec![1]).is_matched()
    );
}

#[test]
fn sorted_strictly_by_in_any_order_should_match_empty_collection() {
    let empty: Vec<i32> = Vec::new();
    assert!(
        sorted_strictly_by_in_any_order(|a: &i32, b: &i32| a.cmp(b)).check(&empty).is_matched()
    );
}

#[test]
fn should_match_sorted_strictly_ascending() {
    assert!(
        sorted_strictly_by_in_any_order(|a: &i32, b: &i32| a.cmp(b)).check(&vec![1, 2, 3, 4])
            .is_matched()
    );
}

#[test]
fn should_match_sorted_strictly_descending() {
    assert!(
        sorted_strictly_by_in_any_order(|a: &i32, b: &i32| a.cmp(b)).check(&vec![4, 3, 2, 1])
            .is_matched()
    );
}

#[test]
fn should_fail_all_eq() {
    assert!(
        !sorted_strictly_by_in_any_order(|a: &i32, b: &i32| a.cmp(b)).check(&vec![1, 1, 1, 1])
            .is_matched()
    );
}

#[test]
fn should_fail_not_strict() {
    assert!(
        !sorted_strictly_by_in_any_order(|a: &i32, b: &i32| a.cmp(b)).check(&vec![1, 2, 2, 3])
            .is_matched()
    );
}

#[test]
fn sorted_strictly_by_in_any_order_should_fail_unordered() {
    assert!(
        !sorted_strictly_by_in_any_order(|a: &i32, b: &i32| b.cmp(a)).check(&vec![1, 2, 5, 4])
            .is_matched()
    );
}

#[test]
fn sorted_ascending_should_match() {
    assert!(sorted_ascending().check(&vec![1, 2, 2, 4]).is_matched());
}

#[test]
fn sorted_ascending_should_match_empty_collection() {
    let v: Vec<i32> = Vec::new();
    assert!(sorted_ascending().check(&v).is_matched());
}

#[test]
fn sorted_ascending_should_fail_unordered() {
    assert!(!sorted_ascending().check(&vec![1, 3, 4, 2]).is_matched());
}

#[test]
fn collections_matchers_should_fail_reversed() {
    assert!(!sorted_ascending().check(&vec![4, 3, 2, 1]).is_matched());
}

#[test]
fn sorted_strictly_ascending_should_match() {
    assert!(sorted_strictly_ascending().check(&vec![1, 2, 3, 4]).is_matched());
}

#[test]
fn sorted_strictly_ascending_should_match_empty_collection() {
    let v: Vec<i32> = Vec::new();
    assert!(sorted_strictly_ascending().check(&v).is_matched());
}

#[test]
fn sorted_strictly_ascending_should_fail_unordered() {
    assert!(!sorted_strictly_ascending().check(&vec![1, 3, 4, 2]).is_matched());
}

#[test]
fn sorted_strictly_ascending_should_fail_not_strict() {
    assert!(!sorted_strictly_ascending().check(&vec![1, 3, 3, 4]).is_matched());
}

#[test]
fn should_fail_reversed() {
    assert!(!sorted_strictly_ascending().check(&vec![4, 3, 2, 1]).is_matched());
}

#[test]
fn sorted_strictly_ascending_should_fail_duplicate() {
    assert!(!sorted_strictly_ascending().check(&vec![1, 2, 2, 3]).is_matched());
}

#[test]
fn sorted_descending_should_match() {
    assert!(sorted_descending().check(&vec![4, 3, 2, 1]).is_matched());
}

#[test]
fn sorted_descending_should_match_empty_collection() {
    let v: Vec<i32> = Vec::new();
    assert!(sorted_descending().check(&v).is_matched());
}

#[test]
fn should_fail() {
    assert!(!sorted_descending().check(&vec![4, 1, 2, 3]).is_matched());
}

#[test]
fn sorted_descending_should_fail_reversed() {
    assert!(!sorted_descending().check(&vec![1, 2, 3, 4]).is_matched());
}

#[test]
fn sorted_strictly_descending_should_match() {
    assert!(sorted_strictly_descending().check(&vec![4, 3, 2, 1]).is_matched());
}

#[test]
fn sorted_strictly_descending_should_match_empty_collection() {
    let v: Vec<i32> = Vec::new();
    assert!(sorted_strictly_descending().check(&v).is_matched());
}

#[test]
fn sorted_strictly_descending_should_fail_unordered() {
    assert!(!sorted_strictly_descending().check(&vec![4, 3, 1, 2]).is_matched());
}

#[test]
fn sorted_strictly_descending_should_fail_not_strict() {
    assert!(!sorted_strictly_descending().check(&vec![4, 3, 3, 1]).is_matched());
}

#[test]
fn sorted_strictly_descending_should_fail_reversed() {
    assert!(!sorted_strictly_descending().check(&vec![1, 2, 3, 4]).is_matched());
}

#[test]
fn all_elements_satisfy_should_match() {
    assert!(all_elements_satisfy(|x: &i32| x % 2 == 0).check(&vec![2, 4, 6, 8]).is_matched());
}

#[test]
fn all_elements_satisfy_should_match_empty_collection() {
    let empty: Vec<i32> = Vec::new();
    assert!(all_elements_satisfy(|x: &i32| x % 2 == 0).check(&empty).is_matched());
}

#[test]
fn all_elements_satisfy_should_fail() {
    assert!(!all_elements_satisfy(|x: &i32| x % 2 == 1).check(&vec![2, 4, 6, 8]).is_matched());
}

#[test]
fn some_elements_satisfy_should_match() {
    assert!(some_elements_satisfy(|x: &i32| x % 2 == 1).check(&vec![2, 3, 6, 8]).is_matched());
}

#[test]
fn should_fail_empty_collection() {
    let empty: Vec<i32> = Vec::new();
    assert!(!some_elements_satisfy(|x: &i32| x % 2 == 0).check(&empty).is_matched());
}

#[test]
fn some_elements_satisfy_should_fail() {
    assert!(!some_elements_satisfy(|x: &i32| x % 2 == 1).check(&vec![2, 4, 6, 8]).is_matched());
}

#[test]
fn has_entry_ordered_map_should_match() {
    let mut map = BTreeMap::<i32, i32>::new();
    map.insert(1, 2);
    assert!(has_entry(1, 2).check(&map).is_matched());
}

#[test]
fn collections_matchers_should_fail_due_to_missing_key() {
    let map = BTreeMap::<i32, i32>::new();
    assert!(!has_entry(1, 2).check(&map).is_matched());
}

#[test]
fn collections_matchers_should_fail_due_to_wrong_entry() {
    let mut map = BTreeMap::<i32, i32>::new();
    map.insert(1, 1);
    assert!(!has_entry(1, 2).check(&map).is_matched());
}

#[test]
fn has_entry_hash_map_should_match() {
    let mut map = HashMap::<i32, i32>::new();
    map.insert(1, 2);
    assert!(has_entry(1, 2).check(&map).is_matched());
}

#[test]
fn should_fail_due_to_missing_key() {
    let map = HashMap::<i32, i32>::new();
    assert!(!has_entry(1, 2).check(&map).is_matched());
}

#[test]
fn should_fail_due_to_wrong_entry() {
    let mut map = HashMap::<i32, i32>::new();
    map.insert(1, 1);
    assert!(!has_entry(1, 2).check(&map).is_matched());
}

#[test]
fn has_key_ordered_map_should_match() {
    let mut map = BTreeMap::<i32, i32>::new();
    map.insert(1, 2);
    assert!(has_key(1).check(&map).is_matched());
}

#[test]
fn has_key_ordered_map_should_fail_due_to_missing_key() {
    let mut map = BTreeMap::<i32, i32>::new();
    map.insert(1, 2);
    assert!(!has_key(2).check(&map).is_matched());
}

#[test]
fn has_key_hash_map_should_match() {
    let mut map = HashMap::<i32, i32>::new();
    map.insert(1, 2);
    assert!(has_key(1).check(&map).is_matched());
}

#[test]
fn has_key_hash_map_should_fail_due_to_missing_key() {
    let mut map = HashMap::<i32, i32>::new();
    map.insert(1, 2);
    assert!(!has_key(2).check(&map).is_matched());
}

#[test]
fn has_value_ordered_map_should_match() {
    let mut map = BTreeMap::<i32, i32>::new();
    map.insert(1, 2);
    assert!(has_value(2).check(&map).is_matched());
}

#[test]
fn has_value_ordered_map_should_fail_due_to_missing_key() {
    let mut map = BTreeMap::<i32, i32>::new();
    map.insert(1, 2);
    assert!(!has_value(1).check(&map).is_matched());
}

#[test]
fn has_value_hash_map_should_match() {
    let mut map = HashMap::<i32, i32>::new();
    map.insert(1, 2);
    assert!(has_value(2).check(&map).is_matched());
}

#[test]
fn has_value_hash_map_should_fail_due_to_missing_key() {
    let mut map = HashMap::<i32, i32>::new();
    map.insert(1, 2);
    assert!(!has_value(1).check(&map).is_matched());
}
