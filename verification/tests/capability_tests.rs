use cl_traits::capability::Capacity;
use cl_traits::capability::Clear;
use cl_traits::capability::Length;
use cl_traits::capability::Push;
use cl_traits::capability::Retain;
use cl_traits::capability::Swap;
use cl_traits::capability::Truncate;
use cl_traits::composed::stuff;
use cl_traits::manual::SomeCustomVector;

fn is_even(n: &u64) -> bool {
    *n % 2 == 0
}

#[test]
fn option_retain_drops_failing_slot() {
    let mut slot: Option<u64> = Some(1);
    Retain::retain(&mut slot, is_even);
    assert_eq!(slot, None);
}

#[test]
fn option_retain_keeps_passing_slot() {
    let mut slot: Option<u64> = Some(2);
    Retain::retain(&mut slot, is_even);
    assert_eq!(slot, Some(2));
}

#[test]
fn option_retain_leaves_empty_slot_empty() {
    let mut slot: Option<u64> = None;
    Retain::retain(&mut slot, is_even);
    assert_eq!(slot, None);
}

#[test]
fn vec_retain_keeps_matching_in_order() {
    let mut v: Vec<u64> = vec![1, 2, 3, 4];
    Retain::retain(&mut v, is_even);
    assert_eq!(v, vec![2, 4]);
}

#[test]
fn vec_retain_single_survivor() {
    let mut v: Vec<u64> = vec![1, 2, 3];
    Retain::retain(&mut v, is_even);
    assert_eq!(v, vec![2]);
}

#[test]
fn vec_retain_can_empty_the_vector() {
    let mut v: Vec<u64> = vec![1, 3, 5];
    Retain::retain(&mut v, is_even);
    assert_eq!(v, Vec::<u64>::new());
}

#[test]
fn vec_retain_keeps_everything_accepted() {
    let mut v: Vec<u64> = vec![2, 4, 6];
    Retain::retain(&mut v, is_even);
    assert_eq!(v, vec![2, 4, 6]);
}

#[test]
fn custom_vector_push_appends() {
    let mut v = SomeCustomVector(vec![1u64, 2]);
    let r = v.push(5);
    assert!(r.is_ok());
    assert_eq!(v.length(), 3);
    assert_eq!(v.0, vec![1, 2, 5]);
}

#[test]
fn custom_vector_clear_empties() {
    let mut v = SomeCustomVector(vec![1u64, 2, 3]);
    v.clear();
    assert_eq!(v.length(), 0);
    assert_eq!(v.0, Vec::<u64>::new());
}

#[test]
fn custom_vector_truncate_to_smaller_count() {
    let mut v = SomeCustomVector(vec![1u64, 2, 3, 4]);
    v.truncate(2);
    assert_eq!(v.0, vec![1, 2]);
}

#[test]
fn custom_vector_truncate_beyond_length_is_noop() {
    let mut v = SomeCustomVector(vec![1u64, 2, 3, 4]);
    v.truncate(9);
    assert_eq!(v.0, vec![1, 2, 3, 4]);
}

#[test]
fn custom_vector_swap_exchanges_positions() {
    let mut v = SomeCustomVector(vec![10u64, 20, 30]);
    v.swap([0, 2]);
    assert_eq!(v.0, vec![30, 20, 10]);
}

#[test]
fn custom_vector_swap_twice_restores() {
    let mut v = SomeCustomVector(vec![10u64, 20, 30, 40]);
    v.swap([1, 3]);
    v.swap([1, 3]);
    assert_eq!(v.0, vec![10, 20, 30, 40]);
}

#[test]
fn custom_vector_capacity_at_least_length() {
    let v = SomeCustomVector(vec![1u64, 2, 3]);
    assert!(v.capacity() >= v.length());
}

#[test]
fn generic_function_accepts_custom_container() {
    let mut v = SomeCustomVector(vec![1u64, 2, 3, 4]);
    stuff(&mut v);
    assert_eq!(v.0, vec![1, 2]);
}

#[test]
fn generic_function_leaves_short_container_alone() {
    let mut v = SomeCustomVector(vec![7u64]);
    stuff(&mut v);
    assert_eq!(v.0, vec![7]);
}
