use cl_traits::capability::Capacity;
use cl_traits::capability::CapacityExceeded;
use cl_traits::capability::Length;
use cl_traits::capability::Push;
use cl_traits::capability::Retain;
use cl_traits::smallvec_adapter::SmallVecAdapter;
use cl_traits::tinyvec_adapter::TinyVecAdapter;

fn is_even(n: &u64) -> bool {
    *n % 2 == 0
}

fn full_array_vec() -> arrayvec::ArrayVec<u64, 4> {
    let mut av: arrayvec::ArrayVec<u64, 4> = arrayvec::ArrayVec::new();
    av.push(1);
    av.push(2);
    av.push(3);
    av.push(4);
    av
}

#[test]
fn array_vec_push_at_ceiling_reports_capacity_exceeded() {
    let mut av = full_array_vec();
    let r = Push::push(&mut av, 5);
    assert_eq!(r, Err(CapacityExceeded));
    assert_eq!(av.as_slice(), &[1, 2, 3, 4]);
    assert_eq!(Length::length(&av), 4);
}

#[test]
fn array_vec_push_below_ceiling_appends() {
    let mut av: arrayvec::ArrayVec<u64, 4> = arrayvec::ArrayVec::new();
    av.push(1);
    av.push(2);
    let r = Push::push(&mut av, 3);
    assert_eq!(r, Ok(()));
    assert_eq!(av.as_slice(), &[1, 2, 3]);
    assert_eq!(Length::length(&av), 3);
}

#[test]
fn array_vec_capacity_is_the_ceiling() {
    let av: arrayvec::ArrayVec<u64, 4> = arrayvec::ArrayVec::new();
    assert_eq!(Capacity::capacity(&av), 4);
}

#[test]
fn array_vec_retain_keeps_matching_in_order() {
    let mut av = full_array_vec();
    Retain::retain(&mut av, is_even);
    assert_eq!(av.as_slice(), &[2, 4]);
}

#[test]
fn small_vec_retain_keeps_matching_in_order() {
    let mut sv = SmallVecAdapter::from_vec(vec![1, 2, 3, 4]);
    Retain::retain(&mut sv, is_even);
    assert_eq!(sv.to_vec(), vec![2, 4]);
}

#[test]
fn small_vec_round_trip_preserves_elements() {
    let sv = SmallVecAdapter::from_vec(vec![9, 8, 7]);
    assert_eq!(sv.to_vec(), vec![9, 8, 7]);
}

#[test]
fn tiny_array_vec_retain_keeps_matching_in_order() {
    let mut av: tinyvec::ArrayVec<[u64; 4]> = tinyvec::ArrayVec::from([1, 2, 3, 4]);
    Retain::retain(&mut av, is_even);
    assert_eq!(av.as_slice(), &[2, 4]);
}

#[test]
fn tiny_vec_retain_keeps_matching_in_order() {
    let mut tv = TinyVecAdapter::from_vec(vec![1, 2, 3, 4]);
    Retain::retain(&mut tv, is_even);
    assert_eq!(tv.to_vec(), vec![2, 4]);
}

#[test]
fn tiny_vec_retain_can_empty_the_vector() {
    let mut tv = TinyVecAdapter::from_vec(vec![1, 3]);
    Retain::retain(&mut tv, is_even);
    assert_eq!(tv.to_vec(), Vec::<u64>::new());
}
