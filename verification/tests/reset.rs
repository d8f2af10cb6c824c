use dynamic_pooling::Fresh;
use dynamic_pooling::Reset;
use std::collections::HashMap;
use std::collections::HashSet;
use std::collections::VecDeque;

#[test]
fn vec_resets_to_empty_keeping_capacity() {
    let mut v: Vec<u32> = Vec::with_capacity(16);
    v.extend([1, 2, 3]);
    let cap = v.capacity();
    v.reset();
    assert!(v.is_empty());
    assert_eq!(v.capacity(), cap);
}

#[test]
fn string_resets_to_empty_keeping_capacity() {
    let mut s = String::from("some contents");
    let cap = s.capacity();
    s.reset();
    assert!(s.is_empty());
    assert_eq!(s.capacity(), cap);
}

#[test]
fn vecdeque_resets_to_empty() {
    let mut q: VecDeque<i64> = VecDeque::new();
    q.push_back(4);
    q.push_front(2);
    q.reset();
    assert!(q.is_empty());
}

#[test]
fn hashmap_resets_to_empty_keeping_capacity() {
    let mut m: HashMap<String, u32> = HashMap::new();
    m.insert(String::from("one"), 1);
    m.insert(String::from("two"), 2);
    let cap = m.capacity();
    m.reset();
    assert!(m.is_empty());
    assert_eq!(m.capacity(), cap);
}

#[test]
fn hashset_resets_to_empty() {
    let mut s: HashSet<u8> = HashSet::new();
    s.insert(7);
    s.reset();
    assert!(s.is_empty());
}

#[test]
fn boxed_value_resets_through_the_box() {
    let mut b: Box<Vec<u8>> = Box::new(vec![1, 2, 3]);
    b.reset();
    assert!(b.is_empty());
}

#[test]
fn mutable_reference_resets_the_target() {
    let mut s = String::from("via reference");
    let mut r = &mut s;
    Reset::reset(&mut r);
    assert!(s.is_empty());
}

#[test]
fn tuples_reset_each_component() {
    let mut pair: (Vec<u8>, String) = (vec![1], String::from("x"));
    pair.reset();
    assert!(pair.0.is_empty());
    assert!(pair.1.is_empty());

    let mut triple: (String, Vec<u8>, VecDeque<u8>) =
        (String::from("a"), vec![2], VecDeque::from(vec![3]));
    triple.reset();
    assert!(triple.0.is_empty());
    assert!(triple.1.is_empty());
    assert!(triple.2.is_empty());
}

#[test]
fn fresh_values_start_reset() {
    let v: Vec<u8> = Fresh::fresh();
    assert!(v.is_empty());
    let s: String = Fresh::fresh();
    assert!(s.is_empty());
    let m: HashMap<u8, u8> = Fresh::fresh();
    assert!(m.is_empty());
    let pair: (String, Vec<u8>) = Fresh::fresh();
    assert!(pair.0.is_empty());
    assert!(pair.1.is_empty());
}
