use dynamic_pooling::Pool;
use dynamic_pooling::Pooled;

#[test]
fn new_pool_reports_capacity() {
    for c in [1usize, 2, 7, 100] {
        let pool: Pool<String> = Pool::new(c);
        assert_eq!(pool.capacity(), c);
        assert_eq!(pool.len(), 0);
        assert_eq!(pool.spare_capacity(), c);
        assert_eq!(pool.in_use(), 0);
        assert!(pool.is_empty());
        assert!(!pool.is_full());
    }
}

#[test]
fn take_then_drop_fills_store() {
    let pool: Pool<Vec<u8>> = Pool::new(5);
    let mut held = Vec::new();
    for _ in 0..3 {
        held.push(pool.take());
    }
    // Nothing was in store, so all three were freshly built.
    assert_eq!(pool.in_use(), 3);
    assert_eq!(pool.len(), 0);
    drop(held);
    assert_eq!(pool.in_use(), 0);
    assert_eq!(pool.len(), 3);
    assert_eq!(pool.spare_capacity(), 2);
    assert!(!pool.is_empty());
    assert!(!pool.is_full());
}

#[test]
fn reset_round_trip_keeps_allocation() {
    let pool: Pool<String> = Pool::new(1);
    let mut a = pool.take();
    a.value_mut().push_str("hello world");
    assert_eq!(a.value().as_str(), "hello world");
    drop(a);
    let b = pool.take();
    assert_eq!(b.value().as_str(), "");
    assert!(b.value().capacity() >= "hello world".len());
}

#[test]
fn detach_removes_value_permanently() {
    let pool: Pool<String> = Pool::new(2);
    let mut a = pool.take();
    a.value_mut().push_str("kept");
    assert_eq!(pool.in_use(), 1);
    let value = Pooled::detach(a);
    assert_eq!(value.as_str(), "kept");
    assert_eq!(pool.in_use(), 0);
    assert_eq!(pool.len(), 0);
}

#[test]
fn saturation_discards_extra_value() {
    let pool: Pool<String> = Pool::new(2);
    let a = pool.attach(String::from("a"));
    let b = pool.attach(String::from("b"));
    let c = pool.attach(String::from("c"));
    drop(a);
    drop(b);
    assert_eq!(pool.len(), 2);
    assert!(pool.is_full());
    // The store is already full: this value is silently discarded.
    drop(c);
    assert_eq!(pool.len(), 2);
    assert_eq!(pool.spare_capacity(), 0);
    assert!(pool.is_full());
}

#[test]
fn value_outlives_pool() {
    let pool: Pool<String> = Pool::new(1);
    let mut a = pool.take();
    assert!(Pooled::get_pool(&a).is_some());
    drop(pool);
    assert!(Pooled::get_pool(&a).is_none());
    a.value_mut().push_str("still usable");
    assert_eq!(a.value().as_str(), "still usable");
    // Returning after the pool is gone is a silent no-op, not a crash.
    drop(a);
}

#[test]
fn get_pool_recovers_a_live_handle() {
    let pool: Pool<String> = Pool::new(3);
    let a = pool.take();
    let again = Pooled::get_pool(&a).unwrap();
    assert_eq!(again.capacity(), 3);
    drop(a);
    assert_eq!(again.len(), 1);
}

#[test]
fn scenario_string_pool() {
    let pool: Pool<String> = Pool::new(2);
    let mut a = pool.take();
    let b = pool.take();
    assert_eq!(pool.in_use(), 2);
    assert_eq!(pool.len(), 0);
    a.value_mut().push_str("hello");
    drop(a);
    assert_eq!(pool.len(), 1);
    assert_eq!(pool.in_use(), 1);
    let c = pool.take();
    assert_eq!(c.value().as_str(), "");
    assert_eq!(pool.len(), 0);
    assert_eq!(pool.in_use(), 2);
    drop(b);
    drop(c);
    assert_eq!(pool.in_use(), 0);
}

#[test]
fn scenario_try_take() {
    let pool: Pool<String> = Pool::new(1);
    assert!(pool.try_take().is_none());
    let taken = pool.take();
    drop(taken);
    let got = pool.try_take();
    let got = got.expect("one value was returned to the store");
    assert_eq!(got.value().as_str(), "");
    assert!(pool.try_take().is_none());
    drop(got);
}

#[test]
fn clones_share_one_store() {
    let pool: Pool<String> = Pool::new(1);
    let other = pool.clone();
    assert_eq!(other.capacity(), 1);
    let a = pool.take();
    assert_eq!(other.in_use(), 1);
    drop(a);
    assert_eq!(other.len(), 1);
    let b = other.try_take().expect("the stores are one");
    assert_eq!(pool.len(), 0);
    drop(b);
    drop(pool);
    // The store stays alive while any clone remains.
    assert_eq!(other.len(), 1);
}

#[test]
fn attach_wraps_an_outside_value() {
    let pool: Pool<String> = Pool::new(1);
    let a = pool.attach(String::from("outside"));
    assert_eq!(a.value().as_str(), "outside");
    assert_eq!(pool.in_use(), 1);
    // Attaching consumed no store slot.
    assert_eq!(pool.len(), 0);
    drop(a);
    // Once dropped, the attached value was reset and took the free slot.
    assert_eq!(pool.len(), 1);
    let b = pool.try_take().expect("the attached value was stored");
    assert_eq!(b.value().as_str(), "");
    assert!(b.value().capacity() >= "outside".len());
}

#[test]
fn pool_of_tuples_resets_each_component() {
    let pool: Pool<(String, Vec<u8>)> = Pool::new(1);
    let mut t = pool.take();
    t.value_mut().0.push_str("x");
    t.value_mut().1.push(1);
    drop(t);
    assert_eq!(pool.len(), 1);
    let t = pool.take();
    assert!(t.value().0.is_empty());
    assert!(t.value().1.is_empty());
}

#[test]
fn pool_of_boxes_resets_through_the_box() {
    let pool: Pool<Box<String>> = Pool::new(1);
    let mut b = pool.take();
    b.value_mut().push_str("boxed");
    drop(b);
    let b = pool.take();
    assert!(b.value().is_empty());
}
