//! The trusted boundary around the bounded concurrent store.
//!
//! The store itself is `crossbeam_queue::ArrayQueue`, shared through
//! `std::sync::Arc` and observed through `std::sync::Weak`. Each function
//! here wraps exactly one call into that outside code and states only what
//! its source shows. The store is shared between threads, so everything a
//! read returns is a snapshot: nothing here relates one call to the next.

use vstd::prelude::*;

use crate::reset::Reset;
use crossbeam_queue::ArrayQueue;
use std::sync::Arc;
use std::sync::Weak;

verus! {

#[verifier::external_type_specification]
#[verifier::external_body]
#[verifier::reject_recursive_types(T)]
pub struct ExArrayQueue<T>(ArrayQueue<T>);

/// A non-owning handle on a pool's store: it upgrades to a live handle only
/// while at least one `Pool` still owns the store.
///
/// `std::sync::Weak` itself cannot be named in verified code (its allocator
/// parameter defeats an outside-type declaration), so it is held opaquely.
#[verifier::external_body]
#[verifier::reject_recursive_types(T)]
pub(crate) struct WeakStore<T> {
    ptr: Weak<ArrayQueue<T>>,
}

/// Relies on `crossbeam_queue::ArrayQueue::new`: builds an empty queue with
/// exactly the given fixed capacity. It panics on a zero capacity, or when
/// the capacity is too large for its packed index representation, which the
/// precondition rules out.
#[verifier::external_body]
pub(crate) fn queue_new<T>(capacity: usize) -> ArrayQueue<T>
    requires
        1 <= capacity <= usize::MAX / 2,
{
    ArrayQueue::new(capacity)
}

/// Relies on `crossbeam_queue::ArrayQueue::push`: a non-blocking attempt
/// that, when the queue is full at that moment, hands the value back
/// unchanged as the error.
///
/// Only reset values may be pushed. Every queue of this crate starts empty
/// and is filled through this function alone, so everything the store holds
/// is reset; `queue_pop` states the counterpart.
#[verifier::external_body]
pub(crate) fn queue_push<T: Reset>(queue: &ArrayQueue<T>, value: T) -> (r: Result<(), T>)
    requires
        value.is_reset(),
    ensures
        r matches Err(v) ==> v == value,
{
    queue.push(value)
}

/// Relies on `crossbeam_queue::ArrayQueue::pop`: a non-blocking attempt that
/// returns a previously pushed value, or nothing when the queue is empty at
/// that moment. Queues of this crate start empty and accept only reset
/// values (see `queue_push`), so whatever comes out is reset.
#[verifier::external_body]
pub(crate) fn queue_pop<T: Reset>(queue: &ArrayQueue<T>) -> (r: Option<T>)
    ensures
        r matches Some(v) ==> v.is_reset(),
{
    queue.pop()
}

/// Relies on `crossbeam_queue::ArrayQueue::is_empty`: whether the queue held
/// no value at the instant of the call.
#[verifier::external_body]
pub(crate) fn queue_is_empty<T>(queue: &ArrayQueue<T>) -> bool {
    queue.is_empty()
}

/// Relies on `crossbeam_queue::ArrayQueue::is_full`: whether the queue was
/// at capacity at the instant of the call.
#[verifier::external_body]
pub(crate) fn queue_is_full<T>(queue: &ArrayQueue<T>) -> bool {
    queue.is_full()
}

/// Relies on `std::sync::Arc::clone`: the clone shares the one allocation,
/// so it carries the same store.
#[verifier::external_body]
pub(crate) fn store_clone<T>(store: &Arc<ArrayQueue<T>>) -> (r: Arc<ArrayQueue<T>>)
    ensures
        r == *store,
{
    Arc::clone(store)
}

/// Relies on `std::sync::Arc::downgrade`: yields a non-owning reference that
/// does not keep the store alive.
#[verifier::external_body]
pub(crate) fn store_downgrade<T>(store: &Arc<ArrayQueue<T>>) -> WeakStore<T> {
    WeakStore { ptr: Arc::downgrade(store) }
}

/// Relies on `std::sync::Weak::upgrade`: yields an owning handle while the
/// store still has an owner at that moment, and nothing once the last owner
/// is gone.
#[verifier::external_body]
pub(crate) fn store_upgrade<T>(weak: &WeakStore<T>) -> Option<Arc<ArrayQueue<T>>> {
    weak.ptr.upgrade()
}

/// Relies on `std::sync::Arc::weak_count`: the number of non-owning
/// references to the store at the instant of the call.
#[verifier::external_body]
pub(crate) fn store_weak_count<T>(store: &Arc<ArrayQueue<T>>) -> usize {
    Arc::weak_count(store)
}

} // verus!
