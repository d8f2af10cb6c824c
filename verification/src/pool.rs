use vstd::prelude::*;

use crate::object::Pooled;
use crate::reset::Fresh;
use crate::reset::Reset;
use crate::store;
use crossbeam_queue::ArrayQueue;
use std::sync::Arc;

verus! {

/// A lock-free, thread-safe object pool.
///
/// A `Pool` is a cheap-to-clone handle: every clone refers to the same
/// bounded store of spare values. The store is shared between threads, so
/// every introspection result is a snapshot taken at the instant of the
/// call; nothing synchronises such a read with a later operation.
#[verifier::reject_recursive_types(T)]
pub struct Pool<T: Reset> {
    /// The fixed capacity the store was built with.
    pub(crate) cap: usize,
    /// The shared bounded store of spare values.
    pub(crate) queue: Arc<ArrayQueue<T>>,
}

impl<T: Reset> Pool<T> {
    /// The capacity this pool was created with.
    pub closed spec fn spec_capacity(&self) -> usize {
        self.cap
    }

    /// Relies on `crossbeam_queue::ArrayQueue::len`, which never exceeds the
    /// queue's fixed capacity. Every `Pool` pairs `cap` with a store built
    /// with capacity `cap`: see `new`, `clone` and `Pooled::get_pool`, the
    /// only places one is put together.
    #[verifier::external_body]
    fn store_len(&self) -> (n: usize)
        ensures
            n <= self.cap,
    {
        self.queue.len()
    }

    /// Create a new pool with the given capacity.
    ///
    /// The store is allocated in full up front. Asking for a zero capacity
    /// is a fatal contract violation, so the precondition rules it out; the
    /// upper bound keeps the store's packed index representation sound.
    pub fn new(capacity: usize) -> (pool: Self)
        requires
            1 <= capacity <= usize::MAX / 2,
        ensures
            pool.spec_capacity() == capacity,
    {
        Pool { cap: capacity, queue: Arc::new(store::queue_new(capacity)) }
    }

    /// Take a value from the store only if one is spare at this instant;
    /// never builds a fresh one, so it never allocates.
    pub fn try_take(&self) -> (taken: Option<Pooled<T>>)
        ensures
            taken matches Some(object) ==> object.has_value()
                && object.spec_value().is_reset()
                && object.spec_pool_capacity() == self.spec_capacity(),
    {
        match store::queue_pop(&*self.queue) {
            Some(value) => Some(Pooled::new(value, self)),
            None => None,
        }
    }

    /// The number of spare values in store at the instant of the call.
    pub fn len(&self) -> (n: usize)
        ensures
            n <= self.spec_capacity(),
    {
        self.store_len()
    }

    /// The number of values currently checked out, derived from the count of
    /// non-owning references to the store rather than from a counter of its
    /// own; another non-owning reference, were one ever added, would be
    /// indistinguishable from a checked-out value.
    pub fn in_use(&self) -> usize {
        store::store_weak_count(&self.queue)
    }

    /// Whether no spare value was in store at the instant of the call.
    pub fn is_empty(&self) -> bool {
        store::queue_is_empty(&*self.queue)
    }

    /// Whether the store was at capacity at the instant of the call.
    pub fn is_full(&self) -> bool {
        store::queue_is_full(&*self.queue)
    }

    /// The maximum capacity of the pool.
    pub fn capacity(&self) -> (n: usize)
        ensures
            n == self.spec_capacity(),
    {
        self.cap
    }

    /// How many more values the store could hold at the instant of the call.
    pub fn spare_capacity(&self) -> (n: usize)
        ensures
            n <= self.spec_capacity(),
    {
        self.capacity() - self.len()
    }

    /// Rebuild a handle from its parts; used when a wrapper's non-owning
    /// reference to the store is upgraded.
    pub(crate) fn from_store(cap: usize, queue: Arc<ArrayQueue<T>>) -> (pool: Self)
        ensures
            pool.spec_capacity() == cap,
    {
        Pool { cap, queue }
    }

    /// Attach an outside value to the pool: it is handed back wrapped as if
    /// it had been taken from here, without consuming a store slot now; once
    /// dropped it competes for a slot like any other value.
    pub fn attach(&self, object: T) -> (attached: Pooled<T>)
        ensures
            attached.has_value(),
            attached.spec_value() == object,
            attached.spec_pool_capacity() == self.spec_capacity(),
    {
        Pooled::new(object, self)
    }
}

impl<T: Fresh> Pool<T> {
    /// Take a value from the pool, building a fresh one if none is spare.
    ///
    /// Whatever its origin, the value handed out is in its reset state.
    pub fn take(&self) -> (object: Pooled<T>)
        ensures
            object.has_value(),
            object.spec_value().is_reset(),
            object.spec_pool_capacity() == self.spec_capacity(),
    {
        let value = match store::queue_pop(&*self.queue) {
            Some(value) => value,
            None => T::fresh(),
        };
        Pooled::new(value, self)
    }
}

/// The clone is a second handle to the identical store.
impl<T: Reset> Clone for Pool<T> {
    fn clone(&self) -> (other: Self)
        ensures
            other == *self,
    {
        Pool { cap: self.cap, queue: store::store_clone(&self.queue) }
    }
}

} // verus!
