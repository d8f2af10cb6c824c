use vstd::prelude::*;

use crate::pool::Pool;
use crate::reset::Reset;
use crate::store;
use crate::store::WeakStore;

verus! {

/// A value taken from a [`Pool`].
///
/// When dropped, the value is [`Reset`] and handed back to the pool's store
/// if there is room; it is silently discarded when the store is full or the
/// pool is already gone. The wrapper holds only a non-owning reference to
/// the store, so it may freely outlive every `Pool` handle.
#[verifier::reject_recursive_types(T)]
pub struct Pooled<T: Reset> {
    /// Non-owning reference back to the store this value came from.
    pub(crate) store: WeakStore<T>,
    /// The capacity of that store, carried so a live `Pool` handle can be
    /// rebuilt from this wrapper alone.
    pub(crate) cap: usize,
    /// The held value. `None` only once the value has been taken out, after
    /// which the wrapper is inert: every accessor requires the value to
    /// still be present.
    pub(crate) object: Option<T>,
}

impl<T: Reset> Pooled<T> {
    /// Whether the wrapper still holds its value.
    pub closed spec fn has_value(&self) -> bool {
        self.object is Some
    }

    /// The held value.
    pub closed spec fn spec_value(&self) -> T
        recommends
            self.has_value(),
    {
        self.object->0
    }

    /// The capacity of the pool this wrapper came from.
    pub closed spec fn spec_pool_capacity(&self) -> usize {
        self.cap
    }

    /// Wrap a value together with a non-owning reference to the pool's
    /// store.
    pub(crate) fn new(object: T, pool: &Pool<T>) -> (wrapped: Self)
        ensures
            wrapped.has_value(),
            wrapped.spec_value() == object,
            wrapped.spec_pool_capacity() == pool.spec_capacity(),
    {
        Pooled {
            store: store::store_downgrade(&pool.queue),
            cap: pool.capacity(),
            object: Some(object),
        }
    }

    /// Detach the value from the pool: it is handed back to the caller and
    /// will never be returned to the store. Using a wrapper after detaching
    /// its value is a fatal contract violation, which the precondition here
    /// and on every accessor rules out.
    pub fn detach(this: Self) -> (value: T)
        requires
            this.has_value(),
        ensures
            value == this.spec_value(),
    {
        let mut this = this;
        this.object.take().unwrap()
    }

    /// The pool this value came from, while any handle to it is still
    /// alive; values may outlive their pool, so there may be none left.
    pub fn get_pool(this: &Self) -> (pool: Option<Pool<T>>)
        ensures
            pool matches Some(p) ==> p.spec_capacity() == this.spec_pool_capacity(),
    {
        match store::store_upgrade(&this.store) {
            Some(queue) => Some(Pool::from_store(this.cap, queue)),
            None => None,
        }
    }

    /// Read access to the held value.
    pub fn value(&self) -> (r: &T)
        requires
            self.has_value(),
        ensures
            *r == self.spec_value(),
    {
        self.object.as_ref().unwrap()
    }

    /// Write access to the held value.
    pub fn value_mut(&mut self) -> (r: &mut T)
        requires
            old(self).has_value(),
        ensures
            *r == old(self).spec_value(),
            final(self).has_value(),
            final(self).spec_value() == *final(r),
            final(self).spec_pool_capacity() == old(self).spec_pool_capacity(),
    {
        self.object.as_mut().unwrap()
    }

    /// Hand the value back: reset it, then attempt a non-blocking push into
    /// the store. When the store is full, or no pool handle is left alive,
    /// the value is silently dropped; losing a spare value then is harmless
    /// and deliberate.
    pub(crate) fn return_to_pool(&mut self)
        ensures
            !old(self).has_value() ==> !final(self).has_value(),
    {
        match store::store_upgrade(&self.store) {
            Some(queue) => {
                match self.object.take() {
                    Some(mut value) => {
                        value.reset();
                        let _ = store::queue_push(&*queue, value);
                    },
                    None => {},
                }
            },
            None => {},
        }
    }
}

impl<T: Reset> Drop for Pooled<T> {
    /// Trusted glue only: Verus asks of a verified `Drop` that it never
    /// unwind, which the `Reset` contract of the held value cannot promise,
    /// so the body stands outside verification and does nothing but call the
    /// verified return path.
    #[verifier::external_body]
    fn drop(&mut self)
        opens_invariants none
        no_unwind
    {
        self.return_to_pool();
    }
}

} // verus!
