//! A bounded, thread-safe object pool.
//!
//! A [`Pool`] hands out reusable values wrapped in a [`Pooled`] guard.
//! Dropping the guard resets the value to its empty state (keeping its
//! backing allocation) and returns it to the pool if there is room.

mod object;
mod pool;
mod reset;
mod store;

pub use crate::object::Pooled;
pub use crate::pool::Pool;
pub use crate::reset::Fresh;
pub use crate::reset::Reset;
