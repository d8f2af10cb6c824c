use vstd::prelude::*;

verus! {

/// Contract for values that can be returned to their empty, default-equivalent
/// state in place, without giving up the backing allocation they already own.
///
/// Types whose `clear` deallocates (for example balanced-tree maps) should not
/// implement this trait: doing so would silently defeat the point of pooling.
pub trait Reset {
    /// Holds when the value is in its empty, default-equivalent state.
    spec fn is_reset(&self) -> bool;

    /// Reset to the default state while keeping allocated memory.
    fn reset(&mut self)
        ensures
            final(self).is_reset(),
    ;
}

/// Contract for values that can be made from scratch already in their reset
/// state; the pool uses it when a value is requested and none is in store.
pub trait Fresh: Reset + Sized {
    /// Build a new value in its reset state.
    fn fresh() -> (r: Self)
        ensures
            r.is_reset(),
    ;
}

impl<T> Reset for Vec<T> {
    open spec fn is_reset(&self) -> bool {
        self@ == Seq::<T>::empty()
    }

    fn reset(&mut self) {
        self.clear();
    }
}

impl<T> Fresh for Vec<T> {
    fn fresh() -> (r: Self) {
        Vec::new()
    }
}

/// Relies on std's `String::clear`: empties the string in place, keeping the
/// backing allocation it already owns.
#[verifier::external_body]
fn string_clear(s: &mut String)
    ensures
        final(s)@ == Seq::<char>::empty(),
{
    s.clear()
}

impl Reset for String {
    open spec fn is_reset(&self) -> bool {
        self@ == Seq::<char>::empty()
    }

    fn reset(&mut self) {
        string_clear(self);
    }
}

impl Fresh for String {
    fn fresh() -> (r: Self) {
        String::new()
    }
}

impl<T> Reset for std::collections::VecDeque<T> {
    open spec fn is_reset(&self) -> bool {
        self@ == Seq::<T>::empty()
    }

    fn reset(&mut self) {
        self.clear();
    }
}

impl<T> Fresh for std::collections::VecDeque<T> {
    fn fresh() -> (r: Self) {
        std::collections::VecDeque::new()
    }
}

impl<K, V> Reset for std::collections::HashMap<K, V> {
    open spec fn is_reset(&self) -> bool {
        self@ == Map::<K, V>::empty()
    }

    fn reset(&mut self) {
        self.clear();
    }
}

impl<K, V> Fresh for std::collections::HashMap<K, V> {
    fn fresh() -> (r: Self) {
        std::collections::HashMap::new()
    }
}

impl<K, S> Reset for std::collections::HashSet<K, S> {
    open spec fn is_reset(&self) -> bool {
        self@ == Set::<K>::empty()
    }

    fn reset(&mut self) {
        self.clear();
    }
}

impl<K> Fresh for std::collections::HashSet<K> {
    fn fresh() -> (r: Self) {
        std::collections::HashSet::new()
    }
}

impl<T: Reset> Reset for Box<T> {
    open spec fn is_reset(&self) -> bool {
        (**self).is_reset()
    }

    fn reset(&mut self) {
        (&mut **self).reset();
    }
}

impl<T: Fresh> Fresh for Box<T> {
    fn fresh() -> (r: Self) {
        Box::new(T::fresh())
    }
}

impl<T: Reset> Reset for &mut T {
    open spec fn is_reset(&self) -> bool {
        (**self).is_reset()
    }

    fn reset(&mut self) {
        (**self).reset();
    }
}

impl<A: Reset> Reset for (A,) {
    open spec fn is_reset(&self) -> bool {
        self.0.is_reset()
    }

    fn reset(&mut self) {
        self.0.reset();
    }
}

impl<A: Fresh> Fresh for (A,) {
    fn fresh() -> (r: Self) {
        (A::fresh(),)
    }
}

impl<A: Reset, B: Reset> Reset for (A, B) {
    open spec fn is_reset(&self) -> bool {
        self.0.is_reset() && self.1.is_reset()
    }

    fn reset(&mut self) {
        self.0.reset();
        self.1.reset();
    }
}

impl<A: Fresh, B: Fresh> Fresh for (A, B) {
    fn fresh() -> (r: Self) {
        (A::fresh(), B::fresh())
    }
}

impl<A: Reset, B: Reset, C: Reset> Reset for (A, B, C) {
    open spec fn is_reset(&self) -> bool {
        self.0.is_reset() && self.1.is_reset() && self.2.is_reset()
    }

    fn reset(&mut self) {
        self.0.reset();
        self.1.reset();
        self.2.reset();
    }
}

impl<A: Fresh, B: Fresh, C: Fresh> Fresh for (A, B, C) {
    fn fresh() -> (r: Self) {
        (A::fresh(), B::fresh(), C::fresh())
    }
}

impl<A: Reset, B: Reset, C: Reset, D: Reset> Reset for (A, B, C, D) {
    open spec fn is_reset(&self) -> bool {
        self.0.is_reset() && self.1.is_reset() && self.2.is_reset() && self.3.is_reset()
    }

    fn reset(&mut self) {
        self.0.reset();
        self.1.reset();
        self.2.reset();
        self.3.reset();
    }
}

impl<A: Fresh, B: Fresh, C: Fresh, D: Fresh> Fresh for (A, B, C, D) {
    fn fresh() -> (r: Self) {
        (A::fresh(), B::fresh(), C::fresh(), D::fresh())
    }
}

impl<A: Reset, B: Reset, C: Reset, D: Reset, E: Reset> Reset for (A, B, C, D, E) {
    open spec fn is_reset(&self) -> bool {
        self.0.is_reset() && self.1.is_reset() && self.2.is_reset() && self.3.is_reset() && self.4.is_reset()
    }

    fn reset(&mut self) {
        self.0.reset();
        self.1.reset();
        self.2.reset();
        self.3.reset();
        self.4.reset();
    }
}

impl<A: Fresh, B: Fresh, C: Fresh, D: Fresh, E: Fresh> Fresh for (A, B, C, D, E) {
    fn fresh() -> (r: Self) {
        (A::fresh(), B::fresh(), C::fresh(), D::fresh(), E::fresh())
    }
}

impl<A: Reset, B: Reset, C: Reset, D: Reset, E: Reset, F: Reset> Reset for (A, B, C, D, E, F) {
    open spec fn is_reset(&self) -> bool {
        self.0.is_reset() && self.1.is_reset() && self.2.is_reset() && self.3.is_reset() && self.4.is_reset() && self.5.is_reset()
    }

    fn reset(&mut self) {
        self.0.reset();
        self.1.reset();
        self.2.reset();
        self.3.reset();
        self.4.reset();
        self.5.reset();
    }
}

impl<A: Fresh, B: Fresh, C: Fresh, D: Fresh, E: Fresh, F: Fresh> Fresh for (A, B, C, D, E, F) {
    fn fresh() -> (r: Self) {
        (A::fresh(), B::fresh(), C::fresh(), D::fresh(), E::fresh(), F::fresh())
    }
}

impl<A: Reset, B: Reset, C: Reset, D: Reset, E: Reset, F: Reset, G: Reset> Reset for (A, B, C, D, E, F, G) {
    open spec fn is_reset(&self) -> bool {
        self.0.is_reset() && self.1.is_reset() && self.2.is_reset() && self.3.is_reset() && self.4.is_reset() && self.5.is_reset() && self.6.is_reset()
    }

    fn reset(&mut self) {
        self.0.reset();
        self.1.reset();
        self.2.reset();
        self.3.reset();
        self.4.reset();
        self.5.reset();
        self.6.reset();
    }
}

impl<A: Fresh, B: Fresh, C: Fresh, D: Fresh, E: Fresh, F: Fresh, G: Fresh> Fresh for (A, B, C, D, E, F, G) {
    fn fresh() -> (r: Self) {
        (A::fresh(), B::fresh(), C::fresh(), D::fresh(), E::fresh(), F::fresh(), G::fresh())
    }
}

impl<A: Reset, B: Reset, C: Reset, D: Reset, E: Reset, F: Reset, G: Reset, H: Reset> Reset for (A, B, C, D, E, F, G, H) {
    open spec fn is_reset(&self) -> bool {
        self.0.is_reset() && self.1.is_reset() && self.2.is_reset() && self.3.is_reset() && self.4.is_reset() && self.5.is_reset() && self.6.is_reset() && self.7.is_reset()
    }

    fn reset(&mut self) {
        self.0.reset();
        self.1.reset();
        self.2.reset();
        self.3.reset();
        self.4.reset();
        self.5.reset();
        self.6.reset();
        self.7.reset();
    }
}

impl<A: Fresh, B: Fresh, C: Fresh, D: Fresh, E: Fresh, F: Fresh, G: Fresh, H: Fresh> Fresh for (A, B, C, D, E, F, G, H) {
    fn fresh() -> (r: Self) {
        (A::fresh(), B::fresh(), C::fresh(), D::fresh(), E::fresh(), F::fresh(), G::fresh(), H::fresh())
    }
}

impl<A: Reset, B: Reset, C: Reset, D: Reset, E: Reset, F: Reset, G: Reset, H: Reset, I: Reset> Reset for (A, B, C, D, E, F, G, H, I) {
    open spec fn is_reset(&self) -> bool {
        self.0.is_reset() && self.1.is_reset() && self.2.is_reset() && self.3.is_reset() && self.4.is_reset() && self.5.is_reset() && self.6.is_reset() && self.7.is_reset() && self.8.is_reset()
    }

    fn reset(&mut self) {
        self.0.reset();
        self.1.reset();
        self.2.reset();
        self.3.reset();
        self.4.reset();
        self.5.reset();
        self.6.reset();
        self.7.reset();
        self.8.reset();
    }
}

impl<A: Fresh, B: Fresh, C: Fresh, D: Fresh, E: Fresh, F: Fresh, G: Fresh, H: Fresh, I: Fresh> Fresh for (A, B, C, D, E, F, G, H, I) {
    fn fresh() -> (r: Self) {
        (A::fresh(), B::fresh(), C::fresh(), D::fresh(), E::fresh(), F::fresh(), G::fresh(), H::fresh(), I::fresh())
    }
}

impl<A: Reset, B: Reset, C: Reset, D: Reset, E: Reset, F: Reset, G: Reset, H: Reset, I: Reset, J: Reset> Reset for (A, B, C, D, E, F, G, H, I, J) {
    open spec fn is_reset(&self) -> bool {
        self.0.is_reset() && self.1.is_reset() && self.2.is_reset() && self.3.is_reset() && self.4.is_reset() && self.5.is_reset() && self.6.is_reset() && self.7.is_reset() && self.8.is_reset() && self.9.is_reset()
    }

    fn reset(&mut self) {
        self.0.reset();
        self.1.reset();
        self.2.reset();
        self.3.reset();
        self.4.reset();
        self.5.reset();
        self.6.reset();
        self.7.reset();
        self.8.reset();
        self.9.reset();
    }
}

impl<A: Fresh, B: Fresh, C: Fresh, D: Fresh, E: Fresh, F: Fresh, G: Fresh, H: Fresh, I: Fresh, J: Fresh> Fresh for (A, B, C, D, E, F, G, H, I, J) {
    fn fresh() -> (r: Self) {
        (A::fresh(), B::fresh(), C::fresh(), D::fresh(), E::fresh(), F::fresh(), G::fresh(), H::fresh(), I::fresh(), J::fresh())
    }
}

impl<A: Reset, B: Reset, C: Reset, D: Reset, E: Reset, F: Reset, G: Reset, H: Reset, I: Reset, J: Reset, K: Reset> Reset for (A, B, C, D, E, F, G, H, I, J, K) {
    open spec fn is_reset(&self) -> bool {
        self.0.is_reset() && self.1.is_reset() && self.2.is_reset() && self.3.is_reset() && self.4.is_reset() && self.5.is_reset() && self.6.is_reset() && self.7.is_reset() && self.8.is_reset() && self.9.is_reset() && self.10.is_reset()
    }

    fn reset(&mut self) {
        self.0.reset();
        self.1.reset();
        self.2.reset();
        self.3.reset();
        self.4.reset();
        self.5.reset();
        self.6.reset();
        self.7.reset();
        self.8.reset();
        self.9.reset();
        self.10.reset();
    }
}

impl<A: Fresh, B: Fresh, C: Fresh, D: Fresh, E: Fresh, F: Fresh, G: Fresh, H: Fresh, I: Fresh, J: Fresh, K: Fresh> Fresh for (A, B, C, D, E, F, G, H, I, J, K) {
    fn fresh() -> (r: Self) {
        (A::fresh(), B::fresh(), C::fresh(), D::fresh(), E::fresh(), F::fresh(), G::fresh(), H::fresh(), I::fresh(), J::fresh(), K::fresh())
    }
}

impl<A: Reset, B: Reset, C: Reset, D: Reset, E: Reset, F: Reset, G: Reset, H: Reset, I: Reset, J: Reset, K: Reset, L: Reset> Reset for (A, B, C, D, E, F, G, H, I, J, K, L) {
    open spec fn is_reset(&self) -> bool {
        self.0.is_reset() && self.1.is_reset() && self.2.is_reset() && self.3.is_reset() && self.4.is_reset() && self.5.is_reset() && self.6.is_reset() && self.7.is_reset() && self.8.is_reset() && self.9.is_reset() && self.10.is_reset() && self.11.is_reset()
    }

    fn reset(&mut self) {
        self.0.reset();
        self.1.reset();
        self.2.reset();
        self.3.reset();
        self.4.reset();
        self.5.reset();
        self.6.reset();
        self.7.reset();
        self.8.reset();
        self.9.reset();
        self.10.reset();
        self.11.reset();
    }
}

impl<A: Fresh, B: Fresh, C: Fresh, D: Fresh, E: Fresh, F: Fresh, G: Fresh, H: Fresh, I: Fresh, J: Fresh, K: Fresh, L: Fresh> Fresh for (A, B, C, D, E, F, G, H, I, J, K, L) {
    fn fresh() -> (r: Self) {
        (A::fresh(), B::fresh(), C::fresh(), D::fresh(), E::fresh(), F::fresh(), G::fresh(), H::fresh(), I::fresh(), J::fresh(), K::fresh(), L::fresh())
    }
}

impl<A: Reset, B: Reset, C: Reset, D: Reset, E: Reset, F: Reset, G: Reset, H: Reset, I: Reset, J: Reset, K: Reset, L: Reset, M: Reset> Reset for (A, B, C, D, E, F, G, H, I, J, K, L, M) {
    open spec fn is_reset(&self) -> bool {
        self.0.is_reset() && self.1.is_reset() && self.2.is_reset() && self.3.is_reset() && self.4.is_reset() && self.5.is_reset() && self.6.is_reset() && self.7.is_reset() && self.8.is_reset() && self.9.is_reset() && self.10.is_reset() && self.11.is_reset() && self.12.is_reset()
    }

    fn reset(&mut self) {
        self.0.reset();
        self.1.reset();
        self.2.reset();
        self.3.reset();
        self.4.reset();
        self.5.reset();
        self.6.reset();
        self.7.reset();
        self.8.reset();
        self.9.reset();
        self.10.reset();
        self.11.reset();
        self.12.reset();
    }
}

impl<A: Fresh, B: Fresh, C: Fresh, D: Fresh, E: Fresh, F: Fresh, G: Fresh, H: Fresh, I: Fresh, J: Fresh, K: Fresh, L: Fresh, M: Fresh> Fresh for (A, B, C, D, E, F, G, H, I, J, K, L, M) {
    fn fresh() -> (r: Self) {
        (A::fresh(), B::fresh(), C::fresh(), D::fresh(), E::fresh(), F::fresh(), G::fresh(), H::fresh(), I::fresh(), J::fresh(), K::fresh(), L::fresh(), M::fresh())
    }
}

} // verus!
