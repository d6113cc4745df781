//! Counting permit pool that caps the number of file tasks in flight.

use vstd::prelude::*;

verus! {

/// A pool of permits. A worker holds one permit for as long as it works on a
/// file, so the pool's capacity bounds the files in progress.
#[derive(Debug)]
pub struct ConcurrencyLimiter {
    capacity: usize,
    in_flight: usize,
}

impl ConcurrencyLimiter {
    /// The pool never has more permits out than it was created with.
    #[verifier::type_invariant]
    spec fn within_capacity(&self) -> bool {
        self.in_flight <= self.capacity
    }

    /// The number of permits the pool was created with.
    pub closed spec fn capacity(&self) -> nat {
        self.capacity as nat
    }

    /// The number of permits currently held.
    pub closed spec fn in_flight(&self) -> nat {
        self.in_flight as nat
    }

    /// A pool of `capacity` permits, all of them free.
    pub fn new(capacity: usize) -> (pool: Self)
        ensures
            pool.capacity() == capacity,
            pool.in_flight() == 0,
    {
        ConcurrencyLimiter { capacity, in_flight: 0 }
    }

    /// The number of permits currently held, which never exceeds the capacity.
    pub fn held(&self) -> (held: usize)
        ensures
            held == self.in_flight(),
            held <= self.capacity(),
    {
        proof {
            use_type_invariant(self);
        }
        self.in_flight
    }

    /// The number of permits the pool was created with.
    pub fn limit(&self) -> (limit: usize)
        ensures
            limit == self.capacity(),
    {
        self.capacity
    }

    /// Takes a permit if one is free, and says whether it did.
    pub fn try_acquire(&mut self) -> (acquired: bool)
        ensures
            acquired == (old(self).in_flight() < old(self).capacity()),
            final(self).capacity() == old(self).capacity(),
            final(self).in_flight() == old(self).in_flight() + if acquired {
                1nat
            } else {
                0nat
            },
            final(self).in_flight() <= final(self).capacity(),
    {
        proof {
            use_type_invariant(&*self);
        }
        if self.in_flight < self.capacity {
            self.in_flight = self.in_flight + 1;
            true
        } else {
            false
        }
    }

    /// Gives back a permit that is held.
    pub fn release(&mut self)
        requires
            old(self).in_flight() > 0,
        ensures
            final(self).capacity() == old(self).capacity(),
            final(self).in_flight() == old(self).in_flight() - 1,
    {
        proof {
            use_type_invariant(&*self);
        }
        self.in_flight = self.in_flight - 1;
    }
}

} // verus!
