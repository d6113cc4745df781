//! A bounded stock of idle items, such as parsers waiting to be used again.

use vstd::prelude::*;

verus! {

/// Items that are idle and can be taken into use again. The pool keeps at
/// most `max_size` of them; what is given back beyond that is let go.
pub struct IdlePool<T> {
    idle: Vec<T>,
    max_size: usize,
}

impl<T> View for IdlePool<T> {
    type V = Seq<T>;

    /// The idle items, the one given back last at the end.
    closed spec fn view(&self) -> Seq<T> {
        self.idle@
    }
}

impl<T> IdlePool<T> {
    /// The largest number of idle items the pool keeps.
    pub closed spec fn max_size(&self) -> nat {
        self.max_size as nat
    }

    /// An empty pool that keeps up to `max_size` idle items.
    pub fn new(max_size: usize) -> (pool: Self)
        ensures
            pool@ == Seq::<T>::empty(),
            pool.max_size() == max_size,
    {
        IdlePool { idle: Vec::new(), max_size }
    }

    /// The number of idle items.
    pub fn len(&self) -> (count: usize)
        ensures
            count == self@.len(),
    {
        self.idle.len()
    }

    /// Takes the idle item that was given back last, if there is one.
    pub fn take(&mut self) -> (item: Option<T>)
        ensures
            final(self).max_size() == old(self).max_size(),
            match item {
                Some(taken) => old(self)@.len() > 0 && taken == old(self)@.last() && final(self)@
                    == old(self)@.drop_last(),
                None => old(self)@.len() == 0 && final(self)@ == old(self)@,
            },
    {
        self.idle.pop()
    }

    /// Gives an item back. It is kept if the pool holds fewer than its
    /// largest number, and let go otherwise. Says whether it was kept.
    pub fn give_back(&mut self, item: T) -> (kept: bool)
        ensures
            final(self).max_size() == old(self).max_size(),
            kept == (old(self)@.len() < old(self).max_size()),
            final(self)@ == if kept {
                old(self)@.push(item)
            } else {
                old(self)@
            },
            old(self)@.len() <= old(self).max_size() ==> final(self)@.len() <= final(self).max_size(),
    {
        if self.idle.len() < self.max_size {
            self.idle.push(item);
            true
        } else {
            false
        }
    }
}

} // verus!
