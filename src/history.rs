//! Fixed-capacity first-in first-out history with evict-oldest semantics.
use vstd::prelude::*;
use std::collections::VecDeque;

verus! {

/// The sequence that results from appending `value` to `items` and then
/// dropping the oldest entry if more than `capacity` entries remain.
pub open spec fn bounded_push<T>(items: Seq<T>, value: T, capacity: nat) -> Seq<T> {
    let grown = items.push(value);
    if grown.len() > capacity {
        grown.drop_first()
    } else {
        grown
    }
}

/// A FIFO that holds at most `capacity` entries; pushing onto a full history
/// evicts the oldest entry.
pub struct BoundedHistory<T> {
    items: VecDeque<T>,
    capacity: usize,
}

impl<T> View for BoundedHistory<T> {
    type V = Seq<T>;

    /// The entries, oldest first.
    closed spec fn view(&self) -> Seq<T> {
        self.items@
    }
}

impl<T> BoundedHistory<T> {
    /// The largest number of entries the history keeps.
    pub closed spec fn spec_capacity(&self) -> nat {
        self.capacity as nat
    }

    pub closed spec fn wf(&self) -> bool {
        &&& self.capacity > 0
        &&& self.items@.len() <= self.capacity
    }

    /// An empty history that keeps up to `capacity` entries.
    pub fn new(capacity: usize) -> (r: Self)
        requires
            capacity > 0,
        ensures
            r.wf(),
            r@ == Seq::<T>::empty(),
            r.spec_capacity() == capacity,
    {
        BoundedHistory { items: VecDeque::with_capacity(capacity), capacity }
    }

    /// Appends `value`, evicting the oldest entry when the history is full.
    pub fn push(&mut self, value: T)
        requires
            old(self).wf(),
        ensures
            final(self).wf(),
            final(self)@ == bounded_push(old(self)@, value, old(self).spec_capacity()),
            final(self).spec_capacity() == old(self).spec_capacity(),
    {
        self.items.push_back(value);
        if self.items.len() > self.capacity {
            let _ = self.items.pop_front();
        }
    }

    /// Removes every entry.
    pub fn clear(&mut self)
        requires
            old(self).wf(),
        ensures
            final(self).wf(),
            final(self)@ == Seq::<T>::empty(),
            final(self).spec_capacity() == old(self).spec_capacity(),
    {
        self.items.clear();
    }

    pub fn len(&self) -> (r: usize)
        ensures
            r == self@.len(),
    {
        self.items.len()
    }

    pub fn is_empty(&self) -> (r: bool)
        ensures
            r == (self@.len() == 0),
    {
        self.items.len() == 0
    }

    pub fn capacity(&self) -> (r: usize)
        ensures
            r == self.spec_capacity(),
    {
        self.capacity
    }

    /// The entry at `index`, counting from the oldest.
    pub fn get(&self, index: usize) -> (r: &T)
        requires
            index < self@.len(),
        ensures
            *r == self@[index as int],
    {
        &self.items[index]
    }
}

impl<T: Copy> BoundedHistory<T> {
    /// The entries, oldest first, copied into a new vector.
    pub fn to_vec(&self) -> (r: Vec<T>)
        ensures
            r@ == self@,
    {
        let mut out: Vec<T> = Vec::with_capacity(self.items.len());
        let n = self.items.len();
        for i in 0..n
            invariant
                n == self@.len(),
                out@ == self@.subrange(0, i as int),
        {
            out.push(self.items[i]);
        }
        assert(out@ =~= self@);
        out
    }
}

} // verus!
