//! The elements of a bounded queue, oldest first, and its capacity.

use crate::fifo::Fifo;
use std::mem::swap;
use vstd::prelude::*;

verus! {

/// A first-in, first-out sequence of elements that never holds more than a
/// fixed, positive number of them.
///
/// Its view is the sequence of the elements it holds, front first. The
/// capacity is set when the value is made and never changes.
pub struct BoundedFifo<T> {
    items: Fifo<T>,
    capacity: usize,
}

impl<T> View for BoundedFifo<T> {
    type V = Seq<T>;

    closed spec fn view(&self) -> Seq<T> {
        self.items@
    }
}

impl<T> BoundedFifo<T> {
    /// Holds of every value of the type: the capacity is positive and the
    /// elements are no more than it allows.
    #[verifier::type_invariant]
    spec fn within_capacity(self) -> bool {
        0 < self.capacity && self.items@.len() <= self.capacity
    }

    /// The largest number of elements that the sequence may hold.
    pub closed spec fn spec_capacity(&self) -> usize {
        self.capacity
    }

    /// An empty sequence that may hold up to `capacity` elements.
    pub fn new(capacity: usize) -> (fifo: Self)
        requires
            capacity > 0,
        ensures
            fifo@ == Seq::<T>::empty(),
            fifo.capacity() == capacity,
    {
        BoundedFifo { items: Fifo::new(), capacity }
    }

    /// The largest number of elements that the sequence may hold.
    #[verifier::when_used_as_spec(spec_capacity)]
    pub fn capacity(&self) -> (capacity: usize)
        ensures
            capacity == self.capacity(),
            capacity > 0,
    {
        proof {
            use_type_invariant(self);
        }
        self.capacity
    }

    /// The number of elements held, which the capacity bounds.
    pub fn len(&self) -> (n: usize)
        ensures
            n == self@.len(),
            n <= self.capacity(),
    {
        proof {
            use_type_invariant(self);
        }
        self.items.len()
    }

    /// Whether no element is held.
    pub fn is_empty(&self) -> (empty: bool)
        ensures
            empty == (self@.len() == 0),
    {
        self.items.is_empty()
    }

    /// Whether the sequence holds as many elements as it may.
    pub fn is_full(&self) -> (full: bool)
        ensures
            full == (self@.len() == self.capacity()),
            !full ==> self@.len() < self.capacity(),
    {
        proof {
            use_type_invariant(self);
        }
        self.items.len() == self.capacity
    }

    /// Puts `item` at the back, unless the sequence is full: then nothing is
    /// changed and the item comes back as the error.
    pub fn enqueue(&mut self, item: T) -> (outcome: Result<(), T>)
        ensures
            final(self).capacity() == old(self).capacity(),
            final(self)@.len() <= final(self).capacity(),
            old(self)@.len() < old(self).capacity() ==> outcome is Ok
                && final(self)@ == old(self)@.push(item),
            old(self)@.len() >= old(self).capacity() ==> outcome == Err::<(), T>(item)
                && final(self)@ == old(self)@,
    {
        if self.is_full() {
            return Err(item);
        }
        // The elements are moved out while they change and moved back after,
        // so that the value is within its capacity whenever it can be seen.
        let mut items = Fifo::new();
        swap(&mut self.items, &mut items);
        items.enqueue(item);
        swap(&mut self.items, &mut items);
        Ok(())
    }

    /// Removes the front element and returns it; `None`, with nothing
    /// changed, exactly when there is none.
    pub fn dequeue(&mut self) -> (front: Option<T>)
        ensures
            final(self).capacity() == old(self).capacity(),
            final(self)@.len() <= final(self).capacity(),
            old(self)@.len() == 0 ==> front is None && final(self)@ == old(self)@,
            old(self)@.len() > 0 ==> front == Some(old(self)@.first())
                && final(self)@ == old(self)@.drop_first(),
    {
        proof {
            use_type_invariant(&*self);
        }
        let mut items = Fifo::new();
        swap(&mut self.items, &mut items);
        let front = items.dequeue();
        swap(&mut self.items, &mut items);
        front
    }

    /// One attempt of a producer to put the element in `slot` at the back.
    ///
    /// Returns whether the producer has to keep waiting, which is the case
    /// exactly when the slot holds an element and the sequence is full; then
    /// nothing is changed. Otherwise the element in the slot, if there is
    /// one, moves to the back of the sequence and leaves the slot vacant.
    pub fn poll_put(&mut self, slot: &mut Option<T>) -> (wait: bool)
        ensures
            final(self).capacity() == old(self).capacity(),
            final(self)@.len() <= final(self).capacity(),
            wait == (*old(slot) is Some && old(self)@.len() == old(self).capacity()),
            !wait ==> *final(slot) is None,
            !wait && *old(slot) is Some ==> final(self)@ == old(self)@.push(old(slot)->0),
            wait || *old(slot) is None ==> *final(slot) == *old(slot) && final(self)@ == old(self)@,
    {
        proof {
            use_type_invariant(&*self);
        }
        match slot.take() {
            None => false,
            Some(item) => match self.enqueue(item) {
                Ok(()) => false,
                Err(back) => {
                    *slot = Some(back);
                    true
                },
            },
        }
    }

    /// One attempt of a consumer to take the front element into `slot`.
    ///
    /// Returns whether the consumer has to keep waiting, which is the case
    /// exactly when the slot is vacant and there is no element to take; then
    /// nothing is changed. A vacant slot is otherwise filled with the front
    /// element, which leaves the sequence. A slot that is already filled is
    /// left alone, and so is the sequence.
    pub fn poll_take(&mut self, slot: &mut Option<T>) -> (wait: bool)
        ensures
            final(self).capacity() == old(self).capacity(),
            final(self)@.len() <= final(self).capacity(),
            wait == (*old(slot) is None && old(self)@.len() == 0),
            *old(slot) is None && old(self)@.len() > 0 ==> *final(slot) == Some(old(self)@.first())
                && final(self)@ == old(self)@.drop_first(),
            *old(slot) is Some || old(self)@.len() == 0 ==> *final(slot) == *old(slot)
                && final(self)@ == old(self)@,
    {
        proof {
            use_type_invariant(&*self);
        }
        if slot.is_some() {
            return false;
        }
        let front = self.dequeue();
        match front {
            Some(item) => {
                *slot = Some(item);
                false
            },
            None => true,
        }
    }
}

} // verus!
