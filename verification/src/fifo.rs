//! The elements of an unbounded queue, oldest first.

use std::collections::VecDeque;
use vstd::prelude::*;

verus! {

/// A first-in, first-out sequence of elements without an upper bound.
///
/// Its view is the sequence of the elements it holds: index 0 is the front,
/// the next element to leave, and the last index is the back, the element
/// that arrived last.
pub struct Fifo<T> {
    items: VecDeque<T>,
}

impl<T> View for Fifo<T> {
    type V = Seq<T>;

    closed spec fn view(&self) -> Seq<T> {
        self.items@
    }
}

impl<T> Fifo<T> {
    /// An empty sequence.
    pub fn new() -> (fifo: Self)
        ensures
            fifo@ == Seq::<T>::empty(),
    {
        Fifo { items: VecDeque::new() }
    }

    /// The number of elements held.
    pub fn len(&self) -> (n: usize)
        ensures
            n == self@.len(),
    {
        self.items.len()
    }

    /// Whether no element is held.
    pub fn is_empty(&self) -> (empty: bool)
        ensures
            empty == (self@.len() == 0),
    {
        self.items.len() == 0
    }

    /// Puts `item` at the back.
    pub fn enqueue(&mut self, item: T)
        ensures
            final(self)@ == old(self)@.push(item),
    {
        self.items.push_back(item);
    }

    /// Removes the front element and returns it; `None`, with nothing
    /// changed, exactly when there is none.
    pub fn dequeue(&mut self) -> (front: Option<T>)
        ensures
            old(self)@.len() == 0 ==> front is None && final(self)@ == old(self)@,
            old(self)@.len() > 0 ==> front == Some(old(self)@.first())
                && final(self)@ == old(self)@.drop_first(),
    {
        self.items.pop_front()
    }

    /// One attempt of a consumer to take the front element into `slot`.
    ///
    /// Returns whether the consumer has to keep waiting, which is the case
    /// exactly when the slot is vacant and there is no element to take; then
    /// nothing is changed. A vacant slot is otherwise filled with the front
    /// element, which leaves the sequence. A slot that is already filled is
    /// left alone, and so is the sequence.
    pub fn poll_take(&mut self, slot: &mut Option<T>) -> (wait: bool)
        ensures
            wait == (*old(slot) is None && old(self)@.len() == 0),
            *old(slot) is None && old(self)@.len() > 0 ==> *final(slot) == Some(old(self)@.first())
                && final(self)@ == old(self)@.drop_first(),
            *old(slot) is Some || old(self)@.len() == 0 ==> *final(slot) == *old(slot)
                && final(self)@ == old(self)@,
    {
        if slot.is_some() {
            return false;
        }
        let front = self.dequeue();
        match front {
            Some(item) => {
                *slot = Some(item);
                false
            },
            None => true,
        }
    }
}

} // verus!
