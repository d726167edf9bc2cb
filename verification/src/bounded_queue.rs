//! The bounded blocking queue.

use crate::bounded_fifo::BoundedFifo;
use crate::sync::lock;
use crate::sync::share;
use crate::sync::wait_while;
use std::sync::Arc;
use std::sync::Condvar;
use std::sync::Mutex;
use vstd::prelude::*;

verus! {

/// What all handles onto one queue share.
#[verifier::reject_recursive_types(T)]
struct Shared<T> {
    /// The elements and the capacity, behind the lock that serialises every
    /// access to them.
    state: Mutex<BoundedFifo<T>>,
    /// Notified once for each element that has been added.
    not_empty: Condvar,
    /// Notified once for each element that has been removed.
    not_full: Condvar,
    /// The capacity that the queue was made with. It never changes. The
    /// state behind the lock was made with the same number and enforces it.
    capacity: usize,
}

/// A handle onto a bounded, blocking, first-in first-out queue.
///
/// Any number of threads may push and pop through handles onto the same
/// queue. The queue lives as long as one of its handles does, and at no time
/// holds more elements than its capacity allows.
#[verifier::reject_recursive_types(T)]
pub struct BoundedQueue<T> {
    shared: Arc<Shared<T>>,
}

impl<T> BoundedQueue<T> {
    /// A handle onto a new, empty queue that holds at most `maximum`
    /// elements. A queue without room for a single element would keep every
    /// producer waiting for ever, so `maximum` has to be positive.
    pub fn new(maximum: usize) -> (queue: Self)
        requires
            maximum > 0,
        ensures
            queue.capacity() == maximum,
    {
        let shared = Shared {
            state: Mutex::new(BoundedFifo::new(maximum)),
            not_empty: Condvar::new(),
            not_full: Condvar::new(),
            capacity: maximum,
        };
        BoundedQueue { shared: Arc::new(shared) }
    }

    /// Removes the front element and returns it, sleeping while the queue is
    /// empty, and wakes one sleeping producer.
    pub fn pop(&self) -> (item: T) {
        let mut slot: Option<T> = None;
        {
            let guard = lock(&self.shared.state);
            let _held = wait_while(
                &self.shared.not_empty,
                guard,
                &mut slot,
                BoundedFifo::poll_take,
            );
        }
        self.shared.not_full.notify_one();
        slot.unwrap()
    }

    /// Puts `item` at the back of the queue, sleeping while the queue is
    /// full, and wakes one sleeping consumer.
    pub fn push(&self, item: T) {
        let mut slot: Option<T> = Some(item);
        {
            let guard = lock(&self.shared.state);
            let _held = wait_while(&self.shared.not_full, guard, &mut slot, BoundedFifo::poll_put);
        }
        self.shared.not_empty.notify_one();
    }

    /// The largest number of elements that the queue may hold: the number
    /// that it was made with, the same for every handle onto it.
    pub closed spec fn spec_capacity(&self) -> usize {
        self.shared.capacity
    }

    /// The largest number of elements that the queue may hold: the number
    /// that it was made with, the same for every handle onto it.
    #[verifier::when_used_as_spec(spec_capacity)]
    pub fn capacity(&self) -> (capacity: usize)
        ensures
            capacity == self.capacity(),
    {
        self.shared.capacity
    }
}

impl<T> Clone for BoundedQueue<T> {
    /// Another handle onto the same queue.
    fn clone(&self) -> (other: Self)
        ensures
            other == *self,
    {
        BoundedQueue { shared: share(&self.shared) }
    }
}

} // verus!
