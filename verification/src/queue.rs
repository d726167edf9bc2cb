//! The unbounded blocking queue.

use crate::fifo::Fifo;
use crate::sync::lock;
use crate::sync::share;
use crate::sync::state_mut;
use crate::sync::wait_while;
use std::sync::Arc;
use std::sync::Condvar;
use std::sync::Mutex;
use vstd::prelude::*;

verus! {

/// What all handles onto one queue share.
#[verifier::reject_recursive_types(T)]
struct Shared<T> {
    /// The elements, behind the lock that serialises every access to them.
    state: Mutex<Fifo<T>>,
    /// Notified once for each element that has been added.
    not_empty: Condvar,
}

/// A handle onto an unbounded, blocking, first-in first-out queue.
///
/// Any number of threads may push and pop through handles onto the same
/// queue. The queue lives as long as one of its handles does.
#[verifier::reject_recursive_types(T)]
pub struct Queue<T> {
    shared: Arc<Shared<T>>,
}

impl<T> Queue<T> {
    /// A handle onto a new, empty queue.
    pub fn new() -> (queue: Self) {
        let shared = Shared { state: Mutex::new(Fifo::new()), not_empty: Condvar::new() };
        Queue { shared: Arc::new(shared) }
    }

    /// Removes the front element and returns it, sleeping while the queue is
    /// empty.
    pub fn pop(&self) -> (item: T) {
        let mut slot: Option<T> = None;
        let guard = lock(&self.shared.state);
        let _held = wait_while(&self.shared.not_empty, guard, &mut slot, Fifo::poll_take);
        slot.unwrap()
    }

    /// Puts `item` at the back of the queue and wakes one sleeping consumer.
    /// Never waits for a consumer.
    pub fn push(&self, item: T) {
        {
            let mut guard = lock(&self.shared.state);
            state_mut(&mut guard).enqueue(item);
        }
        self.shared.not_empty.notify_one();
    }
}

impl<T> Clone for Queue<T> {
    /// Another handle onto the same queue.
    fn clone(&self) -> (other: Self)
        ensures
            other == *self,
    {
        Queue { shared: share(&self.shared) }
    }
}

} // verus!
