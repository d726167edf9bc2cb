//! Blocking FIFO queues for producer and consumer threads.
//!
//! [`queue::Queue`] is unbounded: `push` never waits and `pop` waits while
//! the queue is empty. [`bounded_queue::BoundedQueue`] also makes `push` wait
//! while the queue holds as many elements as its capacity allows. Both are
//! cheap handles onto shared state: a clone is another handle onto the same
//! queue.
//!
//! The elements live in a [`fifo::Fifo`] or a [`bounded_fifo::BoundedFifo`]
//! behind a lock. These two types carry the rules of the queues, and every
//! change that a handle makes is one call of their methods while it holds the
//! lock. [`history`] states what follows for a queue over any run of
//! completed operations: the order of delivery, that nothing is lost or
//! made up, and that a bounded queue stays within its capacity.

pub mod bounded_fifo;
pub mod bounded_queue;
pub mod fifo;
pub mod history;
pub mod queue;
pub mod sync;
