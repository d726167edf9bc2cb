use blocking_queue::bounded_queue::BoundedQueue;
use blocking_queue::queue::Queue;
use crossbeam_utils::thread::scope;
use std::sync::atomic::AtomicBool;
use std::sync::atomic::AtomicUsize;
use std::sync::atomic::Ordering;
use std::time::Duration;
use std::time::Instant;

/// Lets the other threads run for a while.
fn pause(millis: u64) {
    let start = Instant::now();
    while start.elapsed() < Duration::from_millis(millis) {
        std::hint::spin_loop();
    }
}

#[test]
fn queue_pop_blocks_until_a_push() {
    let queue: Queue<u32> = Queue::new();
    let returned = AtomicBool::new(false);
    scope(|s| {
        let consumer = s.spawn(|_| {
            let item = queue.pop();
            returned.store(true, Ordering::SeqCst);
            item
        });
        pause(100);
        assert!(!returned.load(Ordering::SeqCst));
        queue.push(42);
        assert_eq!(consumer.join().unwrap(), 42);
        assert!(returned.load(Ordering::SeqCst));
    })
    .unwrap();
}

#[test]
fn bounded_queue_pop_blocks_until_a_push() {
    let queue: BoundedQueue<u32> = BoundedQueue::new(2);
    let returned = AtomicBool::new(false);
    scope(|s| {
        let consumer = s.spawn(|_| {
            let item = queue.pop();
            returned.store(true, Ordering::SeqCst);
            item
        });
        pause(100);
        assert!(!returned.load(Ordering::SeqCst));
        queue.push(42);
        assert_eq!(consumer.join().unwrap(), 42);
        assert!(returned.load(Ordering::SeqCst));
    })
    .unwrap();
}

#[test]
fn bounded_queue_push_blocks_while_full() {
    let queue: BoundedQueue<usize> = BoundedQueue::new(3);
    let capacity = queue.capacity();
    for item in 0..capacity {
        queue.push(item);
    }
    let returned = AtomicBool::new(false);
    scope(|s| {
        let producer = s.spawn(|_| {
            queue.push(capacity);
            returned.store(true, Ordering::SeqCst);
        });
        pause(100);
        assert!(!returned.load(Ordering::SeqCst));
        assert_eq!(queue.pop(), 0);
        producer.join().unwrap();
        assert!(returned.load(Ordering::SeqCst));
    })
    .unwrap();
    for item in 1..=capacity {
        assert_eq!(queue.pop(), item);
    }
}

#[test]
fn bounded_queue_of_two_blocks_the_third_push() {
    let queue: BoundedQueue<i32> = BoundedQueue::new(2);
    queue.push(1);
    queue.push(2);
    let completed = AtomicBool::new(false);
    scope(|s| {
        let second = s.spawn(|_| {
            queue.push(3);
            completed.store(true, Ordering::SeqCst);
        });
        pause(100);
        assert!(!completed.load(Ordering::SeqCst));
        assert_eq!(queue.pop(), 1);
        second.join().unwrap();
        assert!(completed.load(Ordering::SeqCst));
    })
    .unwrap();
    assert_eq!(queue.pop(), 2);
    assert_eq!(queue.pop(), 3);
}

#[test]
fn queue_keeps_order_between_two_threads() {
    let queue: Queue<u32> = Queue::new();
    let out = scope(|s| {
        let consumer = s.spawn(|_| {
            let mut out = Vec::new();
            for _ in 0..2000 {
                out.push(queue.pop());
            }
            out
        });
        for item in 0..2000 {
            queue.push(item);
        }
        consumer.join().unwrap()
    })
    .unwrap();
    let expected: Vec<u32> = (0..2000).collect();
    assert_eq!(out, expected);
}

#[test]
fn bounded_queue_keeps_order_between_two_threads() {
    let queue: BoundedQueue<u32> = BoundedQueue::new(1);
    let out = scope(|s| {
        let consumer = s.spawn(|_| {
            let mut out = Vec::new();
            for _ in 0..2000 {
                out.push(queue.pop());
            }
            out
        });
        for item in 0..2000 {
            queue.push(item);
        }
        consumer.join().unwrap()
    })
    .unwrap();
    let expected: Vec<u32> = (0..2000).collect();
    assert_eq!(out, expected);
}

#[test]
fn queue_loses_nothing_between_many_threads() {
    let producers = 4u32;
    let each = 500u32;
    let consumers = 2u32;
    let queue: Queue<u32> = Queue::new();
    let mut popped = scope(|s| {
        let mut takers = Vec::new();
        for _ in 0..consumers {
            let handle = queue.clone();
            takers.push(s.spawn(move |_| {
                let mut out = Vec::new();
                for _ in 0..(producers * each / consumers) {
                    out.push(handle.pop());
                }
                out
            }));
        }
        for p in 0..producers {
            let handle = queue.clone();
            s.spawn(move |_| {
                for k in 0..each {
                    handle.push(p * each + k);
                }
            });
        }
        let mut all = Vec::new();
        for taker in takers {
            all.extend(taker.join().unwrap());
        }
        all
    })
    .unwrap();
    popped.sort();
    let expected: Vec<u32> = (0..producers * each).collect();
    assert_eq!(popped, expected);
}

#[test]
fn bounded_queue_loses_nothing_between_many_threads() {
    let producers = 4u32;
    let each = 500u32;
    let consumers = 2u32;
    let queue: BoundedQueue<u32> = BoundedQueue::new(3);
    let mut popped = scope(|s| {
        let mut takers = Vec::new();
        for _ in 0..consumers {
            let handle = queue.clone();
            takers.push(s.spawn(move |_| {
                let mut out = Vec::new();
                for _ in 0..(producers * each / consumers) {
                    out.push(handle.pop());
                }
                out
            }));
        }
        for p in 0..producers {
            let handle = queue.clone();
            s.spawn(move |_| {
                for k in 0..each {
                    handle.push(p * each + k);
                }
            });
        }
        let mut all = Vec::new();
        for taker in takers {
            all.extend(taker.join().unwrap());
        }
        all
    })
    .unwrap();
    popped.sort();
    let expected: Vec<u32> = (0..producers * each).collect();
    assert_eq!(popped, expected);
}

#[test]
fn bounded_queue_keeps_each_producer_in_order() {
    let producers = 3usize;
    let each = 400usize;
    let queue: BoundedQueue<(usize, usize)> = BoundedQueue::new(2);
    let popped = scope(|s| {
        for p in 0..producers {
            let handle = queue.clone();
            s.spawn(move |_| {
                for k in 0..each {
                    handle.push((p, k));
                }
            });
        }
        let mut out = Vec::new();
        for _ in 0..producers * each {
            out.push(queue.pop());
        }
        out
    })
    .unwrap();
    let mut next = vec![0usize; producers];
    for (p, k) in popped {
        assert_eq!(k, next[p]);
        next[p] += 1;
    }
    assert_eq!(next, vec![each; producers]);
}

#[test]
fn bounded_queue_never_runs_ahead_of_its_capacity() {
    let capacity = 4usize;
    let total = 300usize;
    let queue: BoundedQueue<usize> = BoundedQueue::new(capacity);
    let pushed = AtomicUsize::new(0);
    scope(|s| {
        s.spawn(|_| {
            for item in 0..total {
                queue.push(item);
                pushed.fetch_add(1, Ordering::SeqCst);
            }
        });
        for taken in 0..total {
            if taken % 50 == 0 {
                pause(20);
            }
            assert!(pushed.load(Ordering::SeqCst) <= taken + capacity);
            assert_eq!(queue.pop(), taken);
        }
    })
    .unwrap();
    assert_eq!(pushed.load(Ordering::SeqCst), total);
}

#[test]
fn queue_clone_pushes_across_threads() {
    let queue: Queue<String> = Queue::new();
    let other = queue.clone();
    scope(|s| {
        s.spawn(move |_| {
            other.push(String::from("from the clone"));
        });
        assert_eq!(queue.pop(), "from the clone");
    })
    .unwrap();
}

#[test]
fn queue_clone_pops_across_threads() {
    let queue: Queue<String> = Queue::new();
    let other = queue.clone();
    scope(|s| {
        let taker = s.spawn(move |_| other.pop());
        pause(20);
        queue.push(String::from("from the first handle"));
        assert_eq!(taker.join().unwrap(), "from the first handle");
    })
    .unwrap();
}

#[test]
fn bounded_queue_clone_is_shared_across_threads() {
    let queue: BoundedQueue<u8> = BoundedQueue::new(1);
    let other = queue.clone();
    queue.push(1);
    scope(|s| {
        let giver = s.spawn(move |_| {
            other.push(2);
        });
        pause(20);
        assert_eq!(queue.pop(), 1);
        giver.join().unwrap();
        assert_eq!(queue.pop(), 2);
    })
    .unwrap();
}
