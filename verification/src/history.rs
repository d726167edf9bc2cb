//! A queue over a run of completed operations.
//!
//! The lock of a queue lets one operation at a time reach the elements, so
//! whatever the threads do, the operations that complete form one sequence,
//! each applied to what the one before left. This file models that sequence
//! and proves what holds of a queue at the end of every such run.
//!
//! The model follows the contracts of [`crate::fifo::Fifo`] and
//! [`crate::bounded_fifo::BoundedFifo`]: a push that completes appends to
//! the view, a pop that completes returns the first element of the view and
//! drops it, and an operation that cannot complete at once leaves the view
//! as it is and waits.

use vstd::prelude::*;
use vstd::seq_lib::lemma_multiset_commutative;

verus! {

/// An operation on a queue that has completed.
pub enum Event<T> {
    /// A push of the given element.
    Push(T),
    /// A pop, which took out what was then the front element.
    Pop,
}

/// Whether `event` can complete at once on a queue that holds `queue` and has
/// the capacity `limit`, where `None` stands for no bound: a push needs room
/// and a pop needs an element. An operation that is not ready waits.
pub open spec fn ready<T>(limit: Option<nat>, queue: Seq<T>, event: Event<T>) -> bool {
    match event {
        Event::Push(_) => limit is Some ==> queue.len() < limit->0,
        Event::Pop => queue.len() > 0,
    }
}

/// What a queue that held `queue` holds once `event` has completed.
pub open spec fn after<T>(queue: Seq<T>, event: Event<T>) -> Seq<T> {
    match event {
        Event::Push(item) => queue.push(item),
        Event::Pop => queue.drop_first(),
    }
}

/// What a queue that held `queue` holds once the operations in `events` have
/// completed one after the other.
pub open spec fn replay<T>(queue: Seq<T>, events: Seq<Event<T>>) -> Seq<T>
    decreases events.len(),
{
    if events.len() == 0 {
        queue
    } else {
        after(replay(queue, events.drop_last()), events.last())
    }
}

/// Whether the operations in `events` can complete in this order on a queue
/// that holds `queue` and has the capacity `limit`: each one is ready when
/// its turn comes.
pub open spec fn feasible<T>(limit: Option<nat>, queue: Seq<T>, events: Seq<Event<T>>) -> bool
    decreases events.len(),
{
    events.len() == 0 || (feasible(limit, queue, events.drop_last()) && ready(
        limit,
        replay(queue, events.drop_last()),
        events.last(),
    ))
}

/// The elements that the pushes in `events` put in, in the order of the
/// pushes.
pub open spec fn pushed<T>(events: Seq<Event<T>>) -> Seq<T>
    decreases events.len(),
{
    if events.len() == 0 {
        Seq::empty()
    } else {
        match events.last() {
            Event::Push(item) => pushed(events.drop_last()).push(item),
            Event::Pop => pushed(events.drop_last()),
        }
    }
}

/// The elements that the pops in `events` took out of a queue that held
/// `queue` at the start, in the order of the pops.
pub open spec fn popped<T>(queue: Seq<T>, events: Seq<Event<T>>) -> Seq<T>
    decreases events.len(),
{
    if events.len() == 0 {
        Seq::empty()
    } else {
        match events.last() {
            Event::Push(_) => popped(queue, events.drop_last()),
            Event::Pop => popped(queue, events.drop_last()).push(
                replay(queue, events.drop_last()).first(),
            ),
        }
    }
}

/// One push for each element of `items`, in their order.
pub open spec fn pushes<T>(items: Seq<T>) -> Seq<Event<T>> {
    Seq::new(items.len(), |i: int| Event::Push(items[i]))
}

/// `count` pops.
pub open spec fn pops<T>(count: nat) -> Seq<Event<T>> {
    Seq::new(count, |i: int| Event::Pop)
}

/// Elements leave in the order in which they arrived, and none is lost or
/// made up: at the end of every run that can complete, what was popped,
/// followed by what the queue still holds, is what the queue held at the
/// start, followed by what was pushed.
pub proof fn lemma_order_kept<T>(limit: Option<nat>, queue: Seq<T>, events: Seq<Event<T>>)
    requires
        feasible(limit, queue, events),
    ensures
        popped(queue, events) + replay(queue, events) == queue + pushed(events),
    decreases events.len(),
{
    if events.len() == 0 {
        assert(Seq::<T>::empty() + queue =~= queue + Seq::<T>::empty());
    } else {
        let before = events.drop_last();
        lemma_order_kept(limit, queue, before);
        let out = popped(queue, before);
        let held = replay(queue, before);
        match events.last() {
            Event::Push(item) => {
                assert(out + held.push(item) =~= (out + held).push(item));
                assert(queue + pushed(before).push(item) =~= (queue + pushed(before)).push(item));
            },
            Event::Pop => {
                assert(out.push(held.first()) + held.drop_first() =~= out + held);
            },
        }
    }
}

/// Nothing is lost and nothing is duplicated, whatever the interleaving: at
/// the end of every run that can complete on a queue that was empty at the
/// start, the elements pushed are, as a multiset, the elements popped
/// together with the elements that the queue still holds. Once the queue has
/// been drained, the elements popped are exactly the elements pushed.
pub proof fn lemma_nothing_lost<T>(limit: Option<nat>, events: Seq<Event<T>>)
    requires
        feasible(limit, Seq::<T>::empty(), events),
    ensures
        pushed(events).to_multiset() == popped(Seq::<T>::empty(), events).to_multiset().add(
            replay(Seq::<T>::empty(), events).to_multiset(),
        ),
        replay(Seq::<T>::empty(), events).len() == 0 ==> popped(
            Seq::<T>::empty(),
            events,
        ).to_multiset() == pushed(events).to_multiset(),
{
    let start = Seq::<T>::empty();
    let out = popped(start, events);
    let held = replay(start, events);
    lemma_order_kept(limit, start, events);
    lemma_multiset_commutative(out, held);
    assert(start + pushed(events) =~= pushed(events));
    if held.len() == 0 {
        assert(out + held =~= out);
    }
}

/// A bounded queue stays within its capacity: if it holds no more than
/// `capacity` elements at the start, then it holds no more than `capacity`
/// elements after every part of a run that can complete.
pub proof fn lemma_within_capacity<T>(capacity: nat, queue: Seq<T>, events: Seq<Event<T>>)
    requires
        queue.len() <= capacity,
        feasible(Some(capacity), queue, events),
    ensures
        forall|n: int|
            0 <= n <= events.len() ==> (#[trigger] replay(queue, events.take(n))).len()
                <= capacity,
    decreases events.len(),
{
    assert forall|n: int| 0 <= n <= events.len() implies (#[trigger] replay(
        queue,
        events.take(n),
    )).len() <= capacity by {
        if n == events.len() {
            assert(events.take(n) =~= events);
            if events.len() > 0 {
                lemma_within_capacity(capacity, queue, events.drop_last());
                assert(events.drop_last().take(n - 1) =~= events.drop_last());
            }
        } else {
            lemma_within_capacity(capacity, queue, events.drop_last());
            assert(events.drop_last().take(n) =~= events.take(n));
        }
    }
}

/// A run that completes in two parts: the second part starts from what the
/// first part left.
pub proof fn lemma_replay_in_parts<T>(
    limit: Option<nat>,
    queue: Seq<T>,
    first: Seq<Event<T>>,
    second: Seq<Event<T>>,
)
    ensures
        replay(queue, first + second) == replay(replay(queue, first), second),
        popped(queue, first + second) == popped(queue, first) + popped(
            replay(queue, first),
            second,
        ),
        pushed(first + second) == pushed(first) + pushed(second),
        feasible(limit, queue, first + second) == (feasible(limit, queue, first) && feasible(
            limit,
            replay(queue, first),
            second,
        )),
    decreases second.len(),
{
    let whole = first + second;
    let middle = replay(queue, first);
    if second.len() == 0 {
        assert(whole =~= first);
        assert(popped(queue, first) + Seq::<T>::empty() =~= popped(queue, first));
        assert(pushed(first) + Seq::<T>::empty() =~= pushed(first));
    } else {
        let before = second.drop_last();
        lemma_replay_in_parts(limit, queue, first, before);
        assert(whole.drop_last() =~= first + before);
        assert(whole.last() == second.last());
        match second.last() {
            Event::Push(item) => {
                assert(pushed(first) + pushed(before).push(item) =~= (pushed(first) + pushed(
                    before,
                )).push(item));
            },
            Event::Pop => {
                let front = replay(middle, before).first();
                assert(popped(queue, first) + popped(middle, before).push(front) =~= (popped(
                    queue,
                    first,
                ) + popped(middle, before)).push(front));
            },
        }
    }
}

/// Pushes alone: on an empty queue with room for all of `items`, the pushes
/// complete without waiting, nothing is popped, and the queue then holds
/// `items` in the order of the pushes.
pub proof fn lemma_pushes_fill<T>(limit: Option<nat>, items: Seq<T>)
    requires
        limit is Some ==> items.len() <= limit->0,
    ensures
        feasible(limit, Seq::<T>::empty(), pushes(items)),
        replay(Seq::<T>::empty(), pushes(items)) == items,
        popped(Seq::<T>::empty(), pushes(items)) == Seq::<T>::empty(),
        pushed(pushes(items)) == items,
    decreases items.len(),
{
    if items.len() == 0 {
        assert(items =~= Seq::<T>::empty());
    } else {
        lemma_pushes_fill(limit, items.drop_last());
        assert(pushes(items).drop_last() =~= pushes(items.drop_last()));
        assert(pushes(items).last() == Event::Push(items.last()));
        assert(items.drop_last().push(items.last()) =~= items);
    }
}

/// Pops alone: on a queue that holds at least `count` elements, `count` pops
/// complete without waiting and take out the first `count` elements, front
/// first; the rest stays.
pub proof fn lemma_pops_drain<T>(limit: Option<nat>, queue: Seq<T>, count: nat)
    requires
        count <= queue.len(),
    ensures
        feasible(limit, queue, pops::<T>(count)),
        replay(queue, pops::<T>(count)) == queue.skip(count as int),
        popped(queue, pops::<T>(count)) == queue.take(count as int),
        pushed(pops::<T>(count)) == Seq::<T>::empty(),
    decreases count,
{
    if count == 0 {
        assert(queue.skip(0) =~= queue);
        assert(queue.take(0) =~= Seq::<T>::empty());
    } else {
        let fewer = (count - 1) as nat;
        lemma_pops_drain(limit, queue, fewer);
        assert(pops::<T>(count).drop_last() =~= pops::<T>(fewer));
        assert(pops::<T>(count).last() == Event::<T>::Pop);
        assert(queue.skip(fewer as int).drop_first() =~= queue.skip(count as int));
        assert(queue.take(fewer as int).push(queue.skip(fewer as int).first()) =~= queue.take(
            count as int,
        ));
    }
}

/// First in, first out: when the elements of `items` are pushed onto an
/// empty queue with no pop in between, and as many pops follow, then all of
/// it completes without waiting (given room for `items`, where the queue is
/// bounded), the pops deliver `items` in the order of the pushes, and the
/// queue is empty again.
pub proof fn lemma_first_in_first_out<T>(limit: Option<nat>, items: Seq<T>)
    requires
        limit is Some ==> items.len() <= limit->0,
    ensures
        feasible(limit, Seq::<T>::empty(), pushes(items) + pops::<T>(items.len())),
        popped(Seq::<T>::empty(), pushes(items) + pops::<T>(items.len())) == items,
        replay(Seq::<T>::empty(), pushes(items) + pops::<T>(items.len())) == Seq::<T>::empty(),
{
    let start = Seq::<T>::empty();
    lemma_pushes_fill(limit, items);
    lemma_pops_drain(limit, items, items.len());
    lemma_replay_in_parts(limit, start, pushes(items), pops::<T>(items.len()));
    assert(items.take(items.len() as int) =~= items);
    assert(items.skip(items.len() as int) =~= start);
    assert(start + items =~= items);
}

/// A full queue makes the next producer wait for a consumer: once as many
/// elements as the capacity allows have been pushed onto an empty queue with
/// no pop in between, a further push is not ready, and it is ready as soon
/// as one pop has completed.
pub proof fn lemma_full_until_pop<T>(capacity: nat, items: Seq<T>, next: T)
    requires
        capacity > 0,
        items.len() == capacity,
    ensures
        feasible(Some(capacity), Seq::<T>::empty(), pushes(items)),
        !ready(Some(capacity), replay(Seq::<T>::empty(), pushes(items)), Event::Push(next)),
        ready(Some(capacity), replay(Seq::<T>::empty(), pushes(items)), Event::<T>::Pop),
        ready(
            Some(capacity),
            after(replay(Seq::<T>::empty(), pushes(items)), Event::<T>::Pop),
            Event::Push(next),
        ),
{
    lemma_pushes_fill(Some(capacity), items);
}

} // verus!
