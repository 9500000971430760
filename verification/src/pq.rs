use vstd::prelude::*;
use vstd::multiset::Multiset;
use priority_queue::PriorityQueue;
use std::collections::hash_map::RandomState;

verus! {

// The slot allocator keeps the trains contending for one band in a
// `priority_queue::PriorityQueue`.  Items are identifiers that the caller
// keeps unique; priorities order the queue.  Verus sees the queue only
// through `queue_entries`, the multiset of (item, priority) pairs it holds.

#[verifier::external_type_specification]
#[verifier::external_body]
#[verifier::reject_recursive_types(I)]
#[verifier::reject_recursive_types(P)]
#[verifier::reject_recursive_types(H)]
pub struct ExPriorityQueue<I, P, H>(PriorityQueue<I, P, H>);

/// The multiset of (item, priority) pairs a queue holds.
pub uninterp spec fn queue_entries(q: &PriorityQueue<u64, i64, RandomState>) -> Multiset<
    (u64, i64),
>;

/// Relies on priority_queue::PriorityQueue::new: a fresh queue is empty.
#[verifier::external_body]
pub fn pq_new() -> (q: PriorityQueue<u64, i64, RandomState>)
    ensures
        queue_entries(&q) == Multiset::<(u64, i64)>::empty(),
{
    PriorityQueue::new()
}

/// Relies on priority_queue::PriorityQueue::push: an item not yet present is
/// inserted with the given priority.
#[verifier::external_body]
pub fn pq_push(q: &mut PriorityQueue<u64, i64, RandomState>, item: u64, priority: i64)
    requires
        forall|e: (u64, i64)| queue_entries(old(q)).count(e) > 0 ==> e.0 != item,
    ensures
        queue_entries(final(q)) == queue_entries(old(q)).insert((item, priority)),
{
    q.push(item, priority);
}

/// Relies on priority_queue::PriorityQueue::len: the number of stored pairs.
#[verifier::external_body]
pub fn pq_len(q: &PriorityQueue<u64, i64, RandomState>) -> (n: usize)
    ensures
        n == queue_entries(q).len(),
{
    q.len()
}

/// Relies on priority_queue::PriorityQueue::pop: removes and returns a pair
/// whose priority is greatest, or returns None on an empty queue.
#[verifier::external_body]
pub fn pq_pop(q: &mut PriorityQueue<u64, i64, RandomState>) -> (r: Option<(u64, i64)>)
    ensures
        queue_entries(old(q)).len() == 0 ==> r is None && queue_entries(final(q)) == queue_entries(
            old(q),
        ),
        queue_entries(old(q)).len() > 0 ==> match r {
            Some(pair) => queue_entries(old(q)).count(pair) > 0 && queue_entries(final(q))
                == queue_entries(old(q)).remove(pair) && (forall|e: (u64, i64)|
                queue_entries(old(q)).count(e) > 0 ==> e.1 <= pair.1),
            None => false,
        },
{
    q.pop()
}

} // verus!
