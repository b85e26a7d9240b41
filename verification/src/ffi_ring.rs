//! A bounded lock-free ring of messages for handing encoded frames from the
//! feed to another thread or to Python, backed by crossbeam's `ArrayQueue`.
//!
//! The queue can be shared (`arc`) and is used through shared references
//! from several threads at once, so what it holds at any moment depends on
//! the other users: the contracts state what holds whatever they do.

use crossbeam_queue::ArrayQueue;
use std::sync::Arc;
use vstd::prelude::*;

verus! {

#[verifier::external_type_specification]
#[verifier::external_body]
#[verifier::reject_recursive_types(T)]
pub struct ExArrayQueue<T>(ArrayQueue<T>);

/// The number of messages a queue can hold, fixed when it is made
/// (crossbeam's `ArrayQueue::capacity`).
pub uninterp spec fn queue_capacity(q: ArrayQueue<Vec<u8>>) -> nat;

/// crossbeam's `ArrayQueue::new`: a queue holding at most `capacity`
/// messages. It panics for a zero capacity and for one whose successor has
/// no power of two within `usize`, which `requires` rules out. What the new
/// queue holds (nothing, until other handles use it) is not stated, since
/// its contents change behind shared references.
#[verifier::external_body]
fn array_queue_new(capacity: usize) -> (q: ArrayQueue<Vec<u8>>)
    requires
        0 < capacity <= isize::MAX,
    ensures
        queue_capacity(q) == capacity,
{
    ArrayQueue::new(capacity)
}

/// crossbeam's `ArrayQueue::push`: either takes the message or, when the
/// queue is full, hands the very same message back. Which of the two happens
/// depends on the queue's other users and is not stated.
#[verifier::external_body]
fn array_queue_push(q: &ArrayQueue<Vec<u8>>, msg: Vec<u8>) -> (r: Result<(), Vec<u8>>)
    ensures
        r matches Err(back) ==> back == msg,
{
    q.push(msg)
}

/// crossbeam's `ArrayQueue::pop`: the oldest message, or `None` when the
/// queue is empty. What comes out depends on the queue's other users and is
/// not stated.
#[verifier::external_body]
fn array_queue_pop(q: &ArrayQueue<Vec<u8>>) -> (r: Option<Vec<u8>>) {
    q.pop()
}

/// std's `Arc::clone`: another handle on the same queue.
#[verifier::external_body]
fn arc_share(a: &Arc<ArrayQueue<Vec<u8>>>) -> (r: Arc<ArrayQueue<Vec<u8>>>)
    ensures
        r == *a,
{
    Arc::clone(a)
}

/// A ring buffer of byte messages.
pub struct FfiRingBuffer {
    queue: Arc<ArrayQueue<Vec<u8>>>,
}

impl FfiRingBuffer {
    /// The queue behind the ring.
    pub closed spec fn shared_queue(self) -> Arc<ArrayQueue<Vec<u8>>> {
        self.queue
    }

    /// The number of messages the ring can hold.
    pub closed spec fn capacity(self) -> nat {
        queue_capacity(*self.queue)
    }

    /// A ring holding at most `capacity` messages.
    pub fn new(capacity: usize) -> (r: Self)
        requires
            0 < capacity <= isize::MAX,
        ensures
            r.capacity() == capacity,
    {
        FfiRingBuffer { queue: Arc::new(array_queue_new(capacity)) }
    }

    /// Offers a message; when the ring is full the message is handed back unchanged.
    pub fn push(&self, msg: Vec<u8>) -> (r: Result<(), Vec<u8>>)
        ensures
            r matches Err(back) ==> back@ == msg@,
    {
        array_queue_push(&self.queue, msg)
    }

    /// Takes the oldest message, if any.
    pub fn pop(&self) -> Option<Vec<u8>> {
        array_queue_pop(&self.queue)
    }

    /// Another handle on the ring's queue, for a consumer on another thread.
    pub fn arc(&self) -> (r: Arc<ArrayQueue<Vec<u8>>>)
        ensures
            r == self.shared_queue(),
    {
        arc_share(&self.queue)
    }
}

} // verus!
