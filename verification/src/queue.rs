//! The shared event buffer: an ordered queue guarded by a reader-writer lock,
//! shared by reference between the handler that appends and the readers that
//! inspect or drain it. Append and removal are each atomic with respect to one
//! another; inspection takes shared read access. The verified lock cannot be
//! left corrupted by a holder that fails, so the fatal abort that a poisoned
//! lock would otherwise force can never be needed.

use std::collections::VecDeque;
use std::sync::Arc;
use vstd::prelude::*;

verus! {

use vstd::rwlock::{RwLock, RwLockPredicate};

/// The lock invariant for an event queue: every sequence of buffered events is
/// a legal queue state.
pub struct QueuePred {}

impl<T> RwLockPredicate<VecDeque<T>> for QueuePred {
    open spec fn inv(self, v: VecDeque<T>) -> bool {
        true
    }
}

/// An ordered, shared, mutable buffer of events: insertion order is emission
/// order. Cloning the queue yields a second handle to the same buffer.
pub struct EventQueue<T> {
    pub(crate) inner: Arc<RwLock<VecDeque<T>, QueuePred>>,
}

/// Relies on std's `Arc::clone`: the result is a second handle to the same
/// allocation, equal in value to the one cloned.
#[verifier::external_body]
fn share_arc<T>(a: &Arc<T>) -> (r: Arc<T>)
    ensures
        r == *a,
{
    Arc::clone(a)
}

impl<T> Clone for EventQueue<T> {
    fn clone(&self) -> (r: Self)
        ensures
            r == *self,
    {
        EventQueue { inner: share_arc(&self.inner) }
    }
}

impl<T> EventQueue<T> {
    /// An empty queue.
    pub fn new() -> Self {
        EventQueue { inner: Arc::new(RwLock::new(VecDeque::new(), Ghost(QueuePred {}))) }
    }

    /// Appends `value` at the tail, under exclusive access.
    pub fn push_back(&self, value: T) {
        let (mut events, handle) = self.inner.acquire_write();
        events.push_back(value);
        handle.release_write(events);
    }

    /// Removes and returns the front element, under exclusive access; empty
    /// when the queue holds nothing.
    pub fn pop_front(&self) -> Option<T> {
        let (mut events, handle) = self.inner.acquire_write();
        let front = events.pop_front();
        handle.release_write(events);
        front
    }

    /// Discards every buffered element, under exclusive access.
    pub fn clear(&self) {
        let (mut events, handle) = self.inner.acquire_write();
        events.clear();
        handle.release_write(events);
    }

    /// The number of buffered elements at the moment of inspection.
    pub fn len(&self) -> usize {
        let read_handle = self.inner.acquire_read();
        let n = read_handle.borrow().len();
        read_handle.release_read();
        n
    }
}

impl<T: Clone> EventQueue<T> {
    /// Copies of all buffered elements, front to back, without removing them.
    pub fn snapshot(&self) -> Vec<T> {
        let read_handle = self.inner.acquire_read();
        let events = read_handle.borrow();
        let mut out: Vec<T> = Vec::new();
        let n = events.len();
        let mut i: usize = 0;
        while i < n
            invariant
                n == events@.len(),
                i <= n,
            decreases n - i,
        {
            out.push(events[i].clone());
            i += 1;
        }
        read_handle.release_read();
        out
    }
}

} // verus!
