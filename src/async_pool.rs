//! The suspending front end: a caller that finds every slot taken leaves its
//! waker in a queue, and each release wakes at most one queued caller.
use crossbeam::queue::SegQueue;
use std::task::Waker;
use vstd::prelude::*;

use crate::lock::{GroupLockU64, SlotGuard};
use crate::slots::TABLE_BITS;

verus! {

#[verifier::external_type_specification]
#[verifier::external_body]
#[verifier::reject_recursive_types(T)]
pub struct ExSegQueue<T>(SegQueue<T>);

/// Relies on crossbeam's SegQueue::new, which makes an empty unbounded queue.
pub assume_specification<T>[ SegQueue::<T>::new ]() -> SegQueue<T>;

/// Relies on crossbeam's SegQueue::push, which appends a value; other threads
/// may push and pop at the same time.
pub assume_specification<T>[ SegQueue::<T>::push ](q: &SegQueue<T>, value: T);

/// Relies on crossbeam's SegQueue::pop, which removes a value if the queue
/// holds one; other threads may push and pop at the same time.
pub assume_specification<T>[ SegQueue::<T>::pop ](q: &SegQueue<T>) -> Option<T>;

#[verifier::external_type_specification]
#[verifier::external_body]
pub struct ExWaker(Waker);

/// Relies on std's Clone for Waker, which makes a handle that wakes the same task.
pub assume_specification[ <Waker as Clone>::clone ](w: &Waker) -> Waker;

/// Relies on std's Waker::wake, which schedules the task it belongs to.
pub assume_specification[ Waker::wake ](w: Waker);

/// Why a pool could not be built.
#[derive(Debug, PartialEq, Eq, Structural)]
pub enum PoolCreationError {
    /// More values were given than the table word has bits.
    TooManyValues,
}

/// A slot table together with the queue of the callers that wait for a slot.
pub struct AsyncSlotTable {
    table: GroupLockU64,
    wakers: SegQueue<Waker>,
}

impl AsyncSlotTable {
    /// The slot table.
    pub closed spec fn spec_table(&self) -> GroupLockU64 {
        self.table
    }

    /// The number of slots.
    pub open spec fn spec_capacity(&self) -> usize {
        self.spec_table().spec_capacity()
    }

    /// A table of `len` free slots with no waiting caller, or `TooManyValues`
    /// when `len` exceeds the width of the table word.
    pub fn create(len: usize) -> (r: Result<Self, PoolCreationError>)
        ensures
            r is Err <==> len > TABLE_BITS,
            r matches Err(e) ==> e == PoolCreationError::TooManyValues,
            r matches Ok(t) ==> t.spec_capacity() == len,
    {
        match GroupLockU64::create(len) {
            Some(table) => Ok(AsyncSlotTable { table, wakers: SegQueue::new() }),
            None => Err(PoolCreationError::TooManyValues),
        }
    }

    /// The number of slots.
    pub fn capacity(&self) -> (r: usize)
        ensures
            r == self.spec_capacity(),
    {
        self.table.capacity()
    }

    /// Claims a free slot without waiting.
    pub fn try_lock(&self) -> (r: Option<SlotGuard<'_>>)
        ensures
            r matches Some(g) ==> g.index() < self.spec_capacity() && g.table()
                == self.spec_table(),
    {
        self.table.try_lock()
    }

    /// One attempt of a suspended caller: claims a free slot, or, when none is
    /// free, queues a handle of `waker` so that a later release wakes the
    /// caller, which then tries again.
    pub fn poll_lock(&self, waker: &Waker) -> (r: Option<SlotGuard<'_>>)
        ensures
            r matches Some(g) ==> g.index() < self.spec_capacity() && g.table()
                == self.spec_table(),
    {
        match self.table.try_lock() {
            Some(slot) => Some(slot),
            None => {
                self.wakers.push(waker.clone());
                None
            },
        }
    }

    /// Releases a slot of this table, then wakes at most one waiting caller.
    pub fn release(&self, slot: SlotGuard<'_>)
        requires
            slot.table() == self.spec_table(),
    {
        slot.release();
        if let Some(next) = self.wakers.pop() {
            next.wake();
        }
    }
}

} // verus!
