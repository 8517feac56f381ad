//! The shared slot table: one cache-padded atomic word whose set bits are
//! the taken slots, claimed with a compare-and-swap retry loop.
use crossbeam_utils::{Backoff, CachePadded};
use std::sync::atomic::{AtomicU64, Ordering};
use vstd::prelude::*;

use crate::slots::{claim, initial_table, TABLE_BITS};

verus! {

#[verifier::external_type_specification]
#[verifier::external_body]
#[verifier::reject_recursive_types(T)]
pub struct ExCachePadded<T>(CachePadded<T>);

/// Relies on crossbeam_utils::CachePadded::new, which wraps the value and
/// only changes its alignment.
pub assume_specification<T>[ CachePadded::<T>::new ](t: T) -> CachePadded<T>;

/// Relies on CachePadded's Deref, which hands out the wrapped value.
pub assume_specification<T>[ <CachePadded<T> as core::ops::Deref>::deref ](
    p: &CachePadded<T>,
) -> &T;

#[verifier::external_type_specification]
#[verifier::external_body]
pub struct ExBackoff(Backoff);

/// Relies on crossbeam_utils::Backoff::new, which starts a spin counter at zero.
pub assume_specification[ Backoff::new ]() -> Backoff;

/// Relies on crossbeam_utils::Backoff::spin, which busy-waits for a bounded,
/// growing number of iterations and returns.
pub assume_specification[ Backoff::spin ](b: &Backoff);

/// Hands out slot indices below a fixed capacity of at most 64. Bit `i` of the
/// table word is set while slot `i` is held; the bits at and above the capacity
/// are set from the start and are never claimed.
pub struct GroupLockU64 {
    table: CachePadded<AtomicU64>,
    capacity: usize,
}

impl GroupLockU64 {
    #[verifier::type_invariant]
    spec fn inv(&self) -> bool {
        self.capacity <= TABLE_BITS
    }

    /// The number of slots that this table hands out.
    pub closed spec fn spec_capacity(&self) -> usize {
        self.capacity
    }

    /// A table of `space` free slots, or `None` when `space` exceeds the
    /// width of the table word.
    pub fn create(space: usize) -> (r: Option<Self>)
        ensures
            r is None <==> space > TABLE_BITS,
            r matches Some(l) ==> l.spec_capacity() == space,
    {
        let table = match initial_table(space) {
            Some(t) => t,
            None => return None,
        };
        Some(GroupLockU64 { table: CachePadded::new(AtomicU64::new(table)), capacity: space })
    }

    /// The number of slots that this table hands out.
    #[verifier::when_used_as_spec(spec_capacity)]
    pub fn capacity(&self) -> (r: usize)
        ensures
            r == self.spec_capacity(),
            r <= TABLE_BITS,
    {
        proof {
            use_type_invariant(self);
        }
        self.capacity
    }

    /// Claims the lowest slot that the table word shows free and returns its
    /// index, or `None` once an observed word has every slot taken. A failed
    /// exchange means that another caller changed the word: the step is then
    /// taken again on the word that was seen. The attempts are counted so that
    /// the loop has a bound, which no real contention reaches.
    pub fn allocate(&self) -> (r: Option<usize>)
        ensures
            r matches Some(i) ==> i < self.spec_capacity(),
    {
        proof {
            use_type_invariant(self);
        }
        let backoff = Backoff::new();
        let atomic: &AtomicU64 = &self.table;
        let capacity = self.capacity;
        let mut prev = atomic.load(Ordering::Relaxed);
        let mut attempts: u64 = 0;
        while attempts < u64::MAX
            invariant
                capacity == self.capacity,
                capacity <= TABLE_BITS,
            decreases u64::MAX - attempts,
        {
            let (index, next) = match claim(prev, capacity) {
                Some(step) => step,
                None => return None,
            };
            match atomic.compare_exchange_weak(prev, next, Ordering::Acquire, Ordering::Relaxed) {
                Ok(_) => return Some(index),
                Err(seen) => {
                    prev = seen;
                    backoff.spin();
                },
            }
            attempts = attempts + 1;
        }
        None
    }

    /// Claims a free slot as `allocate` does and wraps it in a guard that
    /// can release it once.
    pub fn try_lock(&self) -> (r: Option<SlotGuard<'_>>)
        ensures
            r matches Some(g) ==> g.index() < self.spec_capacity() && g.table() == self,
    {
        let index = match self.allocate() {
            Some(i) => i,
            None => return None,
        };
        Some(SlotGuard { index, table: self })
    }

    /// Releases slot `index`. The caller must hold that slot, having claimed
    /// it with `allocate` and not released it since.
    pub fn free(&self, index: usize)
        requires
            index < self.spec_capacity(),
    {
        proof {
            use_type_invariant(self);
        }
        let atomic: &AtomicU64 = &self.table;
        let mask = !(1u64 << index);
        atomic.fetch_and(mask, Ordering::Release);
    }
}

/// Exclusive hold on one slot of a table, until `release` is called.
pub struct SlotGuard<'a> {
    index: usize,
    table: &'a GroupLockU64,
}

impl<'a> SlotGuard<'a> {
    #[verifier::type_invariant]
    spec fn inv(&self) -> bool {
        self.index < self.table.spec_capacity()
    }

    /// The index of the held slot.
    pub closed spec fn spec_index(&self) -> usize {
        self.index
    }

    /// The table that the slot belongs to.
    pub closed spec fn table(&self) -> &'a GroupLockU64 {
        self.table
    }

    /// The index of the held slot.
    #[verifier::when_used_as_spec(spec_index)]
    pub fn index(&self) -> (r: usize)
        ensures
            r == self.spec_index(),
            r < self.table().spec_capacity(),
    {
        proof {
            use_type_invariant(self);
        }
        self.index
    }

    /// Gives the slot back to its table. Taking the guard by value makes
    /// this the one release of the slot; a guard that is dropped or forgotten
    /// instead leaves the slot taken for good.
    pub fn release(self) {
        proof {
            use_type_invariant(&self);
        }
        self.table.free(self.index);
    }
}

} // verus!
