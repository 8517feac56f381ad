use mutex_pool::async_pool::{AsyncSlotTable, PoolCreationError as AsyncCreationError};
use mutex_pool::lock::GroupLockU64;
use mutex_pool::simple::{table_for, PoolCreationError};
use std::sync::atomic::{AtomicUsize, Ordering};
use std::sync::Arc;
use std::task::{Wake, Waker};

#[test]
fn create_rejects_more_than_sixty_four_slots() {
    assert!(GroupLockU64::create(65).is_none());
    assert_eq!(GroupLockU64::create(64).unwrap().capacity(), 64);
    assert_eq!(GroupLockU64::create(0).unwrap().capacity(), 0);
    assert_eq!(table_for(65).err(), Some(PoolCreationError::TooManyValues));
    assert_eq!(table_for(7).unwrap().capacity(), 7);
    assert_eq!(AsyncSlotTable::create(100).err(), Some(AsyncCreationError::TooManyValues));
    assert_eq!(AsyncSlotTable::create(2).unwrap().capacity(), 2);
}

#[test]
fn allocate_hands_out_lowest_slots_until_full() {
    let lock = GroupLockU64::create(3).unwrap();
    assert_eq!(lock.allocate(), Some(0));
    assert_eq!(lock.allocate(), Some(1));
    assert_eq!(lock.allocate(), Some(2));
    assert_eq!(lock.allocate(), None);
    lock.free(1);
    assert_eq!(lock.allocate(), Some(1));
    assert_eq!(lock.allocate(), None);
}

#[test]
fn empty_table_never_allocates() {
    let lock = GroupLockU64::create(0).unwrap();
    assert_eq!(lock.allocate(), None);
}

#[test]
fn full_width_table_allocates_all_sixty_four() {
    let lock = GroupLockU64::create(64).unwrap();
    for i in 0..64 {
        assert_eq!(lock.allocate(), Some(i));
    }
    assert_eq!(lock.allocate(), None);
    lock.free(63);
    assert_eq!(lock.allocate(), Some(63));
}

#[test]
fn guard_release_returns_the_slot() {
    let lock = GroupLockU64::create(1).unwrap();
    for _ in 0..5 {
        let g = lock.try_lock().unwrap();
        assert_eq!(g.index(), 0);
        assert!(lock.try_lock().is_none());
        g.release();
    }
    assert_eq!(lock.allocate(), Some(0));
}

#[test]
fn forgotten_guard_keeps_its_slot() {
    let lock = GroupLockU64::create(2).unwrap();
    let g = lock.try_lock().unwrap();
    assert_eq!(g.index(), 0);
    std::mem::forget(g);
    for _ in 0..10 {
        let h = lock.try_lock().unwrap();
        assert_eq!(h.index(), 1);
        h.release();
    }
    let h = lock.try_lock().unwrap();
    assert!(lock.try_lock().is_none());
    h.release();
}

struct CountWake(AtomicUsize);

impl Wake for CountWake {
    fn wake(self: Arc<Self>) {
        self.0.fetch_add(1, Ordering::SeqCst);
    }
}

#[test]
fn release_wakes_one_waiting_caller() {
    let table = AsyncSlotTable::create(1).unwrap();
    let count = Arc::new(CountWake(AtomicUsize::new(0)));
    let waker = Waker::from(count.clone());

    let held = table.poll_lock(&waker).unwrap();
    assert_eq!(held.index(), 0);
    assert!(table.poll_lock(&waker).is_none());
    assert!(table.poll_lock(&waker).is_none());
    assert_eq!(count.0.load(Ordering::SeqCst), 0);

    table.release(held);
    assert_eq!(count.0.load(Ordering::SeqCst), 1);

    let again = table.try_lock().unwrap();
    assert_eq!(again.index(), 0);
    table.release(again);
    assert_eq!(count.0.load(Ordering::SeqCst), 2);

    let last = table.try_lock().unwrap();
    table.release(last);
    assert_eq!(count.0.load(Ordering::SeqCst), 2);
}
