use loom::thread;
use mutex_pool::lock::GroupLockU64;
use std::sync::Arc;

fn test_locks(entries: usize, threads: usize) {
    let expected = entries.min(threads);

    let lock = Arc::new(GroupLockU64::create(entries).unwrap());

    let handles: Vec<_> = (0..threads)
        .map(|_| {
            let lock = lock.clone();
            thread::spawn(move || {
                if let Some(_) = lock.allocate() {
                    return 1;
                } else {
                    return 0;
                }
            })
        })
        .collect();

    let loaded: usize = handles.into_iter().map(|x| x.join().unwrap()).sum();
    assert_eq!(expected, loaded);
}

#[test]
fn race_alloc_loom_loom_1_2() {
    loom::model(|| {
        test_locks(1, 2);
    });
}

#[test]
fn race_alloc_loom_loom_1_3() {
    loom::model(|| {
        test_locks(1, 3);
    });
}

#[test]
fn race_alloc_loom_loom_2_3() {
    loom::model(|| {
        test_locks(2, 3);
    });
}

#[test]
fn race_alloc_loom_loom_3_3() {
    loom::model(|| {
        test_locks(3, 3);
    });
}
