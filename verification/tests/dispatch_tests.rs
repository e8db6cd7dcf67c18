use blob_uploader::dispatch::SlotPool;

#[test]
fn pool_grants_up_to_the_limit_and_no_more() {
    let mut pool = SlotPool::new(2);
    assert_eq!(pool.limit_count(), 2);
    assert_eq!(pool.held_count(), 0);

    assert!(pool.try_acquire());
    assert!(pool.try_acquire());
    assert_eq!(pool.held_count(), 2);

    // The third concurrent entry is refused: the bound holds.
    assert!(!pool.try_acquire());
    assert_eq!(pool.held_count(), 2);

    pool.release();
    assert_eq!(pool.held_count(), 1);
    assert!(pool.try_acquire());
    assert!(!pool.try_acquire());
}

#[test]
fn held_slots_never_exceed_limit_under_any_schedule() {
    // Drive the pool through an arbitrary acquire/release schedule, as an
    // instrumented storage client would, counting concurrent entries.
    let mut pool = SlotPool::new(3);
    let schedule = [true, true, false, true, true, true, false, true, false, false, true];
    let mut peak: usize = 0;
    for &acquire in schedule.iter() {
        if acquire {
            pool.try_acquire();
        } else if pool.held_count() > 0 {
            pool.release();
        }
        if pool.held_count() > peak {
            peak = pool.held_count();
        }
        assert!(pool.held_count() <= pool.limit_count());
    }
    assert_eq!(peak, 3);
}

#[test]
fn zero_limit_pool_grants_nothing() {
    let mut pool = SlotPool::new(0);
    assert!(!pool.try_acquire());
    assert_eq!(pool.held_count(), 0);
}
