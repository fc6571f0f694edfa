use eden_client::pool::DispatchPool;

#[test]
fn bounded_concurrency_never_exceeds_capacity() {
    let mut pool = DispatchPool::new(2).unwrap();
    assert!(pool.try_acquire());
    assert!(pool.try_acquire());
    assert_eq!(pool.in_flight(), 2);
    // The third submission must wait: no slot, no silent drop.
    assert!(!pool.try_acquire());
    assert_eq!(pool.in_flight(), 2);
    pool.complete(true);
    assert_eq!(pool.in_flight(), 1);
    assert!(pool.try_acquire());
}

#[test]
fn failed_send_releases_its_slot_like_a_successful_one() {
    let mut pool = DispatchPool::new(1).unwrap();
    assert!(pool.try_acquire());
    pool.complete(false);
    assert_eq!(pool.in_flight(), 0);
    // The failure of the previous batch does not hold up the next one.
    assert!(pool.try_acquire());
    pool.complete(true);
    assert_eq!(pool.in_flight(), 0);
}

#[test]
fn zero_pool_size_is_a_configuration_error() {
    let err = DispatchPool::new(0).err().expect("pool size 0 must be rejected");
    assert!(err.description().contains("pool size"));
}

#[test]
fn capacity_is_fixed_at_construction() {
    let mut pool = DispatchPool::new(3).unwrap();
    assert_eq!(pool.capacity(), 3);
    assert!(pool.try_acquire());
    assert_eq!(pool.capacity(), 3);
}
