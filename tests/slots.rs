use jlrs::slots::SlotPool;

#[test]
fn pool_of_one_slot() {
    let mut pool = SlotPool::new(1);
    assert_eq!(pool.size(), 1);
    assert!(pool.has_free());
    assert_eq!(pool.acquire(), Some(0));
    assert!(pool.is_busy(0));
    assert!(!pool.has_free());
    assert_eq!(pool.acquire(), None);
    pool.release(0);
    assert!(pool.all_free());
    assert_eq!(pool.acquire(), Some(0));
}

#[test]
fn slots_are_reused_in_the_order_they_were_freed() {
    let mut pool = SlotPool::new(3);
    assert_eq!(pool.acquire(), Some(0));
    assert_eq!(pool.acquire(), Some(1));
    assert_eq!(pool.acquire(), Some(2));
    assert_eq!(pool.acquire(), None);
    pool.release(1);
    pool.release(0);
    assert!(!pool.all_free());
    assert_eq!(pool.acquire(), Some(1));
    assert_eq!(pool.acquire(), Some(0));
}

#[test]
fn empty_pool_never_admits() {
    let mut pool = SlotPool::new(0);
    assert!(!pool.has_free());
    assert!(pool.all_free());
    assert_eq!(pool.acquire(), None);
}
