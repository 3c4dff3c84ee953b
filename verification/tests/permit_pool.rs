//! Tests of the permit pool's accounting: at no point are more permits out
//! than its capacity.

use pkg_check::permits::PermitPool;

#[test]
fn pool_hands_out_at_most_its_capacity() {
    let mut pool = PermitPool::new(3);
    assert!(pool.try_acquire());
    assert!(pool.try_acquire());
    assert!(pool.try_acquire());
    assert!(!pool.try_acquire());
    assert_eq!(pool.in_flight, 3);
    assert!(pool.in_flight <= pool.capacity);
}

#[test]
fn released_permits_become_free_again() {
    let mut pool = PermitPool::new(2);
    assert!(pool.try_acquire());
    assert!(pool.try_acquire());
    assert!(!pool.try_acquire());
    pool.release();
    assert_eq!(pool.in_flight, 1);
    assert!(pool.try_acquire());
    assert!(!pool.try_acquire());
}

#[test]
fn queued_probes_beyond_capacity_wait_their_turn() {
    // Twenty-five probes against a pool of capacity twenty: the first
    // twenty get a permit at once, the rest only as permits come back.
    let mut pool = PermitPool::new(20);
    let mut admitted = 0usize;
    for _ in 0..25 {
        if pool.try_acquire() {
            admitted += 1;
        }
    }
    assert_eq!(admitted, 20);
    assert_eq!(pool.in_flight, 20);
    pool.release();
    assert!(pool.try_acquire());
    assert!(pool.in_flight <= pool.capacity);
}

#[test]
fn a_zero_capacity_pool_admits_nobody() {
    let mut pool = PermitPool::new(0);
    assert!(!pool.try_acquire());
}
