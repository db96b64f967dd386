use tagfetch::rate::TokenBucket;

#[test]
fn fresh_bucket_starts_full() {
    let b = TokenBucket::new(300);
    assert_eq!(b.capacity, 300);
    assert_eq!(b.tokens, 300);
}

#[test]
fn each_grant_costs_exactly_one_token() {
    let mut b = TokenBucket::new(300);
    assert!(b.try_acquire());
    assert_eq!(b.tokens, 299);
    assert!(b.try_acquire());
    assert_eq!(b.tokens, 298);
}

#[test]
fn no_more_grants_than_capacity_before_a_refill() {
    let mut b = TokenBucket::new(3);
    let mut granted = 0;
    for _ in 0..10 {
        if b.try_acquire() {
            granted += 1;
        }
    }
    assert_eq!(granted, 3);
    assert_eq!(b.tokens, 0);
}

#[test]
fn refill_restores_the_full_capacity() {
    let mut b = TokenBucket::new(2);
    assert!(b.try_acquire());
    assert!(b.try_acquire());
    assert!(!b.try_acquire());
    b.refill();
    assert_eq!(b.tokens, 2);
    assert!(b.try_acquire());
}
