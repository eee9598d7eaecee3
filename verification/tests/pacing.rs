use rackhost::auth::NotAuthed;
use rackhost::base::RackhostClient;
use rackhost::builder::{MyRateLimiter, RackhostClientBuilder, DEFAULT_RATE_LIMIT};

#[test]
fn the_first_request_starts_at_once() {
    let mut limiter = MyRateLimiter::new(1000);
    assert_eq!(limiter.acquire_permit(5000), 0);
    assert_eq!(limiter.next_start(), 6000);
}

#[test]
fn a_request_that_comes_too_soon_waits_for_the_rest_of_the_interval() {
    let mut limiter = MyRateLimiter::new(1000);
    assert_eq!(limiter.acquire_permit(5000), 0);
    assert_eq!(limiter.acquire_permit(5300), 700);
    assert_eq!(limiter.next_start(), 7000);
}

#[test]
fn callers_that_ask_at_the_same_time_start_one_interval_apart() {
    let mut limiter = MyRateLimiter::new(1000);
    let starts: Vec<u64> = (0..4).map(|_| 100 + limiter.acquire_permit(100)).collect();
    assert_eq!(starts, vec![100, 1100, 2100, 3100]);
}

#[test]
fn a_request_that_comes_late_does_not_wait() {
    let mut limiter = MyRateLimiter::new(1000);
    assert_eq!(limiter.acquire_permit(0), 0);
    assert_eq!(limiter.acquire_permit(1000), 0);
    assert_eq!(limiter.acquire_permit(10_000), 0);
    assert_eq!(limiter.next_start(), 11_000);
}

#[test]
fn an_interval_of_nothing_delays_nothing() {
    let mut limiter = MyRateLimiter::new(0);
    assert_eq!(limiter.acquire_permit(7), 0);
    assert_eq!(limiter.acquire_permit(7), 0);
}

#[test]
fn the_end_of_the_clock_does_not_overflow() {
    let mut limiter = MyRateLimiter::new(1000);
    assert_eq!(limiter.acquire_permit(u64::MAX - 10), 0);
    assert_eq!(limiter.next_start(), u64::MAX);
    assert_eq!(limiter.acquire_permit(u64::MAX - 5), 5);
}

#[test]
fn the_builder_starts_with_one_second() {
    assert_eq!(DEFAULT_RATE_LIMIT, 1000);
    assert_eq!(RackhostClientBuilder::new().rate_limiter().rate_limit(), 1000);
    assert_eq!(RackhostClient::<NotAuthed>::builder().rate_limiter().rate_limit(), 1000);
}

#[test]
fn the_builder_hands_its_interval_to_the_session() {
    let (client, limiter) = RackhostClient::builder().rate_limit_from_duration(3000).build();
    assert!(!client.is_authenticated());
    assert_eq!(limiter.rate_limit(), 3000);
    assert_eq!(limiter.next_start(), 0);
}
